//! The teams of the organization.

use crate::fetch::{FetchError, Listing};
use crate::index::{index_by, keyed, Index};
use crate::json::Json;
use crate::model::{Bootstrap, Team};
use crate::text::{concat3, concat5};
use vstd::prelude::*;

verus! {

/// The path of the listing of the organization's teams.
pub open spec fn teams_path(org: Seq<char>) -> Seq<char> {
    "/orgs/"@ + org + "/teams"@
}

/// The path of the listing of a team's repositories.
pub open spec fn team_repos_path(org: Seq<char>, team: Seq<char>) -> Seq<char> {
    "/orgs/"@ + org + "/teams/"@ + team + "/repos"@
}

/// The path of the listing of a team's members.
pub open spec fn team_members_path(org: Seq<char>, team: Seq<char>) -> Seq<char> {
    "/orgs/"@ + org + "/teams/"@ + team + "/members"@
}

/// The listing of the organization's teams.
pub fn get_org_teams(bootstrap: &Bootstrap) -> (r: Listing)
    ensures
        r.path@ == teams_path(bootstrap.org@),
        r.page_size == 25,
        r.retries == 3,
        r.params is None,
{
    Listing {
        path: concat3("/orgs/", bootstrap.org.as_str(), "/teams"),
        page_size: 25,
        retries: 3,
        params: None,
    }
}

/// The teams of the organization, filed by slug.
pub fn get_indexed_org_teams(teams: Vec<Team>) -> (r: Index<Team>)
    ensures
        r@ == keyed(teams@),
{
    index_by(teams)
}

/// The listing of the repositories that a team has access to.
pub fn get_team_repos(bootstrap: &Bootstrap, team: &str) -> (r: Listing)
    ensures
        r.path@ == team_repos_path(bootstrap.org@, team@),
        r.page_size == 25,
        r.retries == 3,
        r.params is None,
{
    Listing {
        path: concat5("/orgs/", bootstrap.org.as_str(), "/teams/", team, "/repos"),
        page_size: 25,
        retries: 3,
        params: None,
    }
}

/// What a reply to the request for a team's members says of the team being
/// empty.
pub open spec fn emptiness(reply: Result<Json, FetchError>) -> Result<bool, FetchError> {
    match reply {
        Err(e) => Err(e),
        Ok(doc) => match doc.items() {
            Some(items) => Ok(items.len() == 0),
            None => Err(FetchError::Malformed),
        },
    }
}

impl Team {
    /// The path of the request for the team's members.
    pub fn members_path(&self, bootstrap: &Bootstrap) -> (r: String)
        ensures
            r@ == team_members_path(bootstrap.org@, self.slug@),
    {
        concat5("/orgs/", bootstrap.org.as_str(), "/teams/", self.slug.as_str(), "/members")
    }

    /// The listing of the team's members.
    pub fn fetch_team_members(&self, bootstrap: &Bootstrap) -> (r: Listing)
        ensures
            r.path@ == team_members_path(bootstrap.org@, self.slug@),
            r.page_size == 25,
            r.retries == 3,
            r.params is None,
    {
        Listing { path: self.members_path(bootstrap), page_size: 25, retries: 3, params: None }
    }

    /// Whether a team has no members, going by the first page of its
    /// members: an array says so, anything else is malformed.
    pub fn is_empty(reply: &Result<Json, FetchError>) -> (r: Result<bool, FetchError>)
        ensures
            r == emptiness(*reply),
    {
        match reply {
            Err(e) => Err(*e),
            Ok(doc) => match doc.as_array() {
                Some(items) => Ok(items.len() == 0),
                None => Err(FetchError::Malformed),
            },
        }
    }
}

} // verus!
