//! The members of the organization and the audit of repository admins.

use crate::fetch::Listing;
use crate::index::{index_by, keyed, Index};
use crate::model::{Bootstrap, Collaborator, Member, Team};
use crate::text::{concat3, texts};
use vstd::prelude::*;

verus! {

/// The path of the listing of the organization's members.
pub open spec fn members_path(org: Seq<char>) -> Seq<char> {
    "/orgs/"@ + org + "/members"@
}

/// The listing of the organization's members.
pub fn get_org_members(bootstrap: &Bootstrap) -> (r: Listing)
    ensures
        r.path@ == members_path(bootstrap.org@),
        r.page_size == 100,
        r.retries == 3,
        r.params is None,
{
    Listing {
        path: concat3("/orgs/", bootstrap.org.as_str(), "/members"),
        page_size: 100,
        retries: 3,
        params: None,
    }
}

/// The members of the organization, filed by login.
pub fn get_indexed_org_members(members: Vec<Member>) -> (r: Index<Member>)
    ensures
        r@ == keyed(members@),
{
    index_by(members)
}

/// The listing of all members of the organization.
pub fn run_total_member_audit(bootstrap: &Bootstrap) -> (r: Listing)
    ensures
        r.path@ == members_path(bootstrap.org@),
        r.page_size == 100,
        r.retries == 3,
        r.params is None,
{
    get_org_members(bootstrap)
}

/// The listing of the organization's admins, in pages of `page_size`.
fn admins_listing(bootstrap: &Bootstrap, page_size: u8) -> (r: Listing)
    ensures
        r.path@ == members_path(bootstrap.org@),
        r.page_size == page_size,
        r.retries == 3,
        r.params is Some,
        r.params->0@ == "role=admin"@,
{
    Listing {
        path: concat3("/orgs/", bootstrap.org.as_str(), "/members"),
        page_size,
        retries: 3,
        params: Some("role=admin".to_owned()),
    }
}

/// The listing of the organization's admins.
pub fn run_organization_admin_audit(bootstrap: &Bootstrap) -> (r: Listing)
    ensures
        r.path@ == members_path(bootstrap.org@),
        r.page_size == 75,
        r.retries == 3,
        r.params is Some,
        r.params->0@ == "role=admin"@,
{
    admins_listing(bootstrap, 75)
}

/// The listing of the organization's admins that the audit of repository
/// admins files by login.
pub fn get_org_admins(bootstrap: &Bootstrap) -> (r: Listing)
    ensures
        r.path@ == members_path(bootstrap.org@),
        r.page_size == 100,
        r.retries == 3,
        r.params is Some,
        r.params->0@ == "role=admin"@,
{
    admins_listing(bootstrap, 100)
}

/// Whether a team gives admin access to the repository on whose listing it
/// stands.
pub open spec fn is_admin_team(team: Team) -> bool {
    team.permissions is Some && team.permissions->0.admin
}

/// The slugs of the teams that give admin access, in the order of the
/// listing.
pub open spec fn admin_slugs(teams: Seq<Team>) -> Seq<Seq<char>>
    decreases teams.len(),
{
    if teams.len() == 0 {
        Seq::empty()
    } else {
        let front = admin_slugs(teams.drop_last());
        if is_admin_team(teams.last()) {
            front.push(teams.last().slug@)
        } else {
            front
        }
    }
}

/// The slugs of the teams that give admin access to a repository.
pub fn repo_admin_teams(teams: &Vec<Team>) -> (r: Vec<String>)
    ensures
        texts(r@) == admin_slugs(teams@),
{
    let mut out: Vec<String> = Vec::new();
    let mut i: usize = 0;
    proof {
        assert(teams@.take(0) =~= Seq::<Team>::empty());
        assert(texts(out@) =~= Seq::<Seq<char>>::empty());
    }
    while i < teams.len()
        invariant
            i <= teams@.len(),
            texts(out@) == admin_slugs(teams@.take(i as int)),
        decreases teams@.len() - i,
    {
        proof {
            let next = teams@.take(i + 1);
            assert(next.drop_last() =~= teams@.take(i as int));
            assert(next.last() == teams@[i as int]);
        }
        let admin = match teams[i].permissions {
            Some(p) => p.admin,
            None => false,
        };
        if admin {
            let slug = teams[i].slug.clone();
            proof {
                assert(texts(out@.push(slug)) =~= texts(out@).push(teams@[i as int].slug@));
            }
            out.push(slug);
        }
        i += 1;
    }
    proof {
        assert(teams@.take(teams@.len() as int) =~= teams@);
    }
    out
}

/// Whether `login` is a member of the team `slug`, going by the members
/// that were fetched for the teams.
pub open spec fn in_team(
    team_members: Map<Seq<char>, Index<Member>>,
    slug: Seq<char>,
    login: Seq<char>,
) -> bool {
    team_members.dom().contains(slug) && team_members[slug]@.dom().contains(login)
}

/// Whether `login` is a member of one of the teams.
pub open spec fn in_one_of(
    team_members: Map<Seq<char>, Index<Member>>,
    slugs: Seq<Seq<char>>,
    login: Seq<char>,
) -> bool {
    exists|i: int| 0 <= i < slugs.len() && in_team(team_members, #[trigger] slugs[i], login)
}

/// Whether a collaborator is an admin of a repository whom neither the
/// organization nor a team accounts for.
pub open spec fn unexplained_admin(
    collaborator: Collaborator,
    org_admins: Map<Seq<char>, Member>,
    admin_teams: Seq<Seq<char>>,
    team_members: Map<Seq<char>, Index<Member>>,
) -> bool {
    &&& collaborator.permissions.admin
    &&& !org_admins.dom().contains(collaborator.login@)
    &&& !in_one_of(team_members, admin_teams, collaborator.login@)
}

/// Whether the audit reports a collaborator: an admin of the repository who
/// is no admin of the organization and no member of a team that gives admin
/// access to the repository.
pub fn run_admin_audit(
    collaborator: &Collaborator,
    org_admins: &Index<Member>,
    admin_teams: &Vec<String>,
    team_members: &Index<Index<Member>>,
) -> (r: bool)
    ensures
        r == unexplained_admin(*collaborator, org_admins@, texts(admin_teams@), team_members@),
{
    if !collaborator.permissions.admin {
        return false;
    }
    let login = collaborator.login.as_str();
    if org_admins.contains_key(login) {
        return false;
    }
    let mut i: usize = 0;
    while i < admin_teams.len()
        invariant
            i <= admin_teams@.len(),
            login@ == collaborator.login@,
            forall|k: int|
                0 <= k < i ==> !in_team(team_members@, #[trigger] texts(admin_teams@)[k], login@),
        decreases admin_teams@.len() - i,
    {
        let member = match team_members.get(admin_teams[i].as_str()) {
            Some(members) => members.contains_key(login),
            None => false,
        };
        assert(texts(admin_teams@)[i as int] == admin_teams@[i as int]@);
        if member {
            return false;
        }
        i += 1;
    }
    true
}

} // verus!
