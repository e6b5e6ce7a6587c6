//! The audit of outside collaborators: who has which access to which
//! repository, and which approvals of an earlier run still stand.

use crate::fetch::Listing;
use crate::json::{field_string, Json};
use crate::model::{option_text, referred, Bootstrap, GitHubIndex, Record};
use crate::text::{concat3, str_eq};
use vstd::prelude::*;

verus! {

/// A collaborator from outside the organization.
#[derive(Debug)]
pub struct OutsideCollaborator {
    pub login: String,
}

/// What tells two outside collaborators apart.
pub ghost struct OutsideCollaboratorView {
    pub login: Seq<char>,
}

impl View for OutsideCollaborator {
    type V = OutsideCollaboratorView;

    open spec fn view(&self) -> OutsideCollaboratorView {
        OutsideCollaboratorView { login: self.login@ }
    }
}

impl Record for OutsideCollaborator {
    open spec fn decoded(doc: Json) -> Option<OutsideCollaboratorView> {
        match doc.field_text("login"@) {
            Some(login) => Some(OutsideCollaboratorView { login }),
            None => None,
        }
    }

    fn decode(doc: &Json) -> (r: Option<Self>) {
        match field_string(doc, "login") {
            Some(login) => Some(OutsideCollaborator { login }),
            None => None,
        }
    }

    fn equals(&self, other: &Self) -> (r: bool) {
        str_eq(self.login.as_str(), other.login.as_str())
    }
}

impl GitHubIndex for OutsideCollaborator {
    open spec fn index_text(&self) -> Seq<char> {
        self.login@
    }

    fn index(&self) -> (r: String) {
        self.login.clone()
    }
}

/// The path of the listing of the organization's outside collaborators.
pub open spec fn outside_collaborators_path(org: Seq<char>) -> Seq<char> {
    "/orgs/"@ + org + "/outside_collaborators"@
}

/// The listing of the organization's outside collaborators.
pub fn get_outside_collaborators(bootstrap: &Bootstrap) -> (r: Listing)
    ensures
        r.path@ == outside_collaborators_path(bootstrap.org@),
        r.page_size == 100,
        r.retries == 3,
        r.params is None,
{
    Listing {
        path: concat3("/orgs/", bootstrap.org.as_str(), "/outside_collaborators"),
        page_size: 100,
        retries: 3,
        params: None,
    }
}

/// The access of an outside collaborator to a repository, with the
/// approvals that it has.
#[derive(Debug)]
pub struct ExternalCollaboratorPermission {
    pub login: String,
    pub repository: String,
    pub access: String,
    pub status: Option<String>,
    pub ticket: Option<String>,
    pub proposal: Option<String>,
}

/// An `ExternalCollaboratorPermission` as contracts see it.
pub ghost struct PermissionView {
    pub login: Seq<char>,
    pub repository: Seq<char>,
    pub access: Seq<char>,
    pub status: Option<Seq<char>>,
    pub ticket: Option<Seq<char>>,
    pub proposal: Option<Seq<char>>,
}

impl View for ExternalCollaboratorPermission {
    type V = PermissionView;

    open spec fn view(&self) -> PermissionView {
        PermissionView {
            login: self.login@,
            repository: self.repository@,
            access: self.access@,
            status: option_text(self.status),
            ticket: option_text(self.ticket),
            proposal: option_text(self.proposal),
        }
    }
}

/// An access without approvals.
pub open spec fn fresh_permission(
    login: Seq<char>,
    repository: Seq<char>,
    access: Seq<char>,
) -> PermissionView {
    PermissionView { login, repository, access, status: None, ticket: None, proposal: None }
}

/// A copy of an optional string.
fn copy_option(s: &Option<String>) -> (r: Option<String>)
    ensures
        option_text(r) == option_text(*s),
{
    match s {
        Some(t) => Some(t.clone()),
        None => None,
    }
}

impl ExternalCollaboratorPermission {
    /// An access without approvals.
    pub fn new(login: String, repository: String, access: String) -> (r: Self)
        ensures
            r@ == fresh_permission(login@, repository@, access@),
    {
        ExternalCollaboratorPermission {
            login,
            repository,
            access,
            status: None,
            ticket: None,
            proposal: None,
        }
    }

    /// A copy of the access with its approvals.
    pub fn duplicate(&self) -> (r: Self)
        ensures
            r@ == self@,
    {
        ExternalCollaboratorPermission {
            login: self.login.clone(),
            repository: self.repository.clone(),
            access: self.access.clone(),
            status: copy_option(&self.status),
            ticket: copy_option(&self.ticket),
            proposal: copy_option(&self.proposal),
        }
    }
}

/// The access that an earlier run recorded for a collaborator on a
/// repository: the last such entry, `None` where there is none.
pub open spec fn previous_entry(
    previous: Seq<ExternalCollaboratorPermission>,
    login: Seq<char>,
    repository: Seq<char>,
) -> Option<ExternalCollaboratorPermission>
    decreases previous.len(),
{
    if previous.len() == 0 {
        None
    } else if previous.last().login@ == login && previous.last().repository@ == repository {
        Some(previous.last())
    } else {
        previous_entry(previous.drop_last(), login, repository)
    }
}

/// Looks up what an earlier run recorded for a collaborator on a repository.
pub fn find_previous<'a>(
    previous: &'a Vec<ExternalCollaboratorPermission>,
    login: &str,
    repository: &str,
) -> (r: Option<&'a ExternalCollaboratorPermission>)
    ensures
        r is Some <==> previous_entry(previous@, login@, repository@) is Some,
        r matches Some(p) ==> previous_entry(previous@, login@, repository@) == Some(*p),
{
    let mut i: usize = previous.len();
    proof {
        assert(previous@.take(i as int) =~= previous@);
    }
    while i > 0
        invariant
            i <= previous@.len(),
            previous_entry(previous@, login@, repository@) == previous_entry(
                previous@.take(i as int),
                login@,
                repository@,
            ),
        decreases i,
    {
        proof {
            let front = previous@.take(i as int);
            assert(front.drop_last() =~= previous@.take(i - 1));
            assert(front.last() == previous@[i - 1]);
        }
        i -= 1;
        if str_eq(previous[i].login.as_str(), login) && str_eq(
            previous[i].repository.as_str(),
            repository,
        ) {
            return Some(&previous[i]);
        }
    }
    None
}

/// The access to record for a collaborator on a repository: what the
/// earlier run recorded, with its approvals, where the access is the same;
/// the new access without approvals where it changed or was not recorded.
pub open spec fn reconciled(
    previous: Option<ExternalCollaboratorPermission>,
    login: Seq<char>,
    repository: Seq<char>,
    access: Seq<char>,
) -> PermissionView {
    match previous {
        Some(p) => if p.access@ == access {
            p@
        } else {
            fresh_permission(login, repository, access)
        },
        None => fresh_permission(login, repository, access),
    }
}

/// Whether the access changed since the earlier run, so that its approvals
/// are cleared.
pub open spec fn access_changed(
    previous: Option<ExternalCollaboratorPermission>,
    access: Seq<char>,
) -> bool {
    previous is Some && previous->0.access@ != access
}

/// The access to record for an outside collaborator on a repository, and
/// whether approvals of the earlier run were cleared for it.
pub fn run_audit(
    previous: Option<&ExternalCollaboratorPermission>,
    login: &str,
    repository: &str,
    access: String,
) -> (r: (ExternalCollaboratorPermission, bool))
    ensures
        r.0@ == reconciled(referred(previous), login@, repository@, access@),
        r.1 == access_changed(referred(previous), access@),
{
    match previous {
        Some(p) => {
            if str_eq(p.access.as_str(), access.as_str()) {
                (p.duplicate(), false)
            } else {
                (
                    ExternalCollaboratorPermission::new(
                        login.to_owned(),
                        repository.to_owned(),
                        access,
                    ),
                    true,
                )
            }
        },
        None => (
            ExternalCollaboratorPermission::new(login.to_owned(), repository.to_owned(), access),
            false,
        ),
    }
}

} // verus!
