//! The user access review: who is in scope for a repository, and the lines
//! of the review's files.

use crate::codeowners::CodeownersFile;
use crate::fetch::FetchError;
use crate::index::{reversed, Index};
use crate::model::{Collaborator, CollaboratorView, Permissions, Team, TeamView};
use crate::paginate::views;
use crate::text::{concat5, contains_text, texts};
use vstd::prelude::*;
use vstd::string::*;

verus! {

/// The users and teams that are in scope for a repository.
#[derive(Debug)]
pub struct UarUsersAndTeams {
    pub collaborators: Vec<Collaborator>,
    pub teams: Vec<Team>,
}

/// The collaborators whose login is among the names (`wanted`), or is not
/// (`!wanted`), in their order.
pub open spec fn selected_users(
    users: Seq<CollaboratorView>,
    names: Seq<Seq<char>>,
    wanted: bool,
) -> Seq<CollaboratorView>
    decreases users.len(),
{
    if users.len() == 0 {
        Seq::empty()
    } else {
        let front = selected_users(users.drop_last(), names, wanted);
        if names.contains(users.last().login) == wanted {
            front.push(users.last())
        } else {
            front
        }
    }
}

/// The teams of the organization with the given slugs, in the order of the
/// slugs; a slug that the organization has not adds nothing.
pub open spec fn listed_teams(slugs: Seq<Seq<char>>, org_teams: Map<Seq<char>, Team>) -> Seq<
    TeamView,
>
    decreases slugs.len(),
{
    if slugs.len() == 0 {
        Seq::empty()
    } else {
        let front = listed_teams(slugs.drop_last(), org_teams);
        if org_teams.dom().contains(slugs.last()) {
            front.push(org_teams[slugs.last()]@)
        } else {
            front
        }
    }
}

/// Keeps the collaborators whose login is among the names, or is not.
fn select_users(users: Vec<Collaborator>, names: &Vec<String>, wanted: bool) -> (r: Vec<
    Collaborator,
>)
    ensures
        views(r@) == selected_users(views(users@), texts(names@), wanted),
{
    let ghost all = views(users@);
    let mut rest = reversed(users);
    let mut out: Vec<Collaborator> = Vec::new();
    let ghost mut done: int = 0;
    proof {
        assert(all.take(0) =~= Seq::<CollaboratorView>::empty());
        assert(views(out@) =~= Seq::<CollaboratorView>::empty());
    }
    while rest.len() > 0
        invariant
            0 <= done <= all.len(),
            rest@.len() + done == all.len(),
            forall|k: int|
                0 <= k < rest@.len() ==> (#[trigger] rest@[k])@ == all[all.len() - 1 - k],
            views(out@) == selected_users(all.take(done), texts(names@), wanted),
        decreases rest@.len(),
    {
        let x = rest.pop().unwrap();
        proof {
            let next = all.take(done + 1);
            assert(next.drop_last() =~= all.take(done));
            assert(next.last() == x@);
        }
        if contains_text(names, x.login.as_str()) == wanted {
            proof {
                assert(views(out@.push(x)) =~= views(out@).push(x@));
            }
            out.push(x);
        }
        proof {
            done = done + 1;
        }
    }
    proof {
        assert(all.take(all.len() as int) =~= all);
    }
    out
}

/// A copy of a team.
fn copy_team(team: &Team) -> (r: Team)
    ensures
        r@ == team@,
{
    Team { name: team.name.clone(), slug: team.slug.clone(), permissions: team.permissions }
}

/// The users and teams in scope for a repository with a CODEOWNERS file:
/// the collaborators and the teams of the organization that the file
/// mentions.
pub fn co_uar(
    users: Result<Vec<Collaborator>, FetchError>,
    co_file: &CodeownersFile,
    org_teams: &Index<Team>,
) -> (r: Result<UarUsersAndTeams, FetchError>)
    ensures
        match users {
            Ok(list) => r matches Ok(scope) && views(scope.collaborators@) == selected_users(
                views(list@),
                texts(co_file.users@),
                true,
            ) && views(scope.teams@) == listed_teams(texts(co_file.teams@), org_teams@),
            Err(e) => r matches Err(f) && f == e,
        },
{
    match users {
        Err(e) => Err(e),
        Ok(list) => {
            let collaborators = select_users(list, &co_file.users, true);
            let ghost slugs = texts(co_file.teams@);
            let mut teams: Vec<Team> = Vec::new();
            let mut i: usize = 0;
            proof {
                assert(slugs.take(0) =~= Seq::<Seq<char>>::empty());
                assert(views(teams@) =~= Seq::<TeamView>::empty());
            }
            while i < co_file.teams.len()
                invariant
                    i <= co_file.teams@.len(),
                    slugs == texts(co_file.teams@),
                    views(teams@) == listed_teams(slugs.take(i as int), org_teams@),
                decreases co_file.teams@.len() - i,
            {
                proof {
                    let next = slugs.take(i + 1);
                    assert(next.drop_last() =~= slugs.take(i as int));
                    assert(next.last() == co_file.teams@[i as int]@);
                }
                match org_teams.get(co_file.teams[i].as_str()) {
                    Some(team) => {
                        let copy = copy_team(team);
                        proof {
                            assert(views(teams@.push(copy)) =~= views(teams@).push(team@));
                        }
                        teams.push(copy);
                    },
                    None => {},
                }
                i += 1;
            }
            proof {
                assert(slugs.take(co_file.teams@.len() as int) =~= slugs);
            }
            Ok(UarUsersAndTeams { collaborators, teams })
        },
    }
}

/// The users and teams in scope for a repository without a CODEOWNERS
/// file: the collaborators that are no admins of the organization, and the
/// teams with access. The first failure stands where a listing failed.
pub fn traditional_uar(
    users: Result<Vec<Collaborator>, FetchError>,
    teams: Result<Vec<Team>, FetchError>,
    org_admins: &Vec<String>,
) -> (r: Result<UarUsersAndTeams, FetchError>)
    ensures
        match (users, teams) {
            (Ok(list), Ok(with_access)) => r matches Ok(scope) && views(scope.collaborators@)
                == selected_users(views(list@), texts(org_admins@), false) && scope.teams
                == with_access,
            (Err(e), _) => r matches Err(f) && f == e,
            (Ok(_), Err(e)) => r matches Err(f) && f == e,
        },
{
    match users {
        Err(e) => Err(e),
        Ok(list) => match teams {
            Err(e) => Err(e),
            Ok(with_access) => Ok(
                UarUsersAndTeams {
                    collaborators: select_users(list, org_admins, false),
                    teams: with_access,
                },
            ),
        },
    }
}

/// The access of a team as the review shows it: its strongest level, and
/// `Codeowner` for a team that is known from a CODEOWNERS file alone.
pub open spec fn access_text(permissions: Option<Permissions>) -> Seq<char> {
    match permissions {
        Some(p) => p.highest_label(),
        None => "Codeowner"@,
    }
}

/// The access of a team as the review shows it.
pub fn access_label(permissions: &Option<Permissions>) -> (r: String)
    ensures
        r@ == access_text(*permissions),
{
    match permissions {
        Some(p) => p.highest_perm(),
        None => "Codeowner".to_owned(),
    }
}

/// The header of the review file of repositories with a CODEOWNERS file.
pub fn codeowners_header() -> (r: &'static str)
    ensures
        r@ == "repository,login,user_or_team,email"@,
{
    "repository,login,user_or_team,email"
}

/// The header of the review file of repositories without a CODEOWNERS
/// file.
pub fn traditional_header() -> (r: &'static str)
    ensures
        r@ == "repository,login,user_or_team,email,permissions"@,
{
    "repository,login,user_or_team,email,permissions"
}

/// The line of a user or team in a review file.
pub open spec fn review_line(
    repo: Seq<char>,
    login: Seq<char>,
    is_user: bool,
    email: Seq<char>,
    permissions: Option<Seq<char>>,
) -> Seq<char> {
    let base = repo + ","@ + login + ","@ + (if is_user {
        "User"@
    } else {
        "Team"@
    }) + ","@ + email;
    match permissions {
        Some(p) => base + ","@ + p,
        None => base,
    }
}

/// The line of a user or team in a review file: the repository, the login
/// or slug, `User` or `Team`, the e-mail address, and the access where the
/// file has a column for it.
pub fn repo_audit_to_csv(
    repo: &str,
    login: &str,
    is_user: bool,
    email: &str,
    permissions: Option<&str>,
) -> (r: String)
    ensures
        r@ == review_line(repo@, login@, is_user, email@, crate::fetch::body_text(permissions)),
{
    let mut s = repo.to_owned();
    s.append(",");
    s.append(login);
    s.append(",");
    if is_user {
        s.append("User");
    } else {
        s.append("Team");
    }
    s.append(",");
    s.append(email);
    match permissions {
        Some(p) => {
            s.append(",");
            s.append(p);
        },
        None => {},
    }
    s
}

/// The line of a team's access to a repository.
pub fn team_access_to_csv(team: &str, repo: &str, permissions: &Option<Permissions>) -> (r: String)
    ensures
        r@ == team@ + ","@ + repo@ + ","@ + access_text(*permissions),
{
    concat5(team, ",", repo, ",", access_label(permissions).as_str())
}

/// The line of a member of a team.
pub fn team_members_to_csv(team: &str, user: &str, email: &str) -> (r: String)
    ensures
        r@ == team@ + ","@ + user@ + ","@ + email@,
{
    concat5(team, ",", user, ",", email)
}

} // verus!
