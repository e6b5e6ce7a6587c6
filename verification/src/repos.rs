//! The repositories of the organization: their listings and the counts of
//! the repository audit.

use crate::fetch::Listing;
use crate::model::{option_text, Bootstrap, Repository};
use crate::text::{concat3, concat5, texts};
use vstd::prelude::*;

verus! {

/// The path of the listing of the organization's repositories.
pub open spec fn repos_path(org: Seq<char>) -> Seq<char> {
    "/orgs/"@ + org + "/repos"@
}

/// The path of the listing of a repository's collaborators.
pub open spec fn collaborators_path(org: Seq<char>, repo: Seq<char>) -> Seq<char> {
    "/repos/"@ + org + "/"@ + repo + "/collaborators"@
}

/// The path of the listing of the teams with access to a repository.
pub open spec fn repo_teams_path(org: Seq<char>, repo: Seq<char>) -> Seq<char> {
    "/repos/"@ + org + "/"@ + repo + "/teams"@
}

impl Bootstrap {
    /// The listing of the organization's repositories, in pages of
    /// `page_size`.
    pub fn fetch_all_repositories(&self, page_size: u8) -> (r: Listing)
        ensures
            r.path@ == repos_path(self.org@),
            r.page_size == page_size,
            r.retries == 3,
            r.params is None,
    {
        Listing {
            path: concat3("/orgs/", self.org.as_str(), "/repos"),
            page_size,
            retries: 3,
            params: None,
        }
    }
}

/// The listing of the collaborators of a repository.
pub fn get_repo_collaborators(bootstrap: &Bootstrap, repo: &str) -> (r: Listing)
    ensures
        r.path@ == collaborators_path(bootstrap.org@, repo@),
        r.page_size == 25,
        r.retries == 3,
        r.params is None,
{
    Listing {
        path: concat5("/repos/", bootstrap.org.as_str(), "/", repo, "/collaborators"),
        page_size: 25,
        retries: 3,
        params: None,
    }
}

/// The listing of the teams with access to a repository.
pub fn get_repo_teams(bootstrap: &Bootstrap, repo: &str) -> (r: Listing)
    ensures
        r.path@ == repo_teams_path(bootstrap.org@, repo@),
        r.page_size == 25,
        r.retries == 3,
        r.params is None,
{
    Listing {
        path: concat5("/repos/", bootstrap.org.as_str(), "/", repo, "/teams"),
        page_size: 25,
        retries: 3,
        params: None,
    }
}

/// Whether one of the repositories is private.
pub fn any_private(repos: &Vec<Repository>) -> (r: bool)
    ensures
        r == exists|i: int| 0 <= i < repos@.len() && (#[trigger] repos@[i]).private,
{
    let mut i: usize = 0;
    while i < repos.len()
        invariant
            i <= repos@.len(),
            forall|k: int| 0 <= k < i ==> !(#[trigger] repos@[k]).private,
        decreases repos@.len() - i,
    {
        if repos[i].private {
            return true;
        }
        i += 1;
    }
    false
}

/// Whether a repository has the visibility and, where only archived ones
/// are asked for, is archived.
pub open spec fn counted(repo: Repository, visibility: Seq<char>, archived_only: bool) -> bool {
    option_text(repo.visibility) == Some(visibility) && (!archived_only || repo.archived)
}

/// How many of the repositories are counted.
pub open spec fn count_of(repos: Seq<Repository>, visibility: Seq<char>, archived_only: bool) -> nat
    decreases repos.len(),
{
    if repos.len() == 0 {
        0
    } else {
        count_of(repos.drop_last(), visibility, archived_only) + if counted(
            repos.last(),
            visibility,
            archived_only,
        ) {
            1nat
        } else {
            0nat
        }
    }
}

/// How many repositories have a visibility; with `archived_only`, how many
/// of them are archived.
pub fn count_repos(repos: &Vec<Repository>, visibility: &str, archived_only: bool) -> (r: usize)
    ensures
        r == count_of(repos@, visibility@, archived_only),
        r <= repos@.len(),
{
    let mut n: usize = 0;
    let mut i: usize = 0;
    proof {
        assert(repos@.take(0) =~= Seq::<Repository>::empty());
    }
    while i < repos.len()
        invariant
            i <= repos@.len(),
            n <= i,
            n == count_of(repos@.take(i as int), visibility@, archived_only),
        decreases repos@.len() - i,
    {
        proof {
            let next = repos@.take(i + 1);
            assert(next.drop_last() =~= repos@.take(i as int));
            assert(next.last() == repos@[i as int]);
        }
        if repos[i].has_visibility(visibility) && (!archived_only || repos[i].archived) {
            n += 1;
        }
        i += 1;
    }
    proof {
        assert(repos@.take(repos@.len() as int) =~= repos@);
    }
    n
}

/// Whether a repository is live, has the visibility, and has the security
/// feature switched on (`enabled`) or not.
pub open spec fn live_with(
    repo: Repository,
    visibility: Seq<char>,
    property: Seq<char>,
    enabled: bool,
) -> bool {
    &&& option_text(repo.visibility) == Some(visibility)
    &&& !repo.archived
    &&& repo.security_property_enabled(property) == enabled
}

/// How many of the repositories are live with the feature on.
pub open spec fn enabled_count(repos: Seq<Repository>, visibility: Seq<char>, property: Seq<char>) -> nat
    decreases repos.len(),
{
    if repos.len() == 0 {
        0
    } else {
        enabled_count(repos.drop_last(), visibility, property) + if live_with(
            repos.last(),
            visibility,
            property,
            true,
        ) {
            1nat
        } else {
            0nat
        }
    }
}

/// The names of the repositories that are live with the feature off, in the
/// order of the listing.
pub open spec fn not_enabled_names(
    repos: Seq<Repository>,
    visibility: Seq<char>,
    property: Seq<char>,
) -> Seq<Seq<char>>
    decreases repos.len(),
{
    if repos.len() == 0 {
        Seq::empty()
    } else {
        let front = not_enabled_names(repos.drop_last(), visibility, property);
        if live_with(repos.last(), visibility, property, false) {
            front.push(repos.last().name@)
        } else {
            front
        }
    }
}

/// How many repositories of a visibility that are not archived have a
/// security feature switched on.
pub fn count_repos_security_property_enabled(
    repos: &Vec<Repository>,
    visibility: &str,
    property: &str,
) -> (r: usize)
    ensures
        r == enabled_count(repos@, visibility@, property@),
{
    let mut n: usize = 0;
    let mut i: usize = 0;
    proof {
        assert(repos@.take(0) =~= Seq::<Repository>::empty());
    }
    while i < repos.len()
        invariant
            i <= repos@.len(),
            n <= i,
            n == enabled_count(repos@.take(i as int), visibility@, property@),
        decreases repos@.len() - i,
    {
        proof {
            let next = repos@.take(i + 1);
            assert(next.drop_last() =~= repos@.take(i as int));
            assert(next.last() == repos@[i as int]);
        }
        let repo = &repos[i];
        let visible = repo.has_visibility(visibility);
        let on = repo.is_security_property_enabled(property);
        if visible && !repo.archived && on {
            n += 1;
        }
        i += 1;
    }
    proof {
        assert(repos@.take(repos@.len() as int) =~= repos@);
    }
    n
}

/// The names of the repositories of a visibility that are not archived and
/// have a security feature switched off.
pub fn get_repos_security_property_not_enabled(
    repos: &Vec<Repository>,
    visibility: &str,
    property: &str,
) -> (r: Vec<String>)
    ensures
        texts(r@) == not_enabled_names(repos@, visibility@, property@),
{
    let mut out: Vec<String> = Vec::new();
    let mut i: usize = 0;
    proof {
        assert(repos@.take(0) =~= Seq::<Repository>::empty());
        assert(texts(out@) =~= Seq::<Seq<char>>::empty());
    }
    while i < repos.len()
        invariant
            i <= repos@.len(),
            texts(out@) == not_enabled_names(repos@.take(i as int), visibility@, property@),
        decreases repos@.len() - i,
    {
        proof {
            let next = repos@.take(i + 1);
            assert(next.drop_last() =~= repos@.take(i as int));
            assert(next.last() == repos@[i as int]);
        }
        let repo = &repos[i];
        let visible = repo.has_visibility(visibility);
        let on = repo.is_security_property_enabled(property);
        if visible && !repo.archived && !on {
            let name = repo.name.clone();
            proof {
                assert(texts(out@.push(name)) =~= texts(out@).push(repo.name@));
            }
            out.push(name);
        }
        i += 1;
    }
    proof {
        assert(repos@.take(repos@.len() as int) =~= repos@);
    }
    out
}

/// The counts that the repository audit reports.
#[derive(Clone, Copy, Debug, PartialEq, Eq, Structural)]
pub struct RepoCounts {
    pub total: usize,
    pub archived: usize,
    pub public: usize,
    pub public_archived: usize,
    pub private: usize,
    pub private_archived: usize,
    pub internal: usize,
    pub internal_archived: usize,
}

/// A repository has one visibility, so the archived ones of the three
/// visibilities are no more than there are repositories.
proof fn lemma_archived_counts_fit(repos: Seq<Repository>)
    ensures
        count_of(repos, "public"@, true) + count_of(repos, "private"@, true) + count_of(
            repos,
            "internal"@,
            true,
        ) <= repos.len(),
    decreases repos.len(),
{
    reveal_strlit("public");
    reveal_strlit("private");
    reveal_strlit("internal");
    if repos.len() > 0 {
        lemma_archived_counts_fit(repos.drop_last());
        assert("public"@.len() == 6 && "private"@.len() == 7 && "internal"@.len() == 8);
    }
}

/// Counts the repositories by visibility, and the archived ones among them.
pub fn run_repos_audit(repos: &Vec<Repository>) -> (r: RepoCounts)
    ensures
        r.total == repos@.len(),
        r.public == count_of(repos@, "public"@, false),
        r.public_archived == count_of(repos@, "public"@, true),
        r.private == count_of(repos@, "private"@, false),
        r.private_archived == count_of(repos@, "private"@, true),
        r.internal == count_of(repos@, "internal"@, false),
        r.internal_archived == count_of(repos@, "internal"@, true),
        r.archived == r.public_archived + r.private_archived + r.internal_archived,
{
    let public = count_repos(repos, "public", false);
    let public_archived = count_repos(repos, "public", true);
    let private = count_repos(repos, "private", false);
    let private_archived = count_repos(repos, "private", true);
    let internal = count_repos(repos, "internal", false);
    let internal_archived = count_repos(repos, "internal", true);
    proof {
        lemma_archived_counts_fit(repos@);
    }
    RepoCounts {
        total: repos.len(),
        archived: public_archived + private_archived + internal_archived,
        public,
        public_archived,
        private,
        private_archived,
        internal,
        internal_archived,
    }
}

} // verus!
