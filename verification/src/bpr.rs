//! Showing the protection of a default branch as GitHub reports it.

use crate::fetch::FetchError;
use crate::json::Json;
use crate::model::Bootstrap;
use crate::text::{concat3, concat5};
use vstd::prelude::*;
use vstd::string::*;

verus! {

/// The path of the metadata of a repository.
pub open spec fn repo_path(org: Seq<char>, repo: Seq<char>) -> Seq<char> {
    "/repos/"@ + org + "/"@ + repo
}

/// The path of the classic protection rules of a branch.
pub open spec fn protection_path(org: Seq<char>, repo: Seq<char>, branch: Seq<char>) -> Seq<char> {
    "/repos/"@ + org + "/"@ + repo + "/branches/"@ + branch + "/protection"@
}

/// The path of the rulesets that apply to a branch.
pub open spec fn rules_path(org: Seq<char>, repo: Seq<char>, branch: Seq<char>) -> Seq<char> {
    "/repos/"@ + org + "/"@ + repo + "/rules/branches/"@ + branch
}

/// The path of the errors of a repository's CODEOWNERS file.
pub open spec fn codeowners_errors_path(org: Seq<char>, repo: Seq<char>) -> Seq<char> {
    "/repos/"@ + org + "/"@ + repo + "/codeowners/errors"@
}

/// The path of the contents of a file of a repository.
pub open spec fn contents_path(org: Seq<char>, repo: Seq<char>, file: Seq<char>) -> Seq<char> {
    "/repos/"@ + org + "/"@ + repo + "/contents/"@ + file
}

/// The path of the metadata of a repository.
pub fn repo_url(bootstrap: &Bootstrap, repo: &str) -> (r: String)
    ensures
        r@ == repo_path(bootstrap.org@, repo@),
{
    let mut s = concat3("/repos/", bootstrap.org.as_str(), "/");
    s.append(repo);
    s
}

/// The path of the classic protection rules of a branch.
pub fn protection_url(bootstrap: &Bootstrap, repo: &str, branch: &str) -> (r: String)
    ensures
        r@ == protection_path(bootstrap.org@, repo@, branch@),
{
    let mut s = repo_url(bootstrap, repo);
    s.append("/branches/");
    s.append(branch);
    s.append("/protection");
    s
}

/// The path of the rulesets that apply to a branch.
pub fn rules_url(bootstrap: &Bootstrap, repo: &str, branch: &str) -> (r: String)
    ensures
        r@ == rules_path(bootstrap.org@, repo@, branch@),
{
    let mut s = repo_url(bootstrap, repo);
    s.append("/rules/branches/");
    s.append(branch);
    s
}

/// The path of the errors of a repository's CODEOWNERS file.
pub fn codeowners_errors_url(bootstrap: &Bootstrap, repo: &str) -> (r: String)
    ensures
        r@ == codeowners_errors_path(bootstrap.org@, repo@),
{
    concat5("/repos/", bootstrap.org.as_str(), "/", repo, "/codeowners/errors")
}

/// The path of the contents of a file of a repository.
pub fn contents_url(bootstrap: &Bootstrap, repo: &str, file: &str) -> (r: String)
    ensures
        r@ == contents_path(bootstrap.org@, repo@, file@),
{
    let mut s = repo_url(bootstrap, repo);
    s.append("/contents/");
    s.append(file);
    s
}

/// How the protection of a branch is shown.
#[derive(Clone, Copy, Debug, PartialEq, Eq, Structural)]
pub enum Shown {
    /// As the word `Empty`: the branch has no classic rules.
    Empty,
    /// As the document that came back.
    Document,
    /// Not at all: the rules could not be fetched.
    Unavailable,
}

/// How the classic rules of a branch are shown: a `404` says that there are
/// none.
pub fn get_bprs(reply: &Result<Json, FetchError>) -> (r: Shown)
    ensures
        r == match *reply {
            Err(_) => Shown::Unavailable,
            Ok(doc) => if doc.field_text("status"@) == Some("404"@) {
                Shown::Empty
            } else {
                Shown::Document
            },
        },
{
    match reply {
        Err(_) => Shown::Unavailable,
        Ok(doc) => {
            if doc.has_text("status", "404") {
                Shown::Empty
            } else {
                Shown::Document
            }
        },
    }
}

/// How the rulesets of a branch are shown: always as the document.
pub fn get_rulesets(reply: &Result<Json, FetchError>) -> (r: Shown)
    ensures
        r == match *reply {
            Err(_) => Shown::Unavailable,
            Ok(_) => Shown::Document,
        },
{
    match reply {
        Err(_) => Shown::Unavailable,
        Ok(_) => Shown::Document,
    }
}

} // verus!
