//! CODEOWNERS files: who they mention, where they lie, and what is wrong
//! with them.

use crate::fetch::FetchError;
use crate::files::{file_text, process_fetch_file_result, text_or_unavailable, FileError};
use crate::index::Index;
use crate::json::Json;
use crate::model::{Bootstrap, Member, Team};
use crate::paginate::insert_unique;
use crate::text::{
    concat3, concat5, contains_text, decimal, decimal_text, is_prefix, split_on, split_text,
    starts_with, str_eq, strip_prefixes, stripped, texts, trim, trimmed,
};
use vstd::prelude::*;
use vstd::string::*;
use vstd::utf8::encode_utf8;

verus! {

/// The pattern of a mention: an `@` and the characters after it, up to the
/// next white space.
pub open spec fn mention_pattern() -> Seq<char> {
    "@\\S+"@
}

/// The matches that the `regex` crate finds for a pattern in a text, from
/// left to right and without overlap; `None` where it rejects the pattern.
pub uninterp spec fn regex_matches(pattern: Seq<char>, text: Seq<char>) -> Option<Seq<Seq<char>>>;

/// Compiles the pattern with `Regex::new` and collects what
/// `Regex::find_iter` yields for the text. Both read nothing but their
/// arguments: the contract names the matches and says no more of them.
#[verifier::external_body]
fn find_all(pattern: &str, text: &str) -> (r: Option<Vec<String>>)
    ensures
        r is Some <==> regex_matches(pattern@, text@) is Some,
        r matches Some(found) ==> regex_matches(pattern@, text@) == Some(texts(found@)),
{
    let compiled = regex::Regex::new(pattern).ok()?;
    Some(compiled.find_iter(text).map(|found| found.as_str().to_string()).collect())
}

/// Whether a byte stands for itself in an address: a letter or digit of
/// ASCII, or one of `-`, `.`, `_` and `~`.
pub open spec fn unreserved(b: u8) -> bool {
    ||| 0x30 <= b <= 0x39
    ||| 0x41 <= b <= 0x5a
    ||| 0x61 <= b <= 0x7a
    ||| b == 0x2d
    ||| b == 0x2e
    ||| b == 0x5f
    ||| b == 0x7e
}

/// The upper-case hexadecimal digit of a number below sixteen.
pub open spec fn upper_hex_digit(n: u8) -> char {
    if n < 10 {
        (0x30 + n) as char
    } else {
        (0x37 + n) as char
    }
}

/// Bytes as they stand in an address: an unreserved byte as itself, every
/// other one as `%` and its two upper-case hexadecimal digits.
pub open spec fn percent_text(bytes: Seq<u8>) -> Seq<char>
    decreases bytes.len(),
{
    if bytes.len() == 0 {
        Seq::empty()
    } else if unreserved(bytes.last()) {
        percent_text(bytes.drop_last()).push(bytes.last() as char)
    } else {
        percent_text(bytes.drop_last()).push('%').push(upper_hex_digit(bytes.last() / 16)).push(
            upper_hex_digit(bytes.last() % 16),
        )
    }
}

/// The form of a text in an address: its UTF-8 bytes, percent-encoded.
pub open spec fn percent_encoded(text: Seq<char>) -> Seq<char> {
    percent_text(encode_utf8(text))
}

/// Calls `urlencoding::encode`, which goes through the bytes of the text
/// and writes every byte but the unreserved ones as `%` and two upper-case
/// hexadecimal digits.
#[verifier::external_body]
fn percent_encode(text: &str) -> (r: String)
    ensures
        r@ == percent_encoded(text@),
{
    urlencoding::encode(text).into_owned()
}

/// A CODEOWNERS file.
#[derive(Debug)]
pub struct CodeownersFile {
    /// The repository that the file belongs to.
    pub repo: String,
    /// Where a person can look at the file.
    pub url: String,
    /// The users that the file mentions, each once.
    pub users: Vec<String>,
    /// The teams of the organization that the file mentions, each once.
    pub teams: Vec<String>,
}

/// The mentions in a line: none in a comment line, and none where the
/// pattern is rejected.
pub open spec fn line_mentions(line: Seq<char>) -> Seq<Seq<char>> {
    if is_prefix(trimmed(line), "#"@) {
        Seq::empty()
    } else {
        match regex_matches(mention_pattern(), line) {
            Some(found) => found,
            None => Seq::empty(),
        }
    }
}

/// The mentions in the lines, in order.
pub open spec fn all_mentions(lines: Seq<Seq<char>>) -> Seq<Seq<char>>
    decreases lines.len(),
{
    if lines.len() == 0 {
        Seq::empty()
    } else {
        all_mentions(lines.drop_last()) + line_mentions(lines.last())
    }
}

/// The users among the mentions, each once and without the `@`: every
/// mention that does not begin with the team prefix.
pub open spec fn mentioned_users(mentions: Seq<Seq<char>>, prefix: Seq<char>) -> Seq<Seq<char>>
    decreases mentions.len(),
{
    if mentions.len() == 0 {
        Seq::empty()
    } else {
        let front = mentioned_users(mentions.drop_last(), prefix);
        if is_prefix(mentions.last(), prefix) {
            front
        } else {
            insert_unique(front, stripped(mentions.last(), "@"@))
        }
    }
}

/// The teams among the mentions, each once and without the prefix: every
/// mention that begins with the team prefix.
pub open spec fn mentioned_teams(mentions: Seq<Seq<char>>, prefix: Seq<char>) -> Seq<Seq<char>>
    decreases mentions.len(),
{
    if mentions.len() == 0 {
        Seq::empty()
    } else {
        let front = mentioned_teams(mentions.drop_last(), prefix);
        if is_prefix(mentions.last(), prefix) {
            insert_unique(front, stripped(mentions.last(), prefix))
        } else {
            front
        }
    }
}

/// The prefix of a mention of a team of the organization.
pub open spec fn team_prefix(org: Seq<char>) -> Seq<char> {
    "@"@ + org + "/"@
}

/// The mentions in the lines, in order.
fn collect_mentions(lines: &Vec<String>) -> (r: Vec<String>)
    ensures
        texts(r@) == all_mentions(texts(lines@)),
{
    let ghost all = texts(lines@);
    let mut out: Vec<String> = Vec::new();
    let mut i: usize = 0;
    proof {
        assert(all.take(0) =~= Seq::<Seq<char>>::empty());
        assert(texts(out@) =~= Seq::<Seq<char>>::empty());
    }
    while i < lines.len()
        invariant
            i <= lines@.len(),
            all == texts(lines@),
            texts(out@) == all_mentions(all.take(i as int)),
        decreases lines@.len() - i,
    {
        proof {
            let next = all.take(i + 1);
            assert(next.drop_last() =~= all.take(i as int));
            assert(next.last() == lines@[i as int]@);
        }
        let line = lines[i].as_str();
        let ghost before = texts(out@);
        if !starts_with(trim(line), "#") {
            match find_all("@\\S+", line) {
                Some(found) => {
                    let ghost wanted = texts(found@);
                    let mut k: usize = 0;
                    proof {
                        assert(before + wanted.take(0) =~= before);
                    }
                    while k < found.len()
                        invariant
                            k <= found@.len(),
                            wanted == texts(found@),
                            texts(out@) == before + wanted.take(k as int),
                        decreases found@.len() - k,
                    {
                        let item = found[k].clone();
                        proof {
                            assert(texts(out@.push(item)) =~= texts(out@).push(found@[k as int]@));
                            assert(before + wanted.take(k + 1) =~= (before + wanted.take(
                                k as int,
                            )).push(found@[k as int]@));
                        }
                        out.push(item);
                        k += 1;
                    }
                    proof {
                        assert(wanted.take(found@.len() as int) =~= wanted);
                    }
                },
                None => {
                    proof {
                        assert(before + Seq::<Seq<char>>::empty() =~= before);
                    }
                },
            }
        } else {
            proof {
                assert(before + Seq::<Seq<char>>::empty() =~= before);
            }
        }
        i += 1;
    }
    proof {
        assert(all.take(lines@.len() as int) =~= all);
    }
    out
}

impl CodeownersFile {
    /// Sorts mentions into users and teams. A mention that begins with `@`,
    /// the organization and `/` names a team; any other mention names a user.
    pub fn from_mentions(org: &str, mentions: &Vec<String>, html_url: &str, repo: &str) -> (r:
        CodeownersFile)
        ensures
            r.repo@ == repo@,
            r.url@ == html_url@,
            texts(r.users@) == mentioned_users(texts(mentions@), team_prefix(org@)),
            texts(r.teams@) == mentioned_teams(texts(mentions@), team_prefix(org@)),
    {
        let prefix = concat3("@", org, "/");
        let ghost all = texts(mentions@);
        let mut users: Vec<String> = Vec::new();
        let mut teams: Vec<String> = Vec::new();
        let mut i: usize = 0;
        proof {
            assert(all.take(0) =~= Seq::<Seq<char>>::empty());
            assert(texts(users@) =~= Seq::<Seq<char>>::empty());
            assert(texts(teams@) =~= Seq::<Seq<char>>::empty());
        }
        while i < mentions.len()
            invariant
                i <= mentions@.len(),
                all == texts(mentions@),
                prefix@ == team_prefix(org@),
                texts(users@) == mentioned_users(all.take(i as int), prefix@),
                texts(teams@) == mentioned_teams(all.take(i as int), prefix@),
            decreases mentions@.len() - i,
        {
            proof {
                let next = all.take(i + 1);
                assert(next.drop_last() =~= all.take(i as int));
                assert(next.last() == mentions@[i as int]@);
            }
            let mention = mentions[i].as_str();
            if starts_with(mention, prefix.as_str()) {
                let team = strip_prefixes(mention, prefix.as_str());
                if !contains_text(&teams, team) {
                    let owned = team.to_owned();
                    proof {
                        assert(texts(teams@.push(owned)) =~= texts(teams@).push(team@));
                    }
                    teams.push(owned);
                }
            } else {
                let user = strip_prefixes(mention, "@");
                if !contains_text(&users, user) {
                    let owned = user.to_owned();
                    proof {
                        assert(texts(users@.push(owned)) =~= texts(users@).push(user@));
                    }
                    users.push(owned);
                }
            }
            i += 1;
        }
        proof {
            assert(all.take(mentions@.len() as int) =~= all);
        }
        CodeownersFile { repo: repo.to_owned(), url: html_url.to_owned(), users, teams }
    }

    /// Reads who a CODEOWNERS file mentions. A line whose first character
    /// after white space is `#` is a comment; in every other line each `@`
    /// with the characters up to the next white space is a mention.
    pub fn parse_from_content(org: &str, content: &str, html_url: &str, repo: &str) -> (r:
        CodeownersFile)
        ensures
            r.repo@ == repo@,
            r.url@ == html_url@,
            texts(r.users@) == mentioned_users(
                all_mentions(split_text(content@, '\n')),
                team_prefix(org@),
            ),
            texts(r.teams@) == mentioned_teams(
                all_mentions(split_text(content@, '\n')),
                team_prefix(org@),
            ),
    {
        let lines = split_on(content, '\n');
        let mentions = collect_mentions(&lines);
        CodeownersFile::from_mentions(org, &mentions, html_url, repo)
    }
}

/// What is wrong with a CODEOWNERS file.
#[derive(Debug)]
pub enum CodeownersFileProblem {
    UserNotInOrg { user: String, co_file_url: String },
    TeamNotInOrg { team: String, co_file_url: String },
    EmptyTeam { team: String, co_file_url: String },
}

/// What a problem says.
pub open spec fn problem_text(problem: CodeownersFileProblem) -> Seq<char> {
    match problem {
        CodeownersFileProblem::EmptyTeam { team, co_file_url } => "Warning! CODEOWNERS file "@
            + co_file_url@ + " contains an empty team "@ + team@,
        CodeownersFileProblem::UserNotInOrg { user, co_file_url } => "Error in CODEOWNERS file "@
            + co_file_url@ + " User "@ + user@ + " is not in the org"@,
        CodeownersFileProblem::TeamNotInOrg { team, co_file_url } => "Error in CODEOWNERS file "@
            + co_file_url@ + " Team "@ + team@ + " is not in the org"@,
    }
}

impl CodeownersFileProblem {
    /// What the problem says.
    pub fn message(&self) -> (r: String)
        ensures
            r@ == problem_text(*self),
    {
        match self {
            CodeownersFileProblem::EmptyTeam { team, co_file_url } => {
                let mut s = "Warning! CODEOWNERS file ".to_owned();
                s.append(co_file_url.as_str());
                s.append(" contains an empty team ");
                s.append(team.as_str());
                s
            },
            CodeownersFileProblem::UserNotInOrg { user, co_file_url } => concat5(
                "Error in CODEOWNERS file ",
                co_file_url.as_str(),
                " User ",
                user.as_str(),
                " is not in the org",
            ),
            CodeownersFileProblem::TeamNotInOrg { team, co_file_url } => concat5(
                "Error in CODEOWNERS file ",
                co_file_url.as_str(),
                " Team ",
                team.as_str(),
                " is not in the org",
            ),
        }
    }
}

/// The names that the table does not know, in their order.
pub open spec fn unknown_names<T>(names: Seq<Seq<char>>, known: Map<Seq<char>, T>) -> Seq<
    Seq<char>,
>
    decreases names.len(),
{
    if names.len() == 0 {
        Seq::empty()
    } else {
        let front = unknown_names(names.drop_last(), known);
        if known.dom().contains(names.last()) {
            front
        } else {
            front.push(names.last())
        }
    }
}

/// The names that the table does not know.
fn names_not_in<T>(names: &Vec<String>, known: &Index<T>) -> (r: Vec<String>)
    ensures
        texts(r@) == unknown_names(texts(names@), known@),
{
    let ghost all = texts(names@);
    let mut out: Vec<String> = Vec::new();
    let mut i: usize = 0;
    proof {
        assert(all.take(0) =~= Seq::<Seq<char>>::empty());
        assert(texts(out@) =~= Seq::<Seq<char>>::empty());
    }
    while i < names.len()
        invariant
            i <= names@.len(),
            all == texts(names@),
            texts(out@) == unknown_names(all.take(i as int), known@),
        decreases names@.len() - i,
    {
        proof {
            let next = all.take(i + 1);
            assert(next.drop_last() =~= all.take(i as int));
            assert(next.last() == names@[i as int]@);
        }
        if !known.contains_key(names[i].as_str()) {
            let owned = names[i].clone();
            proof {
                assert(texts(out@.push(owned)) =~= texts(out@).push(names@[i as int]@));
            }
            out.push(owned);
        }
        i += 1;
    }
    proof {
        assert(all.take(names@.len() as int) =~= all);
    }
    out
}

/// The users that a CODEOWNERS file mentions and that are no members of the
/// organization.
pub fn users_not_in_org(co_file: &CodeownersFile, org_members: &Index<Member>) -> (r: Vec<String>)
    ensures
        texts(r@) == unknown_names(texts(co_file.users@), org_members@),
{
    names_not_in(&co_file.users, org_members)
}

/// The teams that a CODEOWNERS file mentions and that the organization has
/// not.
pub fn teams_not_in_org(co_file: &CodeownersFile, org_teams: &Index<Team>) -> (r: Vec<String>)
    ensures
        texts(r@) == unknown_names(texts(co_file.teams@), org_teams@),
{
    names_not_in(&co_file.teams, org_teams)
}

/// What is known of teams being empty, so that no team is asked for twice.
pub struct TeamCache {
    empty: Vec<String>,
    non_empty: Vec<String>,
}

impl View for TeamCache {
    type V = Map<Seq<char>, bool>;

    /// The teams that are known, each with whether it is empty.
    closed spec fn view(&self) -> Map<Seq<char>, bool> {
        Map::new(
            |slug: Seq<char>| texts(self.empty@).contains(slug) || texts(self.non_empty@).contains(slug),
            |slug: Seq<char>| texts(self.empty@).contains(slug),
        )
    }
}

impl TeamCache {
    /// A cache that knows no team.
    pub fn new() -> (r: Self)
        ensures
            r@ == Map::<Seq<char>, bool>::empty(),
    {
        let r = TeamCache { empty: Vec::new(), non_empty: Vec::new() };
        proof {
            assert(texts(r.empty@) =~= Seq::<Seq<char>>::empty());
            assert(texts(r.non_empty@) =~= Seq::<Seq<char>>::empty());
            assert(r@ =~= Map::<Seq<char>, bool>::empty());
        }
        r
    }

    /// Whether the team is empty, where that is known.
    pub fn lookup(&self, slug: &str) -> (r: Option<bool>)
        ensures
            r == if self@.dom().contains(slug@) {
                Some(self@[slug@])
            } else {
                None
            },
    {
        if contains_text(&self.empty, slug) {
            Some(true)
        } else if contains_text(&self.non_empty, slug) {
            Some(false)
        } else {
            None
        }
    }

    /// Notes whether a team is empty. What is known of a team stays as it
    /// is.
    pub fn remember(&mut self, slug: &str, empty: bool)
        ensures
            final(self)@ == if old(self)@.dom().contains(slug@) {
                old(self)@
            } else {
                old(self)@.insert(slug@, empty)
            },
    {
        if contains_text(&self.empty, slug) || contains_text(&self.non_empty, slug) {
            return;
        }
        let owned = slug.to_owned();
        let ghost before_empty = texts(self.empty@);
        let ghost before_non = texts(self.non_empty@);
        if empty {
            proof {
                assert(texts(self.empty@.push(owned)) =~= before_empty.push(slug@));
            }
            self.empty.push(owned);
        } else {
            proof {
                assert(texts(self.non_empty@.push(owned)) =~= before_non.push(slug@));
            }
            self.non_empty.push(owned);
        }
        proof {
            let grown = if empty {
                before_empty.push(slug@)
            } else {
                before_non.push(slug@)
            };
            let base = if empty {
                before_empty
            } else {
                before_non
            };
            assert(grown[grown.len() - 1] == slug@);
            assert forall|x: Seq<char>| grown.contains(x) <==> (base.contains(x) || x
                == slug@) by {
                if grown.contains(x) {
                    let k = choose|k: int| 0 <= k < grown.len() && grown[k] == x;
                    if k < base.len() {
                        assert(base[k] == x);
                    }
                }
                if base.contains(x) {
                    let k = choose|k: int| 0 <= k < base.len() && base[k] == x;
                    assert(grown[k] == x);
                }
            }
            assert(self@ =~= old(self)@.insert(slug@, empty));
        }
    }
}

/// The kinds of the errors that GitHub reports for a CODEOWNERS file: the
/// `kind` of each, `Unknown` where an error has none.
pub open spec fn error_kinds(errors: Seq<Json>) -> Seq<Seq<char>>
    decreases errors.len(),
{
    if errors.len() == 0 {
        Seq::empty()
    } else {
        error_kinds(errors.drop_last()).push(
            match errors.last().field_text("kind"@) {
                Some(kind) => kind,
                None => "Unknown"@,
            },
        )
    }
}

/// What the errors endpoint says of a CODEOWNERS file: `None` where there
/// is no file, the kinds of its errors where there is one.
pub open spec fn reported_errors(reply: Result<Json, FetchError>) -> Result<
    Option<Seq<Seq<char>>>,
    FetchError,
> {
    match reply {
        Err(e) => Err(e),
        Ok(doc) => match doc.field("errors"@) {
            None => Ok(None),
            Some(errors) => match errors.items() {
                Some(items) => Ok(Some(error_kinds(items))),
                None => Err(FetchError::Malformed),
            },
        },
    }
}

/// The characters of optional texts.
pub open spec fn optional_texts(v: Option<Vec<String>>) -> Option<Seq<Seq<char>>> {
    match v {
        Some(items) => Some(texts(items@)),
        None => None,
    }
}

/// Reads what the errors endpoint says of a CODEOWNERS file.
pub fn get_codeowners_errors(reply: &Result<Json, FetchError>) -> (r: Result<
    Option<Vec<String>>,
    FetchError,
>)
    ensures
        match reported_errors(*reply) {
            Ok(kinds) => r matches Ok(found) && optional_texts(found) == kinds,
            Err(e) => r == Err::<Option<Vec<String>>, FetchError>(e),
        },
{
    match reply {
        Err(e) => Err(*e),
        Ok(doc) => match doc.get("errors") {
            None => Ok(None),
            Some(errors) => match errors.as_array() {
                None => Err(FetchError::Malformed),
                Some(items) => {
                    let mut kinds: Vec<String> = Vec::new();
                    let mut i: usize = 0;
                    proof {
                        assert(items@.take(0) =~= Seq::<Json>::empty());
                        assert(texts(kinds@) =~= Seq::<Seq<char>>::empty());
                    }
                    while i < items.len()
                        invariant
                            i <= items@.len(),
                            texts(kinds@) == error_kinds(items@.take(i as int)),
                        decreases items@.len() - i,
                    {
                        proof {
                            let next = items@.take(i + 1);
                            assert(next.drop_last() =~= items@.take(i as int));
                            assert(next.last() == items@[i as int]);
                        }
                        let kind = match items[i].get_str("kind") {
                            Some(k) => k.to_owned(),
                            None => "Unknown".to_owned(),
                        };
                        proof {
                            assert(texts(kinds@.push(kind)) =~= texts(kinds@).push(kind@));
                        }
                        kinds.push(kind);
                        i += 1;
                    }
                    proof {
                        assert(items@.take(items@.len() as int) =~= items@);
                    }
                    Ok(Some(kinds))
                },
            },
        },
    }
}

/// What the reply for one place of the CODEOWNERS file says.
#[derive(Debug)]
pub enum CoProbe {
    /// The file does not lie here: ask for the next place.
    Next,
    /// The file lies here, with this text, and can be looked at here.
    Found { content: String, html_url: String },
    /// The file lies here and cannot be read: the search ends.
    Unreadable,
}

/// Whether a reply says that the file does not lie at the place: the
/// request failed, or the document has a `status` that is `404` or no text.
pub open spec fn passes_over(reply: Result<Json, FetchError>) -> bool {
    match reply {
        Err(_) => true,
        Ok(doc) => match doc.field("status"@) {
            Some(status) => status.text() is None || status.text() == Some("404"@),
            None => false,
        },
    }
}

/// Takes the reply for one place of the CODEOWNERS file of a repository.
pub fn get_co_file(reply: &Result<Json, FetchError>) -> (r: CoProbe)
    ensures
        passes_over(*reply) ==> r is Next,
        !passes_over(*reply) && file_text(reply->Ok_0) is Err ==> r is Unreadable,
        !passes_over(*reply) && file_text(reply->Ok_0) is Ok ==> (r matches CoProbe::Found {
            content,
            html_url,
        } && Ok::<Seq<char>, FileError>(content@) == file_text(reply->Ok_0) && html_url@
            == text_or_unavailable(reply->Ok_0, "html_url"@)),
{
    match reply {
        Err(_) => CoProbe::Next,
        Ok(doc) => {
            match doc.get("status") {
                Some(status) => match status.as_str() {
                    Some(s) => {
                        if str_eq(s, "404") {
                            return CoProbe::Next;
                        }
                    },
                    None => {
                        return CoProbe::Next;
                    },
                },
                None => {},
            }
            let html_url = match doc.get_str("html_url") {
                Some(u) => u.to_owned(),
                None => "Not available".to_owned(),
            };
            match process_fetch_file_result(doc) {
                Ok(content) => CoProbe::Found { content, html_url },
                Err(_) => CoProbe::Unreadable,
            }
        },
    }
}

/// The search for the CODEOWNERS files of an organization.
pub open spec fn files_query(org: Seq<char>) -> Seq<char> {
    "org:"@ + org + " filename:CODEOWNERS"@
}

/// The search for the CODEOWNERS files that mention a team.
pub open spec fn team_query(org: Seq<char>, team: Seq<char>) -> Seq<char> {
    "org:"@ + org + " filename:CODEOWNERS @"@ + org + "/"@ + team
}

/// The path of one page of a code search.
pub open spec fn search_path(query: Seq<char>, page: nat) -> Seq<char> {
    "/search/code?q="@ + percent_encoded(query) + "&per_page=100&page="@ + decimal_text(page)
}

/// The path of a page of a code search for an already encoded query.
pub open spec fn encoded_search_path(encoded: Seq<char>, page: nat) -> Seq<char> {
    "/search/code?q="@ + encoded + "&per_page=100&page="@ + decimal_text(page)
}

/// The path of a page of a code search for an already encoded query.
pub fn search_address(encoded: &str, page: u64) -> (r: String)
    ensures
        r@ == encoded_search_path(encoded@, page as nat),
{
    let mut s = "/search/code?q=".to_owned();
    s.append(encoded);
    s.append("&per_page=100&page=");
    s.append(decimal(page).as_str());
    s
}

/// The path of page `page` of the search for the CODEOWNERS files of the
/// organization.
pub fn find_codeowners_in_org(bootstrap: &Bootstrap, page: u64) -> (r: String)
    ensures
        r@ == search_path(files_query(bootstrap.org@), page as nat),
{
    let query = concat3("org:", bootstrap.org.as_str(), " filename:CODEOWNERS");
    let encoded = percent_encode(query.as_str());
    search_address(encoded.as_str(), page)
}

/// The path of page `page` of the search for the CODEOWNERS files that
/// mention a team.
pub fn find_team_in_codeowners(bootstrap: &Bootstrap, team: &str, page: u64) -> (r: String)
    ensures
        r@ == search_path(team_query(bootstrap.org@, team@), page as nat),
{
    let mut query = concat3("org:", bootstrap.org.as_str(), " filename:CODEOWNERS @");
    query.append(bootstrap.org.as_str());
    query.append("/");
    query.append(team);
    let encoded = percent_encode(query.as_str());
    search_address(encoded.as_str(), page)
}

/// A file that a code search found.
#[derive(Debug)]
pub struct SearchHit {
    pub repo: String,
    pub html_url: String,
    pub api_url: String,
}

/// A `SearchHit` as contracts see it.
pub ghost struct SearchHitView {
    pub repo: Seq<char>,
    pub html_url: Seq<char>,
    pub api_url: Seq<char>,
}

impl View for SearchHit {
    type V = SearchHitView;

    open spec fn view(&self) -> SearchHitView {
        SearchHitView { repo: self.repo@, html_url: self.html_url@, api_url: self.api_url@ }
    }
}

/// The name of the repository of a found file.
pub open spec fn hit_repo(item: Json) -> Seq<char> {
    match item.field("repository"@) {
        Some(repo) => text_or_unavailable(repo, "name"@),
        None => "Not available"@,
    }
}

/// The hit that an item of a search result stands for.
pub open spec fn hit_of(item: Json) -> SearchHitView {
    SearchHitView {
        repo: hit_repo(item),
        html_url: text_or_unavailable(item, "html_url"@),
        api_url: text_or_unavailable(item, "url"@),
    }
}

/// The hits among the items of a search result: the files that are called
/// `CODEOWNERS` and nothing else.
pub open spec fn hits_of(items: Seq<Json>) -> Seq<SearchHitView>
    decreases items.len(),
{
    if items.len() == 0 {
        Seq::empty()
    } else {
        let front = hits_of(items.drop_last());
        if items.last().field_text("name"@) == Some("CODEOWNERS"@) {
            front.push(hit_of(items.last()))
        } else {
            front
        }
    }
}

/// The items of a page of a search result; a document without an array
/// `items` has none.
pub open spec fn search_items(doc: Json) -> Seq<Json> {
    match doc.field_items("items"@) {
        Some(items) => items,
        None => Seq::empty(),
    }
}

/// A copy of a text member, `Not available` where there is none.
fn member_or_unavailable(doc: &Json, key: &str) -> (r: String)
    ensures
        r@ == text_or_unavailable(*doc, key@),
{
    match doc.get_str(key) {
        Some(t) => t.to_owned(),
        None => "Not available".to_owned(),
    }
}

/// Reads a page of a search result: whether the page has items at all, and
/// the hits among them. A page without items is past the last one.
pub fn search_hits(doc: &Json) -> (r: (bool, Vec<SearchHit>))
    ensures
        r.0 == (search_items(*doc).len() > 0),
        crate::paginate::views(r.1@) == hits_of(search_items(*doc)),
{
    let mut hits: Vec<SearchHit> = Vec::new();
    proof {
        assert(crate::paginate::views(hits@) =~= Seq::<SearchHitView>::empty());
    }
    match doc.get_array("items") {
        None => (false, hits),
        Some(items) => {
            let mut i: usize = 0;
            proof {
                assert(items@.take(0) =~= Seq::<Json>::empty());
            }
            while i < items.len()
                invariant
                    i <= items@.len(),
                    crate::paginate::views(hits@) == hits_of(items@.take(i as int)),
                decreases items@.len() - i,
            {
                proof {
                    let next = items@.take(i + 1);
                    assert(next.drop_last() =~= items@.take(i as int));
                    assert(next.last() == items@[i as int]);
                }
                let item = &items[i];
                if item.has_text("name", "CODEOWNERS") {
                    let repo = match item.get("repository") {
                        Some(r) => member_or_unavailable(r, "name"),
                        None => "Not available".to_owned(),
                    };
                    let hit = SearchHit {
                        repo,
                        html_url: member_or_unavailable(item, "html_url"),
                        api_url: member_or_unavailable(item, "url"),
                    };
                    proof {
                        assert(crate::paginate::views(hits@.push(hit)) =~= crate::paginate::views(
                            hits@,
                        ).push(hit@));
                    }
                    hits.push(hit);
                }
                i += 1;
            }
            proof {
                assert(items@.take(items@.len() as int) =~= items@);
            }
            (items.len() > 0, hits)
        },
    }
}

} // verus!
