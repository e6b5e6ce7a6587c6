//! The audit of deploy keys: keys that somebody outside the organization
//! added.

use crate::fetch::Listing;
use crate::index::Index;
use crate::json::{field_optional_string, field_string, optional_text, Json};
use crate::model::{option_str_eq, option_text, Bootstrap, Member, Record};
use crate::text::{concat5, str_eq};
use vstd::prelude::*;

verus! {

/// A deploy key of a repository.
#[derive(Debug)]
pub struct DeployKey {
    pub id: u64,
    pub key: String,
    pub url: String,
    pub title: String,
    pub verified: bool,
    pub created_at: String,
    pub read_only: bool,
    pub added_by: String,
    pub last_used: Option<String>,
    pub enabled: bool,
}

/// What tells two deploy keys apart.
pub ghost struct DeployKeyView {
    pub id: u64,
    pub key: Seq<char>,
    pub url: Seq<char>,
    pub title: Seq<char>,
    pub verified: bool,
    pub created_at: Seq<char>,
    pub read_only: bool,
    pub added_by: Seq<char>,
    pub last_used: Option<Seq<char>>,
    pub enabled: bool,
}

impl View for DeployKey {
    type V = DeployKeyView;

    open spec fn view(&self) -> DeployKeyView {
        DeployKeyView {
            id: self.id,
            key: self.key@,
            url: self.url@,
            title: self.title@,
            verified: self.verified,
            created_at: self.created_at@,
            read_only: self.read_only,
            added_by: self.added_by@,
            last_used: option_text(self.last_used),
            enabled: self.enabled,
        }
    }
}

/// The four text members that every deploy key has.
pub open spec fn key_texts(doc: Json) -> Option<(Seq<char>, Seq<char>, Seq<char>, Seq<char>)> {
    match (
        doc.field_text("key"@),
        doc.field_text("url"@),
        doc.field_text("title"@),
        doc.field_text("created_at"@),
    ) {
        (Some(key), Some(url), Some(title), Some(created_at)) => Some(
            (key, url, title, created_at),
        ),
        _ => None,
    }
}

/// The three switches that every deploy key has.
pub open spec fn key_flags(doc: Json) -> Option<(bool, bool, bool)> {
    match (
        doc.field_truth("verified"@),
        doc.field_truth("read_only"@),
        doc.field_truth("enabled"@),
    ) {
        (Some(verified), Some(read_only), Some(enabled)) => Some((verified, read_only, enabled)),
        _ => None,
    }
}

impl Record for DeployKey {
    open spec fn decoded(doc: Json) -> Option<DeployKeyView> {
        match (
            doc.field_natural("id"@),
            key_texts(doc),
            key_flags(doc),
            doc.field_text("added_by"@),
            optional_text(doc, "last_used"@),
        ) {
            (Some(id), Some(texts), Some(flags), Some(added_by), Some(last_used)) => Some(
                DeployKeyView {
                    id,
                    key: texts.0,
                    url: texts.1,
                    title: texts.2,
                    verified: flags.0,
                    created_at: texts.3,
                    read_only: flags.1,
                    added_by,
                    last_used,
                    enabled: flags.2,
                },
            ),
            _ => None,
        }
    }

    fn decode(doc: &Json) -> (r: Option<Self>) {
        let id = doc.get_u64("id");
        let key = field_string(doc, "key");
        let url = field_string(doc, "url");
        let title = field_string(doc, "title");
        let created_at = field_string(doc, "created_at");
        let verified = doc.get_bool("verified");
        let read_only = doc.get_bool("read_only");
        let enabled = doc.get_bool("enabled");
        let added_by = field_string(doc, "added_by");
        let last_used = field_optional_string(doc, "last_used");
        match (id, key, url, title, created_at) {
            (Some(id), Some(key), Some(url), Some(title), Some(created_at)) => match (
                verified,
                read_only,
                enabled,
                added_by,
                last_used,
            ) {
                (
                    Some(verified),
                    Some(read_only),
                    Some(enabled),
                    Some(added_by),
                    Some(last_used),
                ) => Some(
                    DeployKey {
                        id,
                        key,
                        url,
                        title,
                        verified,
                        created_at,
                        read_only,
                        added_by,
                        last_used,
                        enabled,
                    },
                ),
                _ => None,
            },
            _ => None,
        }
    }

    fn equals(&self, other: &Self) -> (r: bool) {
        let texts = str_eq(self.key.as_str(), other.key.as_str()) && str_eq(
            self.url.as_str(),
            other.url.as_str(),
        ) && str_eq(self.title.as_str(), other.title.as_str()) && str_eq(
            self.created_at.as_str(),
            other.created_at.as_str(),
        ) && str_eq(self.added_by.as_str(), other.added_by.as_str());
        let rest = self.id == other.id && self.verified == other.verified && self.read_only
            == other.read_only && self.enabled == other.enabled && option_str_eq(
            &self.last_used,
            &other.last_used,
        );
        texts && rest
    }
}

/// The path of the listing of a repository's deploy keys.
pub open spec fn keys_path(org: Seq<char>, repo: Seq<char>) -> Seq<char> {
    "/repos/"@ + org + "/"@ + repo + "/keys"@
}

/// The listing of the deploy keys of a repository.
pub fn get_deploy_keys(bootstrap: &Bootstrap, repo: &str) -> (r: Listing)
    ensures
        r.path@ == keys_path(bootstrap.org@, repo@),
        r.page_size == 25,
        r.retries == 3,
        r.params is None,
{
    Listing {
        path: concat5("/repos/", bootstrap.org.as_str(), "/", repo, "/keys"),
        page_size: 25,
        retries: 3,
        params: None,
    }
}

/// What the audit says of a key: `Some(by_member)` where the key is
/// reported, `None` where it is passed over. A key that a member added is
/// reported only where all keys are asked for.
pub open spec fn key_finding(by_member: bool, all: bool) -> Option<bool> {
    if all || !by_member {
        Some(by_member)
    } else {
        None
    }
}

/// Whether the audit reports a deploy key, and whether a member of the
/// organization added it.
pub fn run_audit(key: &DeployKey, members: &Index<Member>, all: bool) -> (r: Option<bool>)
    ensures
        r == key_finding(members@.dom().contains(key.added_by@), all),
{
    let by_member = members.contains_key(key.added_by.as_str());
    if all || !by_member {
        Some(by_member)
    } else {
        None
    }
}

} // verus!
