//! The records of an organization as the listings return them, each with the
//! rule that reads it from a JSON document and the equality under which two
//! records of a listing collapse.

use crate::json::{field_optional_string, field_string, optional_text, Json};
use crate::text::str_eq;
use vstd::prelude::*;

verus! {

/// A record that a listing endpoint returns.
///
/// The view of a record holds every field that tells two records apart: two
/// records with one view are one member of a listing.
pub trait Record: View + Sized {
    /// The record that a document holds, if it has the record's shape.
    spec fn decoded(doc: Json) -> Option<Self::V>;

    /// Reads the record from a document.
    fn decode(doc: &Json) -> (r: Option<Self>)
        ensures
            r is Some <==> Self::decoded(*doc) is Some,
            r matches Some(x) ==> Self::decoded(*doc) == Some(x@),
    ;

    /// Whether two records are the same member of a listing.
    fn equals(&self, other: &Self) -> (r: bool)
        ensures
            r == (self@ == other@),
    ;
}

/// A record that can be looked up by a key of its own.
pub trait GitHubIndex {
    /// The key.
    spec fn index_text(&self) -> Seq<char>;

    /// The key under which the record is filed.
    fn index(&self) -> (r: String)
        ensures
            r@ == self.index_text(),
    ;
}

/// What a reference to an optional value refers to.
pub open spec fn referred<T>(value: Option<&T>) -> Option<T> {
    match value {
        Some(v) => Some(*v),
        None => None,
    }
}

/// Whether two optional strings hold the same characters.
pub fn option_str_eq(a: &Option<String>, b: &Option<String>) -> (r: bool)
    ensures
        r == (option_text(*a) == option_text(*b)),
{
    match (a, b) {
        (Some(x), Some(y)) => str_eq(x.as_str(), y.as_str()),
        (None, None) => true,
        _ => false,
    }
}

/// The characters of an optional string.
pub open spec fn option_text(s: Option<String>) -> Option<Seq<char>> {
    match s {
        Some(t) => Some(t@),
        None => None,
    }
}

/// The access levels that GitHub reports for a user or team on a repository.
#[derive(Clone, Copy, Debug, PartialEq, Eq, Structural, Hash)]
pub struct Permissions {
    pub pull: bool,
    pub triage: bool,
    pub push: bool,
    pub maintain: bool,
    pub admin: bool,
}

impl Permissions {
    /// The name of the strongest level that is granted, `none` where none is.
    pub open spec fn highest_label(self) -> Seq<char> {
        if self.admin {
            "admin"@
        } else if self.maintain {
            "maintain"@
        } else if self.push {
            "push"@
        } else if self.triage {
            "triage"@
        } else if self.pull {
            "pull"@
        } else {
            "none"@
        }
    }

    /// The permissions that a document holds: an object with the five
    /// boolean members.
    pub open spec fn decoded(doc: Json) -> Option<Permissions> {
        match (
            doc.field_truth("pull"@),
            doc.field_truth("triage"@),
            doc.field_truth("push"@),
            doc.field_truth("maintain"@),
            doc.field_truth("admin"@),
        ) {
            (Some(pull), Some(triage), Some(push), Some(maintain), Some(admin)) => Some(
                Permissions { pull, triage, push, maintain, admin },
            ),
            _ => None,
        }
    }

    /// The optional permissions member `key` of a document: absent where the
    /// member is missing or `null`, an error (the outer `None`) where it is
    /// there and is no permissions object.
    pub open spec fn decoded_optional(doc: Json, key: Seq<char>) -> Option<Option<Permissions>> {
        match doc.field(key) {
            None => Some(None),
            Some(Json::Null) => Some(None),
            Some(v) => match Permissions::decoded(v) {
                Some(p) => Some(Some(p)),
                None => None,
            },
        }
    }

    /// No access at all.
    pub open spec fn nothing() -> Permissions {
        Permissions { pull: false, triage: false, push: false, maintain: false, admin: false }
    }

    /// No access at all.
    pub fn none() -> (r: Permissions)
        ensures
            r == Permissions::nothing(),
    {
        Permissions { pull: false, triage: false, push: false, maintain: false, admin: false }
    }

    /// The name of the strongest level that is granted.
    pub fn highest_perm(&self) -> (r: String)
        ensures
            r@ == self.highest_label(),
    {
        if self.admin {
            return "admin".to_owned();
        }
        if self.maintain {
            return "maintain".to_owned();
        }
        if self.push {
            return "push".to_owned();
        }
        if self.triage {
            return "triage".to_owned();
        }
        if self.pull {
            return "pull".to_owned();
        }
        "none".to_owned()
    }

    /// Reads the permissions from a document.
    pub fn decode(doc: &Json) -> (r: Option<Permissions>)
        ensures
            r == Permissions::decoded(*doc),
    {
        let pull = doc.get_bool("pull");
        let triage = doc.get_bool("triage");
        let push = doc.get_bool("push");
        let maintain = doc.get_bool("maintain");
        let admin = doc.get_bool("admin");
        match (pull, triage, push, maintain, admin) {
            (Some(pull), Some(triage), Some(push), Some(maintain), Some(admin)) => Some(
                Permissions { pull, triage, push, maintain, admin },
            ),
            _ => None,
        }
    }

    /// Reads the optional permissions member `key`.
    pub fn decode_optional(doc: &Json, key: &str) -> (r: Option<Option<Permissions>>)
        ensures
            r == Permissions::decoded_optional(*doc, key@),
    {
        match doc.get(key) {
            None => Some(None),
            Some(Json::Null) => Some(None),
            Some(v) => match Permissions::decode(v) {
                Some(p) => Some(Some(p)),
                None => None,
            },
        }
    }
}

/// The permissions member `permissions` of a document.
pub open spec fn decoded_permissions(doc: Json) -> Option<Permissions> {
    match doc.field("permissions"@) {
        Some(v) => Permissions::decoded(v),
        None => None,
    }
}

/// Reads the member `permissions` of a document.
fn decode_permissions(doc: &Json) -> (r: Option<Permissions>)
    ensures
        r == decoded_permissions(*doc),
{
    match doc.get("permissions") {
        Some(v) => Permissions::decode(v),
        None => None,
    }
}

/// A user with access to a repository.
#[derive(Debug)]
pub struct Collaborator {
    pub login: String,
    pub permissions: Permissions,
}

/// What tells two collaborators apart.
pub ghost struct CollaboratorView {
    pub login: Seq<char>,
    pub permissions: Permissions,
}

impl View for Collaborator {
    type V = CollaboratorView;

    open spec fn view(&self) -> CollaboratorView {
        CollaboratorView { login: self.login@, permissions: self.permissions }
    }
}

impl Record for Collaborator {
    open spec fn decoded(doc: Json) -> Option<CollaboratorView> {
        match (doc.field_text("login"@), decoded_permissions(doc)) {
            (Some(login), Some(permissions)) => Some(CollaboratorView { login, permissions }),
            _ => None,
        }
    }

    fn decode(doc: &Json) -> (r: Option<Self>) {
        let login = field_string(doc, "login");
        let permissions = decode_permissions(doc);
        match (login, permissions) {
            (Some(login), Some(permissions)) => Some(Collaborator { login, permissions }),
            _ => None,
        }
    }

    fn equals(&self, other: &Self) -> (r: bool) {
        str_eq(self.login.as_str(), other.login.as_str()) && self.permissions
            == other.permissions
    }
}

/// A member of the organization.
#[derive(Debug)]
pub struct Member {
    pub avatar_url: String,
    pub login: String,
}

/// What tells two members apart.
pub ghost struct MemberView {
    pub avatar_url: Seq<char>,
    pub login: Seq<char>,
}

impl View for Member {
    type V = MemberView;

    open spec fn view(&self) -> MemberView {
        MemberView { avatar_url: self.avatar_url@, login: self.login@ }
    }
}

impl Record for Member {
    open spec fn decoded(doc: Json) -> Option<MemberView> {
        match (doc.field_text("avatar_url"@), doc.field_text("login"@)) {
            (Some(avatar_url), Some(login)) => Some(MemberView { avatar_url, login }),
            _ => None,
        }
    }

    fn decode(doc: &Json) -> (r: Option<Self>) {
        let avatar_url = field_string(doc, "avatar_url");
        let login = field_string(doc, "login");
        match (avatar_url, login) {
            (Some(avatar_url), Some(login)) => Some(Member { avatar_url, login }),
            _ => None,
        }
    }

    fn equals(&self, other: &Self) -> (r: bool) {
        str_eq(self.avatar_url.as_str(), other.avatar_url.as_str()) && str_eq(
            self.login.as_str(),
            other.login.as_str(),
        )
    }
}

impl GitHubIndex for Member {
    open spec fn index_text(&self) -> Seq<char> {
        self.login@
    }

    fn index(&self) -> (r: String) {
        self.login.clone()
    }
}

/// Which of the security features that the repository audit counts are
/// switched on for a repository.
#[derive(Clone, Copy, Debug, PartialEq, Eq, Structural, Hash)]
pub struct SecuritySettings {
    pub secret_scanning: bool,
    pub secret_scanning_push_protection: bool,
    pub dependabot_security_updates: bool,
}

/// Whether the member `feature` of a `security_and_analysis` object reports
/// the status `enabled`.
pub open spec fn feature_enabled(settings: Json, feature: Seq<char>) -> bool {
    match settings.field(feature) {
        Some(f) => f.field_text("status"@) == Some("enabled"@),
        None => false,
    }
}

/// Reads whether a feature is switched on.
fn decode_feature(settings: &Json, feature: &str) -> (r: bool)
    ensures
        r == feature_enabled(*settings, feature@),
{
    match settings.get(feature) {
        Some(f) => f.has_text("status", "enabled"),
        None => false,
    }
}

impl SecuritySettings {
    /// The settings that a repository document reports: a feature is on where
    /// the member `security_and_analysis` has it with the status `enabled`,
    /// and off in every other case.
    pub open spec fn decoded(doc: Json) -> SecuritySettings {
        match doc.field("security_and_analysis"@) {
            Some(s) => SecuritySettings {
                secret_scanning: feature_enabled(s, "secret_scanning"@),
                secret_scanning_push_protection: feature_enabled(
                    s,
                    "secret_scanning_push_protection"@,
                ),
                dependabot_security_updates: feature_enabled(s, "dependabot_security_updates"@),
            },
            None => SecuritySettings {
                secret_scanning: false,
                secret_scanning_push_protection: false,
                dependabot_security_updates: false,
            },
        }
    }

    /// Reads the settings from a repository document.
    pub fn decode(doc: &Json) -> (r: SecuritySettings)
        ensures
            r == SecuritySettings::decoded(*doc),
    {
        match doc.get("security_and_analysis") {
            Some(s) => SecuritySettings {
                secret_scanning: decode_feature(s, "secret_scanning"),
                secret_scanning_push_protection: decode_feature(
                    s,
                    "secret_scanning_push_protection",
                ),
                dependabot_security_updates: decode_feature(s, "dependabot_security_updates"),
            },
            None => SecuritySettings {
                secret_scanning: false,
                secret_scanning_push_protection: false,
                dependabot_security_updates: false,
            },
        }
    }
}

/// A repository of the organization.
#[derive(Debug)]
pub struct Repository {
    pub name: String,
    pub private: bool,
    pub archived: bool,
    pub disabled: bool,
    /// `public`, `private` or `internal`, where the listing says.
    pub visibility: Option<String>,
    pub permissions: Permissions,
    pub security: SecuritySettings,
}

/// What tells two repositories apart.
pub ghost struct RepositoryView {
    pub name: Seq<char>,
    pub private: bool,
    pub archived: bool,
    pub disabled: bool,
    pub visibility: Option<Seq<char>>,
    pub permissions: Permissions,
    pub security: SecuritySettings,
}

impl View for Repository {
    type V = RepositoryView;

    open spec fn view(&self) -> RepositoryView {
        RepositoryView {
            name: self.name@,
            private: self.private,
            archived: self.archived,
            disabled: self.disabled,
            visibility: option_text(self.visibility),
            permissions: self.permissions,
            security: self.security,
        }
    }
}

impl Repository {
    /// Whether the named security feature is switched on; a name that is
    /// none of the three features is never on.
    pub open spec fn security_property_enabled(self, property: Seq<char>) -> bool {
        if property == "secret_scanning"@ {
            self.security.secret_scanning
        } else if property == "secret_scanning_push_protection"@ {
            self.security.secret_scanning_push_protection
        } else if property == "dependabot_security_updates"@ {
            self.security.dependabot_security_updates
        } else {
            false
        }
    }

    /// A repository known by its name alone, as the caller names it on the
    /// command line: public, active, with no access recorded.
    pub fn named(name: String) -> (r: Repository)
        ensures
            r.name == name,
            !r.private && !r.archived && !r.disabled,
            r.visibility is None,
            r.permissions == Permissions::nothing(),
    {
        Repository {
            name,
            private: false,
            archived: false,
            disabled: false,
            visibility: None,
            permissions: Permissions::none(),
            security: SecuritySettings {
                secret_scanning: false,
                secret_scanning_push_protection: false,
                dependabot_security_updates: false,
            },
        }
    }

    /// Whether the named security feature is switched on.
    pub fn is_security_property_enabled(&self, property: &str) -> (r: bool)
        ensures
            r == self.security_property_enabled(property@),
    {
        if str_eq(property, "secret_scanning") {
            self.security.secret_scanning
        } else if str_eq(property, "secret_scanning_push_protection") {
            self.security.secret_scanning_push_protection
        } else if str_eq(property, "dependabot_security_updates") {
            self.security.dependabot_security_updates
        } else {
            false
        }
    }

    /// Whether the repository's visibility is `visibility`.
    pub fn has_visibility(&self, visibility: &str) -> (r: bool)
        ensures
            r == (option_text(self.visibility) == Some(visibility@)),
    {
        match &self.visibility {
            Some(v) => str_eq(v.as_str(), visibility),
            None => false,
        }
    }
}

impl Record for Repository {
    open spec fn decoded(doc: Json) -> Option<RepositoryView> {
        match (
            doc.field_text("name"@),
            doc.field_truth("private"@),
            doc.field_truth("archived"@),
            doc.field_truth("disabled"@),
            optional_text(doc, "visibility"@),
            decoded_permissions(doc),
        ) {
            (
                Some(name),
                Some(private),
                Some(archived),
                Some(disabled),
                Some(visibility),
                Some(permissions),
            ) => Some(
                RepositoryView {
                    name,
                    private,
                    archived,
                    disabled,
                    visibility,
                    permissions,
                    security: SecuritySettings::decoded(doc),
                },
            ),
            _ => None,
        }
    }

    fn decode(doc: &Json) -> (r: Option<Self>) {
        let name = field_string(doc, "name");
        let private = doc.get_bool("private");
        let archived = doc.get_bool("archived");
        let disabled = doc.get_bool("disabled");
        let visibility = field_optional_string(doc, "visibility");
        let permissions = decode_permissions(doc);
        match (name, private, archived, disabled, visibility, permissions) {
            (
                Some(name),
                Some(private),
                Some(archived),
                Some(disabled),
                Some(visibility),
                Some(permissions),
            ) => Some(
                Repository {
                    name,
                    private,
                    archived,
                    disabled,
                    visibility,
                    permissions,
                    security: SecuritySettings::decode(doc),
                },
            ),
            _ => None,
        }
    }

    fn equals(&self, other: &Self) -> (r: bool) {
        str_eq(self.name.as_str(), other.name.as_str()) && self.private == other.private
            && self.archived == other.archived && self.disabled == other.disabled
            && option_str_eq(&self.visibility, &other.visibility) && self.permissions
            == other.permissions && self.security == other.security
    }
}

/// A team of the organization; on a repository's team listing it carries the
/// access that the team has there.
#[derive(Debug)]
pub struct Team {
    pub name: String,
    pub slug: String,
    pub permissions: Option<Permissions>,
}

/// What tells two teams apart.
pub ghost struct TeamView {
    pub name: Seq<char>,
    pub slug: Seq<char>,
    pub permissions: Option<Permissions>,
}

impl View for Team {
    type V = TeamView;

    open spec fn view(&self) -> TeamView {
        TeamView { name: self.name@, slug: self.slug@, permissions: self.permissions }
    }
}

impl Record for Team {
    open spec fn decoded(doc: Json) -> Option<TeamView> {
        match (
            doc.field_text("name"@),
            doc.field_text("slug"@),
            Permissions::decoded_optional(doc, "permissions"@),
        ) {
            (Some(name), Some(slug), Some(permissions)) => Some(
                TeamView { name, slug, permissions },
            ),
            _ => None,
        }
    }

    fn decode(doc: &Json) -> (r: Option<Self>) {
        let name = field_string(doc, "name");
        let slug = field_string(doc, "slug");
        let permissions = Permissions::decode_optional(doc, "permissions");
        match (name, slug, permissions) {
            (Some(name), Some(slug), Some(permissions)) => Some(Team { name, slug, permissions }),
            _ => None,
        }
    }

    fn equals(&self, other: &Self) -> (r: bool) {
        str_eq(self.name.as_str(), other.name.as_str()) && str_eq(
            self.slug.as_str(),
            other.slug.as_str(),
        ) && self.permissions == other.permissions
    }
}

impl GitHubIndex for Team {
    open spec fn index_text(&self) -> Seq<char> {
        self.slug@
    }

    fn index(&self) -> (r: String) {
        self.slug.clone()
    }
}

/// The token and the organization that every request is made with.
#[derive(Debug)]
pub struct Bootstrap {
    pub token: String,
    pub org: String,
}

impl Bootstrap {
    /// The context for an organization, from values the caller has read.
    pub fn new(token: String, org: String) -> (r: Bootstrap)
        ensures
            r.token == token,
            r.org == org,
    {
        Bootstrap { token, org }
    }
}

} // verus!
