//! The sources that answer the checks of one repository: the repository's
//! metadata, the classic branch-protection rules, the rulesets and the
//! CODEOWNERS report. For each, what a reply amounts to and what the caller
//! does next.

use crate::fetch::{classify, envelope_error, FetchError};
use crate::json::{field_string, Json};
use crate::model::{option_text, Record};
use crate::paginate::{decode_page, decoded_items};
use crate::text::{contains, is_infix, str_eq};
use vstd::prelude::*;

verus! {

/// Why a source gave no answer.
#[derive(Clone, Copy, Debug, PartialEq, Eq, Structural, Hash)]
pub enum Errors {
    /// Access to the source is denied.
    NoAccess403,
    /// The source has nothing to offer, or could not be read.
    MissingOrError,
}

/// How often a request is made and how long the caller waits in between.
#[derive(Clone, Copy, Debug, PartialEq, Eq, Structural)]
pub struct RetryPolicy {
    /// The number of attempts that may fail before the caller gives up.
    pub max_attempts: u32,
    /// The wait between two attempts, in milliseconds.
    pub backoff_millis: u64,
}

/// How long to wait after a rate-limited reply, in milliseconds.
pub const RATE_LIMIT_COOL_DOWN_MILLIS: u64 = 60000;

impl RetryPolicy {
    /// Three attempts, half a second apart.
    pub open spec fn standard() -> RetryPolicy {
        RetryPolicy { max_attempts: 3, backoff_millis: 500 }
    }
}

impl Default for RetryPolicy {
    /// Three attempts, half a second apart.
    fn default() -> (r: Self)
        ensures
            r == RetryPolicy::standard(),
    {
        RetryPolicy { max_attempts: 3, backoff_millis: 500 }
    }
}

/// What one reply of a source amounts to.
#[derive(Debug)]
pub enum Attempt<T> {
    /// The source answered.
    Got(T),
    /// Access is denied: final.
    Denied,
    /// The source has nothing for this repository, or what it has cannot be
    /// read: final.
    Absent,
    /// The API asked the caller to slow down: repeat after the cool-down,
    /// without counting the attempt.
    Limited,
    /// The attempt failed: repeat while the budget lasts.
    Failed,
}

/// What the caller does after a reply.
#[derive(Debug)]
pub enum Progress<T> {
    /// The source is resolved.
    Done(T),
    /// The source is given up.
    Failed(Errors),
    /// Wait `wait_millis`, make the request again and hand the reply in with
    /// `attempts` as the count of attempts so far.
    Retry { attempts: u32, wait_millis: u64 },
}

/// The step that a reading calls for, `attempts` attempts having failed
/// before it.
pub open spec fn step_of<T>(attempt: Attempt<T>, attempts: u32, policy: RetryPolicy) -> Progress<
    T,
> {
    match attempt {
        Attempt::Got(x) => Progress::Done(x),
        Attempt::Denied => Progress::Failed(Errors::NoAccess403),
        Attempt::Absent => Progress::Failed(Errors::MissingOrError),
        Attempt::Limited => Progress::Retry { attempts, wait_millis: RATE_LIMIT_COOL_DOWN_MILLIS },
        Attempt::Failed => if attempts + 1 < policy.max_attempts {
            Progress::Retry {
                attempts: (attempts + 1) as u32,
                wait_millis: policy.backoff_millis,
            }
        } else {
            Progress::Failed(Errors::MissingOrError)
        },
    }
}

/// A reading with the answer replaced by its view.
pub open spec fn attempt_view<T: View>(attempt: Attempt<T>) -> Attempt<T::V> {
    match attempt {
        Attempt::Got(x) => Attempt::Got(x@),
        Attempt::Denied => Attempt::Denied,
        Attempt::Absent => Attempt::Absent,
        Attempt::Limited => Attempt::Limited,
        Attempt::Failed => Attempt::Failed,
    }
}

/// A step with the answer replaced by its view.
pub open spec fn progress_view<T: View>(progress: Progress<T>) -> Progress<T::V> {
    match progress {
        Progress::Done(x) => Progress::Done(x@),
        Progress::Failed(e) => Progress::Failed(e),
        Progress::Retry { attempts, wait_millis } => Progress::Retry { attempts, wait_millis },
    }
}

/// Says what the caller does after a reading.
pub fn next_step<T>(attempt: Attempt<T>, attempts: u32, policy: &RetryPolicy) -> (r: Progress<T>)
    ensures
        r == step_of(attempt, attempts, *policy),
{
    match attempt {
        Attempt::Got(x) => Progress::Done(x),
        Attempt::Denied => Progress::Failed(Errors::NoAccess403),
        Attempt::Absent => Progress::Failed(Errors::MissingOrError),
        Attempt::Limited => Progress::Retry { attempts, wait_millis: RATE_LIMIT_COOL_DOWN_MILLIS },
        Attempt::Failed => {
            if policy.max_attempts > 0 && attempts < policy.max_attempts - 1 {
                Progress::Retry { attempts: attempts + 1, wait_millis: policy.backoff_millis }
            } else {
                Progress::Failed(Errors::MissingOrError)
            }
        },
    }
}

/// The default branch of a repository and, where the metadata has it, the
/// repository's visibility.
#[derive(Debug)]
pub struct RepoInfo {
    pub branch: String,
    pub visibility: Option<String>,
}

/// A `RepoInfo` as contracts see it.
pub ghost struct RepoInfoView {
    pub branch: Seq<char>,
    pub visibility: Option<Seq<char>>,
}

impl View for RepoInfo {
    type V = RepoInfoView;

    open spec fn view(&self) -> RepoInfoView {
        RepoInfoView { branch: self.branch@, visibility: option_text(self.visibility) }
    }
}

/// What a reply to the metadata request amounts to. Only a denial is final:
/// a reply without the string member `default_branch` is a failed attempt,
/// whatever else it holds.
pub open spec fn default_branch_reading(reply: Result<Json, FetchError>) -> Attempt<RepoInfoView> {
    match reply {
        Err(FetchError::RateLimited) => Attempt::Limited,
        Err(FetchError::Forbidden) => Attempt::Denied,
        Err(_) => Attempt::Failed,
        Ok(doc) => match envelope_error(doc) {
            Some(FetchError::RateLimited) => Attempt::Limited,
            Some(FetchError::Forbidden) => Attempt::Denied,
            _ => match doc.field_text("default_branch"@) {
                Some(branch) => Attempt::Got(
                    RepoInfoView { branch, visibility: doc.field_text("visibility"@) },
                ),
                None => Attempt::Failed,
            },
        },
    }
}

/// Reads a reply to the metadata request.
pub fn read_default_branch(reply: &Result<Json, FetchError>) -> (r: Attempt<RepoInfo>)
    ensures
        attempt_view(r) == default_branch_reading(*reply),
{
    match reply {
        Err(FetchError::RateLimited) => Attempt::Limited,
        Err(FetchError::Forbidden) => Attempt::Denied,
        Err(_) => Attempt::Failed,
        Ok(doc) => match classify(doc) {
            Some(FetchError::RateLimited) => Attempt::Limited,
            Some(FetchError::Forbidden) => Attempt::Denied,
            _ => match field_string(doc, "default_branch") {
                Some(branch) => {
                    let visibility = field_string(doc, "visibility");
                    Attempt::Got(RepoInfo { branch, visibility })
                },
                None => Attempt::Failed,
            },
        },
    }
}

/// Takes a reply to the metadata request of a repository, `attempts`
/// attempts having failed before, and says what to do next.
pub fn get_default_branch(
    reply: &Result<Json, FetchError>,
    attempts: u32,
    policy: &RetryPolicy,
) -> (r: Progress<RepoInfo>)
    ensures
        progress_view(r) == step_of(default_branch_reading(*reply), attempts, *policy),
{
    next_step(read_default_branch(reply), attempts, policy)
}

/// A switch of the classic rules.
#[derive(Clone, Copy, Debug, PartialEq, Eq, Structural)]
pub struct EnabledFlag {
    pub enabled: bool,
}

/// The status checks that the classic rules require.
#[derive(Clone, Copy, Debug, PartialEq, Eq, Structural)]
pub struct RequiredStatusChecks {
    /// How many checks are required.
    pub checks: usize,
}

/// What the classic rules ask of pull-request reviews.
#[derive(Clone, Copy, Debug, PartialEq, Eq, Structural)]
pub struct PullRequestReviews {
    pub required_approving_review_count: u32,
    pub dismiss_stale_reviews: bool,
    pub require_code_owner_reviews: bool,
}

/// The classic protection rules of a branch.
#[derive(Clone, Copy, Debug, PartialEq, Eq, Structural)]
pub struct BprResponse {
    pub allow_force_pushes: Option<EnabledFlag>,
    pub allow_deletions: Option<EnabledFlag>,
    pub required_signatures: Option<EnabledFlag>,
    pub required_status_checks: Option<RequiredStatusChecks>,
    pub required_pull_request_reviews: Option<PullRequestReviews>,
}

impl View for BprResponse {
    type V = BprResponse;

    open spec fn view(&self) -> BprResponse {
        *self
    }
}

/// An optional member: a missing member and `null` are both absent.
pub open spec fn optional_member(doc: Json, key: Seq<char>) -> Option<Json> {
    match doc.field(key) {
        Some(Json::Null) => None,
        other => other,
    }
}

/// Looks an optional member up.
fn get_optional<'a>(doc: &'a Json, key: &str) -> (r: Option<&'a Json>)
    ensures
        r is Some <==> optional_member(*doc, key@) is Some,
        r matches Some(v) ==> optional_member(*doc, key@) == Some(*v),
{
    match doc.get(key) {
        Some(Json::Null) => None,
        other => other,
    }
}

/// The optional switch `key`: an error (the outer `None`) where the member
/// is there without a boolean `enabled`.
pub open spec fn decoded_flag(doc: Json, key: Seq<char>) -> Option<Option<EnabledFlag>> {
    match optional_member(doc, key) {
        None => Some(None),
        Some(v) => match v.field_truth("enabled"@) {
            Some(enabled) => Some(Some(EnabledFlag { enabled })),
            None => None,
        },
    }
}

/// The optional member `required_status_checks`: an error where it is there
/// without an array `checks`, or with more checks than can be counted.
pub open spec fn decoded_status_checks(doc: Json) -> Option<Option<RequiredStatusChecks>> {
    match optional_member(doc, "required_status_checks"@) {
        None => Some(None),
        Some(v) => match v.field_items("checks"@) {
            Some(items) => Some(Some(RequiredStatusChecks { checks: items.len() as usize })),
            None => None,
        },
    }
}

/// The optional member `required_pull_request_reviews`: an error where it is
/// there and one of its three members is missing or of the wrong kind.
pub open spec fn decoded_reviews(doc: Json) -> Option<Option<PullRequestReviews>> {
    match optional_member(doc, "required_pull_request_reviews"@) {
        None => Some(None),
        Some(v) => match (
            v.field_natural("required_approving_review_count"@),
            v.field_truth("dismiss_stale_reviews"@),
            v.field_truth("require_code_owner_reviews"@),
        ) {
            (Some(count), Some(dismiss), Some(owner)) => if count <= u32::MAX {
                Some(
                    Some(
                        PullRequestReviews {
                            required_approving_review_count: count as u32,
                            dismiss_stale_reviews: dismiss,
                            require_code_owner_reviews: owner,
                        },
                    ),
                )
            } else {
                None
            },
            _ => None,
        },
    }
}

impl BprResponse {
    /// The classic rules that a document holds: an object whose five members
    /// are each absent or of the expected shape.
    pub open spec fn decoded(doc: Json) -> Option<BprResponse> {
        if !(doc is Object) {
            None
        } else {
            match (
                decoded_flag(doc, "allow_force_pushes"@),
                decoded_flag(doc, "allow_deletions"@),
                decoded_flag(doc, "required_signatures"@),
                decoded_status_checks(doc),
                decoded_reviews(doc),
            ) {
                (Some(force), Some(deletions), Some(signatures), Some(status), Some(reviews)) => {
                    Some(
                        BprResponse {
                            allow_force_pushes: force,
                            allow_deletions: deletions,
                            required_signatures: signatures,
                            required_status_checks: status,
                            required_pull_request_reviews: reviews,
                        },
                    )
                },
                _ => None,
            }
        }
    }

    /// Reads the classic rules from a document.
    pub fn decode(doc: &Json) -> (r: Option<BprResponse>)
        ensures
            r == BprResponse::decoded(*doc),
    {
        match doc {
            Json::Object(_) => {},
            _ => {
                return None;
            },
        }
        let force = decode_flag(doc, "allow_force_pushes");
        let deletions = decode_flag(doc, "allow_deletions");
        let signatures = decode_flag(doc, "required_signatures");
        let status = decode_status_checks(doc);
        let reviews = decode_reviews(doc);
        match (force, deletions, signatures, status, reviews) {
            (Some(force), Some(deletions), Some(signatures), Some(status), Some(reviews)) => Some(
                BprResponse {
                    allow_force_pushes: force,
                    allow_deletions: deletions,
                    required_signatures: signatures,
                    required_status_checks: status,
                    required_pull_request_reviews: reviews,
                },
            ),
            _ => None,
        }
    }
}

/// Reads an optional switch.
fn decode_flag(doc: &Json, key: &str) -> (r: Option<Option<EnabledFlag>>)
    ensures
        r == decoded_flag(*doc, key@),
{
    match get_optional(doc, key) {
        None => Some(None),
        Some(v) => match v.get_bool("enabled") {
            Some(enabled) => Some(Some(EnabledFlag { enabled })),
            None => None,
        },
    }
}

/// Reads the optional member `required_status_checks`.
fn decode_status_checks(doc: &Json) -> (r: Option<Option<RequiredStatusChecks>>)
    ensures
        r == decoded_status_checks(*doc),
{
    match get_optional(doc, "required_status_checks") {
        None => Some(None),
        Some(v) => match v.get_array("checks") {
            Some(items) => Some(Some(RequiredStatusChecks { checks: items.len() })),
            None => None,
        },
    }
}

/// Reads the optional member `required_pull_request_reviews`.
fn decode_reviews(doc: &Json) -> (r: Option<Option<PullRequestReviews>>)
    ensures
        r == decoded_reviews(*doc),
{
    match get_optional(doc, "required_pull_request_reviews") {
        None => Some(None),
        Some(v) => {
            let count = v.get_u64("required_approving_review_count");
            let dismiss = v.get_bool("dismiss_stale_reviews");
            let owner = v.get_bool("require_code_owner_reviews");
            match (count, dismiss, owner) {
                (Some(count), Some(dismiss), Some(owner)) => {
                    if count <= 0xffff_ffff {
                        Some(
                            Some(
                                PullRequestReviews {
                                    required_approving_review_count: count as u32,
                                    dismiss_stale_reviews: dismiss,
                                    require_code_owner_reviews: owner,
                                },
                            ),
                        )
                    } else {
                        None
                    }
                },
                _ => None,
            }
        },
    }
}

/// The notice with which the API denies access to the classic rules.
pub open spec fn not_accessible_notice() -> Seq<char> {
    "Resource not accessible"@
}

/// Whether a document denies access: by the status `403` or by its message.
pub open spec fn denies_access(doc: Json) -> bool {
    doc.field_text("status"@) == Some("403"@) || (doc.field_text("message"@) is Some && is_infix(
        doc.field_text("message"@)->0,
        not_accessible_notice(),
    ))
}

/// What a reply to the request for the classic rules amounts to. A `404`
/// says that no classic protection is configured; a document that cannot be
/// read as rules is given up at once.
pub open spec fn bpr_reading(reply: Result<Json, FetchError>) -> Attempt<BprResponse> {
    match reply {
        Err(FetchError::RateLimited) => Attempt::Limited,
        Err(FetchError::Forbidden) => Attempt::Denied,
        Err(FetchError::NotFound) => Attempt::Absent,
        Err(_) => Attempt::Failed,
        Ok(doc) => if envelope_error(doc) == Some(FetchError::RateLimited) {
            Attempt::Limited
        } else if doc.field_text("status"@) == Some("404"@) {
            Attempt::Absent
        } else if denies_access(doc) {
            Attempt::Denied
        } else {
            match BprResponse::decoded(doc) {
                Some(rules) => Attempt::Got(rules),
                None => Attempt::Absent,
            }
        },
    }
}

/// Reads a reply to the request for the classic rules.
pub fn read_bpr(reply: &Result<Json, FetchError>) -> (r: Attempt<BprResponse>)
    ensures
        r == bpr_reading(*reply),
{
    match reply {
        Err(FetchError::RateLimited) => Attempt::Limited,
        Err(FetchError::Forbidden) => Attempt::Denied,
        Err(FetchError::NotFound) => Attempt::Absent,
        Err(_) => Attempt::Failed,
        Ok(doc) => {
            let limited = match classify(doc) {
                Some(FetchError::RateLimited) => true,
                _ => false,
            };
            if limited {
                return Attempt::Limited;
            }
            if doc.has_text("status", "404") {
                return Attempt::Absent;
            }
            let by_message = match doc.get_str("message") {
                Some(m) => contains(m, "Resource not accessible"),
                None => false,
            };
            if doc.has_text("status", "403") || by_message {
                return Attempt::Denied;
            }
            match BprResponse::decode(doc) {
                Some(rules) => Attempt::Got(rules),
                None => Attempt::Absent,
            }
        },
    }
}

/// Takes a reply to the request for the classic rules of a branch and says
/// what to do next.
pub fn get_bpr(reply: &Result<Json, FetchError>, attempts: u32, policy: &RetryPolicy) -> (r:
    Progress<BprResponse>)
    ensures
        r == step_of(bpr_reading(*reply), attempts, *policy),
{
    next_step(read_bpr(reply), attempts, policy)
}

/// The kinds of rule that the checks look at.
#[derive(Clone, Copy, Debug, PartialEq, Eq, Structural, Hash)]
pub enum RuleKind {
    Deletion,
    RequiredSignatures,
    NonFastForward,
    PullRequest,
    RequiredStatusChecks,
    /// Any other kind of rule.
    Other,
}

impl RuleKind {
    /// The kind that a rule's `type` names.
    pub open spec fn named(name: Seq<char>) -> RuleKind {
        if name == "deletion"@ {
            RuleKind::Deletion
        } else if name == "required_signatures"@ {
            RuleKind::RequiredSignatures
        } else if name == "non_fast_forward"@ {
            RuleKind::NonFastForward
        } else if name == "pull_request"@ {
            RuleKind::PullRequest
        } else if name == "required_status_checks"@ {
            RuleKind::RequiredStatusChecks
        } else {
            RuleKind::Other
        }
    }

    /// The kind that a rule's `type` names.
    pub fn from_name(name: &str) -> (r: RuleKind)
        ensures
            r == RuleKind::named(name@),
    {
        if str_eq(name, "deletion") {
            RuleKind::Deletion
        } else if str_eq(name, "required_signatures") {
            RuleKind::RequiredSignatures
        } else if str_eq(name, "non_fast_forward") {
            RuleKind::NonFastForward
        } else if str_eq(name, "pull_request") {
            RuleKind::PullRequest
        } else if str_eq(name, "required_status_checks") {
            RuleKind::RequiredStatusChecks
        } else {
            RuleKind::Other
        }
    }
}

/// The parameters of a rule that the checks look at, each as far as the rule
/// has it with the expected kind of value.
#[derive(Clone, Copy, Debug, PartialEq, Eq, Structural)]
pub struct RuleParameters {
    pub required_approving_review_count: Option<u64>,
    pub dismiss_stale_reviews_on_push: Option<bool>,
    pub require_code_owner_review: Option<bool>,
    /// How many status checks the rule requires.
    pub required_status_checks: Option<usize>,
}

impl RuleParameters {
    /// The parameters that a document holds.
    pub open spec fn decoded(doc: Json) -> RuleParameters {
        RuleParameters {
            required_approving_review_count: doc.field_natural(
                "required_approving_review_count"@,
            ),
            dismiss_stale_reviews_on_push: doc.field_truth("dismiss_stale_reviews_on_push"@),
            require_code_owner_review: doc.field_truth("require_code_owner_review"@),
            required_status_checks: match doc.field_items("required_status_checks"@) {
                Some(items) => Some(items.len() as usize),
                None => None,
            },
        }
    }

    /// Reads the parameters from a document.
    pub fn decode(doc: &Json) -> (r: RuleParameters)
        ensures
            r == RuleParameters::decoded(*doc),
    {
        RuleParameters {
            required_approving_review_count: doc.get_u64("required_approving_review_count"),
            dismiss_stale_reviews_on_push: doc.get_bool("dismiss_stale_reviews_on_push"),
            require_code_owner_review: doc.get_bool("require_code_owner_review"),
            required_status_checks: match doc.get_array("required_status_checks") {
                Some(items) => Some(items.len()),
                None => None,
            },
        }
    }
}

/// One rule of the rulesets that apply to a branch.
#[derive(Clone, Copy, Debug, PartialEq, Eq, Structural)]
pub struct RulesetRule {
    pub kind: RuleKind,
    pub parameters: Option<RuleParameters>,
}

impl View for RulesetRule {
    type V = RulesetRule;

    open spec fn view(&self) -> RulesetRule {
        *self
    }
}

impl Record for RulesetRule {
    /// A rule is an object with a string `type`; its `parameters` may be
    /// missing.
    open spec fn decoded(doc: Json) -> Option<RulesetRule> {
        match doc.field_text("type"@) {
            Some(name) => Some(
                RulesetRule {
                    kind: RuleKind::named(name),
                    parameters: match optional_member(doc, "parameters"@) {
                        Some(p) => Some(RuleParameters::decoded(p)),
                        None => None,
                    },
                },
            ),
            None => None,
        }
    }

    fn decode(doc: &Json) -> (r: Option<Self>) {
        match doc.get_str("type") {
            Some(name) => Some(
                RulesetRule {
                    kind: RuleKind::from_name(name),
                    parameters: match get_optional(doc, "parameters") {
                        Some(p) => Some(RuleParameters::decode(p)),
                        None => None,
                    },
                },
            ),
            None => None,
        }
    }

    fn equals(&self, other: &Self) -> (r: bool) {
        *self == *other
    }
}

/// What a reply to the request for the rulesets amounts to: an array of
/// rules is the answer, anything else that is no denial is given up at once.
pub open spec fn rules_reading(reply: Result<Json, FetchError>) -> Attempt<Seq<RulesetRule>> {
    match reply {
        Err(FetchError::RateLimited) => Attempt::Limited,
        Err(FetchError::Forbidden) => Attempt::Denied,
        Err(FetchError::NotFound) => Attempt::Absent,
        Err(_) => Attempt::Failed,
        Ok(doc) => if envelope_error(doc) == Some(FetchError::RateLimited) {
            Attempt::Limited
        } else if doc.field_text("status"@) == Some("403"@) {
            Attempt::Denied
        } else {
            match doc {
                Json::Array(docs) => match decoded_items::<RulesetRule>(docs@) {
                    Some(rules) => Attempt::Got(rules),
                    None => Attempt::Absent,
                },
                _ => Attempt::Absent,
            }
        },
    }
}

/// Reads a reply to the request for the rulesets.
pub fn read_rules(reply: &Result<Json, FetchError>) -> (r: Attempt<Vec<RulesetRule>>)
    ensures
        attempt_view(r) == rules_reading(*reply),
{
    match reply {
        Err(FetchError::RateLimited) => Attempt::Limited,
        Err(FetchError::Forbidden) => Attempt::Denied,
        Err(FetchError::NotFound) => Attempt::Absent,
        Err(_) => Attempt::Failed,
        Ok(doc) => {
            let limited = match classify(doc) {
                Some(FetchError::RateLimited) => true,
                _ => false,
            };
            if limited {
                return Attempt::Limited;
            }
            if doc.has_text("status", "403") {
                return Attempt::Denied;
            }
            match doc {
                Json::Array(docs) => match decode_page::<RulesetRule>(docs) {
                    Some(rules) => {
                        proof {
                            assert(crate::paginate::views(rules@) =~= rules@);
                        }
                        Attempt::Got(rules)
                    },
                    None => Attempt::Absent,
                },
                _ => Attempt::Absent,
            }
        },
    }
}

/// Takes a reply to the request for the rulesets of a branch and says what
/// to do next.
pub fn get_rules(reply: &Result<Json, FetchError>, attempts: u32, policy: &RetryPolicy) -> (r:
    Progress<Vec<RulesetRule>>)
    ensures
        progress_view(r) == step_of(rules_reading(*reply), attempts, *policy),
{
    next_step(read_rules(reply), attempts, policy)
}

/// What GitHub reports of a repository's CODEOWNERS file.
#[derive(Clone, Copy, Debug, PartialEq, Eq, Structural, Hash)]
pub enum CodeownersStatus {
    /// The file is there and has no errors.
    Valid,
    /// The file is there and has errors.
    Invalid,
    /// There is no file.
    Missing,
}

impl View for CodeownersStatus {
    type V = CodeownersStatus;

    open spec fn view(&self) -> CodeownersStatus {
        *self
    }
}

/// What a reply to the request for the CODEOWNERS errors amounts to. A
/// document without the member `errors` says that the file is missing; an
/// `errors` that is no array is given up at once.
pub open spec fn codeowners_reading(reply: Result<Json, FetchError>) -> Attempt<CodeownersStatus> {
    match reply {
        Err(FetchError::RateLimited) => Attempt::Limited,
        Err(FetchError::Forbidden) => Attempt::Denied,
        Err(FetchError::NotFound) => Attempt::Got(CodeownersStatus::Missing),
        Err(_) => Attempt::Failed,
        Ok(doc) => if envelope_error(doc) == Some(FetchError::RateLimited) {
            Attempt::Limited
        } else if doc.field_text("status"@) == Some("403"@) {
            Attempt::Denied
        } else {
            match doc.field("errors"@) {
                None => Attempt::Got(CodeownersStatus::Missing),
                Some(errors) => match errors.items() {
                    Some(items) => if items.len() == 0 {
                        Attempt::Got(CodeownersStatus::Valid)
                    } else {
                        Attempt::Got(CodeownersStatus::Invalid)
                    },
                    None => Attempt::Absent,
                },
            }
        },
    }
}

/// Reads a reply to the request for the CODEOWNERS errors.
pub fn read_codeowners(reply: &Result<Json, FetchError>) -> (r: Attempt<CodeownersStatus>)
    ensures
        r == codeowners_reading(*reply),
{
    match reply {
        Err(FetchError::RateLimited) => Attempt::Limited,
        Err(FetchError::Forbidden) => Attempt::Denied,
        Err(FetchError::NotFound) => Attempt::Got(CodeownersStatus::Missing),
        Err(_) => Attempt::Failed,
        Ok(doc) => {
            let limited = match classify(doc) {
                Some(FetchError::RateLimited) => true,
                _ => false,
            };
            if limited {
                return Attempt::Limited;
            }
            if doc.has_text("status", "403") {
                return Attempt::Denied;
            }
            match doc.get("errors") {
                None => Attempt::Got(CodeownersStatus::Missing),
                Some(errors) => match errors.as_array() {
                    Some(items) => {
                        if items.len() == 0 {
                            Attempt::Got(CodeownersStatus::Valid)
                        } else {
                            Attempt::Got(CodeownersStatus::Invalid)
                        }
                    },
                    None => Attempt::Absent,
                },
            }
        },
    }
}

/// Takes a reply to the request for the CODEOWNERS errors of a repository
/// and says what to do next.
pub fn codeowners_exists_and_is_valid(
    reply: &Result<Json, FetchError>,
    attempts: u32,
    policy: &RetryPolicy,
) -> (r: Progress<CodeownersStatus>)
    ensures
        r == step_of(codeowners_reading(*reply), attempts, *policy),
{
    next_step(read_codeowners(reply), attempts, policy)
}

/// The places where a CODEOWNERS file can lie, in the order in which GitHub
/// looks for it.
pub open spec fn codeowners_locations() -> Seq<Seq<char>> {
    seq![".github/CODEOWNERS"@, "CODEOWNERS"@, "docs/CODEOWNERS"@]
}

/// The place with the given number.
pub fn codeowners_location(index: usize) -> (r: &'static str)
    requires
        index < 3,
    ensures
        r@ == codeowners_locations()[index as int],
{
    if index == 0 {
        ".github/CODEOWNERS"
    } else if index == 1 {
        "CODEOWNERS"
    } else {
        "docs/CODEOWNERS"
    }
}

/// Whether the reply to a request for a file's contents shows the file: a
/// document that is no `404` and names a `path`.
pub open spec fn shows_file(reply: Result<Json, FetchError>) -> bool {
    match reply {
        Ok(doc) => doc.field_text("status"@) != Some("404"@) && doc.field_text("path"@) is Some,
        Err(_) => false,
    }
}

/// What the search for the CODEOWNERS file does next.
#[derive(Debug)]
pub enum PathSearch {
    /// The file lies here.
    Found(String),
    /// Ask for the place with this number.
    TryNext(usize),
    /// The file lies in none of the places.
    NotFound,
}

/// The step after the reply for the place `index`.
pub open spec fn path_search(index: usize, reply: Result<Json, FetchError>) -> Option<
    Option<Seq<char>>,
> {
    if index >= 3 {
        Some(None)
    } else if shows_file(reply) {
        Some(Some(codeowners_locations()[index as int]))
    } else if index == 2 {
        Some(None)
    } else {
        None
    }
}

/// Takes the reply to the request for the contents of the place `index` and
/// says where the file lies, or which place to ask for next. The search
/// starts with place 0.
pub fn find_codeowners_path(index: usize, reply: &Result<Json, FetchError>) -> (r: PathSearch)
    ensures
        match path_search(index, *reply) {
            Some(Some(path)) => r matches PathSearch::Found(p) && p@ == path,
            Some(None) => r is NotFound,
            None => r == PathSearch::TryNext((index + 1) as usize),
        },
{
    if index >= 3 {
        return PathSearch::NotFound;
    }
    let shown = match reply {
        Ok(doc) => !doc.has_text("status", "404") && doc.get_str("path").is_some(),
        Err(_) => false,
    };
    if shown {
        PathSearch::Found(codeowners_location(index).to_owned())
    } else if index == 2 {
        PathSearch::NotFound
    } else {
        PathSearch::TryNext(index + 1)
    }
}

} // verus!
