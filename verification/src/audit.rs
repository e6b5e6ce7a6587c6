//! The audit of one repository, request by request: which source is asked
//! next, when a request is repeated, when the repository is left out, and
//! what the scorecard is once every source has answered.

use crate::bpr::{
    codeowners_errors_path, codeowners_errors_url, contents_path, contents_url, protection_path,
    protection_url, repo_path, repo_url, rules_path, rules_url,
};
use crate::checks::{CheckName, CheckOutcome, ProtectionChecks};
use crate::engine::{merged_outcome, resolve_checks, rules_view};
use crate::fetch::FetchError;
use crate::json::Json;
use crate::ledger::{
    ledger_row, print_report, report_text, row_fields, visibility_label, visibility_text,
};
use crate::model::{option_text, Bootstrap};
use crate::selection::Selection;
use crate::sources::{
    bpr_reading, codeowners_exists_and_is_valid, codeowners_location, codeowners_locations,
    codeowners_reading, default_branch_reading, find_codeowners_path, get_bpr, get_default_branch,
    get_rules, path_search, rules_reading, step_of, BprResponse, CodeownersStatus, Errors,
    PathSearch, Progress, RepoInfo, RepoInfoView, RetryPolicy, RulesetRule,
    RATE_LIMIT_COOL_DOWN_MILLIS,
};
use crate::text::texts;
use vstd::prelude::*;

verus! {

/// The request that an audit waits on.
#[derive(Clone, Copy, Debug, PartialEq, Eq, Structural)]
pub enum Stage {
    /// The metadata of the repository, for its default branch.
    Branch,
    /// The classic protection rules of the default branch.
    Classic,
    /// The rulesets that apply to the default branch.
    Rules,
    /// The errors of the CODEOWNERS file.
    Codeowners,
    /// The contents of the place with this number where a CODEOWNERS file
    /// can lie.
    Path(usize),
}

/// The audit of one repository while it waits on a request.
#[derive(Debug)]
pub struct RepoAudit {
    repo: String,
    selection: Selection,
    policy: RetryPolicy,
    to_ledger: bool,
    stage: Stage,
    attempts: u32,
    info: Option<RepoInfo>,
    classic: Option<Result<BprResponse, Errors>>,
    rules: Option<Result<Vec<RulesetRule>, Errors>>,
    codeowners: Option<Result<CodeownersStatus, Errors>>,
}

/// A `RepoAudit` as contracts see it.
pub ghost struct AuditView {
    /// The name of the repository.
    pub repo: Seq<char>,
    /// The checks that the audit is asked for.
    pub selection: Selection,
    /// How often a failed request is repeated, and after what pause.
    pub policy: RetryPolicy,
    /// Whether the result goes to the ledger, which also records where the
    /// CODEOWNERS file lies.
    pub to_ledger: bool,
    /// The request that the audit waits on.
    pub stage: Stage,
    /// How many attempts at this request have failed.
    pub attempts: u32,
    /// The default branch, once it is known.
    pub info: Option<RepoInfoView>,
    /// What the classic rules gave, once they were asked.
    pub classic: Option<Result<BprResponse, Errors>>,
    /// What the rulesets gave, once they were asked.
    pub rules: Option<Result<Seq<RulesetRule>, Errors>>,
    /// What the CODEOWNERS errors gave, once they were asked.
    pub codeowners: Option<Result<CodeownersStatus, Errors>>,
}

/// The result of an audit.
#[derive(Debug)]
pub struct Verdict {
    /// The default branch and the visibility of the repository.
    pub info: RepoInfo,
    /// The scorecard.
    pub checks: ProtectionChecks,
    /// Where the CODEOWNERS file lies; empty where it was not looked for or
    /// not found.
    pub codeowners_path: String,
}

/// What the caller does next.
#[derive(Debug)]
pub enum Turn {
    /// Wait `wait_millis`, ask for `path` and hand the reply to `audit`.
    Ask { audit: RepoAudit, path: String, wait_millis: u64 },
    /// Leave the repository out: its default branch could not be had.
    Skip(Errors),
    /// The audit is done.
    Finished(Verdict),
}

/// A `Turn` as contracts see it.
pub ghost enum TurnView {
    Ask { audit: AuditView, path: Seq<char>, wait_millis: u64 },
    Skip(Errors),
    Finished {
        info: RepoInfoView,
        checks: Map<CheckName, CheckOutcome>,
        codeowners_path: Seq<char>,
    },
}

/// What a source gave, with the rules as a sequence.
pub open spec fn optional_rules(outcome: Option<Result<Vec<RulesetRule>, Errors>>) -> Option<
    Result<Seq<RulesetRule>, Errors>,
> {
    match outcome {
        Some(o) => Some(rules_view(o)),
        None => None,
    }
}

/// The default branch of an audit as contracts see it.
pub open spec fn optional_info(info: Option<RepoInfo>) -> Option<RepoInfoView> {
    match info {
        Some(i) => Some(i@),
        None => None,
    }
}

impl View for RepoAudit {
    type V = AuditView;

    closed spec fn view(&self) -> AuditView {
        AuditView {
            repo: self.repo@,
            selection: self.selection,
            policy: self.policy,
            to_ledger: self.to_ledger,
            stage: self.stage,
            attempts: self.attempts,
            info: optional_info(self.info),
            classic: self.classic,
            rules: optional_rules(self.rules),
            codeowners: self.codeowners,
        }
    }
}

impl View for Turn {
    type V = TurnView;

    open spec fn view(&self) -> TurnView {
        match *self {
            Turn::Ask { audit, path, wait_millis } => TurnView::Ask {
                audit: audit@,
                path: path@,
                wait_millis,
            },
            Turn::Skip(e) => TurnView::Skip(e),
            Turn::Finished(v) => TurnView::Finished {
                info: v.info@,
                checks: v.checks@,
                codeowners_path: v.codeowners_path@,
            },
        }
    }
}

/// Whether a state can come up in an audit: the default branch is known
/// once the metadata request is over, a source is asked only where a check
/// that it feeds is selected, and the CODEOWNERS file is looked for only on
/// behalf of the ledger.
pub open spec fn coherent(s: AuditView) -> bool {
    &&& s.stage != Stage::Branch ==> s.info is Some
    &&& (s.stage == Stage::Classic || s.stage == Stage::Rules || s.classic is Some || s.rules is Some)
        ==> s.selection.wants_protection()
    &&& (s.stage == Stage::Codeowners || s.stage is Path || s.codeowners is Some)
        ==> s.selection.includes(CheckName::CodeownersValid)
    &&& s.stage matches Stage::Path(i) ==> i < 3 && s.to_ledger
}

/// The state in which an audit begins.
pub open spec fn initial(
    repo: Seq<char>,
    selection: Selection,
    policy: RetryPolicy,
    to_ledger: bool,
) -> AuditView {
    AuditView {
        repo,
        selection,
        policy,
        to_ledger,
        stage: Stage::Branch,
        attempts: 0,
        info: None,
        classic: None,
        rules: None,
        codeowners: None,
    }
}

/// The path that the request of a state goes to.
pub open spec fn request_path(s: AuditView, org: Seq<char>) -> Seq<char> {
    match s.stage {
        Stage::Branch => repo_path(org, s.repo),
        Stage::Classic => protection_path(org, s.repo, s.info->0.branch),
        Stage::Rules => rules_path(org, s.repo, s.info->0.branch),
        Stage::Codeowners => codeowners_errors_path(org, s.repo),
        Stage::Path(i) => contents_path(org, s.repo, codeowners_locations()[i as int]),
    }
}

/// The request that follows the one of a state, `None` where none does. The
/// two protection sources are asked one after the other, and only where a
/// protection check is selected; the CODEOWNERS errors only where that check
/// is selected; the places of the CODEOWNERS file after that, one by one,
/// and only for the ledger.
pub open spec fn stage_after(s: AuditView) -> Option<Stage> {
    match s.stage {
        Stage::Branch => if s.selection.wants_protection() {
            Some(Stage::Classic)
        } else if s.selection.includes(CheckName::CodeownersValid) {
            Some(Stage::Codeowners)
        } else {
            None
        },
        Stage::Classic => Some(Stage::Rules),
        Stage::Rules => if s.selection.includes(CheckName::CodeownersValid) {
            Some(Stage::Codeowners)
        } else {
            None
        },
        Stage::Codeowners => if s.to_ledger {
            Some(Stage::Path(0))
        } else {
            None
        },
        Stage::Path(i) => if i < 2 {
            Some(Stage::Path((i + 1) as usize))
        } else {
            None
        },
    }
}

/// The end of an audit: the scorecard that the answers of the sources merge
/// into, and the path of the CODEOWNERS file.
pub open spec fn verdict(s: AuditView, path: Seq<char>) -> TurnView {
    TurnView::Finished {
        info: s.info->0,
        checks: Map::total(
            |name: CheckName| merged_outcome(name, s.selection, s.classic, s.rules, s.codeowners),
        ),
        codeowners_path: path,
    }
}

/// The turn after the request of a state is over: the next request at
/// once, or the end of the audit.
pub open spec fn moved_on(s: AuditView, org: Seq<char>) -> TurnView {
    match stage_after(s) {
        Some(stage) => {
            let next = AuditView { stage, attempts: 0, ..s };
            TurnView::Ask { audit: next, path: request_path(next, org), wait_millis: 0 }
        },
        None => verdict(s, Seq::empty()),
    }
}

/// The turn that repeats the request of a state after a pause.
pub open spec fn repeated(s: AuditView, org: Seq<char>, attempts: u32, wait_millis: u64) -> TurnView {
    TurnView::Ask { audit: AuditView { attempts, ..s }, path: request_path(s, org), wait_millis }
}

/// The turn that begins an audit.
pub open spec fn opening(
    repo: Seq<char>,
    org: Seq<char>,
    selection: Selection,
    policy: RetryPolicy,
    to_ledger: bool,
) -> TurnView {
    let s = initial(repo, selection, policy, to_ledger);
    TurnView::Ask { audit: s, path: request_path(s, org), wait_millis: 0 }
}

/// The turn that a reply calls for. A repository whose default branch
/// cannot be had is left out. Every other source that gives up, or is
/// denied, is recorded as such and the audit goes on: no source ends it.
pub open spec fn audit_step(s: AuditView, org: Seq<char>, reply: Result<Json, FetchError>) -> TurnView {
    match s.stage {
        Stage::Branch => match step_of(default_branch_reading(reply), s.attempts, s.policy) {
            Progress::Done(info) => moved_on(AuditView { info: Some(info), ..s }, org),
            Progress::Failed(e) => TurnView::Skip(e),
            Progress::Retry { attempts, wait_millis } => repeated(s, org, attempts, wait_millis),
        },
        Stage::Classic => match step_of(bpr_reading(reply), s.attempts, s.policy) {
            Progress::Done(rules) => moved_on(AuditView { classic: Some(Ok(rules)), ..s }, org),
            Progress::Failed(e) => moved_on(AuditView { classic: Some(Err(e)), ..s }, org),
            Progress::Retry { attempts, wait_millis } => repeated(s, org, attempts, wait_millis),
        },
        Stage::Rules => match step_of(rules_reading(reply), s.attempts, s.policy) {
            Progress::Done(rules) => moved_on(AuditView { rules: Some(Ok(rules)), ..s }, org),
            Progress::Failed(e) => moved_on(AuditView { rules: Some(Err(e)), ..s }, org),
            Progress::Retry { attempts, wait_millis } => repeated(s, org, attempts, wait_millis),
        },
        Stage::Codeowners => match step_of(codeowners_reading(reply), s.attempts, s.policy) {
            Progress::Done(status) => moved_on(
                AuditView { codeowners: Some(Ok(status)), ..s },
                org,
            ),
            Progress::Failed(e) => moved_on(AuditView { codeowners: Some(Err(e)), ..s }, org),
            Progress::Retry { attempts, wait_millis } => repeated(s, org, attempts, wait_millis),
        },
        Stage::Path(i) => match path_search(i, reply) {
            Some(Some(path)) => verdict(s, path),
            Some(None) => verdict(s, Seq::empty()),
            None => moved_on(s, org),
        },
    }
}

impl RepoAudit {
    /// Whether the audit is in a state that can come up.
    pub open spec fn wf(&self) -> bool {
        coherent(self@)
    }

    /// The request that the audit waits on.
    pub fn stage(&self) -> (r: Stage)
        ensures
            r == self@.stage,
    {
        self.stage
    }

    /// How many attempts at the request have failed.
    pub fn attempts(&self) -> (r: u32)
        ensures
            r == self@.attempts,
    {
        self.attempts
    }

    /// Begins the audit of a repository: the first request is for its
    /// metadata.
    pub fn start(
        bootstrap: &Bootstrap,
        repo: String,
        selection: Selection,
        policy: RetryPolicy,
        to_ledger: bool,
    ) -> (r: Turn)
        ensures
            r@ == opening(repo@, bootstrap.org@, selection, policy, to_ledger),
            r matches Turn::Ask { audit, .. } && audit.wf(),
    {
        let path = repo_url(bootstrap, repo.as_str());
        let audit = RepoAudit {
            repo,
            selection,
            policy,
            to_ledger,
            stage: Stage::Branch,
            attempts: 0,
            info: None,
            classic: None,
            rules: None,
            codeowners: None,
        };
        Turn::Ask { audit, path, wait_millis: 0 }
    }

    /// The path that the request of the audit goes to.
    fn request(&self, bootstrap: &Bootstrap) -> (r: String)
        requires
            self.wf(),
        ensures
            r@ == request_path(self@, bootstrap.org@),
    {
        match self.stage {
            Stage::Branch => repo_url(bootstrap, self.repo.as_str()),
            Stage::Classic => match &self.info {
                Some(info) => protection_url(bootstrap, self.repo.as_str(), info.branch.as_str()),
                None => repo_url(bootstrap, self.repo.as_str()),
            },
            Stage::Rules => match &self.info {
                Some(info) => rules_url(bootstrap, self.repo.as_str(), info.branch.as_str()),
                None => repo_url(bootstrap, self.repo.as_str()),
            },
            Stage::Codeowners => codeowners_errors_url(bootstrap, self.repo.as_str()),
            Stage::Path(i) => contents_url(bootstrap, self.repo.as_str(), codeowners_location(i)),
        }
    }

    /// Ends the audit with the scorecard.
    fn finish(self, path: String) -> (r: Turn)
        requires
            self@.info is Some,
        ensures
            r@ == verdict(self@, path@),
    {
        let checks = resolve_checks(
            &self.selection,
            self.classic.as_ref(),
            self.rules.as_ref(),
            self.codeowners.as_ref(),
        );
        let ghost s = self@;
        proof {
            assert(checks@ =~= Map::total(
                |name: CheckName|
                    merged_outcome(name, s.selection, s.classic, s.rules, s.codeowners),
            ));
        }
        let info = self.info.unwrap();
        Turn::Finished(Verdict { info, checks, codeowners_path: path })
    }

    /// Goes on to the next request, or ends the audit where there is none.
    fn move_on(self, bootstrap: &Bootstrap) -> (r: Turn)
        requires
            self.wf(),
            self@.info is Some,
        ensures
            r@ == moved_on(self@, bootstrap.org@),
            r matches Turn::Ask { audit, .. } ==> audit.wf(),
    {
        let next = match self.stage {
            Stage::Branch => if self.selection.need_protection_sources() {
                Some(Stage::Classic)
            } else if self.selection.need_codeowners() {
                Some(Stage::Codeowners)
            } else {
                None
            },
            Stage::Classic => Some(Stage::Rules),
            Stage::Rules => if self.selection.need_codeowners() {
                Some(Stage::Codeowners)
            } else {
                None
            },
            Stage::Codeowners => if self.to_ledger {
                Some(Stage::Path(0))
            } else {
                None
            },
            Stage::Path(i) => if i < 2 {
                Some(Stage::Path(i + 1))
            } else {
                None
            },
        };
        match next {
            Some(stage) => {
                let mut audit = self;
                audit.stage = stage;
                audit.attempts = 0;
                let path = audit.request(bootstrap);
                Turn::Ask { audit, path, wait_millis: 0 }
            },
            None => self.finish(String::new()),
        }
    }

    /// Repeats the request after a pause.
    fn repeat(self, bootstrap: &Bootstrap, attempts: u32, wait_millis: u64) -> (r: Turn)
        requires
            self.wf(),
        ensures
            r@ == repeated(self@, bootstrap.org@, attempts, wait_millis),
            r matches Turn::Ask { audit, .. } && audit.wf(),
    {
        let path = self.request(bootstrap);
        let mut audit = self;
        audit.attempts = attempts;
        Turn::Ask { audit, path, wait_millis }
    }

    /// Takes the reply to the metadata request.
    fn on_branch(self, bootstrap: &Bootstrap, reply: &Result<Json, FetchError>) -> (r: Turn)
        requires
            self.wf(),
            self@.stage == Stage::Branch,
        ensures
            r@ == audit_step(self@, bootstrap.org@, *reply),
            r matches Turn::Ask { audit, .. } ==> audit.wf(),
    {
        let mut audit = self;
        match get_default_branch(reply, audit.attempts, &audit.policy) {
            Progress::Done(info) => {
                audit.info = Some(info);
                audit.move_on(bootstrap)
            },
            Progress::Failed(e) => Turn::Skip(e),
            Progress::Retry { attempts, wait_millis } => audit.repeat(
                bootstrap,
                attempts,
                wait_millis,
            ),
        }
    }

    /// Takes the reply to the request for the classic rules.
    fn on_classic(self, bootstrap: &Bootstrap, reply: &Result<Json, FetchError>) -> (r: Turn)
        requires
            self.wf(),
            self@.stage == Stage::Classic,
        ensures
            r@ == audit_step(self@, bootstrap.org@, *reply),
            r matches Turn::Ask { audit, .. } ==> audit.wf(),
    {
        let mut audit = self;
        match get_bpr(reply, audit.attempts, &audit.policy) {
            Progress::Done(answer) => {
                audit.classic = Some(Ok(answer));
                audit.move_on(bootstrap)
            },
            Progress::Failed(e) => {
                audit.classic = Some(Err(e));
                audit.move_on(bootstrap)
            },
            Progress::Retry { attempts, wait_millis } => audit.repeat(
                bootstrap,
                attempts,
                wait_millis,
            ),
        }
    }

    /// Takes the reply to the request for the rulesets.
    fn on_rules(self, bootstrap: &Bootstrap, reply: &Result<Json, FetchError>) -> (r: Turn)
        requires
            self.wf(),
            self@.stage == Stage::Rules,
        ensures
            r@ == audit_step(self@, bootstrap.org@, *reply),
            r matches Turn::Ask { audit, .. } ==> audit.wf(),
    {
        let mut audit = self;
        match get_rules(reply, audit.attempts, &audit.policy) {
            Progress::Done(answer) => {
                audit.rules = Some(Ok(answer));
                audit.move_on(bootstrap)
            },
            Progress::Failed(e) => {
                audit.rules = Some(Err(e));
                audit.move_on(bootstrap)
            },
            Progress::Retry { attempts, wait_millis } => audit.repeat(
                bootstrap,
                attempts,
                wait_millis,
            ),
        }
    }

    /// Takes the reply to the request for the CODEOWNERS errors.
    fn on_codeowners(self, bootstrap: &Bootstrap, reply: &Result<Json, FetchError>) -> (r: Turn)
        requires
            self.wf(),
            self@.stage == Stage::Codeowners,
        ensures
            r@ == audit_step(self@, bootstrap.org@, *reply),
            r matches Turn::Ask { audit, .. } ==> audit.wf(),
    {
        let mut audit = self;
        match codeowners_exists_and_is_valid(reply, audit.attempts, &audit.policy) {
            Progress::Done(answer) => {
                audit.codeowners = Some(Ok(answer));
                audit.move_on(bootstrap)
            },
            Progress::Failed(e) => {
                audit.codeowners = Some(Err(e));
                audit.move_on(bootstrap)
            },
            Progress::Retry { attempts, wait_millis } => audit.repeat(
                bootstrap,
                attempts,
                wait_millis,
            ),
        }
    }

    /// Takes the reply to the request for a place of the CODEOWNERS file.
    fn on_path(self, bootstrap: &Bootstrap, place: usize, reply: &Result<Json, FetchError>) -> (r:
        Turn)
        requires
            self.wf(),
            self@.stage == Stage::Path(place),
        ensures
            r@ == audit_step(self@, bootstrap.org@, *reply),
            r matches Turn::Ask { audit, .. } ==> audit.wf(),
    {
        match find_codeowners_path(place, reply) {
            PathSearch::Found(path) => self.finish(path),
            PathSearch::NotFound => self.finish(String::new()),
            PathSearch::TryNext(_) => self.move_on(bootstrap),
        }
    }

    /// Takes the reply to the request that the audit waits on and says what
    /// to do next.
    pub fn step(self, bootstrap: &Bootstrap, reply: &Result<Json, FetchError>) -> (r: Turn)
        requires
            self.wf(),
        ensures
            r@ == audit_step(self@, bootstrap.org@, *reply),
            r matches Turn::Ask { audit, .. } ==> audit.wf(),
    {
        match self.stage {
            Stage::Branch => self.on_branch(bootstrap, reply),
            Stage::Classic => self.on_classic(bootstrap, reply),
            Stage::Rules => self.on_rules(bootstrap, reply),
            Stage::Codeowners => self.on_codeowners(bootstrap, reply),
            Stage::Path(place) => self.on_path(bootstrap, place, reply),
        }
    }
}

impl Verdict {
    /// The visibility of the repository as the ledger and the report show
    /// it.
    pub fn visibility(&self) -> (r: String)
        ensures
            r@ == visibility_text(option_text(self.info.visibility)),
    {
        match &self.info.visibility {
            Some(v) => visibility_label(Some(v.as_str())),
            None => visibility_label(None),
        }
    }

    /// The fields of the row that the repository adds to the ledger.
    pub fn row(&self, repo: &str, selection: &Selection) -> (r: Vec<String>)
        ensures
            texts(r@) == row_fields(
                repo@,
                self.info.branch@,
                visibility_text(option_text(self.info.visibility)),
                self.checks,
                *selection,
                self.codeowners_path@,
            ),
    {
        let visibility = self.visibility();
        ledger_row(
            repo,
            self.info.branch.as_str(),
            visibility.as_str(),
            &self.checks,
            selection,
            self.codeowners_path.as_str(),
        )
    }

    /// The lines of the console report of the repository.
    pub fn report(&self, repo: &str, selection: &Selection) -> (r: Vec<String>)
        ensures
            texts(r@) == report_text(
                repo@,
                self.info.branch@,
                visibility_text(option_text(self.info.visibility)),
                self.checks,
                *selection,
            ),
    {
        let visibility = self.visibility();
        print_report(repo, self.info.branch.as_str(), visibility.as_str(), &self.checks, selection)
    }
}

/// The place of a request in the order in which an audit makes them.
pub open spec fn rank(stage: Stage) -> int {
    match stage {
        Stage::Branch => 0,
        Stage::Classic => 1,
        Stage::Rules => 2,
        Stage::Codeowners => 3,
        Stage::Path(i) => 4 + i,
    }
}

/// An audit begins with the metadata request, in a state that can come up.
pub proof fn lemma_audit_begins_coherent(
    repo: Seq<char>,
    org: Seq<char>,
    selection: Selection,
    policy: RetryPolicy,
    to_ledger: bool,
)
    ensures
        opening(repo, org, selection, policy, to_ledger) matches TurnView::Ask { audit, .. }
            && coherent(audit) && audit.stage == Stage::Branch,
{
}

/// Whatever the replies, an audit stays in states that can come up. So the
/// classic rules and the rulesets are asked only where a protection check
/// is selected, the CODEOWNERS errors only where that check is selected, and
/// the place of the CODEOWNERS file only on behalf of the ledger.
pub proof fn lemma_audit_stays_coherent(
    s: AuditView,
    org: Seq<char>,
    reply: Result<Json, FetchError>,
)
    requires
        coherent(s),
    ensures
        audit_step(s, org, reply) matches TurnView::Ask { audit, .. } ==> coherent(audit),
{
}

/// An audit makes headway: a turn that asks again goes on to a later
/// request, or repeats the same one, either after the cool-down and without
/// counting, or after the pause of the policy with one more failed attempt
/// counted, and that within the budget.
pub proof fn lemma_audit_advances(s: AuditView, org: Seq<char>, reply: Result<Json, FetchError>)
    ensures
        audit_step(s, org, reply) matches TurnView::Ask { audit, wait_millis, .. } ==> {
            ||| rank(audit.stage) > rank(s.stage) && audit.attempts == 0 && wait_millis == 0
            ||| audit.stage == s.stage && audit.attempts == s.attempts && wait_millis
                == RATE_LIMIT_COOL_DOWN_MILLIS
            ||| audit.stage == s.stage && audit.attempts == s.attempts + 1 && audit.attempts
                < s.policy.max_attempts && wait_millis == s.policy.backoff_millis
        },
{
}

/// Only the metadata request can have a repository left out: once the
/// default branch is known, no reply ends the audit without a scorecard.
pub proof fn lemma_only_the_branch_skips(
    s: AuditView,
    org: Seq<char>,
    reply: Result<Json, FetchError>,
)
    ensures
        audit_step(s, org, reply) is Skip ==> s.stage == Stage::Branch,
{
}

} // verus!
