//! Merging what the sources report into the scorecard of a repository.
//!
//! Every check starts at `Fail`. A source that shows a protection raises the
//! check to `Pass`; a protection source that is denied access relabels the
//! protection checks that are still `Fail` as `Indeterminate`. A check outside
//! the selection is left alone by every step.

use crate::checks::{CheckName, CheckOutcome, ProtectionChecks};
use crate::model::referred;
use crate::selection::Selection;
use crate::sources::{BprResponse, CodeownersStatus, Errors, RuleKind, RulesetRule};
use vstd::prelude::*;

verus! {

/// Whether the classic rules show the protection that a check asks for.
pub open spec fn classic_satisfies(rules: BprResponse, name: CheckName) -> bool {
    match name {
        CheckName::DisableForcePush => rules.allow_force_pushes matches Some(flag)
            && !flag.enabled,
        CheckName::DisableDeletion => rules.allow_deletions matches Some(flag) && !flag.enabled,
        CheckName::RequireSignedCommits => rules.required_signatures matches Some(flag)
            && flag.enabled,
        CheckName::PrOneApproval => rules.required_pull_request_reviews matches Some(reviews)
            && reviews.required_approving_review_count > 0,
        CheckName::PrDismissStale => rules.required_pull_request_reviews matches Some(reviews)
            && reviews.dismiss_stale_reviews,
        CheckName::PrRequireCodeOwner => rules.required_pull_request_reviews matches Some(
            reviews,
        ) && reviews.require_code_owner_reviews,
        CheckName::RequireStatusChecks => rules.required_status_checks matches Some(status)
            && status.checks > 0,
        CheckName::CodeownersValid => false,
    }
}

/// Whether one rule of a ruleset shows the protection that a check asks for.
/// The presence of a deletion, signature or fast-forward rule is enough; a
/// pull-request or status-check rule counts by its parameters.
pub open spec fn rule_satisfies(rule: RulesetRule, name: CheckName) -> bool {
    match name {
        CheckName::DisableDeletion => rule.kind == RuleKind::Deletion,
        CheckName::RequireSignedCommits => rule.kind == RuleKind::RequiredSignatures,
        CheckName::DisableForcePush => rule.kind == RuleKind::NonFastForward,
        CheckName::PrOneApproval => {
            &&& rule.kind == RuleKind::PullRequest
            &&& rule.parameters is Some
            &&& rule.parameters->0.required_approving_review_count is Some
            &&& rule.parameters->0.required_approving_review_count->0 > 0
        },
        CheckName::PrDismissStale => {
            &&& rule.kind == RuleKind::PullRequest
            &&& rule.parameters is Some
            &&& rule.parameters->0.dismiss_stale_reviews_on_push == Some(true)
        },
        CheckName::PrRequireCodeOwner => {
            &&& rule.kind == RuleKind::PullRequest
            &&& rule.parameters is Some
            &&& rule.parameters->0.require_code_owner_review == Some(true)
        },
        CheckName::RequireStatusChecks => {
            &&& rule.kind == RuleKind::RequiredStatusChecks
            &&& rule.parameters is Some
            &&& rule.parameters->0.required_status_checks is Some
            &&& rule.parameters->0.required_status_checks->0 > 0
        },
        CheckName::CodeownersValid => false,
    }
}

/// Whether one of the rules shows the protection that a check asks for.
pub open spec fn rules_satisfy(rules: Seq<RulesetRule>, name: CheckName) -> bool {
    exists|i: int| 0 <= i < rules.len() && rule_satisfies(#[trigger] rules[i], name)
}

/// The scorecard that has `f(name)` for every check.
pub open spec fn scorecard(f: spec_fn(CheckName) -> CheckOutcome) -> ProtectionChecks {
    ProtectionChecks {
        pr_one_approval: f(CheckName::PrOneApproval),
        pr_dismiss_stale: f(CheckName::PrDismissStale),
        pr_require_code_owner: f(CheckName::PrRequireCodeOwner),
        disable_force_push: f(CheckName::DisableForcePush),
        disable_deletion: f(CheckName::DisableDeletion),
        require_signed_commits: f(CheckName::RequireSignedCommits),
        require_status_checks: f(CheckName::RequireStatusChecks),
        codeowners_valid: f(CheckName::CodeownersValid),
    }
}

/// The scorecard after the classic rules were looked at.
pub open spec fn after_classic(
    checks: ProtectionChecks,
    outcome: Result<BprResponse, Errors>,
    selection: Selection,
) -> ProtectionChecks {
    scorecard(
        |name: CheckName|
            checks.outcome(name).spec_observe(
                selection.includes(name) && outcome is Ok && classic_satisfies(outcome->Ok_0, name),
            ),
    )
}

/// The scorecard after the rulesets were looked at.
pub open spec fn after_rules(
    checks: ProtectionChecks,
    outcome: Result<Seq<RulesetRule>, Errors>,
    selection: Selection,
) -> ProtectionChecks {
    scorecard(
        |name: CheckName|
            checks.outcome(name).spec_observe(
                selection.includes(name) && outcome is Ok && rules_satisfy(outcome->Ok_0, name),
            ),
    )
}

/// The scorecard after a protection source was denied access: the selected
/// protection checks that are still `Fail` become `Indeterminate`.
pub open spec fn after_denial(checks: ProtectionChecks, selection: Selection) -> ProtectionChecks {
    scorecard(
        |name: CheckName|
            if selection.includes(name) && name.is_protection() {
                checks.outcome(name).spec_deny()
            } else {
                checks.outcome(name)
            },
    )
}

/// The outcome that the CODEOWNERS report gives the check that was `before`.
pub open spec fn codeowners_outcome(
    before: CheckOutcome,
    outcome: Result<CodeownersStatus, Errors>,
) -> CheckOutcome {
    match outcome {
        Ok(CodeownersStatus::Valid) => CheckOutcome::Pass,
        Err(Errors::NoAccess403) => before.spec_deny(),
        _ => before,
    }
}

/// The scorecard after the CODEOWNERS report was looked at.
pub open spec fn after_codeowners(
    checks: ProtectionChecks,
    outcome: Result<CodeownersStatus, Errors>,
    selection: Selection,
) -> ProtectionChecks {
    scorecard(
        |name: CheckName|
            if selection.includes(name) && name == CheckName::CodeownersValid {
                codeowners_outcome(checks.outcome(name), outcome)
            } else {
                checks.outcome(name)
            },
    )
}

/// Whether one of the two protection sources shows the protection.
pub open spec fn observed(
    classic: Option<Result<BprResponse, Errors>>,
    rules: Option<Result<Seq<RulesetRule>, Errors>>,
    name: CheckName,
) -> bool {
    ||| classic matches Some(Ok(b)) && classic_satisfies(b, name)
    ||| rules matches Some(Ok(rs)) && rules_satisfy(rs, name)
}

/// Whether one of the two protection sources was denied access.
pub open spec fn denied(
    classic: Option<Result<BprResponse, Errors>>,
    rules: Option<Result<Seq<RulesetRule>, Errors>>,
) -> bool {
    classic == Some(Err::<BprResponse, Errors>(Errors::NoAccess403)) || rules == Some(
        Err::<Seq<RulesetRule>, Errors>(Errors::NoAccess403),
    )
}

/// The outcome of a check, given what the sources reported. `None` stands
/// for a source that was not asked.
///
/// A check outside the selection is `Fail`. A protection check passes where
/// either source shows the protection; failing that it is indeterminate where
/// either source was denied access. The CODEOWNERS check passes on a valid
/// file and is indeterminate where access was denied.
pub open spec fn merged_outcome(
    name: CheckName,
    selection: Selection,
    classic: Option<Result<BprResponse, Errors>>,
    rules: Option<Result<Seq<RulesetRule>, Errors>>,
    codeowners: Option<Result<CodeownersStatus, Errors>>,
) -> CheckOutcome {
    if !selection.includes(name) {
        CheckOutcome::Fail
    } else if name.is_protection() {
        if observed(classic, rules, name) {
            CheckOutcome::Pass
        } else if denied(classic, rules) {
            CheckOutcome::Indeterminate
        } else {
            CheckOutcome::Fail
        }
    } else {
        match codeowners {
            Some(Ok(CodeownersStatus::Valid)) => CheckOutcome::Pass,
            Some(Err(Errors::NoAccess403)) => CheckOutcome::Indeterminate,
            _ => CheckOutcome::Fail,
        }
    }
}

/// Whether the classic rules show the protection that a check asks for.
pub fn classic_shows(rules: &BprResponse, name: CheckName) -> (r: bool)
    ensures
        r == classic_satisfies(*rules, name),
{
    match name {
        CheckName::DisableForcePush => match rules.allow_force_pushes {
            Some(flag) => !flag.enabled,
            None => false,
        },
        CheckName::DisableDeletion => match rules.allow_deletions {
            Some(flag) => !flag.enabled,
            None => false,
        },
        CheckName::RequireSignedCommits => match rules.required_signatures {
            Some(flag) => flag.enabled,
            None => false,
        },
        CheckName::PrOneApproval => match rules.required_pull_request_reviews {
            Some(reviews) => reviews.required_approving_review_count > 0,
            None => false,
        },
        CheckName::PrDismissStale => match rules.required_pull_request_reviews {
            Some(reviews) => reviews.dismiss_stale_reviews,
            None => false,
        },
        CheckName::PrRequireCodeOwner => match rules.required_pull_request_reviews {
            Some(reviews) => reviews.require_code_owner_reviews,
            None => false,
        },
        CheckName::RequireStatusChecks => match rules.required_status_checks {
            Some(status) => status.checks > 0,
            None => false,
        },
        CheckName::CodeownersValid => false,
    }
}

/// Whether one rule shows the protection that a check asks for.
pub fn rule_shows(rule: &RulesetRule, name: CheckName) -> (r: bool)
    ensures
        r == rule_satisfies(*rule, name),
{
    match name {
        CheckName::DisableDeletion => rule.kind == RuleKind::Deletion,
        CheckName::RequireSignedCommits => rule.kind == RuleKind::RequiredSignatures,
        CheckName::DisableForcePush => rule.kind == RuleKind::NonFastForward,
        CheckName::PrOneApproval => rule.kind == RuleKind::PullRequest && match rule.parameters {
            Some(p) => match p.required_approving_review_count {
                Some(count) => count > 0,
                None => false,
            },
            None => false,
        },
        CheckName::PrDismissStale => rule.kind == RuleKind::PullRequest && match rule.parameters {
            Some(p) => match p.dismiss_stale_reviews_on_push {
                Some(b) => b,
                None => false,
            },
            None => false,
        },
        CheckName::PrRequireCodeOwner => rule.kind == RuleKind::PullRequest
            && match rule.parameters {
            Some(p) => match p.require_code_owner_review {
                Some(b) => b,
                None => false,
            },
            None => false,
        },
        CheckName::RequireStatusChecks => rule.kind == RuleKind::RequiredStatusChecks
            && match rule.parameters {
            Some(p) => match p.required_status_checks {
                Some(count) => count > 0,
                None => false,
            },
            None => false,
        },
        CheckName::CodeownersValid => false,
    }
}

/// Whether one of the rules shows the protection that a check asks for.
pub fn rules_show(rules: &Vec<RulesetRule>, name: CheckName) -> (r: bool)
    ensures
        r == rules_satisfy(rules@, name),
{
    let mut i: usize = 0;
    while i < rules.len()
        invariant
            i <= rules@.len(),
            forall|k: int| 0 <= k < i ==> !rule_satisfies(#[trigger] rules@[k], name),
        decreases rules@.len() - i,
    {
        if rule_shows(&rules[i], name) {
            return true;
        }
        i += 1;
    }
    false
}

/// The rules of an outcome as a sequence.
pub open spec fn rules_view(outcome: Result<Vec<RulesetRule>, Errors>) -> Result<
    Seq<RulesetRule>,
    Errors,
> {
    match outcome {
        Ok(rules) => Ok(rules@),
        Err(e) => Err(e),
    }
}

/// The rules of an optional outcome as a sequence.
pub open spec fn optional_rules_view(outcome: Option<&Result<Vec<RulesetRule>, Errors>>) -> Option<
    Result<Seq<RulesetRule>, Errors>,
> {
    match outcome {
        Some(o) => Some(rules_view(*o)),
        None => None,
    }
}

impl ProtectionChecks {
    /// Raises every selected check that the classic rules show to `Pass`.
    pub fn apply_classic(&mut self, outcome: &Result<BprResponse, Errors>, selection: &Selection)
        ensures
            *final(self) == after_classic(*old(self), *outcome, *selection),
            forall|name: CheckName|
                final(self).outcome(name) == old(self).outcome(name).spec_observe(
                    selection.includes(name) && *outcome is Ok && classic_satisfies(
                        outcome->Ok_0,
                        name,
                    ),
                ),
    {
        match outcome {
            Ok(rules) => {
                let pr_one_approval = classic_shows(rules, CheckName::PrOneApproval);
                let pr_dismiss_stale = classic_shows(rules, CheckName::PrDismissStale);
                let pr_require_code_owner = classic_shows(rules, CheckName::PrRequireCodeOwner);
                let disable_force_push = classic_shows(rules, CheckName::DisableForcePush);
                let disable_deletion = classic_shows(rules, CheckName::DisableDeletion);
                let require_signed_commits = classic_shows(rules, CheckName::RequireSignedCommits);
                let require_status_checks = classic_shows(rules, CheckName::RequireStatusChecks);
                self.pr_one_approval = self.pr_one_approval.observe(selection.pr_one_approval && pr_one_approval);
                self.pr_dismiss_stale = self.pr_dismiss_stale.observe(selection.pr_dismiss_stale && pr_dismiss_stale);
                self.pr_require_code_owner = self.pr_require_code_owner.observe(selection.pr_require_code_owner && pr_require_code_owner);
                self.disable_force_push = self.disable_force_push.observe(selection.disable_force_push && disable_force_push);
                self.disable_deletion = self.disable_deletion.observe(selection.disable_deletion && disable_deletion);
                self.require_signed_commits = self.require_signed_commits.observe(selection.require_signed_commits && require_signed_commits);
                self.require_status_checks = self.require_status_checks.observe(selection.require_status_checks && require_status_checks);
            },
            Err(_) => {},
        }
    }

    /// Raises every selected check that one of the rules shows to `Pass`.
    pub fn apply_rules(
        &mut self,
        outcome: &Result<Vec<RulesetRule>, Errors>,
        selection: &Selection,
    )
        ensures
            *final(self) == after_rules(*old(self), rules_view(*outcome), *selection),
            forall|name: CheckName|
                final(self).outcome(name) == old(self).outcome(name).spec_observe(
                    selection.includes(name) && *outcome is Ok && rules_satisfy(
                        rules_view(*outcome)->Ok_0,
                        name,
                    ),
                ),
    {
        match outcome {
            Ok(rules) => {
                let pr_one_approval = rules_show(rules, CheckName::PrOneApproval);
                let pr_dismiss_stale = rules_show(rules, CheckName::PrDismissStale);
                let pr_require_code_owner = rules_show(rules, CheckName::PrRequireCodeOwner);
                let disable_force_push = rules_show(rules, CheckName::DisableForcePush);
                let disable_deletion = rules_show(rules, CheckName::DisableDeletion);
                let require_signed_commits = rules_show(rules, CheckName::RequireSignedCommits);
                let require_status_checks = rules_show(rules, CheckName::RequireStatusChecks);
                self.pr_one_approval = self.pr_one_approval.observe(selection.pr_one_approval && pr_one_approval);
                self.pr_dismiss_stale = self.pr_dismiss_stale.observe(selection.pr_dismiss_stale && pr_dismiss_stale);
                self.pr_require_code_owner = self.pr_require_code_owner.observe(selection.pr_require_code_owner && pr_require_code_owner);
                self.disable_force_push = self.disable_force_push.observe(selection.disable_force_push && disable_force_push);
                self.disable_deletion = self.disable_deletion.observe(selection.disable_deletion && disable_deletion);
                self.require_signed_commits = self.require_signed_commits.observe(selection.require_signed_commits && require_signed_commits);
                self.require_status_checks = self.require_status_checks.observe(selection.require_status_checks && require_status_checks);
                proof {
                    assert(!rules_satisfy(rules@, CheckName::CodeownersValid));
                }
            },
            Err(_) => {},
        }
    }

    /// Relabels the selected protection checks that are still `Fail` as
    /// `Indeterminate`, after a protection source was denied access.
    pub fn mark_forbidden(&mut self, selection: &Selection)
        ensures
            *final(self) == after_denial(*old(self), *selection),
            forall|name: CheckName|
                final(self).outcome(name) == if selection.includes(name) && name.is_protection() {
                    old(self).outcome(name).spec_deny()
                } else {
                    old(self).outcome(name)
                },
    {
        self.pr_one_approval = self.pr_one_approval.deny_when(selection.pr_one_approval);
        self.pr_dismiss_stale = self.pr_dismiss_stale.deny_when(selection.pr_dismiss_stale);
        self.pr_require_code_owner = self.pr_require_code_owner.deny_when(
            selection.pr_require_code_owner,
        );
        self.disable_force_push = self.disable_force_push.deny_when(selection.disable_force_push);
        self.disable_deletion = self.disable_deletion.deny_when(selection.disable_deletion);
        self.require_signed_commits = self.require_signed_commits.deny_when(
            selection.require_signed_commits,
        );
        self.require_status_checks = self.require_status_checks.deny_when(
            selection.require_status_checks,
        );
    }

    /// Records what the CODEOWNERS report says, where the check is selected.
    pub fn apply_codeowners(
        &mut self,
        outcome: &Result<CodeownersStatus, Errors>,
        selection: &Selection,
    )
        ensures
            *final(self) == after_codeowners(*old(self), *outcome, *selection),
            forall|name: CheckName|
                final(self).outcome(name) == if selection.includes(name) && name
                    == CheckName::CodeownersValid {
                    codeowners_outcome(old(self).outcome(name), *outcome)
                } else {
                    old(self).outcome(name)
                },
    {
        if selection.codeowners_valid {
            match outcome {
                Ok(CodeownersStatus::Valid) => {
                    self.codeowners_valid = CheckOutcome::Pass;
                },
                Err(Errors::NoAccess403) => {
                    self.codeowners_valid = self.codeowners_valid.deny();
                },
                _ => {},
            }
        }
    }
}

/// Whether an outcome is a denial of access.
fn is_denial<T>(outcome: Option<&Result<T, Errors>>) -> (r: bool)
    ensures
        r == (outcome matches Some(Err(Errors::NoAccess403))),
{
    match outcome {
        Some(Err(Errors::NoAccess403)) => true,
        _ => false,
    }
}

/// The scorecard of a repository, from what its sources reported. `None`
/// stands for a source that was not asked.
pub fn resolve_checks(
    selection: &Selection,
    classic: Option<&Result<BprResponse, Errors>>,
    rules: Option<&Result<Vec<RulesetRule>, Errors>>,
    codeowners: Option<&Result<CodeownersStatus, Errors>>,
) -> (r: ProtectionChecks)
    ensures
        forall|name: CheckName|
            r.outcome(name) == merged_outcome(
                name,
                *selection,
                referred(classic),
                optional_rules_view(rules),
                referred(codeowners),
            ),
{
    let mut checks = ProtectionChecks::default();
    match classic {
        Some(outcome) => {
            checks.apply_classic(outcome, selection);
        },
        None => {},
    }
    match rules {
        Some(outcome) => {
            checks.apply_rules(outcome, selection);
        },
        None => {},
    }
    if is_denial(classic) || is_denial(rules) {
        checks.mark_forbidden(selection);
    }
    match codeowners {
        Some(outcome) => {
            checks.apply_codeowners(outcome, selection);
        },
        None => {},
    }
    checks
}

/// A check that passes keeps passing: none of the four steps, in any order
/// and whatever the sources report, takes a `Pass` back to `Fail` or to
/// `Indeterminate`.
pub proof fn lemma_pass_is_kept(
    checks: ProtectionChecks,
    classic: Result<BprResponse, Errors>,
    rules: Result<Seq<RulesetRule>, Errors>,
    codeowners: Result<CodeownersStatus, Errors>,
    selection: Selection,
    name: CheckName,
)
    requires
        checks.outcome(name) == CheckOutcome::Pass,
    ensures
        after_classic(checks, classic, selection).outcome(name) == CheckOutcome::Pass,
        after_rules(checks, rules, selection).outcome(name) == CheckOutcome::Pass,
        after_denial(checks, selection).outcome(name) == CheckOutcome::Pass,
        after_codeowners(checks, codeowners, selection).outcome(name) == CheckOutcome::Pass,
{
}

/// `Indeterminate` comes only from `Fail`: a check that is indeterminate
/// after a denial, or after the CODEOWNERS report, was `Fail` or already
/// indeterminate before, and it was selected if the step changed it.
pub proof fn lemma_indeterminate_only_from_fail(
    checks: ProtectionChecks,
    codeowners: Result<CodeownersStatus, Errors>,
    selection: Selection,
    name: CheckName,
)
    ensures
        after_denial(checks, selection).outcome(name) == CheckOutcome::Indeterminate ==> (
        checks.outcome(name) == CheckOutcome::Indeterminate || (checks.outcome(name)
            == CheckOutcome::Fail && selection.includes(name) && name.is_protection())),
        after_codeowners(checks, codeowners, selection).outcome(name)
            == CheckOutcome::Indeterminate ==> (checks.outcome(name)
            == CheckOutcome::Indeterminate || (checks.outcome(name) == CheckOutcome::Fail
            && selection.includes(name) && name == CheckName::CodeownersValid && codeowners == Err::<
            CodeownersStatus,
            Errors,
        >(Errors::NoAccess403))),
{
}

/// A check outside the selection is touched by no step, whatever the
/// sources report, and the ledger shows it as `n/a`.
pub proof fn lemma_unselected_is_untouched(
    checks: ProtectionChecks,
    classic: Result<BprResponse, Errors>,
    rules: Result<Seq<RulesetRule>, Errors>,
    codeowners: Result<CodeownersStatus, Errors>,
    selection: Selection,
    name: CheckName,
)
    requires
        !selection.includes(name),
    ensures
        after_classic(checks, classic, selection).outcome(name) == checks.outcome(name),
        after_rules(checks, rules, selection).outcome(name) == checks.outcome(name),
        after_denial(checks, selection).outcome(name) == checks.outcome(name),
        after_codeowners(checks, codeowners, selection).outcome(name) == checks.outcome(name),
        forall|v: CheckOutcome| crate::score::named_cell_text(v, name, selection) == "n/a"@,
{
}

} // verus!
