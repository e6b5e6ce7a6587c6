//! The fixed set of named checks and their three-valued outcomes.

use crate::text::str_eq;
use vstd::prelude::*;

verus! {

/// One of the eight named checks of a repository scorecard.
#[derive(Clone, Copy, Debug, PartialEq, Eq, Structural, Hash)]
pub enum CheckName {
    /// Pull requests require at least one approving review.
    PrOneApproval,
    /// Stale reviews are dismissed when new commits are pushed.
    PrDismissStale,
    /// Pull requests require approval by a code owner.
    PrRequireCodeOwner,
    /// Force pushes to the branch are disabled.
    DisableForcePush,
    /// Deletion of the branch is disabled.
    DisableDeletion,
    /// Commits to the branch must be signed.
    RequireSignedCommits,
    /// Required status checks are configured.
    RequireStatusChecks,
    /// A CODEOWNERS file exists and has no errors.
    CodeownersValid,
}

/// The outcome of one check.
///
/// `Fail` is the starting point; a source that observes the protection raises
/// it to `Pass`; a source that is denied access relabels a check that is still
/// `Fail` as `Indeterminate`.
#[derive(Clone, Copy, Debug, PartialEq, Eq, Structural, Hash)]
pub enum CheckOutcome {
    Pass,
    Fail,
    Indeterminate,
}

/// All check names, in the order of the ledger's columns.
pub open spec fn all_checks() -> Seq<CheckName> {
    seq![
        CheckName::PrOneApproval,
        CheckName::PrDismissStale,
        CheckName::PrRequireCodeOwner,
        CheckName::DisableForcePush,
        CheckName::DisableDeletion,
        CheckName::RequireSignedCommits,
        CheckName::RequireStatusChecks,
        CheckName::CodeownersValid,
    ]
}

impl CheckName {
    /// The canonical lower-case name of the check.
    pub open spec fn label(self) -> Seq<char> {
        match self {
            CheckName::PrOneApproval => "pr_one_approval"@,
            CheckName::PrDismissStale => "pr_dismiss_stale"@,
            CheckName::PrRequireCodeOwner => "pr_require_code_owner"@,
            CheckName::DisableForcePush => "disable_force_push"@,
            CheckName::DisableDeletion => "disable_deletion"@,
            CheckName::RequireSignedCommits => "require_signed_commits"@,
            CheckName::RequireStatusChecks => "require_status_checks"@,
            CheckName::CodeownersValid => "codeowners_valid"@,
        }
    }

    /// Whether the check is answered by the branch-protection sources
    /// (classic rules and rulesets) rather than by the CODEOWNERS probe.
    pub open spec fn is_protection(self) -> bool {
        self != CheckName::CodeownersValid
    }

    /// The canonical lower-case name of the check.
    pub fn as_str(self) -> (r: &'static str)
        ensures
            r@ == self.label(),
    {
        match self {
            CheckName::PrOneApproval => "pr_one_approval",
            CheckName::PrDismissStale => "pr_dismiss_stale",
            CheckName::PrRequireCodeOwner => "pr_require_code_owner",
            CheckName::DisableForcePush => "disable_force_push",
            CheckName::DisableDeletion => "disable_deletion",
            CheckName::RequireSignedCommits => "require_signed_commits",
            CheckName::RequireStatusChecks => "require_status_checks",
            CheckName::CodeownersValid => "codeowners_valid",
        }
    }

    /// The check with the given canonical name.
    pub open spec fn named(label: Seq<char>) -> Option<CheckName> {
        if label == "pr_one_approval"@ {
            Some(CheckName::PrOneApproval)
        } else if label == "pr_dismiss_stale"@ {
            Some(CheckName::PrDismissStale)
        } else if label == "pr_require_code_owner"@ {
            Some(CheckName::PrRequireCodeOwner)
        } else if label == "disable_force_push"@ {
            Some(CheckName::DisableForcePush)
        } else if label == "disable_deletion"@ {
            Some(CheckName::DisableDeletion)
        } else if label == "require_signed_commits"@ {
            Some(CheckName::RequireSignedCommits)
        } else if label == "require_status_checks"@ {
            Some(CheckName::RequireStatusChecks)
        } else if label == "codeowners_valid"@ {
            Some(CheckName::CodeownersValid)
        } else {
            None
        }
    }

    /// The check with the given canonical name; `None` for any other text.
    pub fn from_label(label: &str) -> (r: Option<CheckName>)
        ensures
            r == CheckName::named(label@),
    {
        if str_eq(label, "pr_one_approval") {
            Some(CheckName::PrOneApproval)
        } else if str_eq(label, "pr_dismiss_stale") {
            Some(CheckName::PrDismissStale)
        } else if str_eq(label, "pr_require_code_owner") {
            Some(CheckName::PrRequireCodeOwner)
        } else if str_eq(label, "disable_force_push") {
            Some(CheckName::DisableForcePush)
        } else if str_eq(label, "disable_deletion") {
            Some(CheckName::DisableDeletion)
        } else if str_eq(label, "require_signed_commits") {
            Some(CheckName::RequireSignedCommits)
        } else if str_eq(label, "require_status_checks") {
            Some(CheckName::RequireStatusChecks)
        } else if str_eq(label, "codeowners_valid") {
            Some(CheckName::CodeownersValid)
        } else {
            None
        }
    }

    /// Whether the check is answered by the branch-protection sources.
    pub fn protection(self) -> (r: bool)
        ensures
            r == self.is_protection(),
    {
        match self {
            CheckName::CodeownersValid => false,
            _ => true,
        }
    }
}

impl CheckOutcome {
    /// The outcome after a source has looked at the check: an observed
    /// protection raises it to `Pass`, anything else leaves it as it was.
    pub open spec fn spec_observe(self, satisfied: bool) -> CheckOutcome {
        if satisfied {
            CheckOutcome::Pass
        } else {
            self
        }
    }

    /// The outcome after the owning source was denied access: only a check
    /// still at `Fail` becomes `Indeterminate`.
    pub open spec fn spec_deny(self) -> CheckOutcome {
        if self == CheckOutcome::Fail {
            CheckOutcome::Indeterminate
        } else {
            self
        }
    }

    /// Raises the outcome to `Pass` when `satisfied`, else keeps it.
    pub fn observe(self, satisfied: bool) -> (r: CheckOutcome)
        ensures
            r == self.spec_observe(satisfied),
    {
        if satisfied {
            CheckOutcome::Pass
        } else {
            self
        }
    }

    /// Relabels `Fail` as `Indeterminate`; `Pass` and `Indeterminate` stay.
    pub fn deny(self) -> (r: CheckOutcome)
        ensures
            r == self.spec_deny(),
    {
        match self {
            CheckOutcome::Fail => CheckOutcome::Indeterminate,
            other => other,
        }
    }

    /// Relabels `Fail` as `Indeterminate` when `denied`, else keeps the
    /// outcome.
    pub fn deny_when(self, denied: bool) -> (r: CheckOutcome)
        ensures
            r == if denied {
                self.spec_deny()
            } else {
                self
            },
    {
        if denied {
            self.deny()
        } else {
            self
        }
    }

    /// Whether the outcome is `Pass`.
    pub fn is_pass(self) -> (r: bool)
        ensures
            r == (self == CheckOutcome::Pass),
    {
        match self {
            CheckOutcome::Pass => true,
            _ => false,
        }
    }
}

/// All check names, in the order of the ledger's columns.
pub fn all_names() -> (r: Vec<CheckName>)
    ensures
        r@ == all_checks(),
{
    let mut r: Vec<CheckName> = Vec::new();
    r.push(CheckName::PrOneApproval);
    r.push(CheckName::PrDismissStale);
    r.push(CheckName::PrRequireCodeOwner);
    r.push(CheckName::DisableForcePush);
    r.push(CheckName::DisableDeletion);
    r.push(CheckName::RequireSignedCommits);
    r.push(CheckName::RequireStatusChecks);
    r.push(CheckName::CodeownersValid);
    proof {
        assert(r@ =~= all_checks());
    }
    r
}

/// The outcomes of all eight checks for one repository.
#[derive(Clone, Copy, Debug)]
pub struct ProtectionChecks {
    pub pr_one_approval: CheckOutcome,
    pub pr_dismiss_stale: CheckOutcome,
    pub pr_require_code_owner: CheckOutcome,
    pub disable_force_push: CheckOutcome,
    pub disable_deletion: CheckOutcome,
    pub require_signed_commits: CheckOutcome,
    pub require_status_checks: CheckOutcome,
    pub codeowners_valid: CheckOutcome,
}

impl View for ProtectionChecks {
    type V = Map<CheckName, CheckOutcome>;

    /// The scorecard as a mapping from every check name to its outcome.
    open spec fn view(&self) -> Map<CheckName, CheckOutcome> {
        Map::total(|name: CheckName| self.outcome(name))
    }
}

impl ProtectionChecks {
    /// The outcome recorded for a check.
    pub open spec fn outcome(self, name: CheckName) -> CheckOutcome {
        match name {
            CheckName::PrOneApproval => self.pr_one_approval,
            CheckName::PrDismissStale => self.pr_dismiss_stale,
            CheckName::PrRequireCodeOwner => self.pr_require_code_owner,
            CheckName::DisableForcePush => self.disable_force_push,
            CheckName::DisableDeletion => self.disable_deletion,
            CheckName::RequireSignedCommits => self.require_signed_commits,
            CheckName::RequireStatusChecks => self.require_status_checks,
            CheckName::CodeownersValid => self.codeowners_valid,
        }
    }

    /// The scorecard on which every check fails.
    pub open spec fn all_failing() -> ProtectionChecks {
        ProtectionChecks {
            pr_one_approval: CheckOutcome::Fail,
            pr_dismiss_stale: CheckOutcome::Fail,
            pr_require_code_owner: CheckOutcome::Fail,
            disable_force_push: CheckOutcome::Fail,
            disable_deletion: CheckOutcome::Fail,
            require_signed_commits: CheckOutcome::Fail,
            require_status_checks: CheckOutcome::Fail,
            codeowners_valid: CheckOutcome::Fail,
        }
    }

    /// The outcome recorded for a check.
    pub fn get(&self, name: CheckName) -> (r: CheckOutcome)
        ensures
            r == self.outcome(name),
    {
        match name {
            CheckName::PrOneApproval => self.pr_one_approval,
            CheckName::PrDismissStale => self.pr_dismiss_stale,
            CheckName::PrRequireCodeOwner => self.pr_require_code_owner,
            CheckName::DisableForcePush => self.disable_force_push,
            CheckName::DisableDeletion => self.disable_deletion,
            CheckName::RequireSignedCommits => self.require_signed_commits,
            CheckName::RequireStatusChecks => self.require_status_checks,
            CheckName::CodeownersValid => self.codeowners_valid,
        }
    }

    /// Records `value` for one check and leaves the others as they are.
    pub fn set(&mut self, name: CheckName, value: CheckOutcome)
        ensures
            final(self).outcome(name) == value,
            forall|other: CheckName|
                other != name ==> final(self).outcome(other) == old(self).outcome(other),
    {
        match name {
            CheckName::PrOneApproval => {
                self.pr_one_approval = value;
            },
            CheckName::PrDismissStale => {
                self.pr_dismiss_stale = value;
            },
            CheckName::PrRequireCodeOwner => {
                self.pr_require_code_owner = value;
            },
            CheckName::DisableForcePush => {
                self.disable_force_push = value;
            },
            CheckName::DisableDeletion => {
                self.disable_deletion = value;
            },
            CheckName::RequireSignedCommits => {
                self.require_signed_commits = value;
            },
            CheckName::RequireStatusChecks => {
                self.require_status_checks = value;
            },
            CheckName::CodeownersValid => {
                self.codeowners_valid = value;
            },
        }
    }
}

impl Default for ProtectionChecks {
    /// Every check starts out failing.
    fn default() -> (r: Self)
        ensures
            r == ProtectionChecks::all_failing(),
    {
        ProtectionChecks {
            pr_one_approval: CheckOutcome::Fail,
            pr_dismiss_stale: CheckOutcome::Fail,
            pr_require_code_owner: CheckOutcome::Fail,
            disable_force_push: CheckOutcome::Fail,
            disable_deletion: CheckOutcome::Fail,
            require_signed_commits: CheckOutcome::Fail,
            require_status_checks: CheckOutcome::Fail,
            codeowners_valid: CheckOutcome::Fail,
        }
    }
}

/// A scorecard has an entry for each of the eight check names and for
/// nothing else, whatever was resolved: a check that no source answered is
/// present with its outcome, never absent.
pub proof fn lemma_scorecard_is_total(checks: ProtectionChecks)
    ensures
        checks@.dom().finite(),
        checks@.dom().len() == 8,
        forall|name: CheckName| checks@.dom().contains(name),
        forall|name: CheckName| checks@[name] == checks.outcome(name),
        forall|name: CheckName| all_checks().contains(name),
        all_checks().no_duplicates(),
{
    let names = set![
        CheckName::PrOneApproval,
        CheckName::PrDismissStale,
        CheckName::PrRequireCodeOwner,
        CheckName::DisableForcePush,
        CheckName::DisableDeletion,
        CheckName::RequireSignedCommits,
        CheckName::RequireStatusChecks,
        CheckName::CodeownersValid,
    ];
    assert(checks@.dom() =~= names);
    assert forall|name: CheckName| all_checks().contains(name) by {
        match name {
            CheckName::PrOneApproval => assert(all_checks()[0] == name),
            CheckName::PrDismissStale => assert(all_checks()[1] == name),
            CheckName::PrRequireCodeOwner => assert(all_checks()[2] == name),
            CheckName::DisableForcePush => assert(all_checks()[3] == name),
            CheckName::DisableDeletion => assert(all_checks()[4] == name),
            CheckName::RequireSignedCommits => assert(all_checks()[5] == name),
            CheckName::RequireStatusChecks => assert(all_checks()[6] == name),
            CheckName::CodeownersValid => assert(all_checks()[7] == name),
        }
    }
}

} // verus!
