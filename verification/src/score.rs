//! Weights, the weighted score of a scorecard, and the words and symbols in
//! which an outcome is reported.

use crate::checks::{all_checks, CheckName, CheckOutcome, ProtectionChecks};
use crate::selection::Selection;
use vstd::prelude::*;

verus! {

/// The weight of each check in the score.
#[derive(Clone, Copy, Debug)]
pub struct Weights {
    pub pr_one_approval: u32,
    pub pr_dismiss_stale: u32,
    pub pr_require_code_owner: u32,
    pub disable_force_push: u32,
    pub disable_deletion: u32,
    pub require_signed_commits: u32,
    pub require_status_checks: u32,
    pub codeowners_valid: u32,
}

impl Weights {
    /// The weight of a check.
    pub open spec fn weight(self, name: CheckName) -> u32 {
        match name {
            CheckName::PrOneApproval => self.pr_one_approval,
            CheckName::PrDismissStale => self.pr_dismiss_stale,
            CheckName::PrRequireCodeOwner => self.pr_require_code_owner,
            CheckName::DisableForcePush => self.disable_force_push,
            CheckName::DisableDeletion => self.disable_deletion,
            CheckName::RequireSignedCommits => self.require_signed_commits,
            CheckName::RequireStatusChecks => self.require_status_checks,
            CheckName::CodeownersValid => self.codeowners_valid,
        }
    }

    /// Every check weighs one.
    pub open spec fn uniform() -> Weights {
        Weights {
            pr_one_approval: 1,
            pr_dismiss_stale: 1,
            pr_require_code_owner: 1,
            disable_force_push: 1,
            disable_deletion: 1,
            require_signed_commits: 1,
            require_status_checks: 1,
            codeowners_valid: 1,
        }
    }

    /// Whether every check has a weight above zero.
    pub open spec fn positive(self) -> bool {
        forall|name: CheckName| self.weight(name) > 0
    }

    /// The weight of a check.
    pub fn get(&self, name: CheckName) -> (r: u32)
        ensures
            r == self.weight(name),
    {
        match name {
            CheckName::PrOneApproval => self.pr_one_approval,
            CheckName::PrDismissStale => self.pr_dismiss_stale,
            CheckName::PrRequireCodeOwner => self.pr_require_code_owner,
            CheckName::DisableForcePush => self.disable_force_push,
            CheckName::DisableDeletion => self.disable_deletion,
            CheckName::RequireSignedCommits => self.require_signed_commits,
            CheckName::RequireStatusChecks => self.require_status_checks,
            CheckName::CodeownersValid => self.codeowners_valid,
        }
    }
}

impl Default for Weights {
    /// Every check weighs one.
    fn default() -> (r: Self)
        ensures
            r == Weights::uniform(),
    {
        Weights {
            pr_one_approval: 1,
            pr_dismiss_stale: 1,
            pr_require_code_owner: 1,
            disable_force_push: 1,
            disable_deletion: 1,
            require_signed_commits: 1,
            require_status_checks: 1,
            codeowners_valid: 1,
        }
    }
}

/// Whether a check counts towards the score: it is selected and passes.
pub open spec fn earns(checks: ProtectionChecks, selection: Selection, name: CheckName) -> bool {
    selection.includes(name) && checks.outcome(name) == CheckOutcome::Pass
}

/// The sum of the weights of the first `upto` checks that pass and are
/// selected.
pub open spec fn earned_upto(
    checks: ProtectionChecks,
    selection: Selection,
    weights: Weights,
    upto: nat,
) -> nat
    decreases upto,
{
    if upto == 0 {
        0
    } else {
        let name = all_checks()[upto - 1];
        earned_upto(checks, selection, weights, (upto - 1) as nat) + if earns(
            checks,
            selection,
            name,
        ) {
            weights.weight(name) as nat
        } else {
            0
        }
    }
}

/// The sum of the weights of the first `upto` checks that are selected.
pub open spec fn attainable_upto(selection: Selection, weights: Weights, upto: nat) -> nat
    decreases upto,
{
    if upto == 0 {
        0
    } else {
        let name = all_checks()[upto - 1];
        attainable_upto(selection, weights, (upto - 1) as nat) + if selection.includes(name) {
            weights.weight(name) as nat
        } else {
            0
        }
    }
}

/// The score: the sum of the weights of the selected checks that pass.
pub open spec fn earned(checks: ProtectionChecks, selection: Selection, weights: Weights) -> nat {
    earned_upto(checks, selection, weights, 8)
}

/// What the score is held against: the sum of the weights of the selected
/// checks.
pub open spec fn attainable(selection: Selection, weights: Weights) -> nat {
    attainable_upto(selection, weights, 8)
}

/// The score of a scorecard under the given weights, and the most that the
/// selection could score.
pub fn weighted_score(checks: &ProtectionChecks, selected: &Selection, weights: &Weights) -> (r: (
    u64,
    u64,
))
    ensures
        r.0 == earned(*checks, *selected, *weights),
        r.1 == attainable(*selected, *weights),
        r.0 <= r.1,
{
    let names = crate::checks::all_names();
    let mut score: u64 = 0;
    let mut max: u64 = 0;
    let mut i: usize = 0;
    while i < names.len()
        invariant
            i <= 8,
            names@ == all_checks(),
            score == earned_upto(*checks, *selected, *weights, i as nat),
            max == attainable_upto(*selected, *weights, i as nat),
            score <= max,
            max <= i * 0xffff_ffff,
        decreases 8 - i,
    {
        let name = names[i];
        if selected.is_selected(name) {
            let w = weights.get(name) as u64;
            max = max + w;
            if checks.get(name).is_pass() {
                score = score + w;
            }
        }
        i += 1;
    }
    (score, max)
}

/// The score of a scorecard and the most that the selection could score,
/// every check weighing one.
pub fn compute_selected_score(checks: &ProtectionChecks, selected: &Selection) -> (r: (u32, u32))
    ensures
        r.0 == earned(*checks, *selected, Weights::uniform()),
        r.1 == attainable(*selected, Weights::uniform()),
        r.0 <= r.1 <= 8,
{
    let weights = Weights::default();
    let (score, max) = weighted_score(checks, selected, &weights);
    proof {
        lemma_uniform_bound(*selected, 8);
    }
    (score as u32, max as u32)
}

/// With every check weighing one, the first `upto` checks can score at most
/// `upto`.
proof fn lemma_uniform_bound(selection: Selection, upto: nat)
    requires
        upto <= 8,
    ensures
        attainable_upto(selection, Weights::uniform(), upto) <= upto,
    decreases upto,
{
    if upto > 0 {
        lemma_uniform_bound(selection, (upto - 1) as nat);
    }
}

/// Whether each of the first `upto` checks passes if it is selected.
pub open spec fn all_pass_upto(checks: ProtectionChecks, selection: Selection, upto: nat) -> bool {
    forall|k: int|
        0 <= k < upto ==> selection.includes(#[trigger] all_checks()[k]) ==> checks.outcome(
            all_checks()[k],
        ) == CheckOutcome::Pass
}

/// Over the first `upto` checks the score stays within what the selection
/// can score and, with positive weights, reaches it exactly when every
/// selected check passes.
proof fn lemma_full_score_upto(
    checks: ProtectionChecks,
    selection: Selection,
    weights: Weights,
    upto: nat,
)
    requires
        upto <= 8,
    ensures
        earned_upto(checks, selection, weights, upto) <= attainable_upto(selection, weights, upto),
        weights.positive() ==> (earned_upto(checks, selection, weights, upto) == attainable_upto(
            selection,
            weights,
            upto,
        ) <==> all_pass_upto(checks, selection, upto)),
    decreases upto,
{
    if upto > 0 {
        let before = (upto - 1) as nat;
        lemma_full_score_upto(checks, selection, weights, before);
        let name = all_checks()[upto - 1];
        if weights.positive() {
            assert(weights.weight(name) > 0);
            if all_pass_upto(checks, selection, upto) {
                assert(all_pass_upto(checks, selection, before));
                assert(selection.includes(all_checks()[upto - 1]) ==> checks.outcome(name)
                    == CheckOutcome::Pass);
            }
            if earned_upto(checks, selection, weights, upto) == attainable_upto(
                selection,
                weights,
                upto,
            ) {
                assert(all_pass_upto(checks, selection, before));
                assert forall|k: int| 0 <= k < upto && selection.includes(
                    #[trigger] all_checks()[k],
                ) implies checks.outcome(all_checks()[k]) == CheckOutcome::Pass by {
                    if k < before {
                    } else {
                        assert(k == upto - 1);
                    }
                }
            }
        }
    }
}

/// The score never exceeds what the selection can score. With positive
/// weights it reaches that exactly when every selected check passes: a
/// weight scales what a check adds and never decides whether it passes.
pub proof fn lemma_full_score_means_all_pass(
    checks: ProtectionChecks,
    selection: Selection,
    weights: Weights,
)
    ensures
        earned(checks, selection, weights) <= attainable(selection, weights),
        weights.positive() ==> (earned(checks, selection, weights) == attainable(selection, weights)
            <==> forall|name: CheckName|
            selection.includes(name) ==> checks.outcome(name) == CheckOutcome::Pass),
{
    lemma_full_score_upto(checks, selection, weights, 8);
    if weights.positive() {
        if all_pass_upto(checks, selection, 8) {
            assert forall|name: CheckName| selection.includes(name) implies checks.outcome(name)
                == CheckOutcome::Pass by {
                let k = choose|k: int| 0 <= k < 8 && all_checks()[k] == name;
                assert(selection.includes(all_checks()[k]));
            }
        }
    }
}

impl ProtectionChecks {
    /// The score over all eight checks, every check weighing one.
    pub fn score(&self) -> (r: u32)
        ensures
            r == earned(*self, Selection::everything(), Weights::uniform()),
            r <= 8,
    {
        let all = Selection::all();
        compute_selected_score(self, &all).0
    }

    /// The most that a scorecard can score, every check weighing one.
    pub fn max_score() -> (r: u32)
        ensures
            r == attainable(Selection::everything(), Weights::uniform()),
            r == 8,
    {
        let all = Selection::all();
        proof {
            reveal_with_fuel(attainable_upto, 9);
        }
        let checks = ProtectionChecks::default();
        compute_selected_score(&checks, &all).1
    }
}

/// The symbol that the console report shows for an outcome.
pub open spec fn symbol_text(v: CheckOutcome) -> Seq<char> {
    match v {
        CheckOutcome::Indeterminate => "? (403)"@,
        CheckOutcome::Pass => "✅"@,
        CheckOutcome::Fail => "❌"@,
    }
}

/// The word that the ledger holds for an outcome.
pub open spec fn cell_text(v: CheckOutcome) -> Seq<char> {
    match v {
        CheckOutcome::Indeterminate => "403"@,
        CheckOutcome::Pass => "pass"@,
        CheckOutcome::Fail => "fail"@,
    }
}

/// The word that the ledger holds for a check: `n/a` for a check outside the
/// selection, whatever its outcome.
pub open spec fn named_cell_text(v: CheckOutcome, name: CheckName, selected: Selection) -> Seq<
    char,
> {
    if selected.includes(name) {
        cell_text(v)
    } else {
        "n/a"@
    }
}

/// The symbol that the console report shows for an outcome.
pub fn check_symbol(v: CheckOutcome) -> (r: String)
    ensures
        r@ == symbol_text(v),
{
    match v {
        CheckOutcome::Indeterminate => "? (403)".to_owned(),
        CheckOutcome::Pass => "✅".to_owned(),
        CheckOutcome::Fail => "❌".to_owned(),
    }
}

/// The word that the ledger holds for an outcome.
pub fn check_csv_value(v: CheckOutcome) -> (r: String)
    ensures
        r@ == cell_text(v),
{
    match v {
        CheckOutcome::Indeterminate => "403".to_owned(),
        CheckOutcome::Pass => "pass".to_owned(),
        CheckOutcome::Fail => "fail".to_owned(),
    }
}

/// The word that the ledger holds for a check under a selection.
pub fn check_csv_value_named(v: CheckOutcome, name: CheckName, selected: &Selection) -> (r: String)
    ensures
        r@ == named_cell_text(v, name, *selected),
{
    if !selected.is_selected(name) {
        return "n/a".to_owned();
    }
    check_csv_value(v)
}

} // verus!
