//! Which checks an audit run evaluates and reports.

use crate::checks::CheckName;
use crate::text::{lowercase_of, texts, to_lowercase};
use vstd::prelude::*;

verus! {

/// The set of checks that a run is asked for.
///
/// A check outside the selection is not fetched, not scored and not reported.
#[derive(Clone, Copy, Debug)]
pub struct Selection {
    pub pr_one_approval: bool,
    pub pr_dismiss_stale: bool,
    pub pr_require_code_owner: bool,
    pub disable_force_push: bool,
    pub disable_deletion: bool,
    pub require_signed_commits: bool,
    pub require_status_checks: bool,
    pub codeowners_valid: bool,
}

/// Whether one of the labels is the canonical name of `name`.
pub open spec fn labels_name(labels: Seq<Seq<char>>, name: CheckName) -> bool {
    exists|i: int| 0 <= i < labels.len() && CheckName::named(#[trigger] labels[i]) == Some(name)
}

/// The lower-case forms of the names that a caller wrote.
pub open spec fn lowered(names: Seq<String>) -> Seq<Seq<char>> {
    names.map_values(|n: String| lowercase_of(n@))
}

impl View for Selection {
    type V = Set<CheckName>;

    /// The selection as the set of the names in it.
    open spec fn view(&self) -> Set<CheckName> {
        Set::new(|name: CheckName| self.includes(name))
    }
}

impl Selection {
    /// Whether the check is selected.
    pub open spec fn includes(self, name: CheckName) -> bool {
        match name {
            CheckName::PrOneApproval => self.pr_one_approval,
            CheckName::PrDismissStale => self.pr_dismiss_stale,
            CheckName::PrRequireCodeOwner => self.pr_require_code_owner,
            CheckName::DisableForcePush => self.disable_force_push,
            CheckName::DisableDeletion => self.disable_deletion,
            CheckName::RequireSignedCommits => self.require_signed_commits,
            CheckName::RequireStatusChecks => self.require_status_checks,
            CheckName::CodeownersValid => self.codeowners_valid,
        }
    }

    /// Whether any check is selected that the branch-protection sources
    /// answer.
    pub open spec fn wants_protection(self) -> bool {
        exists|name: CheckName| name.is_protection() && self.includes(name)
    }

    /// The selection that a list of names stands for: no list selects every
    /// check; a list selects the checks whose canonical name is the
    /// lower-case form of one of its entries.
    pub open spec fn selects(names: Option<Seq<String>>, selection: Selection) -> bool {
        match names {
            None => forall|name: CheckName| selection.includes(name),
            Some(list) => forall|name: CheckName|
                selection.includes(name) == labels_name(lowered(list), name),
        }
    }

    /// The selection of every check.
    pub open spec fn everything() -> Selection {
        Selection {
            pr_one_approval: true,
            pr_dismiss_stale: true,
            pr_require_code_owner: true,
            disable_force_push: true,
            disable_deletion: true,
            require_signed_commits: true,
            require_status_checks: true,
            codeowners_valid: true,
        }
    }

    /// Every check.
    pub fn all() -> (r: Selection)
        ensures
            r == Selection::everything(),
            forall|name: CheckName| r.includes(name),
    {
        Selection {
            pr_one_approval: true,
            pr_dismiss_stale: true,
            pr_require_code_owner: true,
            disable_force_push: true,
            disable_deletion: true,
            require_signed_commits: true,
            require_status_checks: true,
            codeowners_valid: true,
        }
    }

    /// No check.
    pub fn none() -> (r: Selection)
        ensures
            forall|name: CheckName| !r.includes(name),
    {
        Selection {
            pr_one_approval: false,
            pr_dismiss_stale: false,
            pr_require_code_owner: false,
            disable_force_push: false,
            disable_deletion: false,
            require_signed_commits: false,
            require_status_checks: false,
            codeowners_valid: false,
        }
    }

    /// Whether the check is selected.
    pub fn is_selected(&self, name: CheckName) -> (r: bool)
        ensures
            r == self.includes(name),
    {
        match name {
            CheckName::PrOneApproval => self.pr_one_approval,
            CheckName::PrDismissStale => self.pr_dismiss_stale,
            CheckName::PrRequireCodeOwner => self.pr_require_code_owner,
            CheckName::DisableForcePush => self.disable_force_push,
            CheckName::DisableDeletion => self.disable_deletion,
            CheckName::RequireSignedCommits => self.require_signed_commits,
            CheckName::RequireStatusChecks => self.require_status_checks,
            CheckName::CodeownersValid => self.codeowners_valid,
        }
    }

    /// Adds a check to the selection.
    pub fn select(&mut self, name: CheckName)
        ensures
            forall|other: CheckName|
                final(self).includes(other) == (other == name || old(self).includes(other)),
    {
        match name {
            CheckName::PrOneApproval => {
                self.pr_one_approval = true;
            },
            CheckName::PrDismissStale => {
                self.pr_dismiss_stale = true;
            },
            CheckName::PrRequireCodeOwner => {
                self.pr_require_code_owner = true;
            },
            CheckName::DisableForcePush => {
                self.disable_force_push = true;
            },
            CheckName::DisableDeletion => {
                self.disable_deletion = true;
            },
            CheckName::RequireSignedCommits => {
                self.require_signed_commits = true;
            },
            CheckName::RequireStatusChecks => {
                self.require_status_checks = true;
            },
            CheckName::CodeownersValid => {
                self.codeowners_valid = true;
            },
        }
    }

    /// The checks whose canonical name is among `labels`; a label that names
    /// no check selects nothing.
    pub fn from_labels(labels: &Vec<String>) -> (r: Selection)
        ensures
            forall|name: CheckName| r.includes(name) == labels_name(texts(labels@), name),
    {
        let mut r = Selection::none();
        let mut i: usize = 0;
        while i < labels.len()
            invariant
                i <= labels@.len(),
                forall|name: CheckName|
                    r.includes(name) == labels_name(texts(labels@).take(i as int), name),
            decreases labels@.len() - i,
        {
            let ghost before = texts(labels@).take(i as int);
            let ghost after = texts(labels@).take(i + 1);
            let found = CheckName::from_label(labels[i].as_str());
            match found {
                Some(name) => {
                    r.select(name);
                },
                None => {},
            }
            proof {
                assert(after[i as int] == labels@[i as int]@);
                assert forall|name: CheckName|
                    r.includes(name) == labels_name(after, name) by {
                    if labels_name(before, name) {
                        let k = choose|k: int|
                            0 <= k < before.len() && CheckName::named(#[trigger] before[k])
                                == Some(name);
                        assert(after[k] == before[k]);
                    }
                    if labels_name(after, name) {
                        let k = choose|k: int|
                            0 <= k < after.len() && CheckName::named(#[trigger] after[k]) == Some(
                                name,
                            );
                        if k < i {
                            assert(before[k] == after[k]);
                        }
                    }
                }
            }
            i += 1;
        }
        proof {
            assert(texts(labels@).take(labels@.len() as int) =~= texts(labels@));
        }
        r
    }

    /// The selection that a caller's list of names stands for. The names are
    /// matched without regard to case; no list at all selects every check.
    pub fn from_names(names: Option<&Vec<String>>) -> (r: Selection)
        ensures
            Selection::selects(
                match names {
                    Some(list) => Some(list@),
                    None => None,
                },
                r,
            ),
    {
        match names {
            None => Selection::all(),
            Some(list) => {
                let mut labels: Vec<String> = Vec::new();
                let mut i: usize = 0;
                while i < list.len()
                    invariant
                        i <= list@.len(),
                        texts(labels@) == lowered(list@).take(i as int),
                    decreases list@.len() - i,
                {
                    let low = to_lowercase(list[i].as_str());
                    proof {
                        assert(texts(labels@.push(low)) =~= texts(labels@).push(low@));
                        assert(lowered(list@).take(i + 1) =~= lowered(list@).take(i as int).push(
                            lowercase_of(list@[i as int]@),
                        ));
                    }
                    labels.push(low);
                    i += 1;
                }
                proof {
                    assert(lowered(list@).take(list@.len() as int) =~= lowered(list@));
                }
                Selection::from_labels(&labels)
            },
        }
    }

    /// Whether the classic rules and the rulesets have to be fetched.
    pub fn need_protection_sources(&self) -> (r: bool)
        ensures
            r == self.wants_protection(),
    {
        let r = self.disable_force_push || self.disable_deletion || self.require_signed_commits
            || self.pr_one_approval || self.pr_dismiss_stale || self.pr_require_code_owner
            || self.require_status_checks;
        proof {
            if self.pr_one_approval {
                assert(CheckName::PrOneApproval.is_protection());
            }
            if self.pr_dismiss_stale {
                assert(CheckName::PrDismissStale.is_protection());
            }
            if self.pr_require_code_owner {
                assert(CheckName::PrRequireCodeOwner.is_protection());
            }
            if self.disable_force_push {
                assert(CheckName::DisableForcePush.is_protection());
            }
            if self.disable_deletion {
                assert(CheckName::DisableDeletion.is_protection());
            }
            if self.require_signed_commits {
                assert(CheckName::RequireSignedCommits.is_protection());
            }
            if self.require_status_checks {
                assert(CheckName::RequireStatusChecks.is_protection());
            }
        }
        r
    }

    /// Whether the CODEOWNERS probe has to be made.
    pub fn need_codeowners(&self) -> (r: bool)
        ensures
            r == self.includes(CheckName::CodeownersValid),
    {
        self.codeowners_valid
    }
}

} // verus!
