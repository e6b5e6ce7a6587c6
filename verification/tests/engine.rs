use gh_ec_audit::checks::{all_names, CheckName, CheckOutcome, ProtectionChecks};
use gh_ec_audit::engine::resolve_checks;
use gh_ec_audit::fetch::read_reply;
use gh_ec_audit::score::{
    check_csv_value, check_csv_value_named, check_symbol, compute_selected_score, weighted_score,
    Weights,
};
use gh_ec_audit::selection::Selection;
use gh_ec_audit::sources::{
    codeowners_exists_and_is_valid, get_bpr, get_rules, BprResponse, CodeownersStatus,
    EnabledFlag, Errors, Progress, PullRequestReviews, RequiredStatusChecks, RetryPolicy,
    RuleKind, RuleParameters, RulesetRule,
};

const PROTECTION: [CheckName; 7] = [
    CheckName::PrOneApproval,
    CheckName::PrDismissStale,
    CheckName::PrRequireCodeOwner,
    CheckName::DisableForcePush,
    CheckName::DisableDeletion,
    CheckName::RequireSignedCommits,
    CheckName::RequireStatusChecks,
];

fn settled<T>(progress: Progress<T>) -> Result<T, Errors> {
    match progress {
        Progress::Done(x) => Ok(x),
        Progress::Failed(e) => Err(e),
        Progress::Retry { .. } => panic!("the source asked for another attempt"),
    }
}

fn empty_rules() -> BprResponse {
    BprResponse {
        allow_force_pushes: None,
        allow_deletions: None,
        required_signatures: None,
        required_status_checks: None,
        required_pull_request_reviews: None,
    }
}

#[test]
fn scorecard_always_has_eight_entries() {
    let names = all_names();
    assert_eq!(names.len(), 8);
    let checks = ProtectionChecks::default();
    for name in names {
        assert_eq!(checks.get(name), CheckOutcome::Fail);
    }
    let resolved = resolve_checks(&Selection::none(), None, None, None);
    for name in all_names() {
        assert_eq!(resolved.get(name), CheckOutcome::Fail);
    }
}

#[test]
fn ruleset_approval_passes_without_classic_protection() {
    // Repository "svc-a": no classic protection, a pull_request rule that asks for two reviews.
    let policy = RetryPolicy::default();
    let classic_reply = read_reply(Some("{\"message\":\"Branch not protected\",\"status\":\"404\"}"));
    let classic = settled(get_bpr(&classic_reply, 0, &policy));
    assert_eq!(classic, Err(Errors::MissingOrError));
    let rules_reply = read_reply(Some(
        "[{\"type\":\"pull_request\",\"parameters\":{\"required_approving_review_count\":2}}]",
    ));
    let rules = settled(get_rules(&rules_reply, 0, &policy));
    let selection = Selection::all();
    let checks = resolve_checks(&selection, Some(&classic), Some(&rules), None);
    assert_eq!(checks.get(CheckName::PrOneApproval), CheckOutcome::Pass);
    assert_eq!(checks.get(CheckName::PrDismissStale), CheckOutcome::Fail);
    assert_eq!(checks.get(CheckName::DisableDeletion), CheckOutcome::Fail);
    assert_eq!(compute_selected_score(&checks, &selection), (1, 8));
}

#[test]
fn forbidden_sources_leave_protection_checks_indeterminate() {
    // Repository "svc-b": 403 on the classic rules and on the rulesets, a valid CODEOWNERS file.
    let policy = RetryPolicy::default();
    let denied = "{\"message\":\"Forbidden\",\"status\":\"403\"}";
    let classic = settled(get_bpr(&read_reply(Some(denied)), 0, &policy));
    let rules = settled(get_rules(&read_reply(Some(denied)), 0, &policy));
    assert_eq!(classic, Err(Errors::NoAccess403));
    assert!(matches!(rules, Err(Errors::NoAccess403)));
    let codeowners = settled(codeowners_exists_and_is_valid(
        &read_reply(Some("{\"errors\":[]}")),
        0,
        &policy,
    ));
    assert_eq!(codeowners, Ok(CodeownersStatus::Valid));
    let selection = Selection::all();
    let checks = resolve_checks(&selection, Some(&classic), Some(&rules), Some(&codeowners));
    let mut indeterminate = 0;
    for name in PROTECTION {
        assert_eq!(checks.get(name), CheckOutcome::Indeterminate);
        assert_eq!(check_symbol(checks.get(name)), "? (403)");
        indeterminate += 1;
    }
    assert_eq!(indeterminate, 7);
    assert_eq!(checks.get(CheckName::CodeownersValid), CheckOutcome::Pass);
    assert_eq!(check_symbol(checks.get(CheckName::CodeownersValid)), "✅");
    assert_eq!(compute_selected_score(&checks, &selection), (1, 8));
}

#[test]
fn missing_codeowners_stays_fail() {
    let policy = RetryPolicy::default();
    let reply = read_reply(Some("{\"documentation_url\":\"https://docs.github.com\"}"));
    let codeowners = settled(codeowners_exists_and_is_valid(&reply, 0, &policy));
    assert_eq!(codeowners, Ok(CodeownersStatus::Missing));
    let checks = resolve_checks(&Selection::all(), None, None, Some(&codeowners));
    assert_eq!(checks.get(CheckName::CodeownersValid), CheckOutcome::Fail);
}

#[test]
fn pass_from_one_source_survives_denial_of_the_other() {
    let classic = Ok(BprResponse {
        allow_force_pushes: Some(EnabledFlag { enabled: false }),
        allow_deletions: Some(EnabledFlag { enabled: true }),
        required_signatures: Some(EnabledFlag { enabled: true }),
        required_status_checks: Some(RequiredStatusChecks { checks: 2 }),
        required_pull_request_reviews: Some(PullRequestReviews {
            required_approving_review_count: 0,
            dismiss_stale_reviews: true,
            require_code_owner_reviews: false,
        }),
    });
    let rules: Result<Vec<RulesetRule>, Errors> = Err(Errors::NoAccess403);
    let checks = resolve_checks(&Selection::all(), Some(&classic), Some(&rules), None);
    assert_eq!(checks.get(CheckName::DisableForcePush), CheckOutcome::Pass);
    assert_eq!(checks.get(CheckName::RequireSignedCommits), CheckOutcome::Pass);
    assert_eq!(checks.get(CheckName::RequireStatusChecks), CheckOutcome::Pass);
    assert_eq!(checks.get(CheckName::PrDismissStale), CheckOutcome::Pass);
    assert_eq!(checks.get(CheckName::DisableDeletion), CheckOutcome::Indeterminate);
    assert_eq!(checks.get(CheckName::PrOneApproval), CheckOutcome::Indeterminate);
    assert_eq!(checks.get(CheckName::PrRequireCodeOwner), CheckOutcome::Indeterminate);
    assert_eq!(checks.get(CheckName::CodeownersValid), CheckOutcome::Fail);
}

#[test]
fn steps_never_take_a_pass_back() {
    let selection = Selection::all();
    let mut checks = ProtectionChecks::default();
    let rules = Ok(vec![
        RulesetRule { kind: RuleKind::Deletion, parameters: None },
        RulesetRule { kind: RuleKind::NonFastForward, parameters: None },
    ]);
    checks.apply_rules(&rules, &selection);
    assert_eq!(checks.get(CheckName::DisableDeletion), CheckOutcome::Pass);
    assert_eq!(checks.get(CheckName::DisableForcePush), CheckOutcome::Pass);
    checks.apply_classic(&Ok(empty_rules()), &selection);
    checks.mark_forbidden(&selection);
    checks.apply_codeowners(&Err(Errors::NoAccess403), &selection);
    assert_eq!(checks.get(CheckName::DisableDeletion), CheckOutcome::Pass);
    assert_eq!(checks.get(CheckName::DisableForcePush), CheckOutcome::Pass);
    assert_eq!(checks.get(CheckName::RequireSignedCommits), CheckOutcome::Indeterminate);
    assert_eq!(checks.get(CheckName::CodeownersValid), CheckOutcome::Indeterminate);
    // A second denial changes nothing.
    let before = checks;
    checks.mark_forbidden(&selection);
    for name in all_names() {
        assert_eq!(checks.get(name), before.get(name));
    }
}

#[test]
fn unselected_checks_are_never_touched() {
    let names = vec!["disable_deletion".to_string()];
    let selection = Selection::from_names(Some(&names));
    let classic: Result<BprResponse, Errors> = Err(Errors::NoAccess403);
    let rules = Ok(vec![RulesetRule { kind: RuleKind::RequiredSignatures, parameters: None }]);
    let codeowners = Ok(CodeownersStatus::Valid);
    let checks = resolve_checks(&selection, Some(&classic), Some(&rules), Some(&codeowners));
    assert_eq!(checks.get(CheckName::DisableDeletion), CheckOutcome::Indeterminate);
    for name in all_names() {
        if name != CheckName::DisableDeletion {
            assert_eq!(checks.get(name), CheckOutcome::Fail);
            assert_eq!(check_csv_value_named(checks.get(name), name, &selection), "n/a");
            assert_eq!(
                check_csv_value_named(CheckOutcome::Pass, name, &selection),
                "n/a"
            );
        }
    }
    assert_eq!(
        check_csv_value_named(
            checks.get(CheckName::DisableDeletion),
            CheckName::DisableDeletion,
            &selection
        ),
        "403"
    );
    assert_eq!(compute_selected_score(&checks, &selection), (0, 1));
}

#[test]
fn rules_count_by_their_parameters() {
    let zero = RuleParameters {
        required_approving_review_count: Some(0),
        dismiss_stale_reviews_on_push: Some(false),
        require_code_owner_review: None,
        required_status_checks: Some(0),
    };
    let full = RuleParameters {
        required_approving_review_count: Some(1),
        dismiss_stale_reviews_on_push: Some(true),
        require_code_owner_review: Some(true),
        required_status_checks: Some(3),
    };
    let weak = Ok(vec![
        RulesetRule { kind: RuleKind::PullRequest, parameters: Some(zero) },
        RulesetRule { kind: RuleKind::RequiredStatusChecks, parameters: Some(zero) },
        RulesetRule { kind: RuleKind::PullRequest, parameters: None },
        RulesetRule { kind: RuleKind::Other, parameters: Some(full) },
    ]);
    let checks = resolve_checks(&Selection::all(), None, Some(&weak), None);
    for name in all_names() {
        assert_eq!(checks.get(name), CheckOutcome::Fail);
    }
    let strong = Ok(vec![
        RulesetRule { kind: RuleKind::PullRequest, parameters: Some(full) },
        RulesetRule { kind: RuleKind::RequiredStatusChecks, parameters: Some(full) },
    ]);
    let checks = resolve_checks(&Selection::all(), None, Some(&strong), None);
    assert_eq!(checks.get(CheckName::PrOneApproval), CheckOutcome::Pass);
    assert_eq!(checks.get(CheckName::PrDismissStale), CheckOutcome::Pass);
    assert_eq!(checks.get(CheckName::PrRequireCodeOwner), CheckOutcome::Pass);
    assert_eq!(checks.get(CheckName::RequireStatusChecks), CheckOutcome::Pass);
    assert_eq!(checks.score(), 4);
    assert_eq!(ProtectionChecks::max_score(), 8);
}

#[test]
fn classic_switches_count_only_when_present() {
    // A missing switch shows no protection; a force-push switch that is on shows none either.
    let classic = Ok(BprResponse {
        allow_force_pushes: Some(EnabledFlag { enabled: true }),
        allow_deletions: Some(EnabledFlag { enabled: false }),
        required_signatures: Some(EnabledFlag { enabled: false }),
        required_status_checks: Some(RequiredStatusChecks { checks: 0 }),
        required_pull_request_reviews: Some(PullRequestReviews {
            required_approving_review_count: 1,
            dismiss_stale_reviews: false,
            require_code_owner_reviews: true,
        }),
    });
    let checks = resolve_checks(&Selection::all(), Some(&classic), None, None);
    assert_eq!(checks.get(CheckName::DisableForcePush), CheckOutcome::Fail);
    assert_eq!(checks.get(CheckName::DisableDeletion), CheckOutcome::Pass);
    assert_eq!(checks.get(CheckName::RequireSignedCommits), CheckOutcome::Fail);
    assert_eq!(checks.get(CheckName::RequireStatusChecks), CheckOutcome::Fail);
    assert_eq!(checks.get(CheckName::PrOneApproval), CheckOutcome::Pass);
    assert_eq!(checks.get(CheckName::PrDismissStale), CheckOutcome::Fail);
    assert_eq!(checks.get(CheckName::PrRequireCodeOwner), CheckOutcome::Pass);
    let empty = resolve_checks(&Selection::all(), Some(&Ok(empty_rules())), None, None);
    assert_eq!(empty.score(), 0);
}

#[test]
fn weighted_score_sums_selected_passes() {
    let mut checks = ProtectionChecks::default();
    checks.set(CheckName::PrOneApproval, CheckOutcome::Pass);
    checks.set(CheckName::DisableDeletion, CheckOutcome::Pass);
    checks.set(CheckName::CodeownersValid, CheckOutcome::Indeterminate);
    let weights = Weights {
        pr_one_approval: 5,
        pr_dismiss_stale: 1,
        pr_require_code_owner: 1,
        disable_force_push: 2,
        disable_deletion: 7,
        require_signed_commits: 1,
        require_status_checks: 1,
        codeowners_valid: 4,
    };
    assert_eq!(weighted_score(&checks, &Selection::all(), &weights), (12, 22));
    let names = vec!["PR_One_Approval".to_string(), "codeowners_valid".to_string()];
    let selection = Selection::from_names(Some(&names));
    assert_eq!(weighted_score(&checks, &selection, &weights), (5, 9));
    assert_eq!(weighted_score(&checks, &Selection::none(), &weights), (0, 0));
    let heavy = Weights {
        pr_one_approval: u32::MAX,
        pr_dismiss_stale: u32::MAX,
        pr_require_code_owner: u32::MAX,
        disable_force_push: u32::MAX,
        disable_deletion: u32::MAX,
        require_signed_commits: u32::MAX,
        require_status_checks: u32::MAX,
        codeowners_valid: u32::MAX,
    };
    let top = u32::MAX as u64;
    assert_eq!(weighted_score(&checks, &Selection::all(), &heavy), (2 * top, 8 * top));
    let uniform = Weights::default();
    assert_eq!(uniform.get(CheckName::RequireStatusChecks), 1);
}

#[test]
fn outcomes_have_their_words_and_symbols() {
    assert_eq!(check_symbol(CheckOutcome::Pass), "✅");
    assert_eq!(check_symbol(CheckOutcome::Fail), "❌");
    assert_eq!(check_symbol(CheckOutcome::Indeterminate), "? (403)");
    assert_eq!(check_csv_value(CheckOutcome::Pass), "pass");
    assert_eq!(check_csv_value(CheckOutcome::Fail), "fail");
    assert_eq!(check_csv_value(CheckOutcome::Indeterminate), "403");
    assert_eq!(CheckOutcome::Fail.observe(true), CheckOutcome::Pass);
    assert_eq!(CheckOutcome::Indeterminate.observe(true), CheckOutcome::Pass);
    assert_eq!(CheckOutcome::Indeterminate.observe(false), CheckOutcome::Indeterminate);
    assert_eq!(CheckOutcome::Pass.deny(), CheckOutcome::Pass);
    assert_eq!(CheckOutcome::Fail.deny(), CheckOutcome::Indeterminate);
    assert_eq!(CheckOutcome::Fail.deny_when(false), CheckOutcome::Fail);
    assert!(CheckOutcome::Pass.is_pass());
    assert!(!CheckOutcome::Indeterminate.is_pass());
}

#[test]
fn selection_names_are_matched_without_case() {
    let names = vec![
        "Require_Signed_Commits".to_string(),
        "DISABLE_FORCE_PUSH".to_string(),
        "no_such_check".to_string(),
    ];
    let selection = Selection::from_names(Some(&names));
    assert!(selection.is_selected(CheckName::RequireSignedCommits));
    assert!(selection.is_selected(CheckName::DisableForcePush));
    assert!(!selection.is_selected(CheckName::PrOneApproval));
    assert!(!selection.is_selected(CheckName::CodeownersValid));
    assert!(selection.need_protection_sources());
    assert!(!selection.need_codeowners());
    let exact = Selection::from_labels(&names);
    assert!(!exact.is_selected(CheckName::RequireSignedCommits));
    let everything = Selection::from_names(None);
    for name in all_names() {
        assert!(everything.is_selected(name));
        assert_eq!(CheckName::from_label(name.as_str()), Some(name));
    }
    assert_eq!(CheckName::from_label("PR_ONE_APPROVAL"), None);
    let only_codeowners = Selection::from_names(Some(&vec!["codeowners_valid".to_string()]));
    assert!(!only_codeowners.need_protection_sources());
    assert!(only_codeowners.need_codeowners());
    assert!(!CheckName::CodeownersValid.protection());
    assert!(CheckName::DisableDeletion.protection());
}
