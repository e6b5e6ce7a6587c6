use gh_ec_audit::checks::{CheckName, CheckOutcome, ProtectionChecks};
use gh_ec_audit::ledger::{
    ledger_header, ledger_line, ledger_row, needs_header, pending_repos, print_report,
    read_existing_csv_repos, repos_to_do, table_repos, visibility_label, work_list, CsvTable,
};
use gh_ec_audit::model::Repository;
use gh_ec_audit::selection::Selection;

fn strings(items: &[&str]) -> Vec<String> {
    items.iter().map(|s| s.to_string()).collect()
}

fn sample_checks() -> ProtectionChecks {
    let mut checks = ProtectionChecks::default();
    checks.set(CheckName::PrOneApproval, CheckOutcome::Pass);
    checks.set(CheckName::DisableDeletion, CheckOutcome::Indeterminate);
    checks.set(CheckName::CodeownersValid, CheckOutcome::Pass);
    checks
}

#[test]
fn header_has_the_twelve_columns() {
    let header = ledger_header();
    assert_eq!(
        ledger_line(&header).unwrap(),
        "repository,default_branch,visibility,pr_one_approval,pr_dismiss_stale,pr_require_code_owner,disable_force_push,disable_deletion,require_signed_commits,require_status_checks,codeowners_valid,codeowners_path\n"
    );
    assert!(needs_header(None));
    assert!(needs_header(Some(0)));
    assert!(!needs_header(Some(1)));
}

#[test]
fn row_holds_one_cell_per_check() {
    let row = ledger_row(
        "alpha",
        "main",
        "private",
        &sample_checks(),
        &Selection::all(),
        ".github/CODEOWNERS",
    );
    assert_eq!(
        row,
        strings(&[
            "alpha", "main", "private", "pass", "fail", "fail", "fail", "403", "fail", "fail",
            "pass", ".github/CODEOWNERS"
        ])
    );
    let names = strings(&["pr_one_approval", "disable_deletion"]);
    let narrow = Selection::from_names(Some(&names));
    let row = ledger_row("alpha", "main", "unknown", &sample_checks(), &narrow, "");
    assert_eq!(
        row,
        strings(&[
            "alpha", "main", "unknown", "pass", "n/a", "n/a", "n/a", "403", "n/a", "n/a", "n/a",
            ""
        ])
    );
    assert_eq!(
        ledger_line(&row).unwrap(),
        "alpha,main,unknown,pass,n/a,n/a,n/a,403,n/a,n/a,n/a,\n"
    );
    assert_eq!(visibility_label(None), "unknown");
    assert_eq!(visibility_label(Some("internal")), "internal");
}

#[test]
fn lines_are_quoted_where_csv_asks_for_it() {
    let fields = strings(&["a,b", "say \"hi\"", "plain", ""]);
    assert_eq!(ledger_line(&fields).unwrap(), "\"a,b\",\"say \"\"hi\"\"\",plain,\n");
}

#[test]
fn resumed_run_skips_recorded_repositories() {
    let mut file = ledger_line(&ledger_header()).unwrap();
    let alpha = ledger_row("alpha", "main", "public", &sample_checks(), &Selection::all(), "");
    file.push_str(&ledger_line(&alpha).unwrap());
    let committed = file.clone();
    let processed = read_existing_csv_repos(file.as_bytes());
    assert_eq!(processed, strings(&["alpha"]));
    let pending = pending_repos(&strings(&["alpha", "beta"]), &processed);
    assert_eq!(pending, strings(&["beta"]));
    // Only the new row is appended; what was committed stays as it is.
    assert!(!needs_header(Some(file.len() as u64)));
    let beta = ledger_row("beta", "trunk", "private", &ProtectionChecks::default(), &Selection::all(), "");
    file.push_str(&ledger_line(&beta).unwrap());
    assert!(file.starts_with(&committed));
    assert_eq!(&file[committed.len()..], "beta,trunk,private,fail,fail,fail,fail,fail,fail,fail,fail,\n");
    assert_eq!(repos_to_do(strings(&["alpha", "beta"]), Some(committed.as_bytes())), strings(&["beta"]));
    assert_eq!(repos_to_do(strings(&["alpha", "beta"]), Some(b"")), strings(&["alpha", "beta"]));
    assert_eq!(repos_to_do(strings(&["alpha", "beta"]), None), strings(&["alpha", "beta"]));
    assert_eq!(read_existing_csv_repos(file.as_bytes()), strings(&["alpha", "beta"]));
    assert!(pending_repos(&strings(&["alpha", "beta"]), &read_existing_csv_repos(file.as_bytes())).is_empty());
}

#[test]
fn recorded_repositories_come_from_the_repository_column() {
    assert!(read_existing_csv_repos("".as_bytes()).is_empty());
    assert!(read_existing_csv_repos("repository,default_branch\n".as_bytes()).is_empty());
    assert_eq!(
        read_existing_csv_repos("default_branch,repository\nmain,alpha\ntrunk,beta\nmain,alpha\n".as_bytes()),
        strings(&["alpha", "beta"])
    );
    // Without a column of that name the first column is taken.
    assert_eq!(read_existing_csv_repos("name,branch\nalpha,main\n".as_bytes()), strings(&["alpha"]));
    // A row with another number of fields is passed over.
    assert_eq!(
        read_existing_csv_repos("repository,branch\nalpha,main\nbroken\n\"quoted,name\",x\n".as_bytes()),
        strings(&["alpha", "quoted,name"])
    );
    // So is a row that is no UTF-8 text; the rows around it still count.
    assert_eq!(
        read_existing_csv_repos(b"repository,branch\nalpha,main\n\xff\xfe,x\nbeta,y\n"),
        strings(&["alpha", "beta"])
    );
    let table = CsvTable {
        headers: strings(&["x", "repository", "repository"]),
        rows: vec![
            Some(strings(&["1", "alpha", "other"])),
            None,
            Some(strings(&["2"])),
            Some(strings(&["3", "beta", "alpha"])),
            Some(strings(&["4", "alpha", ""])),
        ],
    };
    assert_eq!(table_repos(&table), strings(&["alpha", "beta"]));
    let headless = CsvTable { headers: vec![], rows: vec![Some(strings(&["a"])), Some(vec![])] };
    assert_eq!(table_repos(&headless), strings(&["a"]));
}

#[test]
fn pending_keeps_the_order_of_the_work_list() {
    let repos = strings(&["d", "a", "c", "a", "b"]);
    assert_eq!(pending_repos(&repos, &strings(&["a", "x"])), strings(&["d", "c", "b"]));
    assert_eq!(pending_repos(&repos, &vec![]), repos);
    assert!(pending_repos(&vec![], &repos).is_empty());
}

#[test]
fn work_list_is_sorted_and_filtered() {
    let mut archived = Repository::named("zeta".to_string());
    archived.archived = true;
    let mut disabled = Repository::named("beta".to_string());
    disabled.disabled = true;
    let repos = vec![
        Repository::named("delta".to_string()),
        archived,
        Repository::named("Alpha".to_string()),
        disabled,
        Repository::named("alpha".to_string()),
        Repository::named("alp".to_string()),
    ];
    assert_eq!(work_list(&repos, true), strings(&["Alpha", "alp", "alpha", "delta"]));
    assert_eq!(
        work_list(&repos, false),
        strings(&["Alpha", "alp", "alpha", "beta", "delta", "zeta"])
    );
    assert!(work_list(&vec![], true).is_empty());
}

#[test]
fn report_shows_score_and_selected_checks() {
    let lines = print_report("svc-b", "main", "private", &sample_checks(), &Selection::all());
    assert_eq!(
        lines,
        strings(&[
            "Repo: svc-b  Default branch: main  Visibility: private  Score: 2/8",
            "  - PR requires one approval: ✅",
            "  - PR: dismiss stale reviews: ❌",
            "  - PR requires code owners approval: ❌",
            "  - Force-push disabled: ❌",
            "  - Deletion disabled: ? (403)",
            "  - Require signed commits: ❌",
            "  - Require status checks: ❌",
            "  - CODEOWNERS exists and is valid: ✅",
        ])
    );
    let names = strings(&["codeowners_valid", "disable_deletion"]);
    let narrow = Selection::from_names(Some(&names));
    let lines = print_report("svc-b", "main", "unknown", &sample_checks(), &narrow);
    assert_eq!(
        lines,
        strings(&[
            "Repo: svc-b  Default branch: main  Visibility: unknown  Score: 1/2",
            "  - Deletion disabled: ? (403)",
            "  - CODEOWNERS exists and is valid: ✅",
        ])
    );
    let lines = print_report("r", "b", "v", &sample_checks(), &Selection::none());
    assert_eq!(lines, strings(&["Repo: r  Default branch: b  Visibility: v  Score: 0/0"]));
}
