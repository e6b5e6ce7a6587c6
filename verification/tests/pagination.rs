use gh_ec_audit::fetch::{classify, fetch_outcome, item_url, read_reply, FetchError, Listing};
use gh_ec_audit::index::{index_by, reversed, Index};
use gh_ec_audit::json::Json;
use gh_ec_audit::model::{Collaborator, Member, Permissions, Record, Repository, Team};
use gh_ec_audit::paginate::{PageAction, Paginator, RATE_LIMIT_COOL_DOWN_SECS};

fn page(text: &str) -> Result<Json, FetchError> {
    read_reply(Some(text))
}

fn member(login: &str) -> String {
    format!("{{\"login\":\"{login}\",\"avatar_url\":\"https://avatars/{login}\",\"id\":7}}")
}

fn logins(members: &Vec<Member>) -> Vec<String> {
    let mut names: Vec<String> = members.iter().map(|m| m.login.clone()).collect();
    names.sort();
    names
}

fn run(pager: &mut Paginator<Member>, replies: &[Result<Json, FetchError>]) -> PageAction {
    let mut last = PageAction::Fetch { page: pager.page() };
    for reply in replies {
        last = pager.advance(reply);
    }
    last
}

#[test]
fn pages_accumulate_until_an_empty_page() {
    let mut pager: Paginator<Member> = Paginator::new(3);
    assert_eq!(pager.page(), 1);
    let first = page(&format!("[{},{}]", member("ann"), member("bob")));
    assert_eq!(pager.advance(&first), PageAction::Fetch { page: 2 });
    let second = page(&format!("[{}]", member("cy")));
    assert_eq!(pager.advance(&second), PageAction::Fetch { page: 3 });
    assert_eq!(pager.advance(&page("[]")), PageAction::Done);
    assert_eq!(pager.page(), 3);
    assert_eq!(logins(pager.items()), vec!["ann", "bob", "cy"]);
    assert_eq!(pager.into_items().len(), 3);
}

#[test]
fn an_empty_page_always_terminates() {
    let mut fresh: Paginator<Member> = Paginator::new(0);
    assert_eq!(fresh.advance(&page("[]")), PageAction::Done);
    assert!(fresh.items().is_empty());
    let mut worn: Paginator<Member> = Paginator::new(5);
    run(&mut worn, &[Err(FetchError::Transient), Err(FetchError::RateLimited)]);
    assert_eq!(worn.advance(&page("[]")), PageAction::Done);
}

#[test]
fn identical_items_collapse() {
    let mut pager: Paginator<Member> = Paginator::new(3);
    let first = page(&format!("[{},{},{}]", member("ann"), member("bob"), member("ann")));
    pager.advance(&first);
    let second = page(&format!("[{},{}]", member("bob"), member("cy")));
    pager.advance(&second);
    assert_eq!(logins(pager.items()), vec!["ann", "bob", "cy"]);
    // The same login with another avatar is another member.
    let third = page("[{\"login\":\"ann\",\"avatar_url\":\"https://elsewhere\"}]");
    pager.advance(&third);
    assert_eq!(pager.items().len(), 4);
}

#[test]
fn repeated_listing_gives_an_equal_set() {
    let pages = [
        page(&format!("[{},{}]", member("ann"), member("bob"))),
        page(&format!("[{},{}]", member("bob"), member("cy"))),
        page("[]"),
    ];
    let mut first: Paginator<Member> = Paginator::new(3);
    assert_eq!(run(&mut first, &pages), PageAction::Done);
    // The second run meets hiccups in between and has another budget.
    let mut second: Paginator<Member> = Paginator::new(9);
    second.advance(&Err(FetchError::Transient));
    second.advance(&pages[0]);
    second.advance(&Err(FetchError::RateLimited));
    second.advance(&pages[1]);
    second.advance(&Err(FetchError::Transient));
    assert_eq!(second.advance(&pages[2]), PageAction::Done);
    assert_eq!(logins(first.items()), logins(second.items()));
    assert_eq!(first.items().len(), second.items().len());
    for m in first.items() {
        assert!(second.items().iter().any(|n| n.equals(m)));
    }
}

#[test]
fn rate_limits_do_not_consume_the_retry_budget() {
    let mut pager: Paginator<Member> = Paginator::new(2);
    let limited = page("{\"message\":\"API rate limit exceeded for user\",\"status\":\"403\"}");
    assert_eq!(
        pager.advance(&limited),
        PageAction::CoolDown { seconds: 60, page: 1 }
    );
    assert_eq!(pager.tries(), 0);
    assert_eq!(
        pager.advance(&Err(FetchError::RateLimited)),
        PageAction::CoolDown { seconds: RATE_LIMIT_COOL_DOWN_SECS, page: 1 }
    );
    assert_eq!(pager.tries(), 0);
    assert_eq!(pager.page(), 1);
    let success = page(&format!("[{}]", member("ann")));
    assert_eq!(pager.advance(&success), PageAction::Fetch { page: 2 });
    assert_eq!(pager.tries(), 0);
    assert_eq!(logins(pager.items()), vec!["ann"]);
    // The whole budget is still there for the next page.
    assert_eq!(pager.advance(&Err(FetchError::Transient)), PageAction::Fetch { page: 2 });
    assert_eq!(pager.tries(), 1);
    assert_eq!(
        pager.advance(&Err(FetchError::Transient)),
        PageAction::Failed(FetchError::Transient)
    );
}

#[test]
fn transient_failures_are_budgeted_per_page() {
    let mut pager: Paginator<Member> = Paginator::new(3);
    assert_eq!(pager.advance(&Err(FetchError::Transient)), PageAction::Fetch { page: 1 });
    assert_eq!(pager.advance(&Err(FetchError::Transient)), PageAction::Fetch { page: 1 });
    assert_eq!(pager.tries(), 2);
    let success = page(&format!("[{}]", member("ann")));
    assert_eq!(pager.advance(&success), PageAction::Fetch { page: 2 });
    assert_eq!(pager.tries(), 0);
    assert_eq!(pager.advance(&Err(FetchError::Transient)), PageAction::Fetch { page: 2 });
    assert_eq!(pager.advance(&Err(FetchError::Transient)), PageAction::Fetch { page: 2 });
    assert_eq!(
        pager.advance(&Err(FetchError::Transient)),
        PageAction::Failed(FetchError::Transient)
    );
    // What was collected stays readable.
    assert_eq!(logins(pager.items()), vec!["ann"]);
    let mut none: Paginator<Member> = Paginator::new(0);
    assert_eq!(
        none.advance(&Err(FetchError::Transient)),
        PageAction::Failed(FetchError::Transient)
    );
}

#[test]
fn terminal_errors_abort_at_once() {
    let cases = [
        ("{\"message\":\"Not Found\",\"status\":\"404\"}", FetchError::NotFound),
        ("{\"message\":\"Forbidden\",\"status\":\"403\"}", FetchError::Forbidden),
        ("{\"message\":\"Bad credentials\",\"status\":\"401\"}", FetchError::Malformed),
        ("{\"total_count\":3}", FetchError::Malformed),
        ("\"text\"", FetchError::Malformed),
        ("not json at all", FetchError::Malformed),
        ("[{\"login\":\"ann\"}]", FetchError::Malformed),
        ("[{\"login\":7,\"avatar_url\":\"x\"}]", FetchError::Malformed),
    ];
    for (body, error) in cases {
        let mut pager: Paginator<Member> = Paginator::new(3);
        assert_eq!(pager.advance(&page(body)), PageAction::Failed(error), "{body}");
        assert_eq!(pager.tries(), 0);
        assert_eq!(pager.page(), 1);
    }
    let mut pager: Paginator<Member> = Paginator::new(3);
    assert_eq!(pager.advance(&read_reply(None)), PageAction::Fetch { page: 1 });
    assert_eq!(pager.tries(), 1);
}

#[test]
fn replies_are_classified_by_their_envelope() {
    assert_eq!(read_reply(None).unwrap_err(), FetchError::Transient);
    assert_eq!(read_reply(Some("{\"a\":")).unwrap_err(), FetchError::Malformed);
    let doc = |text: &str| read_reply(Some(text)).unwrap();
    assert_eq!(classify(&doc("{\"status\":\"404\"}")), Some(FetchError::NotFound));
    assert_eq!(classify(&doc("{\"status\":\"403\"}")), Some(FetchError::Forbidden));
    assert_eq!(
        classify(&doc("{\"message\":\"You hit the API rate limit exceeded wall\",\"status\":\"404\"}")),
        Some(FetchError::RateLimited)
    );
    assert_eq!(classify(&doc("{\"message\":\"API rate limit\"}")), Some(FetchError::Malformed));
    assert_eq!(classify(&doc("{\"status\":403}")), None);
    assert_eq!(classify(&doc("{\"default_branch\":\"main\"}")), None);
    assert_eq!(classify(&doc("[1,2]")), None);
}

#[test]
fn fetch_outcome_is_a_document_or_a_classified_error() {
    assert_eq!(fetch_outcome(None).unwrap_err(), FetchError::Transient);
    assert_eq!(fetch_outcome(Some("<html>")).unwrap_err(), FetchError::Malformed);
    assert_eq!(
        fetch_outcome(Some("{\"message\":\"Not Found\",\"status\":\"404\"}")).unwrap_err(),
        FetchError::NotFound
    );
    assert_eq!(
        fetch_outcome(Some("{\"message\":\"Must have admin rights\",\"status\":\"403\"}")).unwrap_err(),
        FetchError::Forbidden
    );
    assert_eq!(
        fetch_outcome(Some("{\"message\":\"API rate limit exceeded for user 1\",\"status\":\"403\"}"))
            .unwrap_err(),
        FetchError::RateLimited
    );
    assert_eq!(
        fetch_outcome(Some("{\"message\":\"Bad credentials\"}")).unwrap_err(),
        FetchError::Malformed
    );
    let payload = fetch_outcome(Some("{\"default_branch\":\"main\"}")).unwrap();
    assert_eq!(payload.get_str("default_branch"), Some("main"));
    let listing = fetch_outcome(Some("[{\"login\":\"ann\"},{\"login\":\"bob\"}]")).unwrap();
    assert_eq!(listing.as_array().map(|items| items.len()), Some(2));
    // A listing comes to the same whether its replies were classified before or not.
    let mut raw: Paginator<Member> = Paginator::new(3);
    let mut told: Paginator<Member> = Paginator::new(3);
    for body in [Some("{\"status\":\"403\"}"), None, Some("[]")] {
        assert_eq!(raw.advance(&read_reply(body)), told.advance(&fetch_outcome(body)));
    }
}

#[test]
fn urls_carry_page_size_page_and_parameters() {
    let listing = Listing {
        path: "/orgs/acme/members".to_string(),
        page_size: 100,
        retries: 3,
        params: None,
    };
    assert_eq!(
        listing.page_url(1),
        "https://api.github.com/orgs/acme/members?per_page=100&page=1"
    );
    let admins = Listing {
        path: "/orgs/acme/members".to_string(),
        page_size: 75,
        retries: 3,
        params: Some("role=admin".to_string()),
    };
    assert_eq!(
        admins.page_url(12),
        "https://api.github.com/orgs/acme/members?per_page=75&page=12&role=admin"
    );
    assert_eq!(
        admins.page_url(u64::MAX),
        "https://api.github.com/orgs/acme/members?per_page=75&page=18446744073709551615&role=admin"
    );
    assert_eq!(item_url("/repos/acme/api", None), "https://api.github.com/repos/acme/api");
    assert_eq!(
        item_url("/search/code", Some("q=x")),
        "https://api.github.com/search/code?q=x"
    );
}

#[test]
fn records_are_read_with_all_their_fields() {
    let permissions = "{\"pull\":true,\"triage\":true,\"push\":false,\"maintain\":false,\"admin\":false}";
    let repos = page(&format!(
        "[{{\"name\":\"api\",\"private\":true,\"archived\":false,\"disabled\":false,\"visibility\":\"internal\",\"permissions\":{permissions},\"security_and_analysis\":{{\"secret_scanning\":{{\"status\":\"enabled\"}},\"dependabot_security_updates\":{{\"status\":\"disabled\"}}}}}}]"
    ));
    let mut pager: Paginator<Repository> = Paginator::new(3);
    assert_eq!(pager.advance(&repos), PageAction::Fetch { page: 2 });
    let repo = &pager.items()[0];
    assert_eq!(repo.name, "api");
    assert!(repo.private && !repo.archived && !repo.disabled);
    assert_eq!(repo.visibility.as_deref(), Some("internal"));
    assert_eq!(repo.permissions.highest_perm(), "triage");
    assert!(repo.is_security_property_enabled("secret_scanning"));
    assert!(!repo.is_security_property_enabled("dependabot_security_updates"));
    assert!(!repo.is_security_property_enabled("secret_scanning_push_protection"));
    assert!(!repo.is_security_property_enabled("anything"));
    assert!(repo.has_visibility("internal") && !repo.has_visibility("public"));

    let teams = page(&format!(
        "[{{\"name\":\"Core\",\"slug\":\"core\",\"permissions\":{permissions}}},{{\"name\":\"Docs\",\"slug\":\"docs\"}},{{\"name\":\"Ops\",\"slug\":\"ops\",\"permissions\":null}}]"
    ));
    let mut pager: Paginator<Team> = Paginator::new(3);
    pager.advance(&teams);
    assert_eq!(pager.items().len(), 3);
    assert!(pager.items()[0].permissions.is_some());
    assert!(pager.items()[1].permissions.is_none());
    assert!(pager.items()[2].permissions.is_none());
    let broken = page("[{\"name\":\"Core\",\"slug\":\"core\",\"permissions\":{\"pull\":true}}]");
    let mut pager: Paginator<Team> = Paginator::new(3);
    assert_eq!(pager.advance(&broken), PageAction::Failed(FetchError::Malformed));

    let people = page(&format!("[{{\"login\":\"ann\",\"permissions\":{permissions}}}]"));
    let mut pager: Paginator<Collaborator> = Paginator::new(3);
    pager.advance(&people);
    assert_eq!(pager.items()[0].login, "ann");
    assert!(pager.items()[0].permissions.pull);
}

#[test]
fn highest_permission_goes_by_rank() {
    let mut p = Permissions::none();
    assert_eq!(p.highest_perm(), "none");
    p.pull = true;
    assert_eq!(p.highest_perm(), "pull");
    p.triage = true;
    assert_eq!(p.highest_perm(), "triage");
    p.push = true;
    assert_eq!(p.highest_perm(), "push");
    p.maintain = true;
    assert_eq!(p.highest_perm(), "maintain");
    p.admin = true;
    assert_eq!(p.highest_perm(), "admin");
    let named = Repository::named("api".to_string());
    assert_eq!(named.name, "api");
    assert_eq!(named.permissions.highest_perm(), "none");
}

#[test]
fn index_files_records_by_their_key() {
    let members = vec![
        Member { login: "ann".to_string(), avatar_url: "a1".to_string() },
        Member { login: "bob".to_string(), avatar_url: "b".to_string() },
        Member { login: "ann".to_string(), avatar_url: "a2".to_string() },
    ];
    let index = index_by(members);
    assert!(index.contains_key("ann") && index.contains_key("bob"));
    assert!(!index.contains_key("cy") && !index.contains_key(""));
    // A later record replaces an earlier one with the same key.
    assert_eq!(index.get("ann").unwrap().avatar_url, "a2");
    assert_eq!(index.get("bob").unwrap().avatar_url, "b");
    let mut table: Index<u32> = Index::new();
    assert!(table.get("k").is_none());
    table.insert("k".to_string(), 1);
    table.insert("k".to_string(), 2);
    assert_eq!(table.get("k"), Some(&2));
    assert_eq!(reversed(vec![1, 2, 3]), vec![3, 2, 1]);
    assert_eq!(reversed(Vec::<u8>::new()), Vec::<u8>::new());
}
