use gh_ec_audit::alerts::{
    alerts_header, fetch_codescanning_alerts, fetch_dependabot_alerts, number_or_na, AlertCounts,
    CodeScanningAlert, DependabotAlert, RepoAlerts, Severity,
};
use gh_ec_audit::bpr::{
    codeowners_errors_url, contents_url, get_bprs, get_rulesets, protection_url, repo_url,
    rules_url, Shown,
};
use gh_ec_audit::codeowners::{
    find_codeowners_in_org, find_team_in_codeowners, get_co_file, get_codeowners_errors,
    search_hits, teams_not_in_org, users_not_in_org, CoProbe, CodeownersFile,
    CodeownersFileProblem, TeamCache,
};
use gh_ec_audit::deploy_key::{get_deploy_keys, DeployKey};
use gh_ec_audit::digest::{hex_of, zip_digest};
use gh_ec_audit::external_collaborator::{
    find_previous, get_outside_collaborators, ExternalCollaboratorPermission, OutsideCollaborator,
};
use gh_ec_audit::fetch::{read_reply, FetchError, Listing};
use gh_ec_audit::files::{fetch_file_content, process_fetch_file_result, text_of_bytes, FileError};
use gh_ec_audit::frame::{elapsed_secs, Configuration, Frame, Moment};
use gh_ec_audit::index::index_by;
use gh_ec_audit::json::{parse, Json};
use gh_ec_audit::members::{
    get_indexed_org_members, get_org_admins, get_org_members, repo_admin_teams,
    run_admin_audit, run_organization_admin_audit, run_total_member_audit,
};
use gh_ec_audit::model::{
    Bootstrap, Collaborator, GitHubIndex, Member, Permissions, Record, Repository, Team,
};
use gh_ec_audit::paginate::{PageAction, Paginator};
use gh_ec_audit::repos::{
    any_private, count_repos, count_repos_security_property_enabled, get_repo_collaborators,
    get_repo_teams, get_repos_security_property_not_enabled, run_repos_audit,
};
use gh_ec_audit::teams::{get_indexed_org_teams, get_org_teams, get_team_repos};
use gh_ec_audit::text::{
    chars_of, concat3, concat5, contains, contains_text, decimal, join, starts_with,
    str_eq, strip_prefixes,
};
use gh_ec_audit::uar::{
    access_label, co_uar, codeowners_header, repo_audit_to_csv, team_access_to_csv,
    team_members_to_csv, traditional_header, traditional_uar,
};

fn acme() -> Bootstrap {
    Bootstrap::new("token".to_string(), "acme".to_string())
}

fn strings(items: &[&str]) -> Vec<String> {
    items.iter().map(|s| s.to_string()).collect()
}

fn doc(text: &str) -> Json {
    parse(text).unwrap()
}

fn admin() -> Permissions {
    Permissions { pull: true, triage: true, push: true, maintain: true, admin: true }
}

fn reader() -> Permissions {
    Permissions { pull: true, triage: false, push: false, maintain: false, admin: false }
}

fn member(login: &str) -> Member {
    Member { login: login.to_string(), avatar_url: format!("https://avatars/{login}") }
}

fn team(slug: &str, permissions: Option<Permissions>) -> Team {
    Team { name: slug.to_uppercase(), slug: slug.to_string(), permissions }
}

fn assert_listing(listing: &Listing, path: &str, page_size: u8, params: Option<&str>) {
    assert_eq!(listing.path, path);
    assert_eq!(listing.page_size, page_size);
    assert_eq!(listing.retries, 3);
    assert_eq!(listing.params.as_deref(), params);
}

#[test]
fn listings_name_their_endpoints() {
    let b = acme();
    assert_listing(&get_org_members(&b), "/orgs/acme/members", 100, None);
    assert_listing(&run_total_member_audit(&b), "/orgs/acme/members", 100, None);
    assert_listing(&run_organization_admin_audit(&b), "/orgs/acme/members", 75, Some("role=admin"));
    assert_listing(&get_org_admins(&b), "/orgs/acme/members", 100, Some("role=admin"));
    assert_listing(&get_org_teams(&b), "/orgs/acme/teams", 25, None);
    assert_listing(&get_team_repos(&b, "core"), "/orgs/acme/teams/core/repos", 25, None);
    assert_listing(&b.fetch_all_repositories(75), "/orgs/acme/repos", 75, None);
    assert_listing(&get_repo_collaborators(&b, "api"), "/repos/acme/api/collaborators", 25, None);
    assert_listing(&get_repo_teams(&b, "api"), "/repos/acme/api/teams", 25, None);
    assert_listing(&get_deploy_keys(&b, "api"), "/repos/acme/api/keys", 25, None);
    assert_listing(&get_outside_collaborators(&b), "/orgs/acme/outside_collaborators", 100, None);
    assert_listing(
        &fetch_dependabot_alerts(&b, "api"),
        "/repos/acme/api/dependabot/alerts",
        30,
        Some("&state=open"),
    );
    assert_listing(
        &fetch_codescanning_alerts(&b, "api"),
        "/repos/acme/api/code-scanning/alerts",
        30,
        Some("&state=open"),
    );
    let core = team("core", None);
    assert_eq!(core.members_path(&b), "/orgs/acme/teams/core/members");
    assert_listing(&core.fetch_team_members(&b), "/orgs/acme/teams/core/members", 25, None);
    assert_eq!(repo_url(&b, "api"), "/repos/acme/api");
    assert_eq!(protection_url(&b, "api", "main"), "/repos/acme/api/branches/main/protection");
    assert_eq!(rules_url(&b, "api", "main"), "/repos/acme/api/rules/branches/main");
    assert_eq!(codeowners_errors_url(&b, "api"), "/repos/acme/api/codeowners/errors");
    assert_eq!(
        contents_url(&b, "api", ".github/CODEOWNERS"),
        "/repos/acme/api/contents/.github/CODEOWNERS"
    );
    assert_eq!(
        fetch_dependabot_alerts(&b, "api").page_url(2),
        "https://api.github.com/repos/acme/api/dependabot/alerts?per_page=30&page=2&&state=open"
    );
}

#[test]
fn records_have_their_index() {
    assert_eq!(member("ann").index(), "ann");
    assert_eq!(team("core", None).index(), "core");
    assert_eq!(OutsideCollaborator { login: "eve".to_string() }.index(), "eve");
    let members = get_indexed_org_members(vec![member("ann"), member("bob")]);
    assert!(members.contains_key("ann") && !members.contains_key("eve"));
    let teams = get_indexed_org_teams(vec![team("core", None)]);
    assert_eq!(teams.get("core").unwrap().name, "CORE");
    assert!(OutsideCollaborator::decode(&doc("{\"login\":\"eve\",\"id\":1}")).unwrap().equals(
        &OutsideCollaborator { login: "eve".to_string() }
    ));
    assert!(OutsideCollaborator::decode(&doc("{\"id\":1}")).is_none());
}

#[test]
fn team_emptiness_is_read_from_the_first_page() {
    assert_eq!(Team::is_empty(&read_reply(Some("[]"))), Ok(true));
    assert_eq!(Team::is_empty(&read_reply(Some("[{\"login\":\"ann\"}]"))), Ok(false));
    assert_eq!(
        Team::is_empty(&read_reply(Some("{\"message\":\"Not Found\"}"))),
        Err(FetchError::Malformed)
    );
    assert_eq!(Team::is_empty(&read_reply(None)), Err(FetchError::Transient));
}

#[test]
fn admin_audit_reports_unexplained_admins() {
    let org_admins = index_by(vec![member("root")]);
    let teams = vec![team("core", Some(admin())), team("docs", Some(reader())), team("ops", None)];
    let admin_teams = repo_admin_teams(&teams);
    assert_eq!(admin_teams, strings(&["core"]));
    let team_members = index_by_slug(vec![
        ("core", vec![member("ann")]),
        ("docs", vec![member("dan")]),
    ]);
    let person = |login: &str, permissions: Permissions| Collaborator {
        login: login.to_string(),
        permissions,
    };
    assert!(run_admin_audit(&person("eve", admin()), &org_admins, &admin_teams, &team_members));
    assert!(run_admin_audit(&person("dan", admin()), &org_admins, &admin_teams, &team_members));
    assert!(!run_admin_audit(&person("ann", admin()), &org_admins, &admin_teams, &team_members));
    assert!(!run_admin_audit(&person("root", admin()), &org_admins, &admin_teams, &team_members));
    assert!(!run_admin_audit(&person("eve", reader()), &org_admins, &admin_teams, &team_members));
    let unknown_team = strings(&["ghosts"]);
    assert!(run_admin_audit(&person("ann", admin()), &org_admins, &unknown_team, &team_members));
}

fn index_by_slug(groups: Vec<(&str, Vec<Member>)>) -> gh_ec_audit::index::Index<gh_ec_audit::index::Index<Member>> {
    let mut table = gh_ec_audit::index::Index::new();
    for (slug, members) in groups {
        table.insert(slug.to_string(), index_by(members));
    }
    table
}

fn repo(name: &str, visibility: &str, archived: bool, scanning: bool) -> Repository {
    let mut r = Repository::named(name.to_string());
    r.visibility = Some(visibility.to_string());
    r.private = visibility == "private";
    r.archived = archived;
    r.security.secret_scanning = scanning;
    r
}

#[test]
fn repositories_are_counted_by_visibility() {
    let repos = vec![
        repo("a", "public", false, true),
        repo("b", "public", true, true),
        repo("c", "public", false, false),
        repo("d", "private", true, false),
        repo("e", "internal", false, true),
        Repository::named("f".to_string()),
    ];
    let counts = run_repos_audit(&repos);
    assert_eq!(counts.total, 6);
    assert_eq!((counts.public, counts.public_archived), (3, 1));
    assert_eq!((counts.private, counts.private_archived), (1, 1));
    assert_eq!((counts.internal, counts.internal_archived), (1, 0));
    assert_eq!(counts.archived, 2);
    assert_eq!(count_repos(&repos, "secret", false), 0);
    assert_eq!(count_repos_security_property_enabled(&repos, "public", "secret_scanning"), 1);
    assert_eq!(count_repos_security_property_enabled(&repos, "internal", "secret_scanning"), 1);
    assert_eq!(
        count_repos_security_property_enabled(&repos, "public", "dependabot_security_updates"),
        0
    );
    assert_eq!(
        get_repos_security_property_not_enabled(&repos, "public", "secret_scanning"),
        strings(&["c"])
    );
    assert_eq!(
        get_repos_security_property_not_enabled(&repos, "public", "dependabot_security_updates"),
        strings(&["a", "c"])
    );
    assert!(any_private(&repos));
    assert!(!any_private(&repos[..3].iter().map(|r| repo(&r.name, "public", false, false)).collect()));
    assert!(!any_private(&vec![]));
}

#[test]
fn alerts_are_counted_by_severity() {
    let severities = vec![
        Severity::High,
        Severity::Low,
        Severity::High,
        Severity::Critical,
        Severity::High,
    ];
    let counts = AlertCounts::tally(&severities);
    assert_eq!(counts, AlertCounts { low: 1, medium: 0, high: 3, critical: 1 });
    assert_eq!(counts.total(), 5);
    assert_eq!(AlertCounts::na().total(), -4);
    assert_eq!(AlertCounts::na(), AlertCounts { low: -1, medium: -1, high: -1, critical: -1 });
    let dependabot = Ok(vec![
        DependabotAlert { number: 1, severity: Severity::Medium },
        DependabotAlert { number: 2, severity: Severity::Medium },
    ]);
    assert_eq!(
        AlertCounts::from_dependabot(&dependabot),
        AlertCounts { low: 0, medium: 2, high: 0, critical: 0 }
    );
    assert_eq!(AlertCounts::from_dependabot(&Err(FetchError::Forbidden)), AlertCounts::na());
    let scanning = Ok(vec![CodeScanningAlert { number: 9, severity: Severity::Critical }]);
    assert_eq!(
        AlertCounts::from_codescanning(&scanning),
        AlertCounts { low: 0, medium: 0, high: 0, critical: 1 }
    );
    assert_eq!(AlertCounts::from_codescanning(&Err(FetchError::NotFound)), AlertCounts::na());
    assert_eq!(AlertCounts::from(&dependabot), AlertCounts { low: 0, medium: 2, high: 0, critical: 0 });
    assert_eq!(AlertCounts::from(&scanning), AlertCounts { low: 0, medium: 0, high: 0, critical: 1 });
    let unavailable: Result<Vec<DependabotAlert>, FetchError> = Err(FetchError::Transient);
    assert_eq!(AlertCounts::from(&unavailable).total(), -4);
    assert_eq!(number_or_na(-1), "NA");
    assert_eq!(number_or_na(0), "0");
    assert_eq!(number_or_na(1907), "1907");
    assert_eq!(number_or_na(i64::MAX), "9223372036854775807");
}

#[test]
fn alerts_are_decoded_and_written() {
    let page = read_reply(Some(
        "[{\"number\":4,\"security_advisory\":{\"severity\":\"high\"}},{\"number\":5,\"security_advisory\":{\"severity\":\"low\"}}]",
    ));
    let mut pager: Paginator<DependabotAlert> = Paginator::new(3);
    assert_eq!(pager.advance(&page), PageAction::Fetch { page: 2 });
    assert_eq!(pager.items()[0], DependabotAlert { number: 4, severity: Severity::High });
    assert!(DependabotAlert::decode(&doc("{\"number\":4,\"security_advisory\":{\"severity\":\"High\"}}")).is_none());
    assert!(DependabotAlert::decode(&doc("{\"number\":4294967296,\"security_advisory\":{\"severity\":\"high\"}}")).is_none());
    assert_eq!(
        CodeScanningAlert::decode(&doc("{\"number\":1,\"rule\":{\"security_severity_level\":\"critical\"}}")),
        Some(CodeScanningAlert { number: 1, severity: Severity::Critical })
    );
    assert!(CodeScanningAlert::decode(&doc("{\"number\":1,\"rule\":{}}")).is_none());
    assert_eq!(Severity::from_name("medium"), Some(Severity::Medium));
    assert_eq!(Severity::from_name("none"), None);
    let alerts = RepoAlerts {
        name: "api".to_string(),
        dependabot: AlertCounts { low: 1, medium: 2, high: 3, critical: 4 },
        codescanning: AlertCounts::na(),
    };
    assert_eq!(alerts.csv_line("private"), "api, private, 10, 1, 2, 3, 4, NA, NA, NA, NA, NA");
    assert!(alerts_header().starts_with("repository, visibility, dependabot alerts, low"));
    assert_eq!(alerts_header().split(", ").count(), 12);
}

#[test]
fn deploy_keys_by_outsiders_are_reported() {
    let body = "{\"id\":7,\"key\":\"ssh-rsa AAA\",\"url\":\"https://api/keys/7\",\"title\":\"ci\",\"verified\":true,\"created_at\":\"2024-01-01\",\"read_only\":false,\"added_by\":\"eve\",\"last_used\":null,\"enabled\":true}";
    let key = DeployKey::decode(&doc(body)).unwrap();
    assert_eq!(key.id, 7);
    assert_eq!(key.added_by, "eve");
    assert!(key.last_used.is_none() && key.verified && !key.read_only && key.enabled);
    assert!(key.equals(&DeployKey::decode(&doc(body)).unwrap()));
    let used = DeployKey::decode(&doc(&body.replace("null", "\"2024-02-02\""))).unwrap();
    assert_eq!(used.last_used.as_deref(), Some("2024-02-02"));
    assert!(!key.equals(&used));
    assert!(DeployKey::decode(&doc(&body.replace("\"added_by\":\"eve\",", ""))).is_none());
    assert!(DeployKey::decode(&doc(&body.replace("true", "1"))).is_none());
    let members = index_by(vec![member("ann")]);
    assert_eq!(gh_ec_audit::deploy_key::run_audit(&key, &members, false), Some(false));
    assert_eq!(gh_ec_audit::deploy_key::run_audit(&key, &members, true), Some(false));
    let mut own = DeployKey::decode(&doc(body)).unwrap();
    own.added_by = "ann".to_string();
    assert_eq!(gh_ec_audit::deploy_key::run_audit(&own, &members, false), None);
    assert_eq!(gh_ec_audit::deploy_key::run_audit(&own, &members, true), Some(true));
}

#[test]
fn approvals_stand_while_the_access_is_the_same() {
    let mut approved = ExternalCollaboratorPermission::new(
        "eve".to_string(),
        "api".to_string(),
        "push".to_string(),
    );
    assert!(approved.status.is_none() && approved.ticket.is_none() && approved.proposal.is_none());
    approved.status = Some("approved".to_string());
    approved.ticket = Some("SEC-1".to_string());
    let previous = vec![
        ExternalCollaboratorPermission::new("eve".to_string(), "web".to_string(), "pull".to_string()),
        approved,
    ];
    let found = find_previous(&previous, "eve", "api");
    assert_eq!(found.unwrap().access, "push");
    assert!(find_previous(&previous, "eve", "docs").is_none());
    assert!(find_previous(&previous, "api", "eve").is_none());
    let (kept, changed) =
        gh_ec_audit::external_collaborator::run_audit(found, "eve", "api", "push".to_string());
    assert!(!changed);
    assert_eq!(kept.status.as_deref(), Some("approved"));
    assert_eq!(kept.ticket.as_deref(), Some("SEC-1"));
    let (reset, changed) =
        gh_ec_audit::external_collaborator::run_audit(found, "eve", "api", "admin".to_string());
    assert!(changed);
    assert_eq!((reset.login.as_str(), reset.repository.as_str(), reset.access.as_str()), ("eve", "api", "admin"));
    assert!(reset.status.is_none() && reset.ticket.is_none());
    let (fresh, changed) =
        gh_ec_audit::external_collaborator::run_audit(None, "eve", "docs", "pull".to_string());
    assert!(!changed);
    assert_eq!(fresh.access, "pull");
    assert_eq!(kept.duplicate().ticket.as_deref(), Some("SEC-1"));
}

#[test]
fn frame_sorts_and_measures() {
    let start = Moment { secs: 100, nanos: 900_000_000 };
    let end = Moment { secs: 103, nanos: 100_000_000 };
    assert_eq!(elapsed_secs(start, end), 2);
    assert_eq!(elapsed_secs(start, start), 0);
    assert_eq!(elapsed_secs(Moment { secs: 1, nanos: 0 }, Moment { secs: 9, nanos: 0 }), 8);
    let frame = Frame::generate(
        vec![member("zed"), member("ann")],
        vec![
            Member { login: "bob".to_string(), avatar_url: "z".to_string() },
            member("cy"),
            Member { login: "bob".to_string(), avatar_url: "a".to_string() },
        ],
        vec![team("ops", None), team("core", None)],
        start,
        end,
    );
    let logins: Vec<&str> = frame.organization_admins.iter().map(|m| m.login.as_str()).collect();
    assert_eq!(logins, vec!["ann", "zed"]);
    let members: Vec<(&str, &str)> = frame
        .organization_members
        .iter()
        .map(|m| (m.login.as_str(), m.avatar_url.as_str()))
        .collect();
    assert_eq!(members, vec![("bob", "a"), ("bob", "z"), ("cy", "https://avatars/cy")]);
    let slugs: Vec<&str> = frame.organization_teams.iter().map(|t| t.slug.as_str()).collect();
    assert_eq!(slugs, vec!["core", "ops"]);
    assert_eq!(frame.shutter_data.open, 100);
    assert_eq!(frame.shutter_data.close, 103);
    assert_eq!(frame.shutter_data.shutter_speed, 2);
    let configuration = Configuration { token: "t".to_string(), organization: "acme".to_string() };
    let bootstrap = configuration.bootstrap();
    assert_eq!((bootstrap.token.as_str(), bootstrap.org.as_str()), ("t", "acme"));
    let converted: Bootstrap = (&configuration).into();
    assert_eq!((converted.token.as_str(), converted.org.as_str()), ("t", "acme"));
}

#[test]
fn file_contents_are_decoded_from_base64() {
    let file = doc("{\"type\":\"file\",\"encoding\":\"base64\",\"content\":\"  KiBAYWNtZS9jb3Jl\\nIEBhbm4K\\n\"}");
    assert_eq!(process_fetch_file_result(&file), Ok("* @acme/core @ann\n".to_string()));
    assert_eq!(
        process_fetch_file_result(&doc("{\"type\":\"dir\",\"encoding\":\"base64\",\"content\":\"\"}")),
        Err(FileError::UnexpectedShape)
    );
    assert_eq!(
        process_fetch_file_result(&doc("{\"type\":\"file\",\"content\":\"\"}")),
        Err(FileError::UnexpectedShape)
    );
    assert_eq!(
        process_fetch_file_result(&doc("{\"type\":\"file\",\"encoding\":\"base64\"}")),
        Err(FileError::NoContent)
    );
    assert_eq!(
        process_fetch_file_result(&doc("{\"type\":\"file\",\"encoding\":\"base64\",\"content\":\"@@@\"}")),
        Err(FileError::NotBase64)
    );
    assert_eq!(
        process_fetch_file_result(&doc("{\"type\":\"file\",\"encoding\":\"base64\",\"content\":\"//4=\"}")),
        Err(FileError::NotUtf8)
    );
    assert_eq!(
        process_fetch_file_result(&doc("{\"type\":\"file\",\"encoding\":\"base64\",\"content\":\"\"}")),
        Ok(String::new())
    );
    assert_eq!(text_of_bytes(vec![0xc3, 0xa9]), Ok("é".to_string()));
    assert_eq!(text_of_bytes(vec![0xc3]), Err(FileError::NotUtf8));
    assert_eq!(
        fetch_file_content("https://api.github.com/repos/acme/api/contents/CODEOWNERS?ref=x"),
        "/repos/acme/api/contents/CODEOWNERS?ref=x"
    );
    assert_eq!(fetch_file_content("/already/a/path"), "/already/a/path");
}

#[test]
fn digest_is_sha256_in_hex() {
    assert_eq!(
        zip_digest(b"abc"),
        "ba7816bf8f01cfea414140de5dae2223b00361a396177a9cb410ff61f20015ad"
    );
    assert_eq!(hex_of(&[0x00, 0x0f, 0xa0, 0xff, 0x1b]), "000fa0ff1b");
    assert_eq!(hex_of(&[]), "");
    assert_eq!(
        zip_digest(b""),
        "e3b0c44298fc1c149afbf4c8996fb92427ae41e4649b934ca495991b7852b855"
    );
}

#[test]
fn codeowners_mentions_are_parsed() {
    let content = "# owners of everything: @nobody\n* @acme/core @ann\n  # @acme/hidden\n/docs/ @acme/docs @bob @ann\n\n/api @other/team @@eve @acme/core\tdocs@example.com\n";
    let file = CodeownersFile::parse_from_content("acme", content, "https://github/co", "api");
    assert_eq!(file.repo, "api");
    assert_eq!(file.url, "https://github/co");
    assert_eq!(file.teams, strings(&["core", "docs"]));
    assert_eq!(file.users, strings(&["ann", "bob", "other/team", "eve", "example.com"]));
    let empty = CodeownersFile::parse_from_content("acme", "", "u", "r");
    assert!(empty.users.is_empty() && empty.teams.is_empty());
    let repeated = CodeownersFile::parse_from_content("acme", "* @acme/@acme/core", "u", "r");
    assert_eq!(repeated.teams, strings(&["core"]));
    let mentions = strings(&["@ann", "@acme/core", "@@bob", "@acme/", "@ann", "@acmes/x"]);
    let sorted = CodeownersFile::from_mentions("acme", &mentions, "u", "r");
    assert_eq!(sorted.users, strings(&["ann", "bob", "acmes/x"]));
    assert_eq!(sorted.teams, strings(&["core", ""]));
}

#[test]
fn codeowners_problems_are_found_and_worded() {
    let file = CodeownersFile {
        repo: "api".to_string(),
        url: "https://github/co".to_string(),
        users: strings(&["ann", "eve", "mallory"]),
        teams: strings(&["core", "ghosts"]),
    };
    let members = index_by(vec![member("ann")]);
    let teams = index_by(vec![team("core", None)]);
    assert_eq!(users_not_in_org(&file, &members), strings(&["eve", "mallory"]));
    assert_eq!(teams_not_in_org(&file, &teams), strings(&["ghosts"]));
    let user = CodeownersFileProblem::UserNotInOrg {
        user: "eve".to_string(),
        co_file_url: file.url.clone(),
    };
    assert_eq!(user.message(), "Error in CODEOWNERS file https://github/co User eve is not in the org");
    let missing = CodeownersFileProblem::TeamNotInOrg {
        team: "ghosts".to_string(),
        co_file_url: file.url.clone(),
    };
    assert_eq!(missing.message(), "Error in CODEOWNERS file https://github/co Team ghosts is not in the org");
    let empty = CodeownersFileProblem::EmptyTeam {
        team: "core".to_string(),
        co_file_url: file.url.clone(),
    };
    assert_eq!(empty.message(), "Warning! CODEOWNERS file https://github/co contains an empty team core");
    let mut cache = TeamCache::new();
    assert_eq!(cache.lookup("core"), None);
    cache.remember("core", true);
    cache.remember("docs", false);
    cache.remember("core", false);
    assert_eq!(cache.lookup("core"), Some(true));
    assert_eq!(cache.lookup("docs"), Some(false));
    assert_eq!(cache.lookup("ops"), None);
}

#[test]
fn codeowners_errors_are_listed_by_kind() {
    assert_eq!(get_codeowners_errors(&read_reply(Some("{}"))), Ok(None));
    assert_eq!(get_codeowners_errors(&read_reply(Some("{\"errors\":[]}"))), Ok(Some(vec![])));
    assert_eq!(
        get_codeowners_errors(&read_reply(Some(
            "{\"errors\":[{\"kind\":\"Unknown owner\",\"line\":3},{\"line\":4},{\"kind\":7}]}"
        ))),
        Ok(Some(strings(&["Unknown owner", "Unknown", "Unknown"])))
    );
    assert_eq!(
        get_codeowners_errors(&read_reply(Some("{\"errors\":{}}"))),
        Err(FetchError::Malformed)
    );
    assert_eq!(get_codeowners_errors(&read_reply(None)), Err(FetchError::Transient));
}

#[test]
fn codeowners_file_is_probed_place_by_place() {
    assert!(matches!(get_co_file(&read_reply(None)), CoProbe::Next));
    assert!(matches!(
        get_co_file(&read_reply(Some("{\"message\":\"Not Found\",\"status\":\"404\"}"))),
        CoProbe::Next
    ));
    assert!(matches!(get_co_file(&read_reply(Some("{\"status\":404}"))), CoProbe::Next));
    assert!(matches!(
        get_co_file(&read_reply(Some("{\"status\":\"500\",\"type\":\"dir\"}"))),
        CoProbe::Unreadable
    ));
    let found = read_reply(Some(
        "{\"type\":\"file\",\"encoding\":\"base64\",\"content\":\"KiBAYW5uCg==\",\"html_url\":\"https://github/co\"}",
    ));
    match get_co_file(&found) {
        CoProbe::Found { content, html_url } => {
            assert_eq!(content, "* @ann\n");
            assert_eq!(html_url, "https://github/co");
        }
        other => panic!("unexpected probe {other:?}"),
    }
    let nameless = read_reply(Some("{\"type\":\"file\",\"encoding\":\"base64\",\"content\":\"\"}"));
    assert!(matches!(get_co_file(&nameless), CoProbe::Found { html_url, .. } if html_url == "Not available"));
}

#[test]
fn code_search_is_addressed_and_read() {
    let b = acme();
    assert_eq!(
        find_codeowners_in_org(&b, 1),
        "/search/code?q=org%3Aacme%20filename%3ACODEOWNERS&per_page=100&page=1"
    );
    assert_eq!(
        find_team_in_codeowners(&b, "core", 3),
        "/search/code?q=org%3Aacme%20filename%3ACODEOWNERS%20%40acme%2Fcore&per_page=100&page=3"
    );
    let page = doc(
        "{\"total_count\":3,\"items\":[{\"name\":\"CODEOWNERS\",\"repository\":{\"name\":\"api\"},\"html_url\":\"h1\",\"url\":\"https://api.github.com/u1\"},{\"name\":\"CODEOWNERS.md\",\"repository\":{\"name\":\"web\"}},{\"name\":\"CODEOWNERS\"}]}",
    );
    let (more, hits) = search_hits(&page);
    assert!(more);
    assert_eq!(hits.len(), 2);
    assert_eq!((hits[0].repo.as_str(), hits[0].html_url.as_str()), ("api", "h1"));
    assert_eq!(hits[0].api_url, "https://api.github.com/u1");
    assert_eq!(hits[1].repo, "Not available");
    assert_eq!(hits[1].api_url, "Not available");
    let (more, hits) = search_hits(&doc("{\"items\":[]}"));
    assert!(!more && hits.is_empty());
    let (more, hits) = search_hits(&doc("{\"message\":\"nope\"}"));
    assert!(!more && hits.is_empty());
    let (more, hits) = search_hits(&doc("{\"items\":[{\"name\":\"x\"}]}"));
    assert!(more && hits.is_empty());
}

#[test]
fn branch_protection_is_shown_or_empty() {
    assert_eq!(get_bprs(&read_reply(Some("{\"status\":\"404\"}"))), Shown::Empty);
    assert_eq!(get_bprs(&read_reply(Some("{\"url\":\"x\"}"))), Shown::Document);
    assert_eq!(get_bprs(&read_reply(None)), Shown::Unavailable);
    assert_eq!(get_rulesets(&read_reply(Some("{\"status\":\"404\"}"))), Shown::Document);
    assert_eq!(get_rulesets(&read_reply(Some("nonsense"))), Shown::Unavailable);
}

#[test]
fn access_review_scopes_users_and_teams() {
    let person = |login: &str| Collaborator { login: login.to_string(), permissions: reader() };
    let file = CodeownersFile {
        repo: "api".to_string(),
        url: "u".to_string(),
        users: strings(&["bob", "ann", "zed"]),
        teams: strings(&["docs", "ghosts", "core"]),
    };
    let org_teams = index_by(vec![team("core", None), team("docs", None), team("ops", None)]);
    let scope = co_uar(Ok(vec![person("ann"), person("eve"), person("bob")]), &file, &org_teams).unwrap();
    let logins: Vec<&str> = scope.collaborators.iter().map(|c| c.login.as_str()).collect();
    assert_eq!(logins, vec!["ann", "bob"]);
    let slugs: Vec<&str> = scope.teams.iter().map(|t| t.slug.as_str()).collect();
    assert_eq!(slugs, vec!["docs", "core"]);
    assert_eq!(co_uar(Err(FetchError::Forbidden), &file, &org_teams).unwrap_err(), FetchError::Forbidden);
    let admins = strings(&["root", "ann"]);
    let scope = traditional_uar(
        Ok(vec![person("ann"), person("eve"), person("root")]),
        Ok(vec![team("ops", Some(admin()))]),
        &admins,
    )
    .unwrap();
    assert_eq!(scope.collaborators.len(), 1);
    assert_eq!(scope.collaborators[0].login, "eve");
    assert_eq!(scope.teams[0].slug, "ops");
    assert_eq!(
        traditional_uar(Err(FetchError::Transient), Err(FetchError::NotFound), &admins).unwrap_err(),
        FetchError::Transient
    );
    assert_eq!(
        traditional_uar(Ok(vec![]), Err(FetchError::NotFound), &admins).unwrap_err(),
        FetchError::NotFound
    );
}

#[test]
fn access_review_lines_are_written() {
    assert_eq!(codeowners_header(), "repository,login,user_or_team,email");
    assert_eq!(traditional_header(), "repository,login,user_or_team,email,permissions");
    assert_eq!(repo_audit_to_csv("api", "ann", true, "ann@acme.io", None), "api,ann,User,ann@acme.io");
    assert_eq!(repo_audit_to_csv("api", "core", false, "None", None), "api,core,Team,None");
    assert_eq!(
        repo_audit_to_csv("api", "ann", true, "Not available", Some("push")),
        "api,ann,User,Not available,push"
    );
    assert_eq!(team_access_to_csv("core", "api", &Some(admin())), "core,api,admin");
    assert_eq!(team_access_to_csv("core", "api", &None), "core,api,Codeowner");
    assert_eq!(team_members_to_csv("core", "ann", "ann@acme.io"), "core,ann,ann@acme.io");
    assert_eq!(access_label(&Some(reader())), "pull");
    assert_eq!(access_label(&None), "Codeowner");
}

#[test]
fn text_helpers_work_on_characters() {
    assert!(str_eq("héllo", "héllo") && !str_eq("héllo", "hello") && !str_eq("a", "ab"));
    assert!(str_eq("", ""));
    assert_eq!(chars_of("aé✅"), vec!['a', 'é', '✅']);
    assert!(contains("API rate limit exceeded for user", "rate limit"));
    assert!(contains("abc", "") && contains("", "") && !contains("", "a"));
    assert!(contains("ab✅c", "✅c") && !contains("abc", "abcd") && !contains("abc", "ca"));
    assert!(starts_with("#x", "#") && !starts_with("x#", "#") && starts_with("x", ""));
    assert!(!starts_with("", "#"));
    assert_eq!(decimal(0), "0");
    assert_eq!(decimal(7), "7");
    assert_eq!(decimal(10), "10");
    assert_eq!(decimal(90210), "90210");
    assert_eq!(decimal(u64::MAX), "18446744073709551615");
    assert_eq!(concat3("a", "", "c"), "ac");
    assert_eq!(concat5("a", "b", "c", "d", "e"), "abcde");
    assert_eq!(join(&strings(&["a", "b", "c"]), ", "), "a, b, c");
    assert_eq!(join(&strings(&["a"]), ", "), "a");
    assert_eq!(join(&vec![], ", "), "");
    assert_eq!(join(&strings(&["", ""]), "-"), "-");
    assert!(contains_text(&strings(&["a", "b"]), "b") && !contains_text(&strings(&["a"]), "b"));
    assert_eq!(strip_prefixes("@@ann", "@"), "ann");
    assert_eq!(strip_prefixes("ann", "@"), "ann");
    assert_eq!(strip_prefixes("@", "@"), "");
    assert_eq!(strip_prefixes("abab", ""), "abab");
    assert_eq!(strip_prefixes("ééx", "é"), "x");
}
