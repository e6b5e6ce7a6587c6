//! The resumable ledger of an audit run: which repositories are still to be
//! done, and the rows and report lines that a finished repository adds.

use crate::checks::{all_checks, all_names, CheckName, ProtectionChecks};
use crate::model::Repository;
use crate::paginate::{insert_unique, views};
use crate::sort::{sorted, Ranked};
use crate::score::{
    attainable, check_csv_value_named, check_symbol, compute_selected_score, earned,
    named_cell_text, symbol_text, Weights,
};
use crate::selection::Selection;
use crate::text::{ascending, contains_text, decimal, decimal_text, str_eq, text_le, texts};
use vstd::prelude::*;
use vstd::string::*;

verus! {

/// A CSV text as the `csv` crate reads it: the record of headers, and the
/// records after it, `None` standing for a record that the reader rejects.
#[derive(Debug)]
pub struct CsvTable {
    pub headers: Vec<String>,
    pub rows: Vec<Option<Vec<String>>>,
}

/// The table that the `csv` crate reads from the bytes of a file with its
/// default settings, `None` where it cannot read the headers.
pub uninterp spec fn csv_table_of(bytes: Seq<u8>) -> Option<CsvTable>;

/// The line that the `csv` crate writes for one record, `None` where it
/// refuses the record.
pub uninterp spec fn csv_record_text(fields: Seq<Seq<char>>) -> Option<Seq<char>>;

/// Reads the bytes of a CSV file with `csv::Reader::from_reader`, taking the
/// headers from `Reader::headers` and the rest from `Reader::records`. The
/// reader sees nothing but the bytes, so equal bytes give equal tables: the
/// contract names the table and says no more of it.
#[verifier::external_body]
fn read_table(content: &[u8]) -> (r: Option<CsvTable>)
    ensures
        r == csv_table_of(content@),
{
    let mut reader = csv::Reader::from_reader(content);
    let headers = reader.headers().ok()?.iter().map(String::from).collect();
    let rows = reader.records().map(
        |row| row.ok().map(|fields| fields.iter().map(String::from).collect()),
    ).collect();
    Some(CsvTable { headers, rows })
}

/// Writes one record with a `csv::Writer` that has no header row, into
/// memory, and hands the bytes back as text. The writer sees nothing but the
/// fields: the contract names the line and says no more of it.
#[verifier::external_body]
fn write_line(fields: &Vec<String>) -> (r: Option<String>)
    ensures
        r is Some <==> csv_record_text(texts(fields@)) is Some,
        r matches Some(line) ==> csv_record_text(texts(fields@)) == Some(line@),
{
    let mut writer = csv::WriterBuilder::new().has_headers(false).from_writer(vec![]);
    writer.write_record(fields).ok()?;
    String::from_utf8(writer.into_inner().ok()?).ok()
}

/// The column that holds the repository names: the first one headed
/// `repository`, column 0 where none is.
pub open spec fn repository_column(headers: Seq<Seq<char>>) -> int
    decreases headers.len(),
{
    if headers.len() == 0 {
        0
    } else if headers[0] == "repository"@ {
        0
    } else if exists|i: int| 0 <= i < headers.len() && headers[i] == "repository"@ {
        1 + repository_column(headers.drop_first())
    } else {
        0
    }
}

/// The characters of the fields of a row.
pub open spec fn row_texts(row: Option<Vec<String>>) -> Option<Seq<Seq<char>>> {
    match row {
        Some(fields) => Some(texts(fields@)),
        None => None,
    }
}

/// The names in column `column` of the rows, each once, in the order of
/// their first row. A rejected row and a row too short for the column add
/// nothing.
pub open spec fn ledger_names(rows: Seq<Option<Vec<String>>>, column: int) -> Seq<Seq<char>>
    decreases rows.len(),
{
    if rows.len() == 0 {
        Seq::empty()
    } else {
        let front = ledger_names(rows.drop_last(), column);
        match row_texts(rows.last()) {
            Some(fields) => if 0 <= column < fields.len() {
                insert_unique(front, fields[column])
            } else {
                front
            },
            None => front,
        }
    }
}

/// The repositories that a table records.
pub open spec fn recorded_repos(table: CsvTable) -> Seq<Seq<char>> {
    ledger_names(table.rows@, repository_column(texts(table.headers@)))
}

/// The position of the first header `repository`, 0 where there is none.
fn find_repository_column(headers: &Vec<String>) -> (r: usize)
    ensures
        r == repository_column(texts(headers@)),
{
    let ghost all = texts(headers@);
    let mut i: usize = 0;
    proof {
        assert(all.skip(0) =~= all);
    }
    while i < headers.len()
        invariant
            i <= headers@.len(),
            all == texts(headers@),
            forall|k: int| 0 <= k < i ==> all[k] != "repository"@,
        decreases headers@.len() - i,
    {
        if str_eq(headers[i].as_str(), "repository") {
            proof {
                lemma_column_found(all, i as int);
            }
            return i;
        }
        i += 1;
    }
    proof {
        lemma_column_missing(all);
    }
    0
}

/// Where `repository` first stands at `at`, the column is `at`.
proof fn lemma_column_found(headers: Seq<Seq<char>>, at: int)
    requires
        0 <= at < headers.len(),
        headers[at] == "repository"@,
        forall|k: int| 0 <= k < at ==> headers[k] != "repository"@,
    ensures
        repository_column(headers) == at,
    decreases at,
{
    if at > 0 {
        let rest = headers.drop_first();
        assert(rest[at - 1] == headers[at]);
        assert forall|k: int| 0 <= k < at - 1 implies rest[k] != "repository"@ by {
            assert(rest[k] == headers[k + 1]);
        }
        lemma_column_found(rest, at - 1);
    }
}

/// Where no header is `repository`, the column is 0.
proof fn lemma_column_missing(headers: Seq<Seq<char>>)
    requires
        forall|k: int| 0 <= k < headers.len() ==> headers[k] != "repository"@,
    ensures
        repository_column(headers) == 0,
{
}

/// The repositories that a table records, each once.
pub fn table_repos(table: &CsvTable) -> (r: Vec<String>)
    ensures
        texts(r@) == recorded_repos(*table),
{
    let column = find_repository_column(&table.headers);
    let mut names: Vec<String> = Vec::new();
    let mut i: usize = 0;
    proof {
        assert(table.rows@.take(0) =~= Seq::<Option<Vec<String>>>::empty());
        assert(texts(names@) =~= Seq::<Seq<char>>::empty());
    }
    while i < table.rows.len()
        invariant
            i <= table.rows@.len(),
            texts(names@) == ledger_names(table.rows@.take(i as int), column as int),
        decreases table.rows@.len() - i,
    {
        proof {
            let next = table.rows@.take(i + 1);
            assert(next.drop_last() =~= table.rows@.take(i as int));
            assert(next.last() == table.rows@[i as int]);
        }
        match &table.rows[i] {
            Some(fields) => {
                if column < fields.len() {
                    let name = fields[column].as_str();
                    assert(texts(fields@)[column as int] == name@);
                    if !contains_text(&names, name) {
                        let owned = name.to_owned();
                        proof {
                            assert(texts(names@.push(owned)) =~= texts(names@).push(name@));
                        }
                        names.push(owned);
                    }
                }
            },
            None => {},
        }
        i += 1;
    }
    proof {
        assert(table.rows@.take(table.rows@.len() as int) =~= table.rows@);
    }
    names
}

/// The repositories that the bytes of a ledger record: none where they
/// cannot be read.
pub open spec fn ledger_repos(content: Seq<u8>) -> Seq<Seq<char>> {
    match csv_table_of(content) {
        Some(table) => recorded_repos(table),
        None => Seq::empty(),
    }
}

/// The repositories that an existing ledger records, each once.
pub fn read_existing_csv_repos(content: &[u8]) -> (r: Vec<String>)
    ensures
        texts(r@) == ledger_repos(content@),
{
    match read_table(content) {
        Some(table) => table_repos(&table),
        None => {
            let r: Vec<String> = Vec::new();
            proof {
                assert(texts(r@) =~= Seq::<Seq<char>>::empty());
            }
            r
        },
    }
}

/// The names that are not among `processed`, in their order.
pub open spec fn remaining(names: Seq<Seq<char>>, processed: Seq<Seq<char>>) -> Seq<Seq<char>>
    decreases names.len(),
{
    if names.len() == 0 {
        Seq::empty()
    } else {
        let front = remaining(names.drop_last(), processed);
        if processed.contains(names.last()) {
            front
        } else {
            front.push(names.last())
        }
    }
}

/// The repositories that a resumed run still has to do: those that the
/// ledger does not record yet, in the order of the work list.
pub fn pending_repos(repos: &Vec<String>, processed: &Vec<String>) -> (r: Vec<String>)
    ensures
        texts(r@) == remaining(texts(repos@), texts(processed@)),
{
    let ghost all = texts(repos@);
    let mut out: Vec<String> = Vec::new();
    let mut i: usize = 0;
    proof {
        assert(all.take(0) =~= Seq::<Seq<char>>::empty());
        assert(texts(out@) =~= Seq::<Seq<char>>::empty());
    }
    while i < repos.len()
        invariant
            i <= repos@.len(),
            all == texts(repos@),
            texts(out@) == remaining(all.take(i as int), texts(processed@)),
        decreases repos@.len() - i,
    {
        proof {
            let next = all.take(i + 1);
            assert(next.drop_last() =~= all.take(i as int));
            assert(next.last() == repos@[i as int]@);
        }
        if !contains_text(processed, repos[i].as_str()) {
            let owned = repos[i].clone();
            proof {
                assert(texts(out@.push(owned)) =~= texts(out@).push(repos@[i as int]@));
            }
            out.push(owned);
        }
        i += 1;
    }
    proof {
        assert(all.take(repos@.len() as int) =~= all);
    }
    out
}

/// What a run has to do: the whole work list where it reports on the
/// console, and what the ledger does not record yet where it writes to one.
pub open spec fn to_do(names: Seq<Seq<char>>, ledger: Option<Seq<u8>>) -> Seq<Seq<char>> {
    match ledger {
        Some(content) => remaining(names, ledger_repos(content)),
        None => names,
    }
}

/// The bytes of an optional slice.
pub open spec fn optional_bytes(content: Option<&[u8]>) -> Option<Seq<u8>> {
    match content {
        Some(bytes) => Some(bytes@),
        None => None,
    }
}

/// The repositories that a run has to do. `ledger` holds what the ledger
/// file held when the run began, empty where the file is new, and is `None`
/// for a run that reports on the console.
pub fn repos_to_do(repos: Vec<String>, ledger: Option<&[u8]>) -> (r: Vec<String>)
    ensures
        texts(r@) == to_do(texts(repos@), optional_bytes(ledger)),
{
    match ledger {
        Some(content) => {
            let processed = read_existing_csv_repos(content);
            pending_repos(&repos, &processed)
        },
        None => repos,
    }
}

/// What the ledger does not record yet holds nothing that it records, and
/// holds every other name of the work list.
pub proof fn lemma_remaining_skips_processed(
    names: Seq<Seq<char>>,
    processed: Seq<Seq<char>>,
    name: Seq<char>,
)
    ensures
        remaining(names, processed).contains(name) <==> names.contains(name)
            && !processed.contains(name),
    decreases names.len(),
{
    if names.len() > 0 {
        let front = names.drop_last();
        lemma_remaining_skips_processed(front, processed, name);
        let kept = remaining(front, processed);
        if names.contains(name) {
            let k = choose|k: int| 0 <= k < names.len() && names[k] == name;
            if k < names.len() - 1 {
                assert(front[k] == name);
            }
        }
        if front.contains(name) {
            let k = choose|k: int| 0 <= k < front.len() && front[k] == name;
            assert(names[k] == name);
        }
        assert(names[names.len() - 1] == names.last());
        if !processed.contains(names.last()) {
            let grown = kept.push(names.last());
            assert(grown[grown.len() - 1] == names.last());
            if kept.contains(name) {
                let k = choose|k: int| 0 <= k < kept.len() && kept[k] == name;
                assert(grown[k] == name);
            }
            if grown.contains(name) {
                let k = choose|k: int| 0 <= k < grown.len() && grown[k] == name;
                if k < kept.len() {
                    assert(kept[k] == name);
                }
            }
        }
    }
}

/// Whether a repository belongs on the work list.
pub open spec fn on_work_list(repo: Repository, active_only: bool) -> bool {
    !active_only || (!repo.archived && !repo.disabled)
}

/// The names of the repositories that belong on the work list, in the order
/// of the listing.
pub open spec fn listed_names(repos: Seq<Repository>, active_only: bool) -> Seq<Seq<char>>
    decreases repos.len(),
{
    if repos.len() == 0 {
        Seq::empty()
    } else {
        let front = listed_names(repos.drop_last(), active_only);
        if on_work_list(repos.last(), active_only) {
            front.push(repos.last().name@)
        } else {
            front
        }
    }
}

/// The work list of a run over the whole organization: the names of the
/// repositories, without the archived and disabled ones where only active
/// repositories are asked for, in ascending order.
pub fn work_list(repos: &Vec<Repository>, active_only: bool) -> (r: Vec<String>)
    ensures
        ascending(texts(r@)),
        texts(r@).to_multiset() == listed_names(repos@, active_only).to_multiset(),
{
    let mut names: Vec<String> = Vec::new();
    let mut i: usize = 0;
    proof {
        assert(repos@.take(0) =~= Seq::<Repository>::empty());
        assert(texts(names@) =~= Seq::<Seq<char>>::empty());
    }
    while i < repos.len()
        invariant
            i <= repos@.len(),
            texts(names@) == listed_names(repos@.take(i as int), active_only),
        decreases repos@.len() - i,
    {
        proof {
            let next = repos@.take(i + 1);
            assert(next.drop_last() =~= repos@.take(i as int));
            assert(next.last() == repos@[i as int]);
        }
        let repo = &repos[i];
        if !active_only || (!repo.archived && !repo.disabled) {
            let owned = repo.name.clone();
            proof {
                assert(texts(names@.push(owned)) =~= texts(names@).push(repo.name@));
            }
            names.push(owned);
        }
        i += 1;
    }
    proof {
        assert(repos@.take(repos@.len() as int) =~= repos@);
    }
    let ghost listed = texts(names@);
    let r = sorted(names);
    proof {
        assert(views(names@) =~= listed);
        assert(views(r@) =~= texts(r@));
        assert forall|i: int, j: int| 0 <= i < j < texts(r@).len() implies text_le(
            texts(r@)[i],
            texts(r@)[j],
        ) by {
            assert(String::precedes(views(r@)[i], views(r@)[j]));
        }
    }
    r
}

/// The headers of the ledger.
pub open spec fn header_texts() -> Seq<Seq<char>> {
    seq![
        "repository"@,
        "default_branch"@,
        "visibility"@,
        "pr_one_approval"@,
        "pr_dismiss_stale"@,
        "pr_require_code_owner"@,
        "disable_force_push"@,
        "disable_deletion"@,
        "require_signed_commits"@,
        "require_status_checks"@,
        "codeowners_valid"@,
        "codeowners_path"@,
    ]
}

/// The headers of the ledger.
pub fn ledger_header() -> (r: Vec<String>)
    ensures
        texts(r@) == header_texts(),
{
    let mut r: Vec<String> = Vec::new();
    r.push("repository".to_owned());
    r.push("default_branch".to_owned());
    r.push("visibility".to_owned());
    r.push("pr_one_approval".to_owned());
    r.push("pr_dismiss_stale".to_owned());
    r.push("pr_require_code_owner".to_owned());
    r.push("disable_force_push".to_owned());
    r.push("disable_deletion".to_owned());
    r.push("require_signed_commits".to_owned());
    r.push("require_status_checks".to_owned());
    r.push("codeowners_valid".to_owned());
    r.push("codeowners_path".to_owned());
    proof {
        assert(texts(r@) =~= header_texts());
    }
    r
}

/// Whether the header row has to be written: the ledger is new or empty.
pub fn needs_header(existing_len: Option<u64>) -> (r: bool)
    ensures
        r == (existing_len is None || existing_len == Some(0u64)),
{
    match existing_len {
        None => true,
        Some(n) => n == 0,
    }
}

/// The visibility as the ledger and the report show it.
pub open spec fn visibility_text(visibility: Option<Seq<char>>) -> Seq<char> {
    match visibility {
        Some(v) => v,
        None => "unknown"@,
    }
}

/// The visibility as the ledger and the report show it: `unknown` where the
/// metadata had none.
pub fn visibility_label(visibility: Option<&str>) -> (r: String)
    ensures
        r@ == visibility_text(crate::fetch::body_text(visibility)),
{
    match visibility {
        Some(v) => v.to_owned(),
        None => "unknown".to_owned(),
    }
}

/// The cells of the checks, in the order of the columns.
pub open spec fn check_cells(checks: ProtectionChecks, selection: Selection) -> Seq<Seq<char>> {
    Seq::new(8, |i: int| named_cell_text(checks.outcome(all_checks()[i]), all_checks()[i], selection))
}

/// The fields of the row that a repository adds to the ledger.
pub open spec fn row_fields(
    repo: Seq<char>,
    branch: Seq<char>,
    visibility: Seq<char>,
    checks: ProtectionChecks,
    selection: Selection,
    codeowners_path: Seq<char>,
) -> Seq<Seq<char>> {
    seq![repo, branch, visibility] + check_cells(checks, selection) + seq![codeowners_path]
}

/// The fields of the row that a repository adds to the ledger: its name,
/// default branch and visibility, one cell for each check, and the place of
/// its CODEOWNERS file.
pub fn ledger_row(
    repo: &str,
    branch: &str,
    visibility: &str,
    checks: &ProtectionChecks,
    selection: &Selection,
    codeowners_path: &str,
) -> (r: Vec<String>)
    ensures
        texts(r@) == row_fields(
            repo@,
            branch@,
            visibility@,
            *checks,
            *selection,
            codeowners_path@,
        ),
{
    let mut r: Vec<String> = Vec::new();
    r.push(repo.to_owned());
    r.push(branch.to_owned());
    r.push(visibility.to_owned());
    let names = all_names();
    let mut i: usize = 0;
    while i < names.len()
        invariant
            i <= 8,
            names@ == all_checks(),
            r@.len() == 3 + i,
            r@[0]@ == repo@,
            r@[1]@ == branch@,
            r@[2]@ == visibility@,
            forall|k: int|
                0 <= k < i ==> (#[trigger] r@[3 + k])@ == named_cell_text(
                    checks.outcome(all_checks()[k]),
                    all_checks()[k],
                    *selection,
                ),
        decreases 8 - i,
    {
        let name = names[i];
        r.push(check_csv_value_named(checks.get(name), name, selection));
        i += 1;
    }
    r.push(codeowners_path.to_owned());
    proof {
        let want = row_fields(
            repo@,
            branch@,
            visibility@,
            *checks,
            *selection,
            codeowners_path@,
        );
        assert(texts(r@).len() == want.len());
        assert forall|k: int| 0 <= k < want.len() implies texts(r@)[k] == want[k] by {
            if 3 <= k < 11 {
                assert(r@[3 + (k - 3)]@ == want[k]);
            }
        }
        assert(texts(r@) =~= want);
    }
    r
}

/// The line that a record adds to the ledger file, as the `csv` crate
/// writes it; `None` where the crate refuses the record.
pub fn ledger_line(fields: &Vec<String>) -> (r: Option<String>)
    ensures
        r is Some <==> csv_record_text(texts(fields@)) is Some,
        r matches Some(line) ==> csv_record_text(texts(fields@)) == Some(line@),
{
    write_line(fields)
}

/// What the report calls a check.
pub open spec fn check_title(name: CheckName) -> Seq<char> {
    match name {
        CheckName::PrOneApproval => "PR requires one approval"@,
        CheckName::PrDismissStale => "PR: dismiss stale reviews"@,
        CheckName::PrRequireCodeOwner => "PR requires code owners approval"@,
        CheckName::DisableForcePush => "Force-push disabled"@,
        CheckName::DisableDeletion => "Deletion disabled"@,
        CheckName::RequireSignedCommits => "Require signed commits"@,
        CheckName::RequireStatusChecks => "Require status checks"@,
        CheckName::CodeownersValid => "CODEOWNERS exists and is valid"@,
    }
}

/// What the report calls a check.
pub fn title_of(name: CheckName) -> (r: &'static str)
    ensures
        r@ == check_title(name),
{
    match name {
        CheckName::PrOneApproval => "PR requires one approval",
        CheckName::PrDismissStale => "PR: dismiss stale reviews",
        CheckName::PrRequireCodeOwner => "PR requires code owners approval",
        CheckName::DisableForcePush => "Force-push disabled",
        CheckName::DisableDeletion => "Deletion disabled",
        CheckName::RequireSignedCommits => "Require signed commits",
        CheckName::RequireStatusChecks => "Require status checks",
        CheckName::CodeownersValid => "CODEOWNERS exists and is valid",
    }
}

/// The first line of the report of a repository.
pub open spec fn report_head(
    repo: Seq<char>,
    branch: Seq<char>,
    visibility: Seq<char>,
    score: nat,
    max: nat,
) -> Seq<char> {
    "Repo: "@ + repo + "  Default branch: "@ + branch + "  Visibility: "@ + visibility
        + "  Score: "@ + decimal_text(score) + "/"@ + decimal_text(max)
}

/// The line of the report for one check.
pub open spec fn report_line(name: CheckName, checks: ProtectionChecks) -> Seq<char> {
    "  - "@ + check_title(name) + ": "@ + symbol_text(checks.outcome(name))
}

/// The lines of the report for the selected ones of the first `upto` checks.
pub open spec fn report_lines_upto(checks: ProtectionChecks, selection: Selection, upto: nat) -> Seq<
    Seq<char>,
>
    decreases upto,
{
    if upto == 0 {
        Seq::empty()
    } else {
        let front = report_lines_upto(checks, selection, (upto - 1) as nat);
        let name = all_checks()[upto - 1];
        if selection.includes(name) {
            front.push(report_line(name, checks))
        } else {
            front
        }
    }
}

/// The report of a repository: the head with the score, then one line for
/// each selected check.
pub open spec fn report_text(
    repo: Seq<char>,
    branch: Seq<char>,
    visibility: Seq<char>,
    checks: ProtectionChecks,
    selection: Selection,
) -> Seq<Seq<char>> {
    seq![
        report_head(
            repo,
            branch,
            visibility,
            earned(checks, selection, Weights::uniform()),
            attainable(selection, Weights::uniform()),
        ),
    ] + report_lines_upto(checks, selection, 8)
}

/// The lines of the console report of a repository.
pub fn print_report(
    repo: &str,
    branch: &str,
    visibility: &str,
    checks: &ProtectionChecks,
    selected: &Selection,
) -> (r: Vec<String>)
    ensures
        texts(r@) == report_text(repo@, branch@, visibility@, *checks, *selected),
{
    let (score, max) = compute_selected_score(checks, selected);
    let mut head = "Repo: ".to_owned();
    head.append(repo);
    head.append("  Default branch: ");
    head.append(branch);
    head.append("  Visibility: ");
    head.append(visibility);
    head.append("  Score: ");
    head.append(decimal(score as u64).as_str());
    head.append("/");
    head.append(decimal(max as u64).as_str());
    let ghost first = head@;
    let mut r: Vec<String> = Vec::new();
    r.push(head);
    let names = all_names();
    let mut i: usize = 0;
    proof {
        assert(texts(r@) =~= seq![first] + report_lines_upto(*checks, *selected, 0));
    }
    while i < names.len()
        invariant
            i <= 8,
            names@ == all_checks(),
            texts(r@) == seq![first] + report_lines_upto(*checks, *selected, i as nat),
        decreases 8 - i,
    {
        let name = names[i];
        if selected.is_selected(name) {
            let mut line = "  - ".to_owned();
            line.append(title_of(name));
            line.append(": ");
            line.append(check_symbol(checks.get(name)).as_str());
            proof {
                let front = report_lines_upto(*checks, *selected, i as nat);
                assert(texts(r@.push(line)) =~= texts(r@).push(line@));
                assert((seq![first] + front).push(line@) =~= seq![first] + front.push(line@));
                assert(line@ == report_line(name, *checks));
            }
            r.push(line);
        }
        i += 1;
    }
    r
}

} // verus!
