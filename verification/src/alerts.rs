//! Counting the open security alerts of a repository by severity.

use crate::fetch::{FetchError, Listing};
use crate::json::Json;
use crate::model::{Bootstrap, Record};
use crate::text::{concat5, decimal, decimal_text, str_eq};
use vstd::prelude::*;
use vstd::string::*;

verus! {

/// The severity of a security alert.
#[derive(Clone, Copy, Debug, PartialEq, Eq, Structural, Hash)]
pub enum Severity {
    Low,
    Medium,
    High,
    Critical,
}

impl Severity {
    /// The severity that a lower-case name stands for.
    pub open spec fn named(name: Seq<char>) -> Option<Severity> {
        if name == "low"@ {
            Some(Severity::Low)
        } else if name == "medium"@ {
            Some(Severity::Medium)
        } else if name == "high"@ {
            Some(Severity::High)
        } else if name == "critical"@ {
            Some(Severity::Critical)
        } else {
            None
        }
    }

    /// The severity that a lower-case name stands for.
    pub fn from_name(name: &str) -> (r: Option<Severity>)
        ensures
            r == Severity::named(name@),
    {
        if str_eq(name, "low") {
            Some(Severity::Low)
        } else if str_eq(name, "medium") {
            Some(Severity::Medium)
        } else if str_eq(name, "high") {
            Some(Severity::High)
        } else if str_eq(name, "critical") {
            Some(Severity::Critical)
        } else {
            None
        }
    }
}

/// The number of an alert, where the document has one that fits.
pub open spec fn alert_number(doc: Json) -> Option<u32> {
    match doc.field_natural("number"@) {
        Some(n) => if n <= u32::MAX {
            Some(n as u32)
        } else {
            None
        },
        None => None,
    }
}

/// The severity named by the member `key` of the member `holder`.
pub open spec fn nested_severity(doc: Json, holder: Seq<char>, key: Seq<char>) -> Option<Severity> {
    match doc.field(holder) {
        Some(inner) => match inner.field_text(key) {
            Some(name) => Severity::named(name),
            None => None,
        },
        None => None,
    }
}

/// Reads the number of an alert.
fn decode_number(doc: &Json) -> (r: Option<u32>)
    ensures
        r == alert_number(*doc),
{
    match doc.get_u64("number") {
        Some(n) => {
            if n <= 0xffff_ffff {
                Some(n as u32)
            } else {
                None
            }
        },
        None => None,
    }
}

/// Reads a severity that lies one object deep.
fn decode_nested_severity(doc: &Json, holder: &str, key: &str) -> (r: Option<Severity>)
    ensures
        r == nested_severity(*doc, holder@, key@),
{
    match doc.get(holder) {
        Some(inner) => match inner.get_str(key) {
            Some(name) => Severity::from_name(name),
            None => None,
        },
        None => None,
    }
}

/// An alert of Dependabot.
#[derive(Clone, Copy, Debug, PartialEq, Eq, Structural, Hash)]
pub struct DependabotAlert {
    pub number: u32,
    /// The severity of the alert's security advisory.
    pub severity: Severity,
}

impl View for DependabotAlert {
    type V = DependabotAlert;

    open spec fn view(&self) -> DependabotAlert {
        *self
    }
}

impl Record for DependabotAlert {
    open spec fn decoded(doc: Json) -> Option<DependabotAlert> {
        match (alert_number(doc), nested_severity(doc, "security_advisory"@, "severity"@)) {
            (Some(number), Some(severity)) => Some(DependabotAlert { number, severity }),
            _ => None,
        }
    }

    fn decode(doc: &Json) -> (r: Option<Self>) {
        let number = decode_number(doc);
        let severity = decode_nested_severity(doc, "security_advisory", "severity");
        match (number, severity) {
            (Some(number), Some(severity)) => Some(DependabotAlert { number, severity }),
            _ => None,
        }
    }

    fn equals(&self, other: &Self) -> (r: bool) {
        *self == *other
    }
}

/// An alert of code scanning.
#[derive(Clone, Copy, Debug, PartialEq, Eq, Structural, Hash)]
pub struct CodeScanningAlert {
    pub number: u32,
    /// The security severity of the alert's rule.
    pub severity: Severity,
}

impl View for CodeScanningAlert {
    type V = CodeScanningAlert;

    open spec fn view(&self) -> CodeScanningAlert {
        *self
    }
}

impl Record for CodeScanningAlert {
    open spec fn decoded(doc: Json) -> Option<CodeScanningAlert> {
        match (alert_number(doc), nested_severity(doc, "rule"@, "security_severity_level"@)) {
            (Some(number), Some(severity)) => Some(CodeScanningAlert { number, severity }),
            _ => None,
        }
    }

    fn decode(doc: &Json) -> (r: Option<Self>) {
        let number = decode_number(doc);
        let severity = decode_nested_severity(doc, "rule", "security_severity_level");
        match (number, severity) {
            (Some(number), Some(severity)) => Some(CodeScanningAlert { number, severity }),
            _ => None,
        }
    }

    fn equals(&self, other: &Self) -> (r: bool) {
        *self == *other
    }
}

/// The path of the listing of a repository's Dependabot alerts.
pub open spec fn dependabot_path(org: Seq<char>, repo: Seq<char>) -> Seq<char> {
    "/repos/"@ + org + "/"@ + repo + "/dependabot/alerts"@
}

/// The path of the listing of a repository's code-scanning alerts.
pub open spec fn codescanning_path(org: Seq<char>, repo: Seq<char>) -> Seq<char> {
    "/repos/"@ + org + "/"@ + repo + "/code-scanning/alerts"@
}

/// The listing of the open Dependabot alerts of a repository.
pub fn fetch_dependabot_alerts(bootstrap: &Bootstrap, repo: &str) -> (r: Listing)
    ensures
        r.path@ == dependabot_path(bootstrap.org@, repo@),
        r.page_size == 30,
        r.retries == 3,
        r.params is Some,
        r.params->0@ == "&state=open"@,
{
    Listing {
        path: concat5("/repos/", bootstrap.org.as_str(), "/", repo, "/dependabot/alerts"),
        page_size: 30,
        retries: 3,
        params: Some("&state=open".to_owned()),
    }
}

/// The listing of the open code-scanning alerts of a repository.
pub fn fetch_codescanning_alerts(bootstrap: &Bootstrap, repo: &str) -> (r: Listing)
    ensures
        r.path@ == codescanning_path(bootstrap.org@, repo@),
        r.page_size == 30,
        r.retries == 3,
        r.params is Some,
        r.params->0@ == "&state=open"@,
{
    Listing {
        path: concat5("/repos/", bootstrap.org.as_str(), "/", repo, "/code-scanning/alerts"),
        page_size: 30,
        retries: 3,
        params: Some("&state=open".to_owned()),
    }
}

/// How many alerts there are of each severity. Every count is -1 where the
/// alerts could not be had.
#[derive(Clone, Copy, Debug, PartialEq, Eq, Structural)]
pub struct AlertCounts {
    pub low: i32,
    pub medium: i32,
    pub high: i32,
    pub critical: i32,
}

/// How many of the severities are `wanted`.
pub open spec fn count_severity(severities: Seq<Severity>, wanted: Severity) -> nat
    decreases severities.len(),
{
    if severities.len() == 0 {
        0
    } else {
        count_severity(severities.drop_last(), wanted) + if severities.last() == wanted {
            1nat
        } else {
            0nat
        }
    }
}

/// A count as the counters hold it: what goes beyond the largest `i32` is
/// counted as that.
pub open spec fn capped(n: nat) -> i32 {
    if n <= i32::MAX {
        n as i32
    } else {
        i32::MAX
    }
}

/// The counts of a list of severities.
pub open spec fn tally_of(severities: Seq<Severity>) -> AlertCounts {
    AlertCounts {
        low: capped(count_severity(severities, Severity::Low)),
        medium: capped(count_severity(severities, Severity::Medium)),
        high: capped(count_severity(severities, Severity::High)),
        critical: capped(count_severity(severities, Severity::Critical)),
    }
}

/// The severities of Dependabot alerts.
pub open spec fn dependabot_severities(alerts: Seq<DependabotAlert>) -> Seq<Severity> {
    alerts.map_values(|a: DependabotAlert| a.severity)
}

/// The severities of code-scanning alerts.
pub open spec fn codescanning_severities(alerts: Seq<CodeScanningAlert>) -> Seq<Severity> {
    alerts.map_values(|a: CodeScanningAlert| a.severity)
}

/// One more, unless the counter is at its largest value.
fn bump(n: i32) -> (r: i32)
    requires
        n >= 0,
    ensures
        r == if n < i32::MAX {
            n + 1
        } else {
            n as int
        },
{
    if n < i32::MAX {
        n + 1
    } else {
        n
    }
}

impl AlertCounts {
    /// The counts that say that the alerts could not be had.
    pub open spec fn unavailable() -> AlertCounts {
        AlertCounts { low: -1i32, medium: -1i32, high: -1i32, critical: -1i32 }
    }

    /// The sum of the four counts.
    pub open spec fn sum(self) -> int {
        self.low + self.medium + self.high + self.critical
    }

    /// The number of alerts of all severities.
    pub fn total(&self) -> (r: i64)
        ensures
            r == self.sum(),
    {
        self.low as i64 + self.medium as i64 + self.high as i64 + self.critical as i64
    }

    /// The counts that say that the alerts could not be had.
    pub fn na() -> (r: AlertCounts)
        ensures
            r == AlertCounts::unavailable(),
    {
        AlertCounts { low: -1, medium: -1, high: -1, critical: -1 }
    }

    /// The counts of a list of severities.
    pub fn tally(severities: &Vec<Severity>) -> (r: AlertCounts)
        ensures
            r == tally_of(severities@),
    {
        let mut low: i32 = 0;
        let mut medium: i32 = 0;
        let mut high: i32 = 0;
        let mut critical: i32 = 0;
        let mut i: usize = 0;
        proof {
            assert(severities@.take(0) =~= Seq::<Severity>::empty());
        }
        while i < severities.len()
            invariant
                i <= severities@.len(),
                low == capped(count_severity(severities@.take(i as int), Severity::Low)),
                medium == capped(count_severity(severities@.take(i as int), Severity::Medium)),
                high == capped(count_severity(severities@.take(i as int), Severity::High)),
                critical == capped(count_severity(severities@.take(i as int), Severity::Critical)),
            decreases severities@.len() - i,
        {
            proof {
                let next = severities@.take(i + 1);
                assert(next.drop_last() =~= severities@.take(i as int));
                assert(next.last() == severities@[i as int]);
            }
            match severities[i] {
                Severity::Low => {
                    low = bump(low);
                },
                Severity::Medium => {
                    medium = bump(medium);
                },
                Severity::High => {
                    high = bump(high);
                },
                Severity::Critical => {
                    critical = bump(critical);
                },
            }
            i += 1;
        }
        proof {
            assert(severities@.take(severities@.len() as int) =~= severities@);
        }
        AlertCounts { low, medium, high, critical }
    }

    /// The counts of the Dependabot alerts of a repository; the counts that
    /// say so where the alerts could not be had.
    pub fn from_dependabot(alerts: &Result<Vec<DependabotAlert>, FetchError>) -> (r: AlertCounts)
        ensures
            r == match *alerts {
                Ok(list) => tally_of(dependabot_severities(list@)),
                Err(_) => AlertCounts::unavailable(),
            },
    {
        match alerts {
            Err(_) => AlertCounts::na(),
            Ok(list) => {
                let mut severities: Vec<Severity> = Vec::new();
                let mut i: usize = 0;
                while i < list.len()
                    invariant
                        i <= list@.len(),
                        severities@ =~= dependabot_severities(list@).take(i as int),
                    decreases list@.len() - i,
                {
                    severities.push(list[i].severity);
                    i += 1;
                }
                proof {
                    assert(dependabot_severities(list@).take(list@.len() as int)
                        =~= dependabot_severities(list@));
                }
                AlertCounts::tally(&severities)
            },
        }
    }

    /// The counts of the code-scanning alerts of a repository; the counts
    /// that say so where the alerts could not be had.
    pub fn from_codescanning(alerts: &Result<Vec<CodeScanningAlert>, FetchError>) -> (r:
        AlertCounts)
        ensures
            r == match *alerts {
                Ok(list) => tally_of(codescanning_severities(list@)),
                Err(_) => AlertCounts::unavailable(),
            },
    {
        match alerts {
            Err(_) => AlertCounts::na(),
            Ok(list) => {
                let mut severities: Vec<Severity> = Vec::new();
                let mut i: usize = 0;
                while i < list.len()
                    invariant
                        i <= list@.len(),
                        severities@ =~= codescanning_severities(list@).take(i as int),
                    decreases list@.len() - i,
                {
                    severities.push(list[i].severity);
                    i += 1;
                }
                proof {
                    assert(codescanning_severities(list@).take(list@.len() as int)
                        =~= codescanning_severities(list@));
                }
                AlertCounts::tally(&severities)
            },
        }
    }
}
impl From<&Result<Vec<DependabotAlert>, FetchError>> for AlertCounts {
    fn from(alerts: &Result<Vec<DependabotAlert>, FetchError>) -> (r: AlertCounts) {
        AlertCounts::from_dependabot(alerts)
    }
}

impl vstd::std_specs::convert::FromSpecImpl<&Result<Vec<DependabotAlert>, FetchError>> for AlertCounts {
    open spec fn obeys_from_spec() -> bool {
        true
    }

    open spec fn from_spec(alerts: &Result<Vec<DependabotAlert>, FetchError>) -> AlertCounts {
        match *alerts {
            Ok(list) => tally_of(dependabot_severities(list@)),
            Err(_) => AlertCounts::unavailable(),
        }
    }
}

impl From<&Result<Vec<CodeScanningAlert>, FetchError>> for AlertCounts {
    fn from(alerts: &Result<Vec<CodeScanningAlert>, FetchError>) -> (r: AlertCounts) {
        AlertCounts::from_codescanning(alerts)
    }
}

impl vstd::std_specs::convert::FromSpecImpl<&Result<Vec<CodeScanningAlert>, FetchError>> for AlertCounts {
    open spec fn obeys_from_spec() -> bool {
        true
    }

    open spec fn from_spec(alerts: &Result<Vec<CodeScanningAlert>, FetchError>) -> AlertCounts {
        match *alerts {
            Ok(list) => tally_of(codescanning_severities(list@)),
            Err(_) => AlertCounts::unavailable(),
        }
    }
}

/// A count as the reports show it: `NA` for a negative one.
pub open spec fn count_text(num: int) -> Seq<char> {
    if num < 0 {
        "NA"@
    } else {
        decimal_text(num as nat)
    }
}

/// A count as the reports show it: `NA` for a negative one.
pub fn number_or_na(num: i64) -> (r: String)
    ensures
        r@ == count_text(num as int),
{
    if num < 0 {
        "NA".to_owned()
    } else {
        decimal(num as u64)
    }
}

/// The alerts of a repository.
#[derive(Debug)]
pub struct RepoAlerts {
    pub name: String,
    pub dependabot: AlertCounts,
    pub codescanning: AlertCounts,
}

/// The header of the alerts file.
pub open spec fn alerts_header_text() -> Seq<char> {
    "repository, visibility, dependabot alerts, low, medium, high, critical, code scanning alerts, low, medium, high, critical"@
}

/// The header of the alerts file.
pub fn alerts_header() -> (r: &'static str)
    ensures
        r@ == alerts_header_text(),
{
    "repository, visibility, dependabot alerts, low, medium, high, critical, code scanning alerts, low, medium, high, critical"
}

/// The five cells of one kind of alert: the total, then the four counts.
pub open spec fn counts_cells(counts: AlertCounts) -> Seq<char> {
    count_text(counts.sum()) + ", "@ + count_text(counts.low as int) + ", "@ + count_text(
        counts.medium as int,
    ) + ", "@ + count_text(counts.high as int) + ", "@ + count_text(counts.critical as int)
}

/// The line of a repository in the alerts file.
pub open spec fn alerts_line_text(
    name: Seq<char>,
    visibility: Seq<char>,
    dependabot: AlertCounts,
    codescanning: AlertCounts,
) -> Seq<char> {
    name + ", "@ + visibility + ", "@ + counts_cells(dependabot) + ", "@ + counts_cells(
        codescanning,
    )
}

/// Writes the five cells of one kind of alert.
fn cells(counts: &AlertCounts) -> (r: String)
    ensures
        r@ == counts_cells(*counts),
{
    let mut s = number_or_na(counts.total());
    s.append(", ");
    s.append(number_or_na(counts.low as i64).as_str());
    s.append(", ");
    s.append(number_or_na(counts.medium as i64).as_str());
    s.append(", ");
    s.append(number_or_na(counts.high as i64).as_str());
    s.append(", ");
    s.append(number_or_na(counts.critical as i64).as_str());
    s
}

impl RepoAlerts {
    /// The line of the repository in the alerts file.
    pub fn csv_line(&self, visibility: &str) -> (r: String)
        ensures
            r@ == alerts_line_text(self.name@, visibility@, self.dependabot, self.codescanning),
    {
        let mut s = self.name.clone();
        s.append(", ");
        s.append(visibility);
        s.append(", ");
        s.append(cells(&self.dependabot).as_str());
        s.append(", ");
        s.append(cells(&self.codescanning).as_str());
        s
    }
}

} // verus!
