//! Drill reports: step results, the human-readable rendering, the names
//! under which reports are saved, and the choice of reports for history.

use vstd::prelude::*;
use vstd::string::*;

use crate::duration::Moment;
use crate::order::{later_first, sort_later_first, texts};
use crate::text::{
    concat, concat3, decimal, decimal_text, ends_with, join_lines, joined, split_lines,
    starts_with, text_lines,
};

verus! {

broadcast use vstd::seq_lib::group_to_multiset_ensures;

/// The outcome of one step, or of a whole drill.
#[derive(Clone, Copy, Debug, PartialEq, Eq, Structural)]
pub enum Status {
    Passed,
    Failed,
    Skipped,
}

/// The four-letter label of a status.
pub open spec fn label_text(s: Status) -> Seq<char> {
    match s {
        Status::Passed => "PASS"@,
        Status::Failed => "FAIL"@,
        Status::Skipped => "SKIP"@,
    }
}

impl Status {
    /// The four-letter label shown for a status.
    pub fn label(self) -> (l: &'static str)
        ensures
            l@ == label_text(self),
    {
        match self {
            Status::Passed => "PASS",
            Status::Failed => "FAIL",
            Status::Skipped => "SKIP",
        }
    }
}

/// The result of one drill step.
#[derive(Debug)]
pub struct CheckResult {
    pub name: String,
    pub status: Status,
    pub duration_ms: u64,
    pub detail: String,
}

/// The content of a step result.
pub struct CheckView {
    pub name: Seq<char>,
    pub status: Status,
    pub duration_ms: u64,
    pub detail: Seq<char>,
}

impl View for CheckResult {
    type V = CheckView;

    open spec fn view(&self) -> CheckView {
        CheckView {
            name: self.name@,
            status: self.status,
            duration_ms: self.duration_ms,
            detail: self.detail@,
        }
    }
}

/// The record of one completed drill.
#[derive(Debug)]
pub struct Report {
    pub schema_version: u32,
    pub tool_version: String,
    pub sqlite_version: String,
    pub name: String,
    pub source: String,
    pub started_at: Moment,
    pub duration_ms: u64,
    pub status: Status,
    pub restored_bytes: Option<u64>,
    pub backup_modified_at: Option<Moment>,
    pub checks: Vec<CheckResult>,
}

/// The step results of a report.
pub open spec fn check_views(checks: Seq<CheckResult>) -> Seq<CheckView> {
    checks.map_values(|c: CheckResult| c@)
}

/// The report schema that this library writes and reads.
pub const SCHEMA_VERSION: u32 = 1;

/// The note printed under a passed drill.
pub open spec fn passed_note() -> Seq<char> {
    "The backup passed the configured checks. Application startup was not tested."@
}

/// What `chrono` writes as RFC 3339 for a UTC time given in seconds and
/// nanoseconds since the epoch
/// (`DateTime::from_timestamp(secs, nanos).unwrap().to_rfc3339()`).
pub uninterp spec fn rfc3339_text(secs: i64, nanos: u32) -> Seq<char>;

/// What `chrono` writes for a UTC time given in seconds and nanoseconds since
/// the epoch under a `strftime` pattern
/// (`DateTime::from_timestamp(secs, nanos).unwrap().format(p)`).
pub uninterp spec fn formatted_time(secs: i64, nanos: u32, pattern: Seq<char>) -> Seq<char>;

/// The pattern of the time stamp in report file names.
pub open spec fn report_stamp_pattern() -> Seq<char> {
    "%Y%m%dT%H%M%S%.9fZ"@
}

/// The pattern of the time in history listings.
pub open spec fn history_stamp_pattern() -> Seq<char> {
    "%Y-%m-%d %H:%M:%S UTC"@
}

/// Calls `chrono::DateTime::<Utc>::from_timestamp`, which gives `None` only
/// for a time outside chrono's years (-262143 to 262142) or for a second or
/// more of nanoseconds, and `to_rfc3339` on the result. The contract claims
/// that the text depends on the time alone, and that a representable moment
/// gives a time.
#[verifier::external_body]
pub(crate) fn rfc3339(at: Moment) -> (r: Option<String>)
    ensures
        at.representable() ==> r is Some,
        r matches Some(t) ==> t@ == rfc3339_text(at.secs, at.nanos),
{
    match chrono::DateTime::from_timestamp(at.secs, at.nanos) {
        Some(t) => Some(t.to_rfc3339()),
        None => None,
    }
}

/// Calls `chrono::DateTime::<Utc>::from_timestamp` and `format` with one of
/// the library's two patterns, both made of valid `strftime` items (an
/// invalid item would make the writing fail). The contract claims that the
/// text depends on the time and the pattern alone, and that a representable
/// moment gives a time.
#[verifier::external_body]
pub(crate) fn format_time(at: Moment, pattern: &str) -> (r: Option<String>)
    requires
        pattern@ == report_stamp_pattern() || pattern@ == history_stamp_pattern(),
    ensures
        at.representable() ==> r is Some,
        r matches Some(t) ==> t@ == formatted_time(at.secs, at.nanos, pattern@),
{
    match chrono::DateTime::from_timestamp(at.secs, at.nanos) {
        Some(t) => Some(t.format(pattern).to_string()),
        None => None,
    }
}

/// The indentation of detail lines.
pub open spec fn detail_indent() -> Seq<char> {
    "        "@
}

/// The rendered lines of one step: its summary, then its detail, indented.
pub open spec fn check_lines(c: CheckView) -> Seq<Seq<char>> {
    seq![
        "  "@ + label_text(c.status) + "  "@ + c.name + " ("@ + decimal(c.duration_ms as nat)
            + " ms)"@,
    ] + text_lines(c.detail).map_values(|l: Seq<char>| detail_indent() + l)
}

/// The rendered lines of a sequence of steps.
pub open spec fn checks_lines(cs: Seq<CheckView>) -> Seq<Seq<char>>
    decreases cs.len(),
{
    if cs.len() == 0 {
        seq![]
    } else {
        checks_lines(cs.drop_last()) + check_lines(cs.last())
    }
}

/// The rendered lines of a report.
pub open spec fn report_lines(r: &Report) -> Seq<Seq<char>> {
    seq!["Rehearsal · "@ + r.name@, "Backup    "@ + r.source@, seq![]] + checks_lines(
        check_views(r.checks@),
    ) + seq![
        seq![],
        label_text(r.status) + " · "@ + decimal(r.duration_ms as nat) + " ms · "@
            + rfc3339_text(r.started_at.secs, r.started_at.nanos),
    ] + if r.status == Status::Passed {
        seq![passed_note()]
    } else {
        seq![]
    }
}

/// Whether a file name is that of a saved report: `run-` before and the
/// extension `json`. Since such a name starts with `run-`, its extension as
/// `Path::extension` reads it is `json` exactly when it ends in `.json`.
pub open spec fn report_file_name(name: Seq<char>) -> bool {
    "run-"@.is_prefix_of(name) && ".json"@.is_suffix_of(name)
}

/// The file name a report is saved under, with a unique part that keeps
/// names of reports from the same instant apart.
pub open spec fn saved_name(started_at: Moment, unique: Seq<char>) -> Seq<char> {
    "run-"@ + formatted_time(started_at.secs, started_at.nanos, report_stamp_pattern()) + "-"@ + unique + ".json"@
}

fn check_summary(check: &CheckResult) -> (s: String)
    ensures
        s@ == check_lines(check@)[0],
{
    let mut s = concat3("  ", check.status.label(), "  ");
    s.append(check.name.as_str());
    s.append(" (");
    let ms = decimal_text(check.duration_ms);
    s.append(ms.as_str());
    s.append(" ms)");
    s
}

impl Report {
    /// The report as text: a heading, each step with its detail lines,
    /// and a closing summary.
    pub fn render(&self) -> (text: String)
        requires
            self.started_at.representable(),
        ensures
            text@ == joined(report_lines(self), "\n"@),
    {
        let mut lines: Vec<String> = Vec::new();
        lines.push(concat("Rehearsal · ", self.name.as_str()));
        lines.push(concat("Backup    ", self.source.as_str()));
        lines.push(String::new());
        let ghost head: Seq<Seq<char>> = seq![
            "Rehearsal · "@ + self.name@,
            "Backup    "@ + self.source@,
            seq![],
        ];
        let ghost views = check_views(self.checks@);
        assert(texts(lines@) =~= head);
        let mut i: usize = 0;
        while i < self.checks.len()
            invariant
                views == check_views(self.checks@),
                i <= self.checks.len(),
                texts(lines@) == head + checks_lines(views.take(i as int)),
            decreases self.checks.len() - i,
        {
            let check = &self.checks[i];
            assert(views.take(i + 1).drop_last() =~= views.take(i as int));
            assert(views.take(i + 1).last() == check@);
            let ghost start = texts(lines@);
            lines.push(check_summary(check));
            let detail = split_lines(check.detail.as_str());
            let ghost detail_views = texts(detail@);
            let mut j: usize = 0;
            while j < detail.len()
                invariant
                    detail_views == texts(detail@),
                    detail_views == text_lines(check@.detail),
                    j <= detail.len(),
                    texts(lines@) == start + seq![check_lines(check@)[0]]
                        + detail_views.take(j as int).map_values(
                        |l: Seq<char>| detail_indent() + l,
                    ),
                decreases detail.len() - j,
            {
                let ghost prev = texts(lines@);
                lines.push(concat("        ", detail[j].as_str()));
                assert(detail[j as int]@ == detail_views[j as int]);
                assert(texts(lines@) =~= prev.push(detail_indent() + detail_views[j as int]));
                assert(detail_views.take(j + 1).map_values(|l: Seq<char>| detail_indent() + l)
                    =~= detail_views.take(j as int).map_values(
                    |l: Seq<char>| detail_indent() + l,
                ).push(detail_indent() + detail_views[j as int]));
                j = j + 1;
            }
            assert(detail_views.take(detail.len() as int) =~= detail_views);
            assert(check_lines(check@) =~= seq![check_lines(check@)[0]]
                + detail_views.map_values(|l: Seq<char>| detail_indent() + l));
            i = i + 1;
        }
        assert(views.take(self.checks.len() as int) =~= views);
        lines.push(String::new());
        let mut last = concat(self.status.label(), " · ");
        let ms = decimal_text(self.duration_ms);
        last.append(ms.as_str());
        last.append(" ms · ");
        let started = match rfc3339(self.started_at) {
            Some(t) => t,
            None => String::new(),
        };
        last.append(started.as_str());
        lines.push(last);
        if self.status == Status::Passed {
            lines.push(
                String::from_str(
                    "The backup passed the configured checks. Application startup was not tested.",
                ),
            );
        }
        assert(texts(lines@) =~= report_lines(self));
        join_lines(&lines)
    }

    /// The file name the report is saved under, given a unique part.
    pub fn file_name(&self, unique: &str) -> (name: String)
        requires
            self.started_at.representable(),
        ensures
            name@ == saved_name(self.started_at, unique@),
    {
        let stamp = match format_time(self.started_at, "%Y%m%dT%H%M%S%.9fZ") {
            Some(t) => t,
            None => String::new(),
        };
        let mut name = concat3("run-", stamp.as_str(), "-");
        name.append(unique);
        name.append(".json");
        name
    }
}

/// Whether a file name is that of a saved report.
pub fn is_report_file_name(name: &str) -> (r: bool)
    ensures
        r == report_file_name(name@),
{
    starts_with(name, "run-") && ends_with(name, ".json")
}

/// The names of the newest reports, newest first, at most `limit` of them.
/// Report names begin with their start time, so the later name is the newer
/// report.
pub fn newest_first(names: &Vec<String>, limit: usize) -> (chosen: Vec<String>)
    ensures
        texts(chosen@) == texts(names@).sort_by(later_first()).take(
            if limit < names.len() {
                limit as int
            } else {
                names.len() as int
            },
        ),
{
    let mut sorted = sort_later_first(names);
    proof {
        crate::order::lemma_later_first_total();
        texts(names@).lemma_sort_by_ensures(later_first());
        assert(texts(names@).to_multiset().len() == texts(names@).len());
        assert(texts(names@).sort_by(later_first()).to_multiset().len() == texts(names@).sort_by(
            later_first(),
        ).len());
        assert(texts(sorted@).len() == sorted@.len());
        assert(sorted@.len() == names@.len());
    }
    let ghost full = texts(sorted@);
    if limit < sorted.len() {
        sorted.truncate(limit);
        assert(texts(sorted@) =~= full.take(limit as int));
    } else {
        assert(full.take(sorted@.len() as int) =~= full);
    }
    assert(texts(sorted@) =~= texts(names@).sort_by(later_first()).take(
        if limit < names.len() {
            limit as int
        } else {
            names.len() as int
        },
    ));
    sorted
}

/// History lists the newest reports first: where `chosen` is what
/// [`newest_first`] picks of `names`, it holds `limit` of them (or all, where
/// there are fewer), each chosen name comes no earlier than the one after
/// it, each is one of the names, and every name left out comes no later than
/// every name chosen.
pub proof fn law_history_is_newest_first(names: Seq<Seq<char>>, limit: nat, chosen: Seq<Seq<char>>)
    requires
        chosen == names.sort_by(later_first()).take(
            if limit < names.len() {
                limit as int
            } else {
                names.len() as int
            },
        ),
    ensures
        chosen.len() == (if limit < names.len() {
            limit as int
        } else {
            names.len() as int
        }),
        forall|i: int, j: int|
            0 <= i < j < chosen.len() ==> crate::order::text_le(
                #[trigger] chosen[j],
                #[trigger] chosen[i],
            ),
        forall|i: int| 0 <= i < chosen.len() ==> names.contains(#[trigger] chosen[i]),
        forall|x: Seq<char>, i: int|
            #![trigger names.contains(x), chosen[i]]
            names.contains(x) && !chosen.contains(x) && 0 <= i < chosen.len()
                ==> crate::order::text_le(x, chosen[i]),
{
    crate::order::lemma_later_first_total();
    names.lemma_sort_by_ensures(later_first());
    let sorted = names.sort_by(later_first());
    let n = if limit < names.len() {
        limit as int
    } else {
        names.len() as int
    };
    assert(chosen == sorted.take(n));
    assert(sorted.to_multiset().len() == sorted.len());
    assert(names.to_multiset().len() == names.len());
    assert forall|i: int, j: int| 0 <= i < j < n implies crate::order::text_le(
        chosen[j],
        chosen[i],
    ) by {
        assert(later_first()(sorted[i], sorted[j]));
    }
    assert forall|i: int| 0 <= i < n implies names.contains(#[trigger] chosen[i]) by {
        assert(sorted.contains(sorted[i]));
        assert(sorted.to_multiset().count(sorted[i]) > 0);
    }
    assert forall|x: Seq<char>, i: int|
        #![trigger names.contains(x), chosen[i]]
        names.contains(x) && !chosen.contains(x) && 0 <= i < n implies crate::order::text_le(
        x,
        chosen[i],
    ) by {
        assert(names.to_multiset().count(x) > 0);
        assert(sorted.contains(x));
        let k = choose|k: int| 0 <= k < sorted.len() && sorted[k] == x;
        if k < n {
            assert(chosen[k] == x);
        }
        assert(later_first()(sorted[i], sorted[k]));
    }
}

/// Accepts a report read back from `path` only in the schema this library writes.
pub fn check_schema(schema_version: u32, path: &str) -> (r: Result<(), String>)
    ensures
        r is Ok <==> schema_version == SCHEMA_VERSION,
        r matches Err(m) ==> m@ == "unsupported report schema in "@ + path@,
{
    if schema_version == SCHEMA_VERSION {
        Ok(())
    } else {
        Err(concat("unsupported report schema in ", path))
    }
}

} // verus!
