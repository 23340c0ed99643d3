//! The timed database steps of a drill: the integrity check, the foreign key
//! check and each application assertion. The caller runs the statements and
//! the timer; the verdicts are made here.

use vstd::prelude::*;
use vstd::string::*;

use crate::duration::{duration_text, format_span, Span};
use crate::restore::{fails_with, Progress};
use crate::text::{
    concat, concat3, debug_str, debug_text, join_with, joined, signed_decimal,
    signed_decimal_text, text_equals, with_context,
};

verus! {

/// Database work that a timed step asks for.
#[derive(Debug)]
pub enum QueryAction {
    /// Install a progress handler that interrupts statements once `budget`
    /// has passed since now.
    StartTimer { budget: Span },
    /// Run `PRAGMA integrity_check` and collect every message it returns.
    RunIntegrity,
    /// Run `PRAGMA foreign_key_check` and read its first row, if any.
    RunForeignKeys,
    /// Prepare the statement.
    Prepare { sql: String },
    /// Start executing the prepared statement.
    Execute,
    /// Fetch the next row of the statement, and the value of its first column.
    NextRow,
    /// Remove the progress handler and tell how long the step took.
    StopTimer,
}

/// Where a timed step stands.
#[derive(Clone, Copy, Debug, PartialEq, Eq, Structural)]
pub enum QueryPhase {
    Starting,
    Integrity,
    ForeignKeys,
    Preparing,
    Executing,
    FirstRow,
    SecondRow,
    Stopping,
}

/// The first row of `PRAGMA foreign_key_check`: the child table, its row id,
/// and the parent table.
#[derive(Debug)]
pub struct Violation {
    pub table: String,
    pub row: Option<i64>,
    pub parent: String,
}

/// What a prepared statement is like.
#[derive(Debug)]
pub struct StatementShape {
    pub readonly: bool,
    pub columns: usize,
}

/// The first column of a fetched row: an integer, or any other value.
#[derive(Clone, Copy, Debug, PartialEq, Eq, Structural)]
pub enum Cell {
    Integer(i64),
    Other,
}

/// Which check a timed step runs.
#[derive(Clone, Copy, Debug, PartialEq, Eq, Structural)]
pub enum QueryKind {
    Integrity,
    ForeignKeys,
    Assertion,
}

/// The verdict on the messages of `PRAGMA integrity_check`: passed when it
/// returned exactly the one message `ok`, else failed with the messages.
pub open spec fn integrity_verdict(messages: Seq<Seq<char>>) -> Result<Seq<char>, Seq<char>> {
    if messages.len() == 1 && messages[0] == "ok"@ {
        Ok("PRAGMA integrity_check returned ok."@)
    } else {
        Err(joined(messages, "; "@))
    }
}

/// The integrity check passes exactly when it returned one message and that
/// message is `ok`; otherwise every message it returned is reported.
pub proof fn law_integrity_passes_only_on_ok(messages: Seq<Seq<char>>)
    ensures
        integrity_verdict(messages) is Ok <==> (messages.len() == 1 && messages[0] == "ok"@),
        integrity_verdict(messages) matches Err(e) ==> e == joined(messages, "; "@),
{
}

/// The `Debug` notation of an optional row id.
pub open spec fn row_id_text(row: Option<i64>) -> Seq<char> {
    match row {
        None => "None"@,
        Some(n) => "Some("@ + signed_decimal(n as int) + ")"@,
    }
}

/// The message for the first foreign key violation found.
pub open spec fn violation_message(table: Seq<char>, row: Option<i64>, parent: Seq<char>) -> Seq<
    char,
> {
    "foreign key violation: table "@ + debug_str(table) + ", row "@ + row_id_text(row)
        + ", parent "@ + debug_str(parent) + " (first violation)"@
}

/// The detail of a passed foreign key check.
pub open spec fn no_violation_detail() -> Seq<char> {
    "No foreign key violations."@
}

/// The message of a step that ran out of time.
pub open spec fn timeout_message(budget: Span) -> Seq<char> {
    "query exceeded timeout of "@ + duration_text(budget.secs, budget.nanos)
}

/// The detail of a passed assertion.
pub open spec fn assertion_passed_detail() -> Seq<char> {
    "Assertion returned integer 1."@
}

/// One timed step.
pub struct QueryRun {
    kind: QueryKind,
    sql: String,
    timeout: Span,
    phase: QueryPhase,
    work: Result<String, String>,
    /// The prepared assertion was read-only with exactly one column.
    fit: Ghost<bool>,
    /// Its first row held integer 1.
    first_is_one: Ghost<bool>,
    /// It had no second row.
    single_row: Ghost<bool>,
}

fn row_id_debug(row: Option<i64>) -> (s: String)
    ensures
        s@ == row_id_text(row),
{
    match row {
        None => String::from_str("None"),
        Some(n) => {
            let digits = signed_decimal_text(n);
            concat3("Some(", digits.as_str(), ")")
        },
    }
}

/// The verdict on the first foreign key violation, if any.
pub fn foreign_key_verdict(first: &Option<Violation>) -> (r: Result<String, String>)
    ensures
        match first {
            None => r matches Ok(d) && d@ == no_violation_detail(),
            Some(v) => r matches Err(m) && m@ == violation_message(v.table@, v.row, v.parent@),
        },
{
    match first {
        None => Ok(String::from_str("No foreign key violations.")),
        Some(v) => {
            let table = debug_text(v.table.as_str());
            let parent = debug_text(v.parent.as_str());
            let row = row_id_debug(v.row);
            let mut m = concat("foreign key violation: table ", table.as_str());
            m.append(", row ");
            m.append(row.as_str());
            m.append(", parent ");
            m.append(parent.as_str());
            m.append(" (first violation)");
            Err(m)
        },
    }
}

/// The verdict on the messages of `PRAGMA integrity_check`.
pub fn integrity_outcome(messages: &Vec<String>) -> (r: Result<String, String>)
    ensures
        match (r, integrity_verdict(messages@.map_values(|m: String| m@))) {
            (Ok(d), Ok(e)) => d@ == e,
            (Err(d), Err(e)) => d@ == e,
            _ => false,
        },
        r is Ok <==> (messages@.len() == 1 && messages@[0]@ == "ok"@),
        r matches Err(e) ==> e@ == joined(messages@.map_values(|m: String| m@), "; "@),
{
    if messages.len() == 1 && text_equals(messages[0].as_str(), "ok") {
        Ok(String::from_str("PRAGMA integrity_check returned ok."))
    } else {
        Err(join_with(messages, "; "))
    }
}

impl QueryRun {
    /// Which check this step runs.
    pub closed spec fn kind(&self) -> QueryKind {
        self.kind
    }

    /// The assertion's statement.
    pub closed spec fn sql(&self) -> Seq<char> {
        self.sql@
    }

    /// The time budget of each statement.
    pub closed spec fn budget(&self) -> Span {
        self.timeout
    }

    /// Where the step stands.
    pub closed spec fn phase(&self) -> QueryPhase {
        self.phase
    }

    /// The verdict of the work done so far: a passing detail or a failure.
    pub closed spec fn verdict(&self) -> Result<Seq<char>, Seq<char>> {
        match self.work {
            Ok(d) => Ok(d@),
            Err(e) => Err(e@),
        }
    }

    /// What an assertion has shown so far: its statement was read-only
    /// with one column, its first row held integer 1, and it had no
    /// second row.
    pub closed spec fn assertion_evidence(&self) -> (bool, bool, bool) {
        (self.fit@, self.first_is_one@, self.single_row@)
    }

    /// Whether the step is in a state its methods accept.
    pub closed spec fn wf(&self) -> bool {
        &&& self.timeout.canonical()
        &&& self.phase == QueryPhase::Integrity ==> self.kind == QueryKind::Integrity
        &&& self.phase == QueryPhase::ForeignKeys ==> self.kind == QueryKind::ForeignKeys
        &&& (self.phase == QueryPhase::Executing || self.phase == QueryPhase::FirstRow
            || self.phase == QueryPhase::SecondRow) ==> self.fit@
        &&& self.phase == QueryPhase::SecondRow ==> self.first_is_one@
        &&& (self.kind == QueryKind::Assertion && self.phase == QueryPhase::Stopping
            && self.work is Ok) ==> self.fit@ && self.first_is_one@ && self.single_row@
    }

    fn start(kind: QueryKind, sql: String, timeout: Span) -> (r: (QueryRun, QueryAction))
        requires
            timeout.canonical(),
        ensures
            r.0.wf(),
            r.0.kind() == kind,
            r.0.sql() == sql@,
            r.0.budget() == timeout,
            r.0.phase() == QueryPhase::Starting,
            r.1 matches QueryAction::StartTimer { budget } && budget == timeout,
    {
        (
            QueryRun {
                kind,
                sql,
                timeout,
                phase: QueryPhase::Starting,
                work: Ok(String::new()),
                fit: Ghost(false),
                first_is_one: Ghost(false),
                single_row: Ghost(false),
            },
            QueryAction::StartTimer { budget: timeout },
        )
    }

    /// Starts the integrity check under a time budget.
    pub fn integrity(timeout: Span) -> (r: (QueryRun, QueryAction))
        requires
            timeout.canonical(),
        ensures
            r.0.wf(),
            r.0.kind() == QueryKind::Integrity,
            r.0.budget() == timeout,
            r.0.phase() == QueryPhase::Starting,
            r.1 matches QueryAction::StartTimer { budget } && budget == timeout,
    {
        QueryRun::start(QueryKind::Integrity, String::new(), timeout)
    }

    /// Starts the foreign key check under a time budget.
    pub fn foreign_keys(timeout: Span) -> (r: (QueryRun, QueryAction))
        requires
            timeout.canonical(),
        ensures
            r.0.wf(),
            r.0.kind() == QueryKind::ForeignKeys,
            r.0.budget() == timeout,
            r.0.phase() == QueryPhase::Starting,
            r.1 matches QueryAction::StartTimer { budget } && budget == timeout,
    {
        QueryRun::start(QueryKind::ForeignKeys, String::new(), timeout)
    }

    /// Starts an application assertion under a time budget.
    pub fn assertion(sql: String, timeout: Span) -> (r: (QueryRun, QueryAction))
        requires
            timeout.canonical(),
        ensures
            r.0.wf(),
            r.0.kind() == QueryKind::Assertion,
            r.0.sql() == sql@,
            r.0.budget() == timeout,
            r.0.phase() == QueryPhase::Starting,
            r.1 matches QueryAction::StartTimer { budget } && budget == timeout,
    {
        QueryRun::start(QueryKind::Assertion, sql, timeout)
    }

    /// Whether the timer could be installed. Without it the step fails at once.
    pub fn on_timer_started(&mut self, started: Result<(), String>) -> (p: Progress<
        QueryAction,
        String,
    >)
        requires
            old(self).wf(),
            old(self).phase() == QueryPhase::Starting,
        ensures
            final(self).wf(),
            final(self).kind() == old(self).kind(),
            final(self).sql() == old(self).sql(),
            final(self).budget() == old(self).budget(),
            match started {
                Err(e) => fails_with(p, e@),
                Ok(_) => match old(self).kind() {
                    QueryKind::Integrity => final(self).phase() == QueryPhase::Integrity && (
                    p matches Progress::Continue(QueryAction::RunIntegrity)),
                    QueryKind::ForeignKeys => final(self).phase() == QueryPhase::ForeignKeys && (
                    p matches Progress::Continue(QueryAction::RunForeignKeys)),
                    QueryKind::Assertion => final(self).phase() == QueryPhase::Preparing && (
                    p matches Progress::Continue(QueryAction::Prepare { sql }) && sql@ == old(
                        self,
                    ).sql()),
                },
            },
    {
        match started {
            Err(e) => Progress::Complete(Err(e)),
            Ok(_) => match self.kind {
                QueryKind::Integrity => {
                    self.phase = QueryPhase::Integrity;
                    Progress::Continue(QueryAction::RunIntegrity)
                },
                QueryKind::ForeignKeys => {
                    self.phase = QueryPhase::ForeignKeys;
                    Progress::Continue(QueryAction::RunForeignKeys)
                },
                QueryKind::Assertion => {
                    self.phase = QueryPhase::Preparing;
                    Progress::Continue(QueryAction::Prepare { sql: self.sql.clone() })
                },
            },
        }
    }

    fn stop(&mut self, work: Result<String, String>) -> (p: Progress<QueryAction, String>)
        requires
            old(self).wf(),
            (work is Ok && old(self).kind() == QueryKind::Assertion) ==> old(
                self,
            ).assertion_evidence() == (true, true, true),
        ensures
            final(self).wf(),
            final(self).kind() == old(self).kind(),
            final(self).sql() == old(self).sql(),
            final(self).budget() == old(self).budget(),
            final(self).phase() == QueryPhase::Stopping,
            final(self).verdict() == match work {
                Ok(d) => Ok::<Seq<char>, Seq<char>>(d@),
                Err(e) => Err::<Seq<char>, Seq<char>>(e@),
            },
            p matches Progress::Continue(QueryAction::StopTimer),
            final(self).assertion_evidence() == old(self).assertion_evidence(),
    {
        self.work = work;
        self.phase = QueryPhase::Stopping;
        Progress::Continue(QueryAction::StopTimer)
    }

    /// The messages of `PRAGMA integrity_check`, or why they could not be read.
    pub fn on_integrity(&mut self, messages: Result<Vec<String>, String>) -> (p: Progress<
        QueryAction,
        String,
    >)
        requires
            old(self).wf(),
            old(self).phase() == QueryPhase::Integrity,
        ensures
            final(self).wf(),
            final(self).kind() == old(self).kind(),
            final(self).budget() == old(self).budget(),
            final(self).phase() == QueryPhase::Stopping,
            p matches Progress::Continue(QueryAction::StopTimer),
            final(self).verdict() == match messages {
                Ok(m) => integrity_verdict(m@.map_values(|l: String| l@)),
                Err(e) => Err::<Seq<char>, Seq<char>>(e@),
            },
    {
        let work = match messages {
            Ok(m) => integrity_outcome(&m),
            Err(e) => Err(e),
        };
        self.stop(work)
    }

    /// The first row of `PRAGMA foreign_key_check`, or why it could not be read.
    pub fn on_foreign_keys(&mut self, first: Result<Option<Violation>, String>) -> (p: Progress<
        QueryAction,
        String,
    >)
        requires
            old(self).wf(),
            old(self).phase() == QueryPhase::ForeignKeys,
        ensures
            final(self).wf(),
            final(self).kind() == old(self).kind(),
            final(self).budget() == old(self).budget(),
            final(self).phase() == QueryPhase::Stopping,
            p matches Progress::Continue(QueryAction::StopTimer),
            final(self).verdict() == match first {
                Ok(None) => Ok::<Seq<char>, Seq<char>>(no_violation_detail()),
                Ok(Some(v)) => Err::<Seq<char>, Seq<char>>(
                    violation_message(v.table@, v.row, v.parent@),
                ),
                Err(e) => Err::<Seq<char>, Seq<char>>(e@),
            },
    {
        let work = match first {
            Ok(v) => foreign_key_verdict(&v),
            Err(e) => Err(e),
        };
        self.stop(work)
    }

    /// The prepared assertion, or why it could not be prepared. Only a
    /// read-only statement of exactly one column is executed.
    pub fn on_prepared(&mut self, shape: Result<StatementShape, String>) -> (p: Progress<
        QueryAction,
        String,
    >)
        requires
            old(self).wf(),
            old(self).phase() == QueryPhase::Preparing,
        ensures
            final(self).wf(),
            final(self).kind() == old(self).kind(),
            final(self).budget() == old(self).budget(),
            match shape {
                Err(e) => final(self).phase() == QueryPhase::Stopping && final(self).verdict()
                    == Err::<Seq<char>, Seq<char>>(
                    "cannot prepare assertion; use one read-only SELECT statement"@ + ": "@ + e@,
                ) && (p matches Progress::Continue(QueryAction::StopTimer)),
                Ok(s) => if !s.readonly {
                    final(self).phase() == QueryPhase::Stopping && final(self).verdict() == Err::<
                        Seq<char>,
                        Seq<char>,
                    >("assertion must be read-only"@) && (p matches Progress::Continue(
                        QueryAction::StopTimer,
                    ))
                } else if s.columns != 1 {
                    final(self).phase() == QueryPhase::Stopping && final(self).verdict() == Err::<
                        Seq<char>,
                        Seq<char>,
                    >("assertion must return exactly one column"@) && (
                    p matches Progress::Continue(QueryAction::StopTimer))
                } else {
                    final(self).phase() == QueryPhase::Executing && (p matches Progress::Continue(
                        QueryAction::Execute,
                    ))
                },
            },
    {
        match shape {
            Err(e) => self.stop(
                Err(
                    with_context(
                        "cannot prepare assertion; use one read-only SELECT statement",
                        e.as_str(),
                    ),
                ),
            ),
            Ok(s) => {
                if !s.readonly {
                    self.stop(Err(String::from_str("assertion must be read-only")))
                } else if s.columns != 1 {
                    self.stop(Err(String::from_str("assertion must return exactly one column")))
                } else {
                    self.fit = Ghost(true);
                    self.phase = QueryPhase::Executing;
                    Progress::Continue(QueryAction::Execute)
                }
            },
        }
    }

    /// Whether the assertion started executing.
    pub fn on_executed(&mut self, executed: Result<(), String>) -> (p: Progress<
        QueryAction,
        String,
    >)
        requires
            old(self).wf(),
            old(self).phase() == QueryPhase::Executing,
        ensures
            final(self).wf(),
            final(self).kind() == old(self).kind(),
            final(self).budget() == old(self).budget(),
            match executed {
                Err(e) => final(self).phase() == QueryPhase::Stopping && final(self).verdict()
                    == Err::<Seq<char>, Seq<char>>(e@) && (p matches Progress::Continue(
                    QueryAction::StopTimer,
                )),
                Ok(_) => final(self).phase() == QueryPhase::FirstRow && (
                p matches Progress::Continue(QueryAction::NextRow)),
            },
    {
        match executed {
            Err(e) => self.stop(Err(e)),
            Ok(_) => {
                self.phase = QueryPhase::FirstRow;
                Progress::Continue(QueryAction::NextRow)
            },
        }
    }

    /// The next row of the assertion. The first must hold integer 1, and
    /// there must be no second.
    pub fn on_row(&mut self, row: Result<Option<Cell>, String>) -> (p: Progress<
        QueryAction,
        String,
    >)
        requires
            old(self).wf(),
            old(self).phase() == QueryPhase::FirstRow || old(self).phase() == QueryPhase::SecondRow,
        ensures
            final(self).wf(),
            final(self).kind() == old(self).kind(),
            final(self).budget() == old(self).budget(),
            old(self).phase() == QueryPhase::FirstRow ==> match row {
                Ok(Some(Cell::Integer(1))) => final(self).phase() == QueryPhase::SecondRow && (
                p matches Progress::Continue(QueryAction::NextRow)),
                _ => final(self).phase() == QueryPhase::Stopping && (p matches Progress::Continue(
                    QueryAction::StopTimer,
                )) && final(self).verdict() == match row {
                    Err(e) => Err::<Seq<char>, Seq<char>>(e@),
                    Ok(None) => Err::<Seq<char>, Seq<char>>(
                        "assertion returned no rows; expected integer 1"@,
                    ),
                    Ok(Some(_)) => Err::<Seq<char>, Seq<char>>(
                        "assertion did not return integer 1"@,
                    ),
                },
            },
            old(self).phase() == QueryPhase::SecondRow ==> final(self).phase()
                == QueryPhase::Stopping && (p matches Progress::Continue(QueryAction::StopTimer))
                && final(self).verdict() == match row {
                Err(e) => Err::<Seq<char>, Seq<char>>(e@),
                Ok(None) => Ok::<Seq<char>, Seq<char>>(assertion_passed_detail()),
                Ok(Some(_)) => Err::<Seq<char>, Seq<char>>(
                    "assertion returned multiple rows; expected exactly one"@,
                ),
            },
    {
        if self.phase == QueryPhase::FirstRow {
            match row {
                Err(e) => self.stop(Err(e)),
                Ok(None) => self.stop(
                    Err(String::from_str("assertion returned no rows; expected integer 1")),
                ),
                Ok(Some(Cell::Integer(v))) => {
                    if v == 1 {
                        self.first_is_one = Ghost(true);
                        self.phase = QueryPhase::SecondRow;
                        Progress::Continue(QueryAction::NextRow)
                    } else {
                        self.stop(Err(String::from_str("assertion did not return integer 1")))
                    }
                },
                Ok(Some(Cell::Other)) => self.stop(
                    Err(String::from_str("assertion did not return integer 1")),
                ),
            }
        } else {
            match row {
                Err(e) => self.stop(Err(e)),
                Ok(None) => {
                    self.single_row = Ghost(true);
                    self.stop(Ok(String::from_str("Assertion returned integer 1.")))
                },
                Ok(Some(_)) => self.stop(
                    Err(String::from_str("assertion returned multiple rows; expected exactly one")),
                ),
            }
        }
    }

    /// Whether the timer could be removed, and how long the step took. The
    /// step fails if the timer could not be removed or the budget was used up,
    /// whatever the work found; otherwise the work's verdict stands.
    pub fn on_timer_stopped(&mut self, removed: Result<(), String>, elapsed: Span) -> (p: Progress<
        QueryAction,
        String,
    >)
        requires
            old(self).wf(),
            old(self).phase() == QueryPhase::Stopping,
        ensures
            match removed {
                Err(e) => fails_with(p, e@),
                Ok(_) => if elapsed.total() >= old(self).budget().total() {
                    fails_with(p, timeout_message(old(self).budget()))
                } else {
                    match old(self).verdict() {
                        Ok(d) => p matches Progress::Complete(Ok(x)) && x@ == d,
                        Err(e) => fails_with(p, e),
                    }
                },
            },
            (old(self).kind() == QueryKind::Assertion && p matches Progress::Complete(Ok(_))) ==> old(
                self,
            ).assertion_evidence() == (true, true, true),
    {
        match removed {
            Err(e) => Progress::Complete(Err(e)),
            Ok(_) => {
                if self.timeout.at_most(&elapsed) {
                    let limit = format_span(self.timeout);
                    Progress::Complete(Err(concat("query exceeded timeout of ", limit.as_str())))
                } else {
                    let mut work: Result<String, String> = Ok(String::new());
                    std::mem::swap(&mut work, &mut self.work);
                    Progress::Complete(work)
                }
            },
        }
    }
}

} // verus!
