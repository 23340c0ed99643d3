//! The sequence of a drill: which step runs next, which steps are skipped
//! after a failure, and the report that results. The caller performs each
//! step (with [`Restoration`](crate::restore::Restoration) and
//! [`QueryRun`](crate::query::QueryRun) for the restore and the database
//! checks), measures how long it took, and records its outcome here.

use vstd::prelude::*;
use vstd::string::*;

use crate::config::{
    config_issue, duration_outcome, max_age_outcome, Assertion, AssertionView, Config, ConfigError,
    ConfigView,
};
use crate::duration::{duration_text, format_span, millis_of, milliseconds, Moment, Span};
use crate::report::{check_views, CheckResult, CheckView, Report, Status, SCHEMA_VERSION};
use crate::restore::{restored_detail, restored_message, Snapshot};
use crate::text::{concat, concat3, with_context};

verus! {

/// Where a drill stands: the step it waits for.
#[derive(Clone, Copy, Debug, PartialEq, Eq, Structural)]
pub enum Stage {
    Workspace,
    Restore,
    Age,
    Open,
    Integrity,
    ForeignKeys,
    Authorize,
    Assertion { index: usize },
    Cleanup,
    Done,
}

/// The work of the next step.
#[derive(Debug)]
pub enum Step {
    /// Create the private directory that the backup is restored into, and
    /// read the clock for the report's start time.
    CreateWorkspace,
    /// Restore the backup at `source` (see [`Restoration`](crate::restore::Restoration)).
    Restore { source: String },
    /// Read how long ago the backup was last modified, at `modified`: the
    /// time from then until now, or the clock's error where `modified` lies
    /// ahead of the clock.
    CheckAge { modified: Moment, max_age: Span },
    /// Open the restored copy read-only, with `query_only` on and `trusted_schema` off.
    OpenDatabase,
    /// Run the integrity check (see [`QueryRun::integrity`](crate::query::QueryRun::integrity)).
    Integrity { timeout: Span },
    /// Run the foreign key check (see [`QueryRun::foreign_keys`](crate::query::QueryRun::foreign_keys)).
    ForeignKeys { timeout: Span },
    /// Install the authorizer that lets assertions only read (see
    /// [`authorize`](crate::runner::authorize)).
    InstallAuthorizer,
    /// Run an assertion (see [`QueryRun::assertion`](crate::query::QueryRun::assertion)).
    Assertion { sql: String, timeout: Span },
    /// Close the database and remove the private directory.
    Cleanup,
    /// Every step has run: measure the whole drill and call [`Drill::finish`].
    Finish,
}

/// What an assertion statement asks the database for, as the authorizer sees it.
#[derive(Debug)]
pub enum AuthRequest {
    Select,
    Read,
    Recursive,
    Function { name: String },
    Other,
}

/// The names of a drill's steps, in order: restore, backup age, open,
/// integrity, foreign keys, one per assertion, cleanup.
pub open spec fn step_names(assertions: Seq<Seq<char>>) -> Seq<Seq<char>> {
    seq!["Restore"@, "Backup age"@, "Open database"@, "SQLite integrity"@, "Foreign keys"@]
        + assertions.map_values(|n: Seq<char>| "SQL: "@ + n) + seq!["Cleanup"@]
}

/// How many steps have been recorded when a drill is at a stage.
pub open spec fn recorded(stage: Stage, assertions: nat) -> int {
    match stage {
        Stage::Workspace => 0,
        Stage::Restore => 0,
        Stage::Age => 1,
        Stage::Open => 2,
        Stage::Integrity => 3,
        Stage::ForeignKeys => 4,
        Stage::Authorize => 5,
        Stage::Assertion { index } => 5 + index,
        Stage::Cleanup => 5 + assertions as int,
        Stage::Done => 6 + assertions as int,
    }
}

/// The result of a step that ran, with its duration in whole milliseconds.
pub open spec fn ran(name: Seq<char>, outcome: Result<Seq<char>, Seq<char>>, took: Span) -> CheckView {
    match outcome {
        Ok(d) => CheckView {
            name,
            status: Status::Passed,
            duration_ms: millis_of(took) as u64,
            detail: d,
        },
        Err(e) => CheckView {
            name,
            status: Status::Failed,
            duration_ms: millis_of(took) as u64,
            detail: e,
        },
    }
}

/// Steps that did not run, each with the reason.
pub open spec fn skipped(names: Seq<Seq<char>>, reason: Seq<char>) -> Seq<CheckView> {
    names.map_values(
        |n: Seq<char>| CheckView { name: n, status: Status::Skipped, duration_ms: 0, detail: reason },
    )
}

/// The content of a result as passed or failed text.
pub open spec fn outcome_view(r: Result<String, String>) -> Result<Seq<char>, Seq<char>> {
    match r {
        Ok(d) => Ok(d@),
        Err(e) => Err(e@),
    }
}

/// The reason given for steps skipped after a failed restore.
pub open spec fn restore_failed_reason() -> Seq<char> {
    "Restore failed."@
}

/// The reason given for steps skipped when the copy cannot be opened.
pub open spec fn open_failed_reason() -> Seq<char> {
    "Restored database could not be opened."@
}

/// The reason given for steps skipped after a failed integrity check.
pub open spec fn integrity_failed_reason() -> Seq<char> {
    "SQLite integrity check failed."@
}

/// The reason given for the age step when no maximum age is configured.
pub open spec fn no_max_age_reason() -> Seq<char> {
    "No max_age configured; data freshness is not implied."@
}

/// The context given to the clock's error when the backup's modification
/// time lies ahead of the clock.
pub open spec fn future_context() -> Seq<char> {
    "backup modification time is in the future; check the file timestamp and system clock"@
}

/// The text of a span.
pub open spec fn span_text(s: Span) -> Seq<char> {
    duration_text(s.secs, s.nanos)
}

/// The verdict on the backup's age, given the time since its modification
/// or the clock's error where that time lies ahead: the age may not exceed
/// the maximum.
pub open spec fn age_verdict(elapsed: Result<Span, Seq<char>>, max_age: Span) -> Result<Seq<char>, Seq<char>> {
    match elapsed {
        Err(e) => Err(future_context() + ": "@ + e),
        Ok(age) => if age.total() <= max_age.total() {
            Ok("File age "@ + span_text(age) + " (limit "@ + span_text(max_age) + ")."@)
        } else {
            Err("backup file is "@ + span_text(age) + " old; limit is "@ + span_text(max_age))
        },
    }
}

/// The age step passes exactly when the clock gave an age and that age,
/// counted in nanoseconds, is at most the maximum; a clock error fails it.
pub proof fn law_age_within_limit_passes(elapsed: Result<Span, Seq<char>>, max_age: Span)
    ensures
        match elapsed {
            Ok(age) => age_verdict(elapsed, max_age) is Ok <==> age.secs * 1_000_000_000int
                + age.nanos <= max_age.secs * 1_000_000_000int + max_age.nanos,
            Err(_) => age_verdict(elapsed, max_age) is Err,
        },
{
}

/// The content of a clock reading.
pub open spec fn elapsed_view(elapsed: Result<Span, String>) -> Result<Span, Seq<char>> {
    match elapsed {
        Ok(s) => Ok(s),
        Err(e) => Err(e@),
    }
}

/// Whether the authorizer lets an assertion do this: select, read, recurse,
/// and call any function but `load_extension` (in any ASCII case).
pub open spec fn authorized(request: AuthRequest) -> bool {
    match request {
        AuthRequest::Select => true,
        AuthRequest::Read => true,
        AuthRequest::Recursive => true,
        AuthRequest::Function { name } => !crate::text::equal_ignoring_ascii_case(
            name@,
            "load_extension"@,
        ),
        AuthRequest::Other => false,
    }
}

/// The authorizer lets assertions select, read and recurse, refuses every
/// other kind of request, and lets them call a function exactly when its
/// name is not `load_extension` with ASCII letters in any case.
pub proof fn law_authorizer_refuses_all_but_reads(request: AuthRequest)
    ensures
        match request {
            AuthRequest::Select | AuthRequest::Read | AuthRequest::Recursive => authorized(request),
            AuthRequest::Other => !authorized(request),
            AuthRequest::Function { name } => authorized(request) <==> !(name@.len() == 14
                && forall|i: int|
                0 <= i < 14 ==> (if 'A' <= #[trigger] name@[i] && name@[i] <= 'Z' {
                    name@[i] as int + 32
                } else {
                    name@[i] as int
                }) == "load_extension"@[i] as int),
        },
{
    reveal_strlit("load_extension");
    match request {
        AuthRequest::Function { name } => {
            let target = "load_extension"@;
            assert(target.len() == 14);
            if crate::text::equal_ignoring_ascii_case(name@, target) {
                assert forall|i: int| 0 <= i < 14 implies (if 'A' <= #[trigger] name@[i]
                    && name@[i] <= 'Z' {
                    name@[i] as int + 32
                } else {
                    name@[i] as int
                }) == target[i] as int by {
                    assert(crate::text::ascii_lower(name@[i]) == crate::text::ascii_lower(target[i]));
                }
            } else if name@.len() == 14 && forall|i: int|
                0 <= i < 14 ==> (if 'A' <= #[trigger] name@[i] && name@[i] <= 'Z' {
                    name@[i] as int + 32
                } else {
                    name@[i] as int
                }) == target[i] as int {
                assert forall|i: int| 0 <= i < name@.len() implies crate::text::ascii_lower(
                    #[trigger] name@[i],
                ) == crate::text::ascii_lower(target[i]) by {
                    let c = name@[i];
                    if 'A' <= c && c <= 'Z' {
                        assert(crate::text::ascii_lower(c) as int == c as int + 32);
                    }
                    assert(crate::text::ascii_lower(c) as int == target[i] as int);
                }
                assert(crate::text::equal_ignoring_ascii_case(name@, target));
            }
        },
        _ => {},
    }
}

/// The authorizer of assertions: data reads only. This also refuses
/// `ATTACH` and pragmas, which a read-only statement alone would not exclude.
pub fn authorize(request: &AuthRequest) -> (allowed: bool)
    ensures
        allowed == authorized(*request),
{
    match request {
        AuthRequest::Select => true,
        AuthRequest::Read => true,
        AuthRequest::Recursive => true,
        AuthRequest::Function { name } => !crate::text::eq_ignore_ascii_case(
            name.as_str(),
            "load_extension",
        ),
        AuthRequest::Other => false,
    }
}

/// The verdict on the backup's age.
pub fn age_outcome(elapsed: Result<Span, String>, max_age: Span) -> (r: Result<String, String>)
    requires
        max_age.canonical(),
        elapsed matches Ok(s) ==> s.canonical(),
    ensures
        outcome_view(r) == age_verdict(elapsed_view(elapsed), max_age),
        match elapsed {
            Ok(age) => r is Ok <==> age.secs * 1_000_000_000int + age.nanos <= max_age.secs
                * 1_000_000_000int + max_age.nanos,
            Err(_) => r is Err,
        },
{
    match elapsed {
        Err(e) => Err(
            with_context(
                "backup modification time is in the future; check the file timestamp and system clock",
                e.as_str(),
            ),
        ),
        Ok(age) => {
            let age_text = format_span(age);
            let limit_text = format_span(max_age);
            if age.at_most(&max_age) {
                let mut m = concat3("File age ", age_text.as_str(), " (limit ");
                m.append(limit_text.as_str());
                m.append(").");
                Ok(m)
            } else {
                let mut m = concat3("backup file is ", age_text.as_str(), " old; limit is ");
                m.append(limit_text.as_str());
                Err(m)
            }
        },
    }
}

/// Every recorded step in `from..to` was skipped, for this reason.
pub open spec fn skips_between(log: Seq<CheckView>, from: int, to: int, reason: Seq<char>) -> bool {
    forall|i: int|
        from <= i < to && i < log.len() ==> (#[trigger] log[i]).status == Status::Skipped
            && log[i].detail == reason
}

/// Every recorded step in `from..to` ran.
pub open spec fn runs_between(log: Seq<CheckView>, from: int, to: int) -> bool {
    forall|i: int| from <= i < to && i < log.len() ==> (#[trigger] log[i]).status != Status::Skipped
}

/// What holds of the steps of every drill with `n` assertions, recorded so
/// far or complete:
/// the restore and the cleanup always run;
/// a failed restore skips every step up to the cleanup;
/// a copy that cannot be opened skips the database checks and assertions;
/// a failed integrity check skips the foreign key check and the assertions;
/// after a passed integrity check, every later step runs, so a failed
/// assertion does not keep the next from running.
pub open spec fn drill_laws(log: Seq<CheckView>, n: int) -> bool {
    &&& log.len() > 0 ==> log[0].status != Status::Skipped
    &&& log.len() > 5 + n ==> log[5 + n].status != Status::Skipped
    &&& log.len() > 0 && log[0].status == Status::Failed ==> skips_between(
        log,
        1,
        5 + n,
        restore_failed_reason(),
    )
    &&& log.len() > 2 && log[2].status == Status::Failed ==> skips_between(
        log,
        3,
        5 + n,
        open_failed_reason(),
    )
    &&& log.len() > 3 && log[3].status == Status::Failed ==> skips_between(
        log,
        4,
        5 + n,
        integrity_failed_reason(),
    )
    &&& log.len() > 3 && log[3].status == Status::Passed ==> runs_between(log, 4, 6 + n)
}

/// The status of a whole drill: failed when any step failed.
pub open spec fn overall_status(log: Seq<CheckView>) -> Status {
    if exists|i: int| 0 <= i < log.len() && (#[trigger] log[i]).status == Status::Failed {
        Status::Failed
    } else {
        Status::Passed
    }
}

/// A drill fails when any of its steps failed, whichever step it was, and
/// passes otherwise; it is never skipped as a whole.
pub proof fn law_drill_fails_iff_a_step_failed(log: Seq<CheckView>)
    ensures
        (overall_status(log) == Status::Failed) <==> (exists|i: int|
            0 <= i < log.len() && log[i].status == Status::Failed),
        (overall_status(log) == Status::Passed) <==> (forall|i: int|
            0 <= i < log.len() ==> log[i].status != Status::Failed),
        overall_status(log) != Status::Skipped,
{
}

/// Two reports agree on what identifies the drill.
pub open spec fn same_identity(a: &Report, b: &Report) -> bool {
    &&& a.schema_version == b.schema_version
    &&& a.tool_version@ == b.tool_version@
    &&& a.sqlite_version@ == b.sqlite_version@
    &&& a.name@ == b.name@
    &&& a.source@ == b.source@
    &&& a.started_at == b.started_at
}

/// Two reports agree on what the restore found.
pub open spec fn same_restore(a: &Report, b: &Report) -> bool {
    &&& a.restored_bytes == b.restored_bytes
    &&& a.backup_modified_at == b.backup_modified_at
}

/// A drill in progress.
pub struct Drill {
    stage: Stage,
    timeout: Span,
    max_age: Option<Span>,
    assertions: Vec<Assertion>,
    modified: Moment,
    report: Report,
    /// The configuration the drill was started with.
    origin: Ghost<ConfigView>,
}

fn copy_assertions(checks: &Vec<Assertion>) -> (copy: Vec<Assertion>)
    ensures
        copy@.map_values(|a: Assertion| a@) == checks@.map_values(|a: Assertion| a@),
{
    let mut copy: Vec<Assertion> = Vec::new();
    let mut i: usize = 0;
    while i < checks.len()
        invariant
            i <= checks.len(),
            copy@.map_values(|a: Assertion| a@) == checks@.map_values(|a: Assertion| a@).take(
                i as int,
            ),
        decreases checks.len() - i,
    {
        copy.push(checks[i].clone());
        assert(checks@.map_values(|a: Assertion| a@).take(i + 1) =~= checks@.map_values(
            |a: Assertion| a@,
        ).take(i as int).push(checks@[i as int]@));
        assert(copy@.map_values(|a: Assertion| a@) =~= checks@.map_values(|a: Assertion| a@).take(
            i as int,
        ).push(checks@[i as int]@));
        i = i + 1;
    }
    assert(checks@.map_values(|a: Assertion| a@).take(checks.len() as int) =~= checks@.map_values(
        |a: Assertion| a@,
    ));
    copy
}

impl Drill {
    /// The step the drill waits for.
    pub closed spec fn stage(&self) -> Stage {
        self.stage
    }

    /// The steps recorded so far.
    pub closed spec fn log(&self) -> Seq<CheckView> {
        check_views(self.report.checks@)
    }

    /// The names of the assertions.
    pub closed spec fn assertion_names(&self) -> Seq<Seq<char>> {
        self.assertions@.map_values(|a: Assertion| a@.name)
    }

    /// The statements of the assertions.
    pub closed spec fn assertion_sql(&self) -> Seq<Seq<char>> {
        self.assertions@.map_values(|a: Assertion| a@.sql)
    }

    /// The time budget of each query.
    pub closed spec fn timeout(&self) -> Span {
        self.timeout
    }

    /// The maximum backup age, if configured.
    pub closed spec fn max_age(&self) -> Option<Span> {
        self.max_age
    }

    /// The modification time of the restored backup.
    pub closed spec fn backup_modified(&self) -> Moment {
        self.modified
    }

    /// The configuration the drill was started with.
    pub closed spec fn configuration(&self) -> ConfigView {
        self.origin@
    }

    /// The report as far as it is filled in.
    pub closed spec fn draft(&self) -> &Report {
        &self.report
    }

    /// The drill's invariant: the recorded steps are the first steps of the
    /// drill by name, skipped steps took no time, and the time limits are
    /// durations.
    pub closed spec fn wf(&self) -> bool {
        &&& self.log().len() == recorded(self.stage, self.assertions@.len())
        &&& self.stage matches Stage::Assertion { index } ==> index < self.assertions@.len()
        &&& forall|i: int|
            0 <= i < self.log().len() ==> (#[trigger] self.log()[i]).name == step_names(
                self.assertion_names(),
            )[i]
        &&& forall|i: int|
            0 <= i < self.log().len() && (#[trigger] self.log()[i]).status == Status::Skipped
                ==> self.log()[i].duration_ms == 0
        &&& drill_laws(self.log(), self.assertions@.len() as int)
        &&& self.stage == Stage::Age ==> self.max_age is Some
        &&& (self.stage == Stage::Age || self.stage == Stage::Open || self.stage
            == Stage::Integrity || self.stage == Stage::ForeignKeys || self.stage
            == Stage::Authorize || self.stage is Assertion) ==> self.log()[0].status
            == Status::Passed
        &&& (self.stage == Stage::Integrity || self.stage == Stage::ForeignKeys || self.stage
            == Stage::Authorize || self.stage is Assertion) ==> self.log()[2].status
            == Status::Passed
        &&& (self.stage == Stage::ForeignKeys || self.stage == Stage::Authorize
            || self.stage is Assertion) ==> self.log()[3].status == Status::Passed
        &&& self.timeout.canonical()
        &&& self.max_age matches Some(a) ==> a.canonical()
        &&& self.report.schema_version == SCHEMA_VERSION
        &&& self.report.started_at.representable()
        &&& self.assertion_names() == self.origin@.checks.map_values(|a: AssertionView| a.name)
        &&& self.report.name@ == self.origin@.name
        &&& self.report.source@ == self.origin@.backup
    }

    /// Starts a drill of a configuration, which must be valid. The report
    /// records the tool and SQLite versions given.
    pub fn new(config: &Config, tool_version: String, sqlite_version: String) -> (r: Result<
        Drill,
        ConfigError,
    >)
        ensures
            match r {
                Err(e) => config_issue(config@) == Some(e@),
                Ok(d) => {
                    &&& config_issue(config@) is None
                    &&& d.wf()
                    &&& d.configuration() == config@
                    &&& d.stage() == Stage::Workspace
                    &&& d.log() == Seq::<CheckView>::empty()
                    &&& d.assertion_names() == config@.checks.map_values(
                        |a: crate::config::AssertionView| a.name,
                    )
                    &&& d.assertion_sql() == config@.checks.map_values(
                        |a: crate::config::AssertionView| a.sql,
                    )
                    &&& duration_outcome("timeout"@, config@.timeout) == Ok::<
                        Span,
                        crate::config::ConfigIssue,
                    >(d.timeout())
                    &&& max_age_outcome(config@.max_age) == Ok::<
                        Option<Span>,
                        crate::config::ConfigIssue,
                    >(d.max_age())
                    &&& d.draft().schema_version == SCHEMA_VERSION
                    &&& d.draft().name@ == config@.name
                    &&& d.draft().source@ == config@.backup
                    &&& d.draft().tool_version@ == tool_version@
                    &&& d.draft().sqlite_version@ == sqlite_version@
                    &&& d.draft().restored_bytes is None
                    &&& d.draft().backup_modified_at is None
                },
            },
    {
        match config.validate() {
            Err(e) => return Err(e),
            Ok(_) => {},
        }
        let timeout = match config.query_timeout() {
            Ok(t) => t,
            Err(e) => return Err(e),
        };
        let max_age = match config.max_backup_age() {
            Ok(a) => a,
            Err(e) => return Err(e),
        };
        let assertions = copy_assertions(&config.checks);
        let report = Report {
            schema_version: SCHEMA_VERSION,
            tool_version,
            sqlite_version,
            name: config.name.clone(),
            source: config.backup.clone(),
            started_at: Moment { secs: 0, nanos: 0 },
            duration_ms: 0,
            status: Status::Passed,
            restored_bytes: None,
            backup_modified_at: None,
            checks: Vec::new(),
        };
        let d = Drill {
            stage: Stage::Workspace,
            timeout,
            max_age,
            assertions,
            modified: Moment { secs: 0, nanos: 0 },
            report,
            origin: Ghost(config@),
        };
        assert(d.log() =~= Seq::<CheckView>::empty());
        assert(d.assertion_names() =~= config@.checks.map_values(
            |a: crate::config::AssertionView| a.name,
        ));
        assert(d.assertion_sql() =~= config@.checks.map_values(
            |a: crate::config::AssertionView| a.sql,
        ));
        Ok(d)
    }
}


/// The assertions' step names.
pub open spec fn sql_step_names(names: Seq<Seq<char>>) -> Seq<Seq<char>> {
    names.map_values(|n: Seq<char>| "SQL: "@ + n)
}

/// The same drill, with every field but the recorded steps unchanged.
spec fn rest_same(a: &Drill, b: &Drill) -> bool {
    &&& a.stage == b.stage
    &&& a.timeout == b.timeout
    &&& a.max_age == b.max_age
    &&& a.assertions == b.assertions
    &&& a.modified == b.modified
    &&& a.origin == b.origin
    &&& a.report.schema_version == b.report.schema_version
    &&& a.report.tool_version == b.report.tool_version
    &&& a.report.sqlite_version == b.report.sqlite_version
    &&& a.report.name == b.report.name
    &&& a.report.source == b.report.source
    &&& a.report.started_at == b.report.started_at
    &&& a.report.duration_ms == b.report.duration_ms
    &&& a.report.status == b.report.status
    &&& a.report.restored_bytes == b.report.restored_bytes
    &&& a.report.backup_modified_at == b.report.backup_modified_at
}

/// The plan of the drill stays as it was.
pub open spec fn same_plan(a: &Drill, b: &Drill) -> bool {
    &&& a.configuration() == b.configuration()
    &&& a.assertion_names() == b.assertion_names()
    &&& a.assertion_sql() == b.assertion_sql()
    &&& a.timeout() == b.timeout()
    &&& a.max_age() == b.max_age()
}

impl Drill {
    fn push_ran(&mut self, name: String, outcome: Result<String, String>, took: Span)
        ensures
            final(self).log() == old(self).log().push(ran(name@, outcome_view(outcome), took)),
            rest_same(final(self), old(self)),
    {
        let duration_ms = milliseconds(took);
        let entry = match outcome {
            Ok(d) => CheckResult { name, status: Status::Passed, duration_ms, detail: d },
            Err(e) => CheckResult { name, status: Status::Failed, duration_ms, detail: e },
        };
        self.report.checks.push(entry);
        assert(self.log() =~= old(self).log().push(ran(name@, outcome_view(outcome), took)));
    }

    fn push_skip(&mut self, name: String, reason: &str)
        ensures
            final(self).log() == old(self).log() + skipped(seq![name@], reason@),
            rest_same(final(self), old(self)),
    {
        let entry = CheckResult {
            name,
            status: Status::Skipped,
            duration_ms: 0,
            detail: String::from_str(reason),
        };
        self.report.checks.push(entry);
        assert(self.log() =~= old(self).log() + skipped(seq![name@], reason@));
    }

    fn skip_assertions(&mut self, reason: &str)
        ensures
            final(self).log() == old(self).log() + skipped(
                sql_step_names(old(self).assertion_names()),
                reason@,
            ),
            rest_same(final(self), old(self)),
    {
        let ghost names = sql_step_names(self.assertion_names());
        let mut i: usize = 0;
        while i < self.assertions.len()
            invariant
                names == sql_step_names(old(self).assertion_names()),
                names.len() == self.assertions@.len(),
                rest_same(self, old(self)),
                i <= self.assertions.len(),
                self.log() == old(self).log() + skipped(names.take(i as int), reason@),
            decreases self.assertions.len() - i,
        {
            let name = concat("SQL: ", self.assertions[i].name.as_str());
            assert(name@ == names[i as int]);
            self.push_skip(name, reason);
            assert(skipped(names.take(i + 1), reason@) =~= skipped(names.take(i as int), reason@)
                + skipped(seq![names[i as int]], reason@));
            i = i + 1;
        }
        assert(names.take(self.assertions.len() as int) =~= names);
    }

    /// The work of the step the drill waits for.
    pub fn next_step(&self) -> (s: Step)
        requires
            self.wf(),
        ensures
            match self.stage() {
                Stage::Workspace => s is CreateWorkspace,
                Stage::Restore => s matches Step::Restore { source } && source@
                    == self.draft().source@,
                Stage::Age => s matches Step::CheckAge { modified, max_age } && modified
                    == self.backup_modified() && self.max_age() == Some(max_age),
                Stage::Open => s is OpenDatabase,
                Stage::Integrity => s matches Step::Integrity { timeout } && timeout
                    == self.timeout(),
                Stage::ForeignKeys => s matches Step::ForeignKeys { timeout } && timeout
                    == self.timeout(),
                Stage::Authorize => s is InstallAuthorizer,
                Stage::Assertion { index } => s matches Step::Assertion { sql, timeout } && sql@
                    == self.assertion_sql()[index as int] && timeout == self.timeout(),
                Stage::Cleanup => s is Cleanup,
                Stage::Done => s is Finish,
            },
            s matches Step::CheckAge { max_age, .. } ==> max_age.canonical(),
            s matches Step::Integrity { timeout } ==> timeout.canonical(),
            s matches Step::ForeignKeys { timeout } ==> timeout.canonical(),
            s matches Step::Assertion { timeout, .. } ==> timeout.canonical(),
    {
        match self.stage {
            Stage::Workspace => Step::CreateWorkspace,
            Stage::Restore => Step::Restore { source: self.report.source.clone() },
            Stage::Age => match self.max_age {
                Some(max_age) => Step::CheckAge { modified: self.modified, max_age },
                None => Step::OpenDatabase,
            },
            Stage::Open => Step::OpenDatabase,
            Stage::Integrity => Step::Integrity { timeout: self.timeout },
            Stage::ForeignKeys => Step::ForeignKeys { timeout: self.timeout },
            Stage::Authorize => Step::InstallAuthorizer,
            Stage::Assertion { index } => Step::Assertion {
                sql: self.assertions[index].sql.clone(),
                timeout: self.timeout,
            },
            Stage::Cleanup => Step::Cleanup,
            Stage::Done => Step::Finish,
        }
    }

    /// Whether the private directory could be created; with it comes the
    /// time the drill started. Without it the drill cannot run.
    pub fn record_workspace(&mut self, started: Result<Moment, String>) -> (r: Result<(), String>)
        requires
            old(self).wf(),
            old(self).stage() == Stage::Workspace,
            started matches Ok(t) ==> t.representable(),
        ensures
            final(self).wf(),
            same_plan(final(self), old(self)),
            final(self).log() == old(self).log(),
            same_restore(final(self).draft(), old(self).draft()),
            match started {
                Ok(t) => r is Ok && final(self).stage() == Stage::Restore && final(self).draft().started_at == t && final(self).draft().name@ == old(self).draft().name@
                    && final(self).draft().source@ == old(self).draft().source@ && final(self).draft().tool_version@ == old(self).draft().tool_version@ && final(self).draft().sqlite_version@ == old(self).draft().sqlite_version@,
                Err(e) => (r matches Err(m) && m@ == "cannot create temporary restore directory"@
                    + ": "@ + e@) && final(self).stage() == old(self).stage() && same_identity(
                    final(self).draft(),
                    old(self).draft(),
                ),
            },
    {
        match started {
            Ok(t) => {
                self.report.started_at = t;
                self.stage = Stage::Restore;
                Ok(())
            },
            Err(e) => Err(with_context("cannot create temporary restore directory", e.as_str())),
        }
    }

    /// The outcome of the restore and how long it took. After a failed
    /// restore every step but the cleanup is skipped.
    pub fn record_restore(&mut self, outcome: Result<Snapshot, String>, took: Span)
        requires
            old(self).wf(),
            old(self).stage() == Stage::Restore,
        ensures
            final(self).wf(),
            same_plan(final(self), old(self)),
            same_identity(final(self).draft(), old(self).draft()),
            match outcome {
                Ok(s) => {
                    &&& final(self).log() == old(self).log().push(
                        ran("Restore"@, Ok(restored_detail(s.bytes)), took),
                    ) + if old(self).max_age() is None {
                        skipped(seq!["Backup age"@], no_max_age_reason())
                    } else {
                        Seq::<CheckView>::empty()
                    }
                    &&& final(self).stage() == if old(self).max_age() is Some {
                        Stage::Age
                    } else {
                        Stage::Open
                    }
                    &&& final(self).backup_modified() == s.modified
                    &&& final(self).draft().restored_bytes == Some(s.bytes)
                    &&& final(self).draft().backup_modified_at == Some(s.modified)
                },
                Err(e) => {
                    &&& final(self).log() == old(self).log().push(ran("Restore"@, Err(e@), took))
                        + skipped(
                        step_names(old(self).assertion_names()).subrange(
                            1,
                            5 + old(self).assertion_names().len() as int,
                        ),
                        restore_failed_reason(),
                    )
                    &&& final(self).stage() == Stage::Cleanup
                    &&& same_restore(final(self).draft(), old(self).draft())
                },
            },
    {
        let ghost n = self.assertions@.len();
        let ghost names = self.assertion_names();
        match outcome {
            Ok(snapshot) => {
                self.push_ran(
                    String::from_str("Restore"),
                    Ok(restored_message(snapshot.bytes)),
                    took,
                );
                self.report.restored_bytes = Some(snapshot.bytes);
                self.report.backup_modified_at = Some(snapshot.modified);
                self.modified = snapshot.modified;
                if self.max_age.is_some() {
                    self.stage = Stage::Age;
                    assert(self.log() =~= old(self).log().push(
                        ran("Restore"@, Ok(restored_detail(snapshot.bytes)), took),
                    ) + Seq::<CheckView>::empty());
                } else {
                    self.push_skip(
                        String::from_str("Backup age"),
                        "No max_age configured; data freshness is not implied.",
                    );
                    self.stage = Stage::Open;
                }
                assert(step_names(names)[0] == "Restore"@);
                assert(step_names(names)[1] == "Backup age"@);
            },
            Err(e) => {
                self.push_ran(String::from_str("Restore"), Err(e), took);
                let reason = "Restore failed.";
                self.push_skip(String::from_str("Backup age"), reason);
                self.push_skip(String::from_str("Open database"), reason);
                self.push_skip(String::from_str("SQLite integrity"), reason);
                self.push_skip(String::from_str("Foreign keys"), reason);
                self.skip_assertions(reason);
                self.stage = Stage::Cleanup;
                proof {
                    let tail = step_names(names).subrange(1, 5 + n as int);
                    assert(tail =~= seq![
                        "Backup age"@,
                        "Open database"@,
                        "SQLite integrity"@,
                        "Foreign keys"@,
                    ] + sql_step_names(names));
                    assert(skipped(tail, reason@) =~= skipped(seq!["Backup age"@], reason@)
                        + skipped(seq!["Open database"@], reason@) + skipped(
                        seq!["SQLite integrity"@],
                        reason@,
                    ) + skipped(seq!["Foreign keys"@], reason@) + skipped(
                        sql_step_names(names),
                        reason@,
                    ));
                    assert(self.log() =~= old(self).log().push(ran("Restore"@, Err(e@), took))
                        + skipped(tail, reason@));
                    assert forall|i: int| 0 <= i < self.log().len() implies (#[trigger] self.log()[
                        i
                    ]).name == step_names(self.assertion_names())[i] by {
                        if i >= 1 {
                            assert(self.log()[i].name == tail[i - 1]);
                        }
                    }
                }
            },
        }
    }

    /// The time since the backup's modification, or the clock's error where
    /// that time lies ahead of the clock, and how long the step took.
    pub fn record_age(&mut self, elapsed: Result<Span, String>, took: Span)
        requires
            old(self).wf(),
            old(self).stage() == Stage::Age,
            elapsed matches Ok(s) ==> s.canonical(),
        ensures
            final(self).wf(),
            same_plan(final(self), old(self)),
            same_identity(final(self).draft(), old(self).draft()),
            same_restore(final(self).draft(), old(self).draft()),
            final(self).log() == old(self).log().push(
                ran(
                    "Backup age"@,
                    age_verdict(elapsed_view(elapsed), old(self).max_age()->0),
                    took,
                ),
            ),
            final(self).stage() == Stage::Open,
    {
        let max_age = match self.max_age {
            Some(a) => a,
            None => Span { secs: 0, nanos: 0 },
        };
        let outcome = age_outcome(elapsed, max_age);
        self.push_ran(String::from_str("Backup age"), outcome, took);
        self.stage = Stage::Open;
    }

    /// Whether the restored copy could be opened, and how long it took.
    /// Without it the database checks and assertions are skipped.
    pub fn record_open(&mut self, opened: Result<(), String>, took: Span)
        requires
            old(self).wf(),
            old(self).stage() == Stage::Open,
        ensures
            final(self).wf(),
            same_plan(final(self), old(self)),
            same_identity(final(self).draft(), old(self).draft()),
            same_restore(final(self).draft(), old(self).draft()),
            match opened {
                Ok(_) => final(self).log() == old(self).log().push(
                    ran("Open database"@, Ok("Opened the restored copy read-only."@), took),
                ) && final(self).stage() == Stage::Integrity,
                Err(e) => final(self).log() == old(self).log().push(
                    ran("Open database"@, Err(e@), took),
                ) + skipped(
                    step_names(old(self).assertion_names()).subrange(
                        3,
                        5 + old(self).assertion_names().len() as int,
                    ),
                    open_failed_reason(),
                ) && final(self).stage() == Stage::Cleanup,
            },
    {
        let ghost n = self.assertions@.len();
        let ghost names = self.assertion_names();
        match opened {
            Ok(_) => {
                self.push_ran(
                    String::from_str("Open database"),
                    Ok(String::from_str("Opened the restored copy read-only.")),
                    took,
                );
                self.stage = Stage::Integrity;
                assert(step_names(names)[2] == "Open database"@);
            },
            Err(e) => {
                self.push_ran(String::from_str("Open database"), Err(e), took);
                let reason = "Restored database could not be opened.";
                self.push_skip(String::from_str("SQLite integrity"), reason);
                self.push_skip(String::from_str("Foreign keys"), reason);
                self.skip_assertions(reason);
                self.stage = Stage::Cleanup;
                proof {
                    let tail = step_names(names).subrange(3, 5 + n as int);
                    assert(tail =~= seq!["SQLite integrity"@, "Foreign keys"@] + sql_step_names(
                        names,
                    ));
                    assert(skipped(tail, reason@) =~= skipped(seq!["SQLite integrity"@], reason@)
                        + skipped(seq!["Foreign keys"@], reason@) + skipped(
                        sql_step_names(names),
                        reason@,
                    ));
                    assert(self.log() =~= old(self).log().push(
                        ran("Open database"@, Err(e@), took),
                    ) + skipped(tail, reason@));
                    assert forall|i: int| 0 <= i < self.log().len() implies (#[trigger] self.log()[
                        i
                    ]).name == step_names(self.assertion_names())[i] by {
                        if i >= 3 {
                            assert(self.log()[i].name == tail[i - 3]);
                        }
                    }
                }
            },
        }
    }

    /// The verdict of the integrity check and how long it took. After a
    /// failed check the foreign key check and the assertions are skipped.
    pub fn record_integrity(&mut self, outcome: Result<String, String>, took: Span)
        requires
            old(self).wf(),
            old(self).stage() == Stage::Integrity,
        ensures
            final(self).wf(),
            same_plan(final(self), old(self)),
            same_identity(final(self).draft(), old(self).draft()),
            same_restore(final(self).draft(), old(self).draft()),
            match outcome {
                Ok(d) => final(self).log() == old(self).log().push(
                    ran("SQLite integrity"@, Ok(d@), took),
                ) && final(self).stage() == Stage::ForeignKeys,
                Err(e) => final(self).log() == old(self).log().push(
                    ran("SQLite integrity"@, Err(e@), took),
                ) + skipped(
                    step_names(old(self).assertion_names()).subrange(
                        4,
                        5 + old(self).assertion_names().len() as int,
                    ),
                    integrity_failed_reason(),
                ) && final(self).stage() == Stage::Cleanup,
            },
    {
        let ghost n = self.assertions@.len();
        let ghost names = self.assertion_names();
        match outcome {
            Ok(d) => {
                self.push_ran(String::from_str("SQLite integrity"), Ok(d), took);
                self.stage = Stage::ForeignKeys;
                assert(step_names(names)[3] == "SQLite integrity"@);
            },
            Err(e) => {
                self.push_ran(String::from_str("SQLite integrity"), Err(e), took);
                let reason = "SQLite integrity check failed.";
                self.push_skip(String::from_str("Foreign keys"), reason);
                self.skip_assertions(reason);
                self.stage = Stage::Cleanup;
                proof {
                    let tail = step_names(names).subrange(4, 5 + n as int);
                    assert(tail =~= seq!["Foreign keys"@] + sql_step_names(names));
                    assert(skipped(tail, reason@) =~= skipped(seq!["Foreign keys"@], reason@)
                        + skipped(sql_step_names(names), reason@));
                    assert(self.log() =~= old(self).log().push(
                        ran("SQLite integrity"@, Err(e@), took),
                    ) + skipped(tail, reason@));
                    assert forall|i: int| 0 <= i < self.log().len() implies (#[trigger] self.log()[
                        i
                    ]).name == step_names(self.assertion_names())[i] by {
                        if i >= 4 {
                            assert(self.log()[i].name == tail[i - 4]);
                        }
                    }
                }
            },
        }
    }

    /// The verdict of the foreign key check and how long it took.
    pub fn record_foreign_keys(&mut self, outcome: Result<String, String>, took: Span)
        requires
            old(self).wf(),
            old(self).stage() == Stage::ForeignKeys,
        ensures
            final(self).wf(),
            same_plan(final(self), old(self)),
            same_identity(final(self).draft(), old(self).draft()),
            same_restore(final(self).draft(), old(self).draft()),
            final(self).log() == old(self).log().push(
                ran("Foreign keys"@, outcome_view(outcome), took),
            ),
            final(self).stage() == Stage::Authorize,
    {
        let ghost names = self.assertion_names();
        self.push_ran(String::from_str("Foreign keys"), outcome, took);
        self.stage = Stage::Authorize;
        assert(step_names(names)[4] == "Foreign keys"@);
    }

    /// Whether the read-only authorizer could be installed. Without it the
    /// assertions cannot run safely, and the drill stops with the error.
    pub fn record_authorizer(&mut self, installed: Result<(), String>) -> (r: Result<(), String>)
        requires
            old(self).wf(),
            old(self).stage() == Stage::Authorize,
        ensures
            final(self).wf(),
            same_plan(final(self), old(self)),
            same_identity(final(self).draft(), old(self).draft()),
            same_restore(final(self).draft(), old(self).draft()),
            final(self).log() == old(self).log(),
            match installed {
                Ok(_) => r is Ok && final(self).stage() == if old(self).assertion_names().len()
                    > 0 {
                    Stage::Assertion { index: 0 }
                } else {
                    Stage::Cleanup
                },
                Err(e) => (r matches Err(m) && m@ == e@) && final(self).stage() == old(
                    self).stage(),
            },
    {
        match installed {
            Ok(_) => {
                if self.assertions.len() > 0 {
                    self.stage = Stage::Assertion { index: 0 };
                } else {
                    self.stage = Stage::Cleanup;
                }
                Ok(())
            },
            Err(e) => Err(e),
        }
    }

    /// The verdict of the current assertion and how long it took. The next
    /// assertion runs whatever this one found.
    pub fn record_assertion(&mut self, outcome: Result<String, String>, took: Span)
        requires
            old(self).wf(),
            old(self).stage() is Assertion,
        ensures
            final(self).wf(),
            same_plan(final(self), old(self)),
            same_identity(final(self).draft(), old(self).draft()),
            same_restore(final(self).draft(), old(self).draft()),
            ({
                let index = old(self).stage()->index as int;
                &&& final(self).log() == old(self).log().push(
                    ran(
                        "SQL: "@ + old(self).assertion_names()[index],
                        outcome_view(outcome),
                        took,
                    ),
                )
                &&& final(self).stage() == if index + 1 < old(self).assertion_names().len() {
                    Stage::Assertion { index: (index + 1) as usize }
                } else {
                    Stage::Cleanup
                }
            }),
    {
        let ghost names = self.assertion_names();
        let index = match self.stage {
            Stage::Assertion { index } => index,
            _ => 0,
        };
        assert(index < self.assertions.len());
        let more = index + 1 < self.assertions.len();
        let name = concat("SQL: ", self.assertions[index].name.as_str());
        assert(step_names(names)[5 + index] == name@);
        self.push_ran(name, outcome, took);
        if more {
            self.stage = Stage::Assertion { index: index + 1 };
        } else {
            self.stage = Stage::Cleanup;
        }
    }

    /// Whether the private directory could be removed, and how long it took.
    pub fn record_cleanup(&mut self, removed: Result<(), String>, took: Span)
        requires
            old(self).wf(),
            old(self).stage() == Stage::Cleanup,
        ensures
            final(self).wf(),
            same_plan(final(self), old(self)),
            same_identity(final(self).draft(), old(self).draft()),
            same_restore(final(self).draft(), old(self).draft()),
            final(self).log() == old(self).log().push(
                ran(
                    "Cleanup"@,
                    match removed {
                        Ok(_) => Ok("Removed the temporary restored database."@),
                        Err(e) => Err(
                            "cannot remove temporary restore directory"@ + ": "@ + e@,
                        ),
                    },
                    took,
                ),
            ),
            final(self).stage() == Stage::Done,
    {
        let ghost names = self.assertion_names();
        let outcome = match removed {
            Ok(_) => Ok(String::from_str("Removed the temporary restored database.")),
            Err(e) => Err(with_context("cannot remove temporary restore directory", e.as_str())),
        };
        self.push_ran(String::from_str("Cleanup"), outcome, took);
        self.stage = Stage::Done;
        assert(step_names(names)[5 + names.len() as int] == "Cleanup"@);
    }

    /// The finished report, given how long the whole drill took. It lists
    /// every step of the drill once, in order, and has failed exactly when
    /// some step failed. Its steps, name and source are those of the
    /// configuration the drill was started with, whatever the steps met.
    pub fn finish(self, elapsed: Span) -> (r: Report)
        requires
            self.wf(),
            self.stage() == Stage::Done,
        ensures
            check_views(r.checks@) == self.log(),
            check_views(r.checks@).len() == step_names(self.assertion_names()).len(),
            forall|i: int|
                0 <= i < r.checks@.len() ==> (#[trigger] check_views(r.checks@)[i]).name
                    == step_names(self.assertion_names())[i],
            forall|i: int|
                0 <= i < r.checks@.len() && (#[trigger] check_views(r.checks@)[i]).status
                    == Status::Skipped ==> check_views(r.checks@)[i].duration_ms == 0,
            drill_laws(check_views(r.checks@), self.assertion_names().len() as int),
            r.status == overall_status(check_views(r.checks@)),
            (r.status == Status::Failed) <==> (exists|i: int|
                0 <= i < r.checks@.len() && #[trigger] r.checks@[i].status == Status::Failed),
            (r.status == Status::Passed) <==> (forall|i: int|
                0 <= i < r.checks@.len() ==> #[trigger] r.checks@[i].status != Status::Failed),
            r.duration_ms == millis_of(elapsed),
            r.schema_version == SCHEMA_VERSION,
            r.started_at.representable(),
            check_views(r.checks@).map_values(|c: CheckView| c.name) == step_names(
                self.configuration().checks.map_values(|a: AssertionView| a.name),
            ),
            r.checks@.len() == 6 + self.configuration().checks.len(),
            r.name@ == self.configuration().name,
            r.source@ == self.configuration().backup,
            same_identity(&r, self.draft()),
            same_restore(&r, self.draft()),
    {
        let ghost log = self.log();
        let mut report = self.report;
        let mut failed = false;
        let mut i: usize = 0;
        while i < report.checks.len()
            invariant
                check_views(report.checks@) == log,
                i <= report.checks.len(),
                failed == exists|k: int| 0 <= k < i && (#[trigger] log[k]).status
                    == Status::Failed,
            decreases report.checks.len() - i,
        {
            assert(log[i as int] == report.checks@[i as int]@);
            if report.checks[i].status == Status::Failed {
                failed = true;
            }
            i = i + 1;
        }
        report.status = if failed {
            Status::Failed
        } else {
            Status::Passed
        };
        report.duration_ms = milliseconds(elapsed);
        proof {
            law_drill_fails_iff_a_step_failed(log);
            assert forall|k: int| 0 <= k < report.checks@.len() implies #[trigger] report.checks@[k].status
                == log[k].status by {
                assert(log[k] == report.checks@[k]@);
            }
        }
        report
    }
}
} // verus!
