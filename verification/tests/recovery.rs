//! Drill scenarios. The file and database work is played by a scripted
//! world, so each scenario states exactly what the backup and the database
//! report, and checks the report the drill produces.

use rehearsal::config::{Assertion, Config};
use rehearsal::duration::{Moment, Span};
use rehearsal::query::{Cell, QueryAction, QueryRun, StatementShape, Violation};
use rehearsal::report::{Report, Status};
use rehearsal::restore::{FileStat, Probe, Progress, RestoreAction, Restoration, Snapshot};
use rehearsal::duration::milliseconds;
use rehearsal::runner::{authorize, AuthRequest, Drill, Step};

const MAGIC: &[u8; 16] = b"SQLite format 3\0";

/// The moment a number of nanoseconds after the Unix epoch.
fn at(nanos: i64) -> Moment {
    Moment { secs: nanos.div_euclid(1_000_000_000), nanos: nanos.rem_euclid(1_000_000_000) as u32 }
}

/// The time from `then` to `now`, or the clock's error where `then` is later,
/// as `SystemTime::duration_since` gives them.
fn since(now: Moment, then: Moment) -> Result<Span, String> {
    let n = (now.secs as i128 - then.secs as i128) * 1_000_000_000 + now.nanos as i128
        - then.nanos as i128;
    if n < 0 {
        Err("second time provided was later than self".to_string())
    } else {
        Ok(Span { secs: (n / 1_000_000_000) as u64, nanos: (n % 1_000_000_000) as u32 })
    }
}

/// What the file system shows of the backup.
struct Backup {
    canonical: Result<String, String>,
    is_file: Result<bool, String>,
    /// Sidecars present, by suffix, before the copy.
    sidecars: Vec<&'static str>,
    /// Sidecars present after the copy.
    sidecars_after: Vec<&'static str>,
    open: Result<(), String>,
    header: Result<Vec<u8>, String>,
    len: u64,
    modified: i64,
    copied: u64,
    len_after: u64,
    modified_after: i64,
}

fn good_backup(len: u64, modified: i64) -> Backup {
    Backup {
        canonical: Ok("/data/backup.sqlite".to_string()),
        is_file: Ok(true),
        sidecars: vec![],
        sidecars_after: vec![],
        open: Ok(()),
        header: Ok(MAGIC.to_vec()),
        len,
        modified,
        copied: len,
        len_after: len,
        modified_after: modified,
    }
}

/// What one timed query meets.
struct Query {
    start: Result<(), String>,
    integrity: Result<Vec<String>, String>,
    violation: Result<Option<(String, Option<i64>, String)>, String>,
    prepared: Result<(bool, usize), String>,
    executed: Result<(), String>,
    rows: Vec<Result<Option<Cell>, String>>,
    removed: Result<(), String>,
    elapsed: Span,
}

fn quick() -> Span {
    Span { secs: 0, nanos: 1_000_000 }
}

fn query_ok() -> Query {
    Query {
        start: Ok(()),
        integrity: Ok(vec!["ok".to_string()]),
        violation: Ok(None),
        prepared: Ok((true, 1)),
        executed: Ok(()),
        rows: vec![Ok(Some(Cell::Integer(1))), Ok(None)],
        removed: Ok(()),
        elapsed: quick(),
    }
}

fn assertion_query(rows: Vec<Result<Option<Cell>, String>>) -> Query {
    Query { rows, ..query_ok() }
}

/// The whole world a drill meets.
struct World {
    workspace: Result<i64, String>,
    backup: Backup,
    now: i64,
    open: Result<(), String>,
    integrity: Query,
    foreign_keys: Query,
    authorizer: Result<(), String>,
    /// One per assertion, in order.
    assertions: Vec<Query>,
    cleanup: Result<(), String>,
}

fn world(backup: Backup, assertions: Vec<Query>) -> World {
    World {
        workspace: Ok(1_700_000_000_000_000_000),
        backup,
        now: 1_700_000_000_000_000_000,
        open: Ok(()),
        integrity: query_ok(),
        foreign_keys: query_ok(),
        authorizer: Ok(()),
        assertions,
        cleanup: Ok(()),
    }
}

fn restore(source: String, b: &Backup) -> Result<Snapshot, String> {
    let (mut r, mut action) = Restoration::new(source);
    let mut after_copy = false;
    loop {
        let p = match action {
            RestoreAction::Canonicalize { .. } => r.on_canonical(b.canonical.clone()),
            RestoreAction::Inspect { .. } => r.on_kind(b.is_file.clone()),
            RestoreAction::Probe { path } => {
                let canonical = b.canonical.clone().unwrap();
                let suffix = &path[canonical.len()..];
                let present = if after_copy {
                    b.sidecars_after.contains(&suffix)
                } else {
                    b.sidecars.contains(&suffix)
                };
                r.on_probe(if present { Probe::Present } else { Probe::Missing })
            },
            RestoreAction::Open { .. } => r.on_opened(b.open.clone()),
            RestoreAction::Stat => r.on_stat(Ok(FileStat { len: b.len, modified: Ok(at(b.modified)) })),
            RestoreAction::ReadHeader => r.on_header(b.header.clone()),
            RestoreAction::Rewind | RestoreAction::CreateTarget | RestoreAction::Sync => {
                r.on_done(Ok(()))
            },
            RestoreAction::Copy => {
                after_copy = true;
                r.on_copied(Ok(b.copied))
            },
            RestoreAction::Restat => r.on_stat(
                Ok(FileStat { len: b.len_after, modified: Ok(at(b.modified_after)) }),
            ),
        };
        match p {
            Progress::Continue(a) => action = a,
            Progress::Complete(outcome) => return outcome,
        }
    }
}

fn run_query(mut run: QueryRun, first: QueryAction, q: &Query) -> Result<String, String> {
    let mut action = first;
    let mut rows = q.rows.iter();
    loop {
        let p = match action {
            QueryAction::StartTimer { .. } => run.on_timer_started(q.start.clone()),
            QueryAction::RunIntegrity => run.on_integrity(q.integrity.clone()),
            QueryAction::RunForeignKeys => run.on_foreign_keys(
                q.violation.clone().map(
                    |v| v.map(|(table, row, parent)| Violation { table, row, parent }),
                ),
            ),
            QueryAction::Prepare { .. } => run.on_prepared(
                q.prepared.clone().map(|(readonly, columns)| StatementShape { readonly, columns }),
            ),
            QueryAction::Execute => run.on_executed(q.executed.clone()),
            QueryAction::NextRow => run.on_row(rows.next().cloned().unwrap_or(Ok(None))),
            QueryAction::StopTimer => run.on_timer_stopped(q.removed.clone(), q.elapsed),
        };
        match p {
            Progress::Continue(a) => action = a,
            Progress::Complete(outcome) => return outcome,
        }
    }
}

/// Runs a whole drill against a scripted world; every step takes 2 ms and
/// the drill 50 ms.
fn drill(config: &Config, w: &World) -> Result<Report, String> {
    let mut d = Drill::new(config, "0.1.0".to_string(), "3.50.0".to_string())
        .map_err(|e| e.message())?;
    let took = Span { secs: 0, nanos: 2_000_000 };
    let mut assertion = 0;
    loop {
        match d.next_step() {
            Step::CreateWorkspace => d.record_workspace(w.workspace.clone().map(at))?,
            Step::Restore { source } => {
                let outcome = restore(source, &w.backup);
                d.record_restore(outcome, took);
            },
            Step::CheckAge { modified, .. } => d.record_age(since(at(w.now), modified), took),
            Step::OpenDatabase => d.record_open(w.open.clone(), took),
            Step::Integrity { timeout } => {
                let (run, first) = QueryRun::integrity(timeout);
                d.record_integrity(run_query(run, first, &w.integrity), took);
            },
            Step::ForeignKeys { timeout } => {
                let (run, first) = QueryRun::foreign_keys(timeout);
                d.record_foreign_keys(run_query(run, first, &w.foreign_keys), took);
            },
            Step::InstallAuthorizer => d.record_authorizer(w.authorizer.clone())?,
            Step::Assertion { sql, timeout } => {
                let (run, first) = QueryRun::assertion(sql, timeout);
                let outcome = run_query(run, first, &w.assertions[assertion]);
                assertion += 1;
                d.record_assertion(outcome, took);
            },
            Step::Cleanup => d.record_cleanup(w.cleanup.clone(), took),
            Step::Finish => return Ok(d.finish(Span { secs: 0, nanos: 50_000_000 })),
        }
    }
}

fn fixture() -> Config {
    let mut config = Config::for_backup("/data/backup.sqlite".to_string());
    config.report_dir = "/data/reports".to_string();
    config
}

fn sql(name: &str, query: &str) -> Assertion {
    Assertion { name: name.to_string(), sql: query.to_string() }
}

fn check<'a>(report: &'a Report, name: &str) -> &'a rehearsal::report::CheckResult {
    report.checks.iter().find(|c| c.name == name).unwrap()
}

fn names(report: &Report) -> Vec<String> {
    report.checks.iter().map(|c| c.name.clone()).collect()
}

#[test]
fn restores_a_read_only_snapshot_without_changing_the_source() {
    let mut config = fixture();
    config.max_age = Some("1h".into());
    config.checks.push(sql("Users survived", "SELECT COUNT(*) = 1 FROM users"));
    let now = 1_700_000_000_000_000_000;
    let backup = good_backup(8192, now - 60_000_000_000);
    let mut w = world(backup, vec![query_ok()]);
    w.now = now;
    let result = drill(&config, &w).unwrap();
    assert_eq!(result.status, Status::Passed, "{}", result.render());
    assert_eq!(result.restored_bytes, Some(8192));
    assert_eq!(result.backup_modified_at, Some(at(now - 60_000_000_000)));
    assert_eq!(result.schema_version, 1);
    assert_eq!(result.started_at, at(1_700_000_000_000_000_000));
    assert_eq!(
        names(&result),
        vec![
            "Restore",
            "Backup age",
            "Open database",
            "SQLite integrity",
            "Foreign keys",
            "SQL: Users survived",
            "Cleanup",
        ]
    );
    assert_eq!(check(&result, "Restore").detail, "Restored 8192 bytes into a temporary directory.");
    assert_eq!(check(&result, "Backup age").detail, "File age 1m (limit 1h).");
    assert_eq!(result.duration_ms, 50);
    assert!(result.checks.iter().all(|c| c.duration_ms == 2));
}

#[test]
fn reports_missing_empty_non_sqlite_and_truncated_backups_as_failures() {
    let now = 1_700_000_000_000_000_000;
    let cases: Vec<(Backup, &str)> = vec![
        (
            Backup { header: Err("failed to fill whole buffer".into()), ..good_backup(0, now) },
            "backup is empty or truncated; expected a SQLite database: failed to fill whole buffer",
        ),
        (
            Backup { header: Ok(b"not a sqlite dat".to_vec()), ..good_backup(21, now) },
            "backup does not have a SQLite 3 header; expected an uncompressed SQLite snapshot",
        ),
        (
            Backup {
                canonical: Err("No such file or directory (os error 2)".into()),
                ..good_backup(0, now)
            },
            "cannot find backup /data/backup.sqlite: No such file or directory (os error 2)",
        ),
    ];
    for (backup, detail) in cases {
        let report = drill(&fixture(), &world(backup, vec![])).unwrap();
        assert_eq!(report.status, Status::Failed, "{}", report.render());
        assert_eq!(report.checks[0].status, Status::Failed);
        assert_eq!(report.checks[0].detail, detail);
        for skipped in &report.checks[1..report.checks.len() - 1] {
            assert_eq!(skipped.status, Status::Skipped);
            assert_eq!(skipped.detail, "Restore failed.");
            assert_eq!(skipped.duration_ms, 0);
        }
        assert_eq!(report.checks.last().unwrap().name, "Cleanup");
        assert_eq!(report.checks.last().unwrap().status, Status::Passed);
        assert_eq!(report.restored_bytes, None);
    }
    // A header that is a truncated SQLite file passes the restore; the
    // integrity check is what fails.
    let mut w = world(good_backup(28, now), vec![]);
    w.integrity.integrity = Err("database disk image is malformed".into());
    let report = drill(&fixture(), &w).unwrap();
    assert_eq!(report.status, Status::Failed);
    assert_eq!(check(&report, "SQLite integrity").status, Status::Failed);
}

#[test]
fn detects_foreign_key_violations_that_integrity_check_does_not() {
    let mut w = world(good_backup(4096, 0), vec![]);
    w.foreign_keys.violation = Ok(Some(("notes".into(), Some(2), "users".into())));
    let result = drill(&fixture(), &w).unwrap();
    assert_eq!(result.status, Status::Failed);
    assert_eq!(check(&result, "SQLite integrity").status, Status::Passed);
    assert_eq!(check(&result, "Foreign keys").status, Status::Failed);
    assert_eq!(
        check(&result, "Foreign keys").detail,
        "foreign key violation: table \"notes\", row Some(2), parent \"users\" (first violation)"
    );
}

#[test]
fn refuses_live_wal_databases_instead_of_omitting_recent_transactions() {
    let backup = Backup { sidecars: vec!["-wal", "-shm"], ..good_backup(4096, 0) };
    let result = drill(&fixture(), &world(backup, vec![])).unwrap();
    assert_eq!(result.status, Status::Failed);
    assert!(result.checks[0].detail.contains("standalone backup"));
    assert_eq!(
        result.checks[0].detail,
        "found /data/backup.sqlite-wal; use a completed standalone backup made with SQLite's backup API, .backup, or VACUUM INTO"
    );
}

#[test]
fn refuses_all_sidecars_even_when_empty() {
    for suffix in ["-wal", "-shm", "-journal"] {
        let backup = Backup { sidecars: vec![suffix], ..good_backup(4096, 0) };
        assert_eq!(drill(&fixture(), &world(backup, vec![])).unwrap().status, Status::Failed);
        let backup = Backup { sidecars_after: vec![suffix], ..good_backup(4096, 0) };
        let report = drill(&fixture(), &world(backup, vec![])).unwrap();
        assert_eq!(report.status, Status::Failed);
        assert_eq!(
            report.checks[0].detail,
            format!(
                "found /data/backup.sqlite{suffix}; use a completed standalone backup made with SQLite's backup API, .backup, or VACUUM INTO"
            )
        );
    }
}

#[test]
fn rejects_failed_ambiguous_and_writable_assertions() {
    let mut config = fixture();
    let prepare_error = |m: &str| Query { prepared: Err(m.to_string()), ..query_ok() };
    let invalid: Vec<(&str, Query)> = vec![
        ("SELECT 0", assertion_query(vec![Ok(Some(Cell::Integer(0)))])),
        ("SELECT NULL", assertion_query(vec![Ok(Some(Cell::Other))])),
        ("SELECT '1'", assertion_query(vec![Ok(Some(Cell::Other))])),
        ("SELECT 2", assertion_query(vec![Ok(Some(Cell::Integer(2)))])),
        ("SELECT 1.0", assertion_query(vec![Ok(Some(Cell::Other))])),
        ("SELECT 1 WHERE 0", assertion_query(vec![Ok(None)])),
        ("SELECT 1, 1", Query { prepared: Ok((true, 2)), ..query_ok() }),
        (
            "SELECT 1 UNION ALL SELECT 1",
            assertion_query(vec![Ok(Some(Cell::Integer(1))), Ok(Some(Cell::Integer(1)))]),
        ),
        ("SELECT 1; SELECT 0", prepare_error("Multiple statements provided")),
        ("DELETE FROM users RETURNING 1", Query { prepared: Ok((false, 1)), ..query_ok() }),
        ("PRAGMA user_version = 1", prepare_error("not authorized")),
        ("ATTACH ':memory:' AS another", prepare_error("not authorized")),
        ("SELECT * FROM missing_table", prepare_error("no such table: missing_table")),
    ];
    let mut queries = Vec::new();
    for (index, (query, q)) in invalid.into_iter().enumerate() {
        config.checks.push(sql(&format!("invalid-{index}"), query));
        queries.push(q);
    }
    config.checks.push(sql("Final read", "SELECT COUNT(*) = 1 FROM users"));
    queries.push(query_ok());
    let result = drill(&config, &world(good_backup(4096, 0), queries)).unwrap();
    let details = [
        "assertion did not return integer 1",
        "assertion did not return integer 1",
        "assertion did not return integer 1",
        "assertion did not return integer 1",
        "assertion did not return integer 1",
        "assertion returned no rows; expected integer 1",
        "assertion must return exactly one column",
        "assertion returned multiple rows; expected exactly one",
        "cannot prepare assertion; use one read-only SELECT statement: Multiple statements provided",
        "assertion must be read-only",
        "cannot prepare assertion; use one read-only SELECT statement: not authorized",
        "cannot prepare assertion; use one read-only SELECT statement: not authorized",
        "cannot prepare assertion; use one read-only SELECT statement: no such table: missing_table",
    ];
    for (index, detail) in details.iter().enumerate() {
        let name = format!("SQL: invalid-{index}");
        let c = check(&result, &name);
        assert_eq!(c.status, Status::Failed, "unexpected pass for {index}");
        assert_eq!(&c.detail, detail);
    }
    assert_eq!(check(&result, "SQL: Final read").status, Status::Passed);
    assert_eq!(check(&result, "SQL: Final read").detail, "Assertion returned integer 1.");
}

#[test]
fn interrupts_a_long_query_and_still_runs_the_next_assertion() {
    let mut config = fixture();
    config.timeout = "100ms".into();
    config.checks.push(sql(
        "Slow",
        "WITH RECURSIVE n(x) AS (VALUES(1) UNION ALL SELECT x + 1 FROM n) SELECT SUM(x) = 1 FROM n",
    ));
    config.checks.push(sql("Next", "SELECT 1"));
    let slow = Query {
        rows: vec![Err("interrupted".into())],
        elapsed: Span { secs: 0, nanos: 100_000_001 },
        ..query_ok()
    };
    let result = drill(&config, &world(good_backup(4096, 0), vec![slow, query_ok()])).unwrap();
    let slow = check(&result, "SQL: Slow");
    assert_eq!(slow.status, Status::Failed);
    assert!(slow.detail.contains("timeout"), "{}", slow.detail);
    assert_eq!(slow.detail, "query exceeded timeout of 100ms");
    assert_eq!(check(&result, "SQL: Next").status, Status::Passed);
}

#[test]
fn optional_age_check_rejects_old_or_future_file_timestamps() {
    let now: i64 = 1_700_000_000_000_000_000;
    for (modified, detail) in [
        (now - 7_200_000_000_000, "backup file is 2h old; limit is 1h"),
        (
            now + 7_200_000_000_000,
            "backup modification time is in the future; check the file timestamp and system clock: second time provided was later than self",
        ),
    ] {
        let mut config = fixture();
        config.max_age = Some("1h".into());
        let mut w = world(good_backup(4096, modified), vec![]);
        w.now = now;
        let result = drill(&config, &w).unwrap();
        assert_eq!(result.status, Status::Failed);
        assert_eq!(check(&result, "Backup age").status, Status::Failed);
        assert_eq!(check(&result, "Backup age").detail, detail);
        assert_eq!(check(&result, "SQLite integrity").status, Status::Passed);
    }
}

#[test]
fn backups_that_change_during_the_copy_are_refused() {
    let changed = [
        Backup { copied: 4000, ..good_backup(4096, 5) },
        Backup { len_after: 5000, ..good_backup(4096, 5) },
        Backup { modified_after: 6, ..good_backup(4096, 5) },
    ];
    for backup in changed {
        let report = drill(&fixture(), &world(backup, vec![])).unwrap();
        assert_eq!(report.status, Status::Failed);
        assert_eq!(
            report.checks[0].detail,
            "backup changed during the restore; use a completed snapshot"
        );
    }
}

#[test]
fn directories_and_unreadable_backups_are_refused() {
    let backup = Backup { is_file: Ok(false), ..good_backup(0, 0) };
    let report = drill(&fixture(), &world(backup, vec![])).unwrap();
    assert_eq!(report.checks[0].detail, "backup must be a regular file");
    let backup = Backup { open: Err("Permission denied (os error 13)".into()), ..good_backup(0, 0) };
    let report = drill(&fixture(), &world(backup, vec![])).unwrap();
    assert_eq!(report.checks[0].detail, "cannot read backup: Permission denied (os error 13)");
}

#[test]
fn an_unopenable_copy_skips_the_database_checks() {
    let mut config = fixture();
    config.checks.push(sql("A", "SELECT 1"));
    let mut w = world(good_backup(4096, 0), vec![]);
    w.open = Err("file is not a database".into());
    let report = drill(&config, &w).unwrap();
    assert_eq!(report.status, Status::Failed);
    for name in ["SQLite integrity", "Foreign keys", "SQL: A"] {
        assert_eq!(check(&report, name).status, Status::Skipped);
        assert_eq!(check(&report, name).detail, "Restored database could not be opened.");
    }
    assert_eq!(check(&report, "Backup age").detail, "No max_age configured; data freshness is not implied.");
}

#[test]
fn an_integrity_failure_skips_foreign_keys_and_assertions() {
    let mut config = fixture();
    config.checks.push(sql("A", "SELECT 1"));
    let mut w = world(good_backup(4096, 0), vec![]);
    w.integrity.integrity = Ok(vec!["row 1 missing from index".into(), "page 3 never used".into()]);
    let report = drill(&config, &w).unwrap();
    assert_eq!(check(&report, "SQLite integrity").detail, "row 1 missing from index; page 3 never used");
    for name in ["Foreign keys", "SQL: A"] {
        assert_eq!(check(&report, name).status, Status::Skipped);
        assert_eq!(check(&report, name).detail, "SQLite integrity check failed.");
    }
    assert_eq!(check(&report, "Cleanup").status, Status::Passed);
}

#[test]
fn a_cleanup_failure_fails_the_drill() {
    let mut w = world(good_backup(4096, 0), vec![]);
    w.cleanup = Err("Directory not empty (os error 39)".into());
    let report = drill(&fixture(), &w).unwrap();
    assert_eq!(report.status, Status::Failed);
    assert_eq!(
        check(&report, "Cleanup").detail,
        "cannot remove temporary restore directory: Directory not empty (os error 39)"
    );
}

#[test]
fn setup_failures_end_the_drill_without_a_report() {
    let mut w = world(good_backup(4096, 0), vec![]);
    w.workspace = Err("No space left on device (os error 28)".into());
    assert_eq!(
        drill(&fixture(), &w).err().unwrap(),
        "cannot create temporary restore directory: No space left on device (os error 28)"
    );
    let mut w = world(good_backup(4096, 0), vec![]);
    w.authorizer = Err("misuse".into());
    assert_eq!(drill(&fixture(), &w).err().unwrap(), "misuse");
    let mut config = fixture();
    config.timeout = "bad".into();
    assert!(drill(&config, &world(good_backup(1, 0), vec![])).is_err());
}

#[test]
fn timer_failures_fail_the_step() {
    let mut w = world(good_backup(4096, 0), vec![]);
    w.integrity.start = Err("cannot install".into());
    w.foreign_keys.removed = Err("cannot remove".into());
    let report = drill(&fixture(), &w).unwrap();
    assert_eq!(check(&report, "SQLite integrity").detail, "cannot install");
    let mut w = world(good_backup(4096, 0), vec![]);
    w.foreign_keys.removed = Err("cannot remove".into());
    let report = drill(&fixture(), &w).unwrap();
    assert_eq!(check(&report, "Foreign keys").status, Status::Failed);
    assert_eq!(check(&report, "Foreign keys").detail, "cannot remove");
}

#[test]
fn a_passed_report_renders_every_step_and_the_closing_note() {
    let mut w = world(good_backup(4096, 0), vec![]);
    w.integrity.integrity = Ok(vec!["ok".into()]);
    let mut report = drill(&fixture(), &w).unwrap();
    report.started_at = Moment { secs: 0, nanos: 0 };
    let text = report.render();
    let expected = [
        "Rehearsal · SQLite backup",
        "Backup    /data/backup.sqlite",
        "",
        "  PASS  Restore (2 ms)",
        "        Restored 4096 bytes into a temporary directory.",
        "  SKIP  Backup age (0 ms)",
        "        No max_age configured; data freshness is not implied.",
        "  PASS  Open database (2 ms)",
        "        Opened the restored copy read-only.",
        "  PASS  SQLite integrity (2 ms)",
        "        PRAGMA integrity_check returned ok.",
        "  PASS  Foreign keys (2 ms)",
        "        No foreign key violations.",
        "  PASS  Cleanup (2 ms)",
        "        Removed the temporary restored database.",
        "",
        "PASS · 50 ms · 1970-01-01T00:00:00+00:00",
        "The backup passed the configured checks. Application startup was not tested.",
    ]
    .join("\n");
    assert_eq!(text, expected);
}

#[test]
fn failed_reports_render_multi_line_details_without_the_closing_note() {
    let mut w = world(good_backup(4096, 0), vec![]);
    w.integrity.integrity = Err("line one\r\nline two\n".into());
    let report = drill(&fixture(), &w).unwrap();
    let text = report.render();
    assert!(text.contains("  FAIL  SQLite integrity (2 ms)\n        line one\n        line two\n"));
    assert!(!text.contains("Application startup was not tested."));
    assert!(text.contains("\nFAIL · 50 ms · "));
}

#[test]
fn the_read_only_authorizer_allows_only_reads() {
    assert!(authorize(&AuthRequest::Select));
    assert!(authorize(&AuthRequest::Read));
    assert!(authorize(&AuthRequest::Recursive));
    assert!(authorize(&AuthRequest::Function { name: "count".into() }));
    assert!(!authorize(&AuthRequest::Function { name: "load_extension".into() }));
    assert!(!authorize(&AuthRequest::Function { name: "LOAD_Extension".into() }));
    assert!(!authorize(&AuthRequest::Other));
}

#[test]
fn milliseconds_round_down_and_saturate() {
    assert_eq!(milliseconds(Span { secs: 1, nanos: 999_999 }), 1000);
    assert_eq!(milliseconds(Span { secs: 0, nanos: 2_500_000 }), 2);
    assert_eq!(milliseconds(Span { secs: u64::MAX, nanos: 0 }), u64::MAX);
}

#[test]
fn backups_modified_long_ago_or_far_ahead_are_restored() {
    for secs in [-14_831_769_600i64, 32_503_680_000] {
        let (mut r, mut action) = Restoration::new("/data/backup.sqlite".to_string());
        let moment = Moment { secs, nanos: 250 };
        let outcome = loop {
            let p = match action {
                RestoreAction::Canonicalize { path } => r.on_canonical(Ok(path)),
                RestoreAction::Inspect { .. } => r.on_kind(Ok(true)),
                RestoreAction::Probe { .. } => r.on_probe(Probe::Missing),
                RestoreAction::Open { .. } => r.on_opened(Ok(())),
                RestoreAction::Stat | RestoreAction::Restat => {
                    r.on_stat(Ok(FileStat { len: 4096, modified: Ok(moment) }))
                },
                RestoreAction::ReadHeader => r.on_header(Ok(MAGIC.to_vec())),
                RestoreAction::Rewind | RestoreAction::CreateTarget | RestoreAction::Sync => {
                    r.on_done(Ok(()))
                },
                RestoreAction::Copy => r.on_copied(Ok(4096)),
            };
            match p {
                Progress::Continue(a) => action = a,
                Progress::Complete(outcome) => break outcome,
            }
        };
        assert_eq!(outcome, Ok(Snapshot { bytes: 4096, modified: moment }));
    }
}

#[test]
fn a_length_change_is_reported_before_an_unreadable_modification_time() {
    for (len_after, expected) in [
        (5000u64, "backup changed during the restore; use a completed snapshot"),
        (4096, "modification time unavailable"),
    ] {
        let (mut r, mut action) = Restoration::new("/data/backup.sqlite".to_string());
        let moment = Moment { secs: 1_700_000_000, nanos: 0 };
        let outcome = loop {
            let p = match action {
                RestoreAction::Canonicalize { path } => r.on_canonical(Ok(path)),
                RestoreAction::Inspect { .. } => r.on_kind(Ok(true)),
                RestoreAction::Probe { .. } => r.on_probe(Probe::Missing),
                RestoreAction::Open { .. } => r.on_opened(Ok(())),
                RestoreAction::Stat => r.on_stat(Ok(FileStat { len: 4096, modified: Ok(moment) })),
                RestoreAction::Restat => r.on_stat(Ok(FileStat {
                    len: len_after,
                    modified: Err("modification time unavailable".to_string()),
                })),
                RestoreAction::ReadHeader => r.on_header(Ok(MAGIC.to_vec())),
                RestoreAction::Rewind | RestoreAction::CreateTarget | RestoreAction::Sync => {
                    r.on_done(Ok(()))
                },
                RestoreAction::Copy => r.on_copied(Ok(4096)),
            };
            match p {
                Progress::Continue(a) => action = a,
                Progress::Complete(outcome) => break outcome,
            }
        };
        assert_eq!(outcome, Err(expected.to_string()));
    }
}
