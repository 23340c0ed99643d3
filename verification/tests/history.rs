//! Report names, history selection and command-line decisions.

use rehearsal::cli::{
    apply_overrides, check_result, config_file_text, demo_config, history_line, history_source,
    init_config, HistorySource,
};
use rehearsal::config::Config;
use rehearsal::duration::Moment;
use rehearsal::report::{check_schema, is_report_file_name, newest_first, Report, Status};

fn at(nanos: i64) -> Moment {
    Moment { secs: nanos.div_euclid(1_000_000_000), nanos: nanos.rem_euclid(1_000_000_000) as u32 }
}

fn report(started_at: i64, status: Status) -> Report {
    let started_at = at(started_at);
    Report {
        schema_version: 1,
        tool_version: "0.1.0".into(),
        sqlite_version: "3.50.0".into(),
        name: "Notes demo".into(),
        source: "app.sqlite".into(),
        started_at,
        duration_ms: 42,
        status,
        restored_bytes: Some(8192),
        backup_modified_at: Some(started_at),
        checks: vec![],
    }
}

#[test]
fn reports_are_unique_and_history_includes_failed_runs() {
    let passed = report(1_700_000_000_000_000_000, Status::Passed);
    let failed = report(1_700_000_001_000_000_000, Status::Failed);
    let first = passed.file_name("a1B2c3");
    let second = passed.file_name("Zz9Yy8");
    assert_ne!(first, second);
    assert_eq!(first, "run-20231114T221320.000000000Z-a1B2c3.json");
    let third = failed.file_name("Qq1Qq1");
    let names = vec![first.clone(), third.clone(), second.clone()];
    let records = newest_first(&names, 2);
    assert_eq!(records.len(), 2);
    assert_eq!(records[0], third);
    // Both remaining names are of the passed run; the later name comes first.
    assert_eq!(records[1], first);
    assert_eq!(newest_first(&names, 20).len(), 3);
}

#[test]
fn only_run_json_files_are_reports() {
    assert!(is_report_file_name("run-20231114T221320.000000000Z-a1B2c3.json"));
    assert!(is_report_file_name("run-.json"));
    assert!(!is_report_file_name("run-1.json.tmp"));
    assert!(!is_report_file_name("notes.json"));
    assert!(!is_report_file_name("run-1.JSON"));
    assert!(!is_report_file_name(".tmpA1b2"));
}

#[test]
fn history_is_newest_first_by_name() {
    let names: Vec<String> = ["run-b", "run-a", "run-c", "run-ab", "run-b"].iter().map(|s| s.to_string()).collect();
    assert_eq!(newest_first(&names, 10), vec!["run-c", "run-b", "run-b", "run-ab", "run-a"]);
    assert_eq!(newest_first(&names, 0), Vec::<String>::new());
    assert_eq!(newest_first(&vec![], 3), Vec::<String>::new());
    let unicode: Vec<String> = vec!["run-é".into(), "run-z".into()];
    assert_eq!(newest_first(&unicode, 1), vec!["run-é"]);
}

#[test]
fn only_schema_one_is_read() {
    assert!(check_schema(1, "r.json").is_ok());
    assert_eq!(check_schema(2, "r.json").err().unwrap(), "unsupported report schema in r.json");
}

#[test]
fn history_lines_align_durations() {
    let r = report(0, Status::Failed);
    assert_eq!(history_line(&r), "1970-01-01 00:00:00 UTC  FAIL      42 ms  Notes demo");
    let mut r = report(0, Status::Passed);
    r.duration_ms = 12_345_678;
    assert_eq!(history_line(&r), "1970-01-01 00:00:00 UTC  PASS  12345678 ms  Notes demo");
}

#[test]
fn history_reads_the_named_directory_first() {
    assert!(matches!(
        history_source(Some("c.toml".into()), Some("dir".into())),
        HistorySource::Directory(d) if d == "dir"
    ));
    assert!(matches!(
        history_source(Some("c.toml".into()), None),
        HistorySource::ConfigFile(p) if p == "c.toml"
    ));
    assert!(matches!(history_source(None, None), HistorySource::DefaultConfigFile));
}

#[test]
fn failed_checks_are_saved_and_exit_one_while_bad_configuration_exits_two() {
    assert_eq!(check_result(Status::Failed, Ok("r.json".into()), true).unwrap(), (1, None));
    assert_eq!(check_result(Status::Passed, Ok("r.json".into()), true).unwrap(), (0, None));
    let mut bad = Config::for_backup("missing.sqlite".into());
    bad.timeout = "bad".into();
    assert!(bad.validate().is_err());
}

#[test]
fn report_write_errors_preserve_the_backup_and_return_two_with_json() {
    let saved: Result<String, String> = Err("Not a directory (os error 20)".into());
    let error = check_result(Status::Passed, saved, true).err().unwrap();
    assert!(error.contains("could not be saved"));
    assert_eq!(
        error,
        "drill finished, but its report could not be saved: Not a directory (os error 20)"
    );
    assert_eq!(
        check_result(Status::Passed, Ok("reports/r.json".into()), false).unwrap(),
        (0, Some("Report    reports/r.json".to_string()))
    );
}

#[test]
fn command_line_options_override_the_configuration() {
    let c = apply_overrides(Config::for_backup("a".into()), Some("out".into()), Some("2h".into()), None);
    assert_eq!(c.report_dir, "out");
    assert_eq!(c.max_age.as_deref(), Some("2h"));
    assert_eq!(c.timeout, "30s");
    let c = apply_overrides(c, None, None, Some("5s".into()));
    assert_eq!(c.report_dir, "out");
    assert_eq!(c.timeout, "5s");
}

#[test]
fn init_and_demo_configurations() {
    let c = init_config("/abs/app.sqlite".into());
    assert_eq!(c.backup, "/abs/app.sqlite");
    assert_eq!(c.max_age.as_deref(), Some("24h"));
    assert!(c.validate().is_ok());
    let d = demo_config();
    assert_eq!(d.name, "Notes demo");
    assert_eq!(d.checks.len(), 3);
    assert!(d.validate().is_ok());
    assert_eq!(
        config_file_text("backup = \"a\"\n"),
        "# Rehearsal: paths below are relative to this file.\n# SQL checks must return one row, one column, integer 1.\n\nbackup = \"a\"\n\n"
    );
}

#[test]
fn report_times_reach_beyond_the_nanosecond_range() {
    let mut early = report(0, Status::Passed);
    early.started_at = Moment { secs: -14_831_769_600, nanos: 0 };
    assert_eq!(early.file_name("u"), "run-15000101T000000.000000000Z-u.json");
    assert!(early.render().ends_with("1500-01-01T00:00:00+00:00\nThe backup passed the configured checks. Application startup was not tested."));
    let mut late = report(0, Status::Failed);
    late.started_at = Moment { secs: 32_503_680_000, nanos: 500_000_000 };
    assert_eq!(history_line(&late), "3000-01-01 00:00:00 UTC  FAIL      42 ms  Notes demo");
}
