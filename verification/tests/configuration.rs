//! Configuration rules: defaults, validation, durations and relative paths.

use rehearsal::config::{default_name, default_report_dir, default_timeout, parse_duration, Assertion, Config, ConfigError};
use rehearsal::duration::Span;

fn with_backup(backup: &str) -> Config {
    Config::for_backup(backup.to_string())
}

fn check(name: &str, sql: &str) -> Assertion {
    Assertion { name: name.into(), sql: sql.into() }
}

#[test]
fn paths_are_relative_to_config_and_configuration_errors_are_not_ignored() {
    let mut parsed = with_backup("backup.sqlite");
    parsed.report_dir = "reports".into();
    let config = Config::load("/tmp/drill/rehearsal.toml", parsed).unwrap();
    assert_eq!(config.backup, "/tmp/drill/backup.sqlite");
    assert_eq!(config.report_dir, "/tmp/drill/reports");

    let mut invalid = Vec::new();
    invalid.push(with_backup(""));
    let mut c = with_backup("a");
    c.report_dir = "".into();
    invalid.push(c);
    let mut c = with_backup("a");
    c.timeout = "0s".into();
    invalid.push(c);
    let mut c = with_backup("a");
    c.max_age = Some("yesterday".into());
    invalid.push(c);
    let mut c = with_backup("a");
    c.checks = vec![check("a", "SELECT 1"), check("a", "SELECT 1")];
    invalid.push(c);
    for parsed in invalid {
        assert!(
            Config::load("/tmp/drill/rehearsal.toml", parsed).is_err(),
            "invalid configuration was accepted"
        );
    }
}

#[test]
fn absolute_paths_stay_and_a_bare_file_name_is_relative_to_the_current_directory() {
    let parsed = with_backup("/backups/app.sqlite");
    let config = Config::load("conf/rehearsal.toml", parsed).unwrap();
    assert_eq!(config.backup, "/backups/app.sqlite");
    assert_eq!(config.report_dir, "conf/.rehearsal/reports");
    let config = Config::load("rehearsal.toml", with_backup("b.sqlite")).unwrap();
    assert_eq!(config.backup, "b.sqlite");
    assert_eq!(config.report_dir, ".rehearsal/reports");
}

#[test]
fn defaults_of_a_configuration_for_a_backup() {
    let c = with_backup("app.sqlite");
    assert_eq!(c.name, "SQLite backup");
    assert_eq!(c.backup, "app.sqlite");
    assert_eq!(c.report_dir, ".rehearsal/reports");
    assert_eq!(c.max_age, None);
    assert_eq!(c.timeout, "30s");
    assert!(c.checks.is_empty());
    assert_eq!(default_name(), "SQLite backup");
    assert_eq!(default_report_dir(), ".rehearsal/reports");
    assert_eq!(default_timeout(), "30s");
    assert!(c.validate().is_ok());
}

fn message_of(c: &Config) -> String {
    c.validate().err().unwrap().message()
}

#[test]
fn each_rule_gives_its_own_error() {
    let mut c = with_backup("a");
    c.name = " \t\u{3000}".into();
    assert!(matches!(c.validate(), Err(ConfigError::EmptyName)));
    assert_eq!(message_of(&c), "name cannot be empty");

    assert!(matches!(with_backup("").validate(), Err(ConfigError::EmptyBackup)));
    assert_eq!(message_of(&with_backup("")), "backup path cannot be empty");

    let mut c = with_backup("a");
    c.report_dir = "".into();
    assert_eq!(message_of(&c), "report_dir cannot be empty");

    let mut c = with_backup("a");
    c.timeout = "bad".into();
    assert!(matches!(c.validate(), Err(ConfigError::InvalidDuration { .. })));
    assert!(message_of(&c).starts_with("invalid timeout: \"bad\"; use a duration such as 30s or 24h: "));

    let mut c = with_backup("a");
    c.timeout = "0s".into();
    assert_eq!(message_of(&c), "timeout must be greater than zero");

    let mut c = with_backup("a");
    c.max_age = Some("0".into());
    assert_eq!(message_of(&c), "max_age must be greater than zero");

    let mut c = with_backup("a");
    c.checks = vec![check(" ", "SELECT 1")];
    assert_eq!(message_of(&c), "check name cannot be empty");

    let mut c = with_backup("a");
    c.checks = vec![check("Users \"exist\"", "\n")];
    assert_eq!(message_of(&c), "SQL for check \"Users \\\"exist\\\"\" cannot be empty");

    let mut c = with_backup("a");
    c.checks = vec![check("a", "SELECT 1"), check("b", "SELECT 1"), check("a", "SELECT 2")];
    assert_eq!(message_of(&c), "duplicate check name: a");
}

#[test]
fn the_first_broken_rule_is_reported() {
    let mut c = with_backup("");
    c.name = "".into();
    c.timeout = "bad".into();
    assert_eq!(message_of(&c), "name cannot be empty");
    let mut c = with_backup("a");
    c.checks = vec![check("a", ""), check("a", "SELECT 1")];
    assert_eq!(message_of(&c), "SQL for check \"a\" cannot be empty");
}

#[test]
fn durations_parse_with_humantime_and_must_be_positive() {
    assert_eq!(parse_duration("timeout", "30s").ok(), Some(Span { secs: 30, nanos: 0 }));
    assert_eq!(parse_duration("timeout", "100ms").ok(), Some(Span { secs: 0, nanos: 100_000_000 }));
    assert_eq!(parse_duration("max_age", "24h").ok(), Some(Span { secs: 86_400, nanos: 0 }));
    assert_eq!(parse_duration("max_age", "2h 37min").ok(), Some(Span { secs: 9420, nanos: 0 }));
    assert!(matches!(
        parse_duration("max_age", "yesterday"),
        Err(ConfigError::InvalidDuration { .. })
    ));
    assert!(matches!(parse_duration("timeout", "0s"), Err(ConfigError::ZeroDuration { .. })));
    let c = with_backup("a");
    assert_eq!(c.query_timeout().ok(), Some(Span { secs: 30, nanos: 0 }));
    assert_eq!(c.max_backup_age().ok(), Some(None));
    let mut c = with_backup("a");
    c.max_age = Some("1h".into());
    assert_eq!(c.max_backup_age().ok(), Some(Some(Span { secs: 3600, nanos: 0 })));
}

#[test]
fn whitespace_follows_the_unicode_white_space_property() {
    for u in 0..=0x10ffffu32 {
        if let Some(c) = char::from_u32(u) {
            assert_eq!(rehearsal::text::is_white_space(c), c.is_whitespace(), "{u:#x}");
        }
    }
    assert!(rehearsal::text::is_blank(""));
    assert!(rehearsal::text::is_blank(" \u{85}\u{2028}"));
    assert!(!rehearsal::text::is_blank(" x "));
}

#[test]
fn durations_whose_numbers_are_too_large_are_refused_before_parsing() {
    assert_eq!(
        parse_duration("timeout", "99999999999ms").ok(),
        Some(Span { secs: 99_999_999, nanos: 999_000_000 })
    );
    assert_eq!(parse_duration("timeout", "000000000030s").ok(), Some(Span { secs: 30, nanos: 0 }));
    assert_eq!(parse_duration("max_age", "000000000024h").ok(), Some(Span { secs: 86_400, nanos: 0 }));
    assert_eq!(
        parse_duration("max_age", "100000000000ns").ok(),
        Some(Span { secs: 100, nanos: 0 })
    );
    assert_eq!(
        parse_duration("max_age", "584542046089y").ok(),
        Some(Span { secs: 584_542_046_089 * 31_557_600, nanos: 0 })
    );
    let long = parse_duration("timeout", "18446744073709551615s 1000ms");
    assert!(matches!(long, Err(ConfigError::LongDuration { .. })));
    assert_eq!(
        long.unwrap_err().message(),
        "invalid timeout: \"18446744073709551615s 1000ms\"; use a duration such as 30s or 24h: its numbers are too large"
    );
    assert!(matches!(
        parse_duration("timeout", "584542046090s"),
        Err(ConfigError::LongDuration { .. })
    ));
    let mut c = with_backup("a");
    c.max_age = Some("300000000000s 300000000000s".into());
    assert!(matches!(c.validate(), Err(ConfigError::LongDuration { .. })));
}
