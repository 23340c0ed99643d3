//! The decisions of the command line: how options override a
//! configuration, where history is read from, what is printed, and which
//! exit code a drill ends with.

use vstd::prelude::*;
use vstd::string::*;

use crate::config::{default_report_dir_text, Assertion, Config, ConfigView};
use crate::report::{formatted_time, format_time, history_stamp_pattern, label_text, Report, Status};
use crate::text::{concat, concat3, decimal, decimal_text, push_char};

verus! {

/// The configuration file used when none is named.
pub open spec fn default_config_file() -> Seq<char> {
    "rehearsal.toml"@
}

/// The configuration file used when none is named.
pub fn default_config_path() -> (p: String)
    ensures
        p@ == default_config_file(),
{
    String::from_str("rehearsal.toml")
}

/// A configuration with the options given on the command line put in place
/// of its report directory, maximum age and timeout.
pub fn apply_overrides(
    config: Config,
    report_dir: Option<String>,
    max_age: Option<String>,
    timeout: Option<String>,
) -> (c: Config)
    ensures
        c@ == (ConfigView {
            report_dir: match report_dir {
                Some(d) => d@,
                None => config@.report_dir,
            },
            max_age: match max_age {
                Some(a) => Some(a@),
                None => config@.max_age,
            },
            timeout: match timeout {
                Some(t) => t@,
                None => config@.timeout,
            },
            ..config@
        }),
{
    let mut c = config;
    match report_dir {
        Some(d) => {
            c.report_dir = d;
        },
        None => {},
    }
    match max_age {
        Some(a) => {
            c.max_age = Some(a);
        },
        None => {},
    }
    match timeout {
        Some(t) => {
            c.timeout = t;
        },
        None => {},
    }
    c
}

/// The configuration that `init` writes for a backup: every default, and a
/// maximum age of one day.
pub fn init_config(backup: String) -> (c: Config)
    ensures
        c@ == (ConfigView { max_age: Some("24h"@), ..Config::for_backup_view(backup@) }),
{
    let mut c = Config::for_backup(backup);
    c.max_age = Some(String::from_str("24h"));
    c
}

impl Config {
    /// The content of [`Config::for_backup`].
    pub open spec fn for_backup_view(backup: Seq<char>) -> ConfigView {
        ConfigView {
            name: crate::config::default_name_text(),
            backup,
            report_dir: default_report_dir_text(),
            max_age: None,
            timeout: crate::config::default_timeout_text(),
            checks: seq![],
        }
    }
}

/// Where `history` reads reports from.
#[derive(Debug)]
pub enum HistorySource {
    /// This report directory.
    Directory(String),
    /// The report directory of this configuration file.
    ConfigFile(String),
    /// The report directory of `rehearsal.toml` where that file exists, else
    /// the default report directory.
    DefaultConfigFile,
}

/// Where `history` reads reports from: a report directory given on the
/// command line wins, then a configuration file given, then the default
/// configuration file.
pub fn history_source(config: Option<String>, report_dir: Option<String>) -> (s: HistorySource)
    ensures
        match (config, report_dir) {
            (_, Some(d)) => s matches HistorySource::Directory(x) && x@ == d@,
            (Some(p), None) => s matches HistorySource::ConfigFile(x) && x@ == p@,
            (None, None) => s is DefaultConfigFile,
        },
{
    match (config, report_dir) {
        (_, Some(d)) => HistorySource::Directory(d),
        (Some(p), None) => HistorySource::ConfigFile(p),
        (None, None) => HistorySource::DefaultConfigFile,
    }
}

/// A text padded on the left with spaces to a width in characters.
pub open spec fn right_aligned(text: Seq<char>, width: nat) -> Seq<char> {
    if text.len() >= width {
        text
    } else {
        Seq::new((width - text.len()) as nat, |i: int| ' ') + text
    }
}

/// Pads a text on the left with spaces to a width in characters (`{:>width}`).
pub fn align_right(text: &str, width: usize) -> (s: String)
    ensures
        s@ == right_aligned(text@, width as nat),
{
    let n = text.unicode_len();
    let mut s = String::new();
    if n < width {
        let pad = width - n;
        let mut i: usize = 0;
        while i < pad
            invariant
                i <= pad,
                s@ == Seq::new(i as nat, |k: int| ' '),
            decreases pad - i,
        {
            push_char(&mut s, ' ');
            assert(s@ =~= Seq::new((i + 1) as nat, |k: int| ' '));
            i = i + 1;
        }
    }
    s.append(text);
    proof {
        if n >= width {
            assert(s@ =~= text@);
        }
    }
    s
}

/// One line of the history listing: start time, status, duration and name.
pub open spec fn history_entry(r: &Report) -> Seq<char> {
    formatted_time(r.started_at.secs, r.started_at.nanos, history_stamp_pattern()) + "  "@ + label_text(r.status) + "  "@
        + right_aligned(decimal(r.duration_ms as nat), 6) + " ms  "@ + r.name@
}

/// One line of the history listing.
pub fn history_line(report: &Report) -> (line: String)
    requires
        report.started_at.representable(),
    ensures
        line@ == history_entry(report),
{
    let stamp = match format_time(report.started_at, "%Y-%m-%d %H:%M:%S UTC") {
        Some(t) => t,
        None => String::new(),
    };
    let mut line = concat3(stamp.as_str(), "  ", report.status.label());
    line.append("  ");
    let ms = decimal_text(report.duration_ms);
    let aligned = align_right(ms.as_str(), 6);
    line.append(aligned.as_str());
    line.append(" ms  ");
    line.append(report.name.as_str());
    line
}

/// The heading of the history listing.
pub fn history_heading() -> (s: String)
    ensures
        s@ == "Rehearsal · recent runs\n"@,
{
    String::from_str("Rehearsal · recent runs\n")
}

/// What `history` prints when a directory holds no reports.
pub fn empty_history_message(directory: &str) -> (s: String)
    ensures
        s@ == "No runs in "@ + directory@ + ". Run `rehearsal check` to record a drill."@,
{
    concat3("No runs in ", directory, ". Run `rehearsal check` to record a drill.")
}

/// What `init` prints once the configuration file exists.
pub fn init_message(path: &str) -> (s: String)
    ensures
        s@ == "Created "@ + path@ + "\nNext: rehearsal check --config "@ + path@,
{
    let mut s = concat3("Created ", path, "\nNext: rehearsal check --config ");
    s.append(path);
    s
}

/// What `demo` prints before its drill.
pub fn demo_created_message(directory: &str) -> (s: String)
    ensures
        s@ == "Created sample backup and configuration in "@ + directory@ + "\n"@,
{
    concat3("Created sample backup and configuration in ", directory, "\n")
}

/// What `demo` prints after its drill.
pub fn demo_again_message(config_path: &str) -> (s: String)
    ensures
        s@ == "\nRun again: rehearsal check --config "@ + config_path@,
{
    concat("\nRun again: rehearsal check --config ", config_path)
}

/// The line printed for an error that ends the program.
pub fn error_line(message: &str) -> (s: String)
    ensures
        s@ == "rehearsal: "@ + message@,
{
    concat("rehearsal: ", message)
}

/// The exit code of a completed drill whose report was saved: 0 when it
/// passed, 1 when it failed.
pub open spec fn drill_exit_code(status: Status) -> u8 {
    if status == Status::Passed {
        0
    } else {
        1
    }
}

/// What `check` ends with once the report is shown: the report must have
/// been saved, else the program fails with that error (exit code 2); with
/// a saved report, the exit code of the drill, and outside JSON mode a line
/// that tells where the report is.
pub fn check_result(status: Status, saved: Result<String, String>, json: bool) -> (r: Result<
    (u8, Option<String>),
    String,
>)
    ensures
        match saved {
            Err(e) => r matches Err(m) && m@ == "drill finished, but its report could not be saved"@
                + ": "@ + e@,
            Ok(path) => r matches Ok((code, line)) && code == drill_exit_code(status) && if json {
                line is None
            } else {
                line matches Some(l) && l@ == "Report    "@ + path@
            },
        },
{
    match saved {
        Err(e) => Err(
            crate::text::with_context(
                "drill finished, but its report could not be saved",
                e.as_str(),
            ),
        ),
        Ok(path) => {
            let code: u8 = if status == Status::Passed {
                0
            } else {
                1
            };
            if json {
                Ok((code, None))
            } else {
                Ok((code, Some(concat("Report    ", path.as_str()))))
            }
        },
    }
}

/// The header written above a configuration in its file.
pub open spec fn config_file_header() -> Seq<char> {
    "# Rehearsal: paths below are relative to this file.\n# SQL checks must return one row, one column, integer 1.\n\n"@
}

/// The text of a configuration file: the header, then the configuration
/// as TOML, then a line feed.
pub fn config_file_text(toml: &str) -> (s: String)
    ensures
        s@ == config_file_header() + toml@ + "\n"@,
{
    concat3(
        "# Rehearsal: paths below are relative to this file.\n# SQL checks must return one row, one column, integer 1.\n\n",
        toml,
        "\n",
    )
}

/// The SQL of the demo database: two tables, one user and two notes.
pub open spec fn demo_schema_text() -> Seq<char> {
    "PRAGMA foreign_keys = OFF;
        CREATE TABLE users (id INTEGER PRIMARY KEY, name TEXT NOT NULL);
        CREATE TABLE notes (id INTEGER PRIMARY KEY, user_id INTEGER NOT NULL REFERENCES users(id), body TEXT NOT NULL, created_at TEXT NOT NULL);
        INSERT INTO users VALUES (1, 'Ada');
        INSERT INTO notes VALUES (1, 1, 'Backups should be rehearsed.', datetime('now'));
        INSERT INTO notes VALUES (2, 1, 'Small tools, clear outcomes.', datetime('now'));"@
}

/// The SQL that creates the demo database.
pub fn demo_schema_sql() -> (sql: &'static str)
    ensures
        sql@ == demo_schema_text(),
{
    "PRAGMA foreign_keys = OFF;
        CREATE TABLE users (id INTEGER PRIMARY KEY, name TEXT NOT NULL);
        CREATE TABLE notes (id INTEGER PRIMARY KEY, user_id INTEGER NOT NULL REFERENCES users(id), body TEXT NOT NULL, created_at TEXT NOT NULL);
        INSERT INTO users VALUES (1, 'Ada');
        INSERT INTO notes VALUES (1, 1, 'Backups should be rehearsed.', datetime('now'));
        INSERT INTO notes VALUES (2, 1, 'Small tools, clear outcomes.', datetime('now'));"
}

/// The SQL that breaks the demo database with an orphaned note.
pub fn demo_orphan_sql() -> (sql: &'static str)
    ensures
        sql@ == "INSERT INTO notes VALUES (3, 999, 'An orphaned note.', datetime('now'))"@,
{
    "INSERT INTO notes VALUES (3, 999, 'An orphaned note.', datetime('now'))"
}

fn assertion(name: &str, sql: &str) -> (a: Assertion)
    ensures
        a@.name == name@,
        a@.sql == sql@,
{
    Assertion { name: String::from_str(name), sql: String::from_str(sql) }
}

/// The configuration of the demo: its backup file, a name, a maximum age
/// of one day, and three assertions about its data.
pub fn demo_config() -> (c: Config)
    ensures
        c@.name == "Notes demo"@,
        c@.backup == "app.backup.sqlite"@,
        c@.report_dir == default_report_dir_text(),
        c@.max_age == Some("24h"@),
        c@.timeout == crate::config::default_timeout_text(),
        c@.checks.len() == 3,
        c@.checks[0].name == "Users exist"@,
        c@.checks[0].sql == "SELECT EXISTS(SELECT 1 FROM users)"@,
        c@.checks[1].name == "At least two notes survived"@,
        c@.checks[1].sql == "SELECT COUNT(*) >= 2 FROM notes"@,
        c@.checks[2].name == "Recent note exists"@,
        c@.checks[2].sql
            == "SELECT COALESCE(MAX(created_at) >= datetime('now', '-1 day'), 0) FROM notes"@,
{
    let mut c = Config::for_backup(String::from_str("app.backup.sqlite"));
    c.name = String::from_str("Notes demo");
    c.max_age = Some(String::from_str("24h"));
    let mut checks: Vec<Assertion> = Vec::new();
    checks.push(assertion("Users exist", "SELECT EXISTS(SELECT 1 FROM users)"));
    checks.push(assertion("At least two notes survived", "SELECT COUNT(*) >= 2 FROM notes"));
    checks.push(
        assertion(
            "Recent note exists",
            "SELECT COALESCE(MAX(created_at) >= datetime('now', '-1 day'), 0) FROM notes",
        ),
    );
    c.checks = checks;
    c
}

} // verus!
