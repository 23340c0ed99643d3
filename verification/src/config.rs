//! The drill configuration: its defaults, the rules a valid configuration
//! meets, and where its relative paths point.

use vstd::prelude::*;
use vstd::string::*;

use crate::duration::{
    duration_error, duration_fits, number_weight, parse_humantime, parsed_duration, Span,
    MAX_DURATION_WEIGHT,
};
use crate::text::{blank, concat, concat3, debug_str, debug_text, is_blank, with_context};

verus! {

/// A drill configuration. Relative paths in a configuration file are
/// relative to that file (see [`Config::load`]).
#[derive(Debug)]
pub struct Config {
    pub name: String,
    pub backup: String,
    pub report_dir: String,
    /// File modification age, not the age of the newest database record.
    pub max_age: Option<String>,
    pub timeout: String,
    pub checks: Vec<Assertion>,
}

/// An application assertion: one read-only query that must return exactly
/// one row, one column, integer 1.
#[derive(Debug)]
pub struct Assertion {
    pub name: String,
    pub sql: String,
}

/// The content of an assertion.
pub struct AssertionView {
    pub name: Seq<char>,
    pub sql: Seq<char>,
}

/// The content of a configuration.
pub struct ConfigView {
    pub name: Seq<char>,
    pub backup: Seq<char>,
    pub report_dir: Seq<char>,
    pub max_age: Option<Seq<char>>,
    pub timeout: Seq<char>,
    pub checks: Seq<AssertionView>,
}

impl View for Assertion {
    type V = AssertionView;

    open spec fn view(&self) -> AssertionView {
        AssertionView { name: self.name@, sql: self.sql@ }
    }
}

impl View for Config {
    type V = ConfigView;

    open spec fn view(&self) -> ConfigView {
        ConfigView {
            name: self.name@,
            backup: self.backup@,
            report_dir: self.report_dir@,
            max_age: match self.max_age {
                Some(a) => Some(a@),
                None => None,
            },
            timeout: self.timeout@,
            checks: self.checks@.map_values(|a: Assertion| a@),
        }
    }
}

/// Why a configuration is refused.
#[derive(Debug)]
pub enum ConfigError {
    EmptyName,
    EmptyBackup,
    EmptyReportDir,
    /// A duration that does not parse; `reason` is the parser's message.
    InvalidDuration { field: String, value: String, reason: String },
    /// A duration whose numbers are too large for the library to read.
    LongDuration { field: String, value: String },
    ZeroDuration { field: String },
    EmptyCheckName,
    EmptySql { check: String },
    DuplicateCheck { check: String },
}

/// The content of a [`ConfigError`].
pub enum ConfigIssue {
    EmptyName,
    EmptyBackup,
    EmptyReportDir,
    InvalidDuration { field: Seq<char>, value: Seq<char>, reason: Seq<char> },
    LongDuration { field: Seq<char>, value: Seq<char> },
    ZeroDuration { field: Seq<char> },
    EmptyCheckName,
    EmptySql { check: Seq<char> },
    DuplicateCheck { check: Seq<char> },
}

impl View for ConfigError {
    type V = ConfigIssue;

    open spec fn view(&self) -> ConfigIssue {
        match self {
            ConfigError::EmptyName => ConfigIssue::EmptyName,
            ConfigError::EmptyBackup => ConfigIssue::EmptyBackup,
            ConfigError::EmptyReportDir => ConfigIssue::EmptyReportDir,
            ConfigError::InvalidDuration { field, value, reason } => ConfigIssue::InvalidDuration {
                field: field@,
                value: value@,
                reason: reason@,
            },
            ConfigError::LongDuration { field, value } => ConfigIssue::LongDuration {
                field: field@,
                value: value@,
            },
            ConfigError::ZeroDuration { field } => ConfigIssue::ZeroDuration { field: field@ },
            ConfigError::EmptyCheckName => ConfigIssue::EmptyCheckName,
            ConfigError::EmptySql { check } => ConfigIssue::EmptySql { check: check@ },
            ConfigError::DuplicateCheck { check } => ConfigIssue::DuplicateCheck {
                check: check@,
            },
        }
    }
}

/// The default drill name.
pub open spec fn default_name_text() -> Seq<char> {
    "SQLite backup"@
}

/// The default report directory.
pub open spec fn default_report_dir_text() -> Seq<char> {
    ".rehearsal/reports"@
}

/// The default per-query time budget.
pub open spec fn default_timeout_text() -> Seq<char> {
    "30s"@
}

/// The verdict on a duration setting: the span it denotes, or why it is
/// refused. A text whose numbers weigh more than [`MAX_DURATION_WEIGHT`] is
/// refused before it is parsed.
pub open spec fn duration_outcome(field: Seq<char>, value: Seq<char>) -> Result<Span, ConfigIssue> {
    if number_weight(value) > MAX_DURATION_WEIGHT {
        Err(ConfigIssue::LongDuration { field, value })
    } else {
    match parsed_duration(value) {
        None => Err(
            ConfigIssue::InvalidDuration { field, value, reason: duration_error(value) },
        ),
        Some(p) => if p.0 == 0 && p.1 == 0 {
            Err(ConfigIssue::ZeroDuration { field })
        } else {
            Ok(Span { secs: p.0, nanos: p.1 })
        },
    }
    }
}

/// The verdict on the optional maximum age.
pub open spec fn max_age_outcome(max_age: Option<Seq<char>>) -> Result<Option<Span>, ConfigIssue> {
    match max_age {
        None => Ok(None),
        Some(a) => match duration_outcome("max_age"@, a) {
            Ok(s) => Ok(Some(s)),
            Err(e) => Err(e),
        },
    }
}

/// What is wrong with the assertion at index `i`, given those before it.
pub open spec fn check_issue(checks: Seq<AssertionView>, i: int) -> Option<ConfigIssue> {
    if blank(checks[i].name) {
        Some(ConfigIssue::EmptyCheckName)
    } else if blank(checks[i].sql) {
        Some(ConfigIssue::EmptySql { check: checks[i].name })
    } else if exists|j: int| 0 <= j < i && #[trigger] checks[j].name == checks[i].name {
        Some(ConfigIssue::DuplicateCheck { check: checks[i].name })
    } else {
        None
    }
}

/// The first problem among the first `n` assertions.
pub open spec fn checks_issue(checks: Seq<AssertionView>, n: int) -> Option<ConfigIssue>
    decreases n,
{
    if n <= 0 {
        None
    } else {
        match checks_issue(checks, n - 1) {
            Some(e) => Some(e),
            None => check_issue(checks, n - 1),
        }
    }
}

/// Once an assertion has a problem, it stays the first problem found.
pub proof fn lemma_first_issue_stays(checks: Seq<AssertionView>, i: int, m: int)
    requires
        0 <= i < m,
        checks_issue(checks, i) is None,
        check_issue(checks, i) is Some,
    ensures
        checks_issue(checks, m) == check_issue(checks, i),
    decreases m,
{
    if m > i + 1 {
        lemma_first_issue_stays(checks, i, m - 1);
    }
}

/// The first rule that a configuration breaks, in the order they are checked:
/// a blank name, an empty backup path, an empty report directory, the
/// timeout, the maximum age, then each assertion in turn.
pub open spec fn config_issue(c: ConfigView) -> Option<ConfigIssue> {
    if blank(c.name) {
        Some(ConfigIssue::EmptyName)
    } else if c.backup.len() == 0 {
        Some(ConfigIssue::EmptyBackup)
    } else if c.report_dir.len() == 0 {
        Some(ConfigIssue::EmptyReportDir)
    } else if duration_outcome("timeout"@, c.timeout) is Err {
        Some(duration_outcome("timeout"@, c.timeout)->Err_0)
    } else if max_age_outcome(c.max_age) is Err {
        Some(max_age_outcome(c.max_age)->Err_0)
    } else {
        checks_issue(c.checks, c.checks.len() as int)
    }
}

proof fn lemma_no_issue_before(checks: Seq<AssertionView>, n: int, i: int)
    requires
        0 <= i < n,
        checks_issue(checks, n) is None,
    ensures
        check_issue(checks, i) is None,
    decreases n,
{
    if i < n - 1 {
        lemma_no_issue_before(checks, n - 1, i);
    }
}

/// What a configuration that breaks no rule is like: its name is not blank,
/// its backup and report paths are not empty, its timeout and maximum age
/// are durations, every assertion has a name and a statement that are not
/// blank, and no two assertions share a name.
pub proof fn law_valid_configuration(c: ConfigView)
    requires
        config_issue(c) is None,
    ensures
        !blank(c.name),
        c.backup.len() > 0,
        c.report_dir.len() > 0,
        duration_outcome("timeout"@, c.timeout) is Ok,
        max_age_outcome(c.max_age) is Ok,
        forall|i: int|
            0 <= i < c.checks.len() ==> !blank(#[trigger] c.checks[i].name) && !blank(
                c.checks[i].sql,
            ),
        forall|i: int, j: int|
            0 <= i < j < c.checks.len() ==> #[trigger] c.checks[i].name != #[trigger] c.checks[j].name,
{
    let checks = c.checks;
    assert forall|i: int| 0 <= i < checks.len() implies !blank(#[trigger] checks[i].name) && !blank(
        checks[i].sql,
    ) by {
        lemma_no_issue_before(checks, checks.len() as int, i);
    }
    assert forall|i: int, j: int| 0 <= i < j < checks.len() implies #[trigger] checks[i].name
        != #[trigger] checks[j].name by {
        lemma_no_issue_before(checks, checks.len() as int, j);
        if checks[i].name == checks[j].name {
            assert(exists|k: int| 0 <= k < j && #[trigger] checks[k].name == checks[j].name);
        }
    }
}

/// What `std::path::Path::parent` gives for a path.
pub uninterp spec fn parent_path(path: Seq<char>) -> Option<Seq<char>>;

/// What `std::path::Path::join` gives for a base and a path.
pub uninterp spec fn joined_path(base: Seq<char>, path: Seq<char>) -> Seq<char>;

/// The directory that the relative paths of a configuration file are
/// relative to: the file's parent, or `.` where it has none.
pub open spec fn config_base(path: Seq<char>) -> Seq<char> {
    match parent_path(path) {
        Some(p) => p,
        None => "."@,
    }
}

/// A configuration read from `path`, with its paths taken relative to that file.
pub open spec fn relocated(c: ConfigView, path: Seq<char>) -> ConfigView {
    ConfigView {
        backup: joined_path(config_base(path), c.backup),
        report_dir: joined_path(config_base(path), c.report_dir),
        ..c
    }
}

/// The verdict on a configuration read from `path`: it is valid as written,
/// and still valid once its paths are taken relative to the file.
pub open spec fn load_outcome(c: ConfigView, path: Seq<char>) -> Result<ConfigView, ConfigIssue> {
    match config_issue(c) {
        Some(e) => Err(e),
        None => match config_issue(relocated(c, path)) {
            Some(e) => Err(e),
            None => Ok(relocated(c, path)),
        },
    }
}

/// Calls `std::path::Path::parent` on a path given as text.
#[verifier::external_body]
fn path_parent(path: &str) -> (r: Option<String>)
    ensures
        r is None <==> parent_path(path@) is None,
        r matches Some(p) ==> parent_path(path@) == Some(p@),
{
    match std::path::Path::new(path).parent() {
        Some(p) => Some(p.to_string_lossy().into_owned()),
        None => None,
    }
}

/// Calls `std::path::Path::join` on paths given as text.
#[verifier::external_body]
fn path_join(base: &str, path: &str) -> (r: String)
    ensures
        r@ == joined_path(base@, path@),
{
    std::path::Path::new(base).join(path).to_string_lossy().into_owned()
}

/// The default drill name.
pub fn default_name() -> (s: String)
    ensures
        s@ == default_name_text(),
{
    String::from_str("SQLite backup")
}

/// The default report directory.
pub fn default_report_dir() -> (s: String)
    ensures
        s@ == default_report_dir_text(),
{
    String::from_str(".rehearsal/reports")
}

/// The default per-query time budget.
pub fn default_timeout() -> (s: String)
    ensures
        s@ == default_timeout_text(),
{
    String::from_str("30s")
}

/// Parses a duration setting, which must be greater than zero and whose
/// numbers may not weigh more than [`MAX_DURATION_WEIGHT`].
pub fn parse_duration(field: &str, value: &str) -> (r: Result<Span, ConfigError>)
    ensures
        match r {
            Ok(s) => duration_outcome(field@, value@) == Ok::<Span, ConfigIssue>(s),
            Err(e) => duration_outcome(field@, value@) == Err::<Span, ConfigIssue>(e@),
        },
        r matches Ok(s) ==> s.canonical(),
{
    if !duration_fits(value) {
        return Err(
            ConfigError::LongDuration { field: String::from_str(field), value: String::from_str(value) },
        );
    }
    match parse_humantime(value) {
        Err(reason) => Err(
            ConfigError::InvalidDuration {
                field: String::from_str(field),
                value: String::from_str(value),
                reason,
            },
        ),
        Ok(span) => {
            if span.is_zero() {
                Err(ConfigError::ZeroDuration { field: String::from_str(field) })
            } else {
                Ok(span)
            }
        },
    }
}

impl Clone for Assertion {
    fn clone(&self) -> (r: Self)
        ensures
            r@ == self@,
    {
        Assertion { name: self.name.clone(), sql: self.sql.clone() }
    }
}

impl ConfigError {
    /// The message that explains the refusal.
    pub fn message(&self) -> (m: String)
        ensures
            m@ == issue_message(self@),
    {
        match self {
            ConfigError::EmptyName => String::from_str("name cannot be empty"),
            ConfigError::EmptyBackup => String::from_str("backup path cannot be empty"),
            ConfigError::EmptyReportDir => String::from_str("report_dir cannot be empty"),
            ConfigError::InvalidDuration { field, value, reason } => {
                let quoted = debug_text(value.as_str());
                let head = concat3("invalid ", field.as_str(), ": ");
                let mut m = concat(head.as_str(), quoted.as_str());
                m.append("; use a duration such as 30s or 24h");
                with_context(m.as_str(), reason.as_str())
            },
            ConfigError::LongDuration { field, value } => {
                let quoted = debug_text(value.as_str());
                let head = concat3("invalid ", field.as_str(), ": ");
                let mut m = concat(head.as_str(), quoted.as_str());
                m.append("; use a duration such as 30s or 24h: its numbers are too large");
                m
            },
            ConfigError::ZeroDuration { field } => concat(
                field.as_str(),
                " must be greater than zero",
            ),
            ConfigError::EmptyCheckName => String::from_str("check name cannot be empty"),
            ConfigError::EmptySql { check } => {
                let quoted = debug_text(check.as_str());
                concat3("SQL for check ", quoted.as_str(), " cannot be empty")
            },
            ConfigError::DuplicateCheck { check } => concat(
                "duplicate check name: ",
                check.as_str(),
            ),
        }
    }
}

/// The message of each refusal.
pub open spec fn issue_message(e: ConfigIssue) -> Seq<char> {
    match e {
        ConfigIssue::EmptyName => "name cannot be empty"@,
        ConfigIssue::EmptyBackup => "backup path cannot be empty"@,
        ConfigIssue::EmptyReportDir => "report_dir cannot be empty"@,
        ConfigIssue::InvalidDuration { field, value, reason } => "invalid "@ + field + ": "@
            + debug_str(value) + "; use a duration such as 30s or 24h"@ + ": "@ + reason,
        ConfigIssue::LongDuration { field, value } => "invalid "@ + field + ": "@ + debug_str(value)
            + "; use a duration such as 30s or 24h: its numbers are too large"@,
        ConfigIssue::ZeroDuration { field } => field + " must be greater than zero"@,
        ConfigIssue::EmptyCheckName => "check name cannot be empty"@,
        ConfigIssue::EmptySql { check } => "SQL for check "@ + debug_str(check)
            + " cannot be empty"@,
        ConfigIssue::DuplicateCheck { check } => "duplicate check name: "@ + check,
    }
}

impl Config {
    /// A configuration that checks one backup with every default.
    pub fn for_backup(backup: String) -> (c: Config)
        ensures
            c@ == (ConfigView {
                name: default_name_text(),
                backup: backup@,
                report_dir: default_report_dir_text(),
                max_age: None,
                timeout: default_timeout_text(),
                checks: seq![],
            }),
    {
        let c = Config {
            name: default_name(),
            backup,
            report_dir: default_report_dir(),
            max_age: None,
            timeout: default_timeout(),
            checks: Vec::new(),
        };
        assert(c@.checks =~= seq![]);
        c
    }

    /// The per-query time budget.
    pub fn query_timeout(&self) -> (r: Result<Span, ConfigError>)
        ensures
            match r {
                Ok(s) => duration_outcome("timeout"@, self.timeout@) == Ok::<Span, ConfigIssue>(s),
                Err(e) => duration_outcome("timeout"@, self.timeout@) == Err::<Span, ConfigIssue>(
                    e@,
                ),
            },
            r matches Ok(s) ==> s.canonical(),
    {
        parse_duration("timeout", self.timeout.as_str())
    }

    /// The maximum backup file age, where one is configured.
    pub fn max_backup_age(&self) -> (r: Result<Option<Span>, ConfigError>)
        ensures
            match r {
                Ok(s) => max_age_outcome(self@.max_age) == Ok::<Option<Span>, ConfigIssue>(s),
                Err(e) => max_age_outcome(self@.max_age) == Err::<Option<Span>, ConfigIssue>(
                    e@,
                ),
            },
            r matches Ok(Some(s)) ==> s.canonical(),
    {
        match &self.max_age {
            None => Ok(None),
            Some(age) => match parse_duration("max_age", age.as_str()) {
                Ok(s) => Ok(Some(s)),
                Err(e) => Err(e),
            },
        }
    }

    /// Checks every rule of a valid configuration, and gives the first one broken.
    pub fn validate(&self) -> (r: Result<(), ConfigError>)
        ensures
            match r {
                Ok(_) => config_issue(self@) is None,
                Err(e) => config_issue(self@) == Some(e@),
            },
    {
        if is_blank(self.name.as_str()) {
            return Err(ConfigError::EmptyName);
        }
        if self.backup.as_str().is_empty() {
            return Err(ConfigError::EmptyBackup);
        }
        if self.report_dir.as_str().is_empty() {
            return Err(ConfigError::EmptyReportDir);
        }
        match self.query_timeout() {
            Err(e) => return Err(e),
            Ok(_) => {},
        }
        match self.max_backup_age() {
            Err(e) => return Err(e),
            Ok(_) => {},
        }
        let ghost checks = self@.checks;
        let n = self.checks.len();
        let mut i: usize = 0;
        while i < n
            invariant
                checks == self@.checks,
                n == self.checks@.len(),
                checks.len() == n,
                i <= n,
                checks_issue(checks, i as int) is None,
                config_issue(self@) == checks_issue(checks, n as int),
            decreases n - i,
        {
            let check = &self.checks[i];
            assert(checks[i as int] == check@);
            proof {
                if check_issue(checks, i as int) is Some {
                    lemma_first_issue_stays(checks, i as int, n as int);
                }
            }
            if is_blank(check.name.as_str()) {
                return Err(ConfigError::EmptyCheckName);
            }
            if is_blank(check.sql.as_str()) {
                return Err(ConfigError::EmptySql { check: check.name.clone() });
            }
            let mut j: usize = 0;
            while j < i
                invariant
                    checks == self@.checks,
                    n == self.checks@.len(),
                    checks.len() == n,
                    i < n,
                    j <= i,
                    checks[i as int] == self.checks@[i as int]@,
                    checks_issue(checks, i as int) is None,
                    config_issue(self@) == checks_issue(checks, n as int),
                    !blank(checks[i as int].name),
                    !blank(checks[i as int].sql),
                    forall|k: int| 0 <= k < j ==> checks[k].name != checks[i as int].name,
                decreases i - j,
            {
                assert(checks[j as int] == self.checks@[j as int]@);
                if self.checks[j].name == self.checks[i].name {
                    assert(checks[j as int].name == checks[i as int].name);
                    assert(check_issue(checks, i as int) is Some);
                    proof {
                        lemma_first_issue_stays(checks, i as int, n as int);
                    }
                    return Err(ConfigError::DuplicateCheck { check: self.checks[i].name.clone() });
                }
                j = j + 1;
            }
            i = i + 1;
        }
        proof {
            law_valid_configuration(self@);
            assert forall|k: int| 0 <= k < self.checks@.len() implies #[trigger] checks[k]
                == self.checks@[k]@ by {}
        }
        Ok(())
    }

    /// Finishes loading the configuration read from the file at `path`:
    /// the configuration must be valid as written, its backup and report
    /// paths are then taken relative to the file's directory, and the result
    /// must still be valid.
    pub fn load(path: &str, parsed: Config) -> (r: Result<Config, ConfigError>)
        ensures
            match r {
                Ok(c) => load_outcome(parsed@, path@) == Ok::<ConfigView, ConfigIssue>(c@),
                Err(e) => load_outcome(parsed@, path@) == Err::<ConfigView, ConfigIssue>(e@),
            },
    {
        match parsed.validate() {
            Err(e) => return Err(e),
            Ok(_) => {},
        }
        let base = match path_parent(path) {
            Some(p) => p,
            None => String::from_str("."),
        };
        let backup = path_join(base.as_str(), parsed.backup.as_str());
        let report_dir = path_join(base.as_str(), parsed.report_dir.as_str());
        let config = Config { backup, report_dir, ..parsed };
        assert(config@ == relocated(parsed@, path@));
        match config.validate() {
            Err(e) => Err(e),
            Ok(_) => Ok(config),
        }
    }
}

} // verus!
