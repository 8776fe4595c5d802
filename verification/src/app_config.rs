//! Application-level configuration section

use vstd::prelude::*;
use crate::text::owned;
use crate::validation::{
    failures, issue, lemma_failures_push, range_check, reported, ConfigSection, ValidationError,
    ValidationIssue, Validator,
};

verus! {

/// Log level for application logging
#[derive(Debug, Clone, Copy, PartialEq, Eq, Structural)]
pub enum LogLevel {
    Error,
    Warn,
    Info,
    Debug,
    Trace,
}

impl LogLevel {
    /// The level's name, in lower case.
    pub open spec fn text(self) -> Seq<char> {
        match self {
            LogLevel::Error => "error"@,
            LogLevel::Warn => "warn"@,
            LogLevel::Info => "info"@,
            LogLevel::Debug => "debug"@,
            LogLevel::Trace => "trace"@,
        }
    }

    /// The level as text, as it is displayed.
    pub fn to_string(&self) -> (r: String)
        ensures
            r@ == self.text(),
    {
        match self {
            LogLevel::Error => owned("error"),
            LogLevel::Warn => owned("warn"),
            LogLevel::Info => owned("info"),
            LogLevel::Debug => owned("debug"),
            LogLevel::Trace => owned("trace"),
        }
    }
}

/// Color scheme options
#[derive(Debug, Clone, Copy, PartialEq, Eq, Structural)]
pub enum ColorScheme {
    Auto,
    Light,
    Dark,
}

impl ColorScheme {
    /// The scheme's name, in lower case.
    pub open spec fn text(self) -> Seq<char> {
        match self {
            ColorScheme::Auto => "auto"@,
            ColorScheme::Light => "light"@,
            ColorScheme::Dark => "dark"@,
        }
    }

    /// The scheme as text, as it is displayed.
    pub fn to_string(&self) -> (r: String)
        ensures
            r@ == self.text(),
    {
        match self {
            ColorScheme::Auto => owned("auto"),
            ColorScheme::Light => owned("light"),
            ColorScheme::Dark => owned("dark"),
        }
    }
}

/// Application-level settings
#[derive(Debug, Clone, PartialEq)]
pub struct AppConfig {
    /// Database file path (relative to config dir if not absolute)
    pub database_path: String,
    /// Log level for application output
    pub log_level: LogLevel,
    /// Enable debug mode (additional logging and checks)
    pub debug_mode: bool,
    /// Check for updates on startup
    pub check_updates: bool,
    /// Send anonymous usage statistics
    pub telemetry_enabled: bool,
    /// Color scheme preference
    pub color_scheme: ColorScheme,
    /// Maximum number of recent books to track
    pub max_recent_books: usize,
    /// Enable experimental features
    pub experimental_features: bool,
}

/// The application section as it comes by default.
pub open spec fn is_default_app_config(c: AppConfig) -> bool {
    &&& c.database_path@ == "storystream.db"@
    &&& c.log_level == LogLevel::Info
    &&& !c.debug_mode
    &&& c.check_updates
    &&& !c.telemetry_enabled
    &&& c.color_scheme == ColorScheme::Auto
    &&& c.max_recent_books == 10
    &&& !c.experimental_features
}

impl Default for AppConfig {
    fn default() -> (r: Self)
        ensures
            is_default_app_config(r),
    {
        AppConfig {
            database_path: owned("storystream.db"),
            log_level: LogLevel::Info,
            debug_mode: false,
            check_updates: true,
            telemetry_enabled: false,
            color_scheme: ColorScheme::Auto,
            max_recent_books: 10,
            experimental_features: false,
        }
    }
}

/// The problems of an application section, in the order they are reported.
pub open spec fn app_issues(c: AppConfig) -> Seq<ValidationIssue> {
    (if c.database_path@.len() == 0 {
        seq![issue("app.database_path"@, "must not be empty"@)]
    } else {
        Seq::empty()
    }) + reported(range_check(c.max_recent_books as int, 1, 100, "app.max_recent_books"@))
}

impl ConfigSection for AppConfig {
    open spec fn issues(&self) -> Seq<ValidationIssue> {
        app_issues(*self)
    }

    open spec fn merged(self, other: Self) -> Self {
        other
    }

    open spec fn name(&self) -> Seq<char> {
        "app"@
    }

    fn validate(&self) -> (r: Result<(), Vec<ValidationError>>) {
        let mut results: Vec<Result<(), ValidationError>> = Vec::new();
        if self.database_path.as_str().unicode_len() == 0 {
            let e = ValidationError::new("app.database_path", "must not be empty");
            proof {
                lemma_failures_push(results@, Err(e));
            }
            results.push(Err(e));
        }
        let ghost first = results@;
        let check = Validator::in_range(
            self.max_recent_books as i128,
            1,
            100,
            "app.max_recent_books",
        );
        proof {
            lemma_failures_push(first, check);
        }
        results.push(check);
        proof {
            assert(failures(Seq::<Result<(), ValidationError>>::empty()) =~= Seq::empty());
            assert(failures(results@) =~= app_issues(*self));
        }
        Validator::collect_errors(results)
    }

    fn merge(&mut self, other: Self) {
        self.database_path = other.database_path;
        self.log_level = other.log_level;
        self.debug_mode = other.debug_mode;
        self.check_updates = other.check_updates;
        self.telemetry_enabled = other.telemetry_enabled;
        self.color_scheme = other.color_scheme;
        self.max_recent_books = other.max_recent_books;
        self.experimental_features = other.experimental_features;
    }

    fn section_name(&self) -> (r: &'static str) {
        "app"
    }
}

/// Merging an application section into another gives the merged-in
/// section: its values take precedence, all of them.
pub proof fn law_app_merge_takes_other(base: AppConfig, other: AppConfig)
    ensures
        base.merged(other) == other,
{
}

/// The default application section is valid: it has no problems.
pub proof fn law_default_app_config_is_valid(c: AppConfig)
    requires
        is_default_app_config(c),
    ensures
        app_issues(c).len() == 0,
{
    reveal_strlit("storystream.db");
}

} // verus!
