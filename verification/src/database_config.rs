//! Database connection settings and schema version.

use vstd::prelude::*;
use crate::app_error::AppError;
use crate::text::{concat, owned, str_equal};
use crate::validation::path_is_present;

verus! {

/// Current database schema version
pub const CURRENT_VERSION: i64 = 5;

/// Returns the current migration version
pub fn current_version() -> (r: i64)
    ensures
        r == CURRENT_VERSION,
{
    CURRENT_VERSION
}

/// Checks if the database file exists. What is on disk decides.
pub fn database_exists(path: &str) -> bool {
    path_is_present(path)
}

/// Database configuration
#[derive(Debug, Clone)]
pub struct DatabaseConfig {
    /// Path to the SQLite database file
    pub path: String,
    /// Maximum number of connections in the pool
    pub max_connections: u32,
    /// Enable Write-Ahead Logging (WAL) mode
    pub enable_wal: bool,
    /// Create database if it doesn't exist
    pub create_if_missing: bool,
}

impl Default for DatabaseConfig {
    fn default() -> (r: Self)
        ensures
            r.path@ == "storystream.db"@,
            r.max_connections == 10,
            r.enable_wal,
            r.create_if_missing,
    {
        DatabaseConfig {
            path: owned("storystream.db"),
            max_connections: 10,
            enable_wal: true,
            create_if_missing: true,
        }
    }
}

impl DatabaseConfig {
    /// Creates a new configuration with a custom path
    pub fn new(path: &str) -> (r: Self)
        ensures
            r.path@ == path@,
            r.max_connections == 10,
            r.enable_wal,
            r.create_if_missing,
    {
        DatabaseConfig {
            path: owned(path),
            max_connections: 10,
            enable_wal: true,
            create_if_missing: true,
        }
    }

    /// Sets the maximum number of connections
    pub fn with_max_connections(self, max: u32) -> (r: Self)
        ensures
            r.path@ == self.path@,
            r.max_connections == max,
            r.enable_wal == self.enable_wal,
            r.create_if_missing == self.create_if_missing,
    {
        let mut s = self;
        s.max_connections = max;
        s
    }

    /// Enables or disables WAL mode
    pub fn with_wal(self, enable: bool) -> (r: Self)
        ensures
            r.path@ == self.path@,
            r.max_connections == self.max_connections,
            r.enable_wal == enable,
            r.create_if_missing == self.create_if_missing,
    {
        let mut s = self;
        s.enable_wal = enable;
        s
    }

    /// Sets whether to create the database if missing
    pub fn with_create_if_missing(self, create: bool) -> (r: Self)
        ensures
            r.path@ == self.path@,
            r.max_connections == self.max_connections,
            r.enable_wal == self.enable_wal,
            r.create_if_missing == create,
    {
        let mut s = self;
        s.create_if_missing = create;
        s
    }

    /// The URL that connecting opens: `sqlite:` and the path.
    pub fn connection_url(&self) -> (r: String)
        ensures
            r@ == "sqlite:"@ + self.path@,
    {
        concat("sqlite:", self.path.as_str())
    }
}

/// What an integrity check's answer means: `ok` is a sound database, any
/// other answer a database error that quotes it.
pub fn integrity_verdict(answer: &str) -> (r: Result<(), AppError>)
    ensures
        answer@ == "ok"@ ==> r is Ok,
        answer@ != "ok"@ ==> (r matches Err(AppError::DatabaseError { message, source: Some(s) })
            && message@ == "Database integrity check failed: "@ + answer@
            && s@ == "Integrity check failed"@),
{
    if str_equal(answer, "ok") {
        Ok(())
    } else {
        let message = concat("Database integrity check failed: ", answer);
        Err(AppError::database(message.as_str(), owned("Integrity check failed")))
    }
}

} // verus!
