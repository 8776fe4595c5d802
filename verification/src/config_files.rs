//! Where configuration files live: the manager's paths, the persistence
//! handler's file, and the rules of config backups.

use vstd::prelude::*;
use crate::text::{
    cat3, chars_of, concat, decimal, ends_with_text, owned, starts_with_text, str_ends_with,
    str_starts_with, u64_decimal,
};
use crate::time::Timestamp;
use crate::validation::{issue_text, issues_of, joined, ValidationError, ValidationIssue};

verus! {

/// `name` appended to the directory path `dir`, as `PathBuf::join` does for a
/// relative name: a separator goes between them unless `dir` is empty or
/// already ends in one.
pub open spec fn path_join(dir: Seq<char>, name: Seq<char>) -> Seq<char> {
    if dir.len() == 0 {
        name
    } else if dir.last() == '/' {
        dir + name
    } else {
        dir + "/"@ + name
    }
}

/// Joins a relative name to a directory path.
pub fn join_path(dir: &str, name: &str) -> (r: String)
    ensures
        r@ == path_join(dir@, name@),
{
    let chars = chars_of(dir);
    if chars.len() == 0 {
        owned(name)
    } else if chars[chars.len() - 1] == '/' {
        concat(dir, name)
    } else {
        proof {
            reveal_strlit("/");
        }
        cat3(dir, "/", name)
    }
}

/// The name of the config file inside the config directory.
pub open spec fn config_file_name() -> Seq<char> {
    "config.toml"@
}

/// A path joined from a directory and a name ends with that name.
pub proof fn law_joined_path_ends_with_name(dir: Seq<char>, name: Seq<char>)
    ensures
        ends_with_text(path_join(dir, name), name),
{
    let p = path_join(dir, name);
    assert(p.subrange(p.len() - name.len(), p.len() as int) =~= name);
}

/// Handles configuration file persistence
pub struct ConfigPersistence {
    config_path: String,
}

impl ConfigPersistence {
    /// The path of the file this handler reads and writes.
    pub closed spec fn path(&self) -> Seq<char> {
        self.config_path@
    }

    /// Creates a new persistence handler for the given config file path
    pub fn new(config_path: String) -> (r: Self)
        ensures
            r.path() == config_path@,
    {
        ConfigPersistence { config_path }
    }

    /// The path of the file this handler reads and writes.
    pub fn config_path(&self) -> (r: &String)
        ensures
            r@ == self.path(),
    {
        &self.config_path
    }
}

/// Main configuration manager: the config directory and the handler of the
/// config file inside it.
pub struct ConfigManager {
    persistence: ConfigPersistence,
    config_dir: String,
}

impl ConfigManager {
    /// The config directory.
    pub closed spec fn dir(&self) -> Seq<char> {
        self.config_dir@
    }

    /// The file that the manager's persistence handler uses.
    pub closed spec fn file(&self) -> Seq<char> {
        self.persistence.path()
    }

    /// Creates a config manager with a custom config directory
    pub fn with_directory(config_dir: String) -> (r: Self)
        ensures
            r.dir() == config_dir@,
            r.file() == path_join(config_dir@, config_file_name()),
    {
        let config_path = join_path(config_dir.as_str(), "config.toml");
        let persistence = ConfigPersistence::new(config_path);
        ConfigManager { persistence, config_dir }
    }

    /// Returns the config directory path
    pub fn config_dir(&self) -> (r: &String)
        ensures
            r@ == self.dir(),
    {
        &self.config_dir
    }

    /// Returns the full config file path
    pub fn config_path(&self) -> (r: String)
        ensures
            r@ == path_join(self.dir(), config_file_name()),
    {
        join_path(self.config_dir.as_str(), "config.toml")
    }

    /// The handler of the config file.
    pub fn persistence(&self) -> (r: &ConfigPersistence)
        ensures
            r.path() == self.file(),
    {
        &self.persistence
    }
}

/// Manages configuration backups: where they are kept and how many.
pub struct ConfigBackupManager {
    backup_dir: String,
    max_backups: usize,
}

impl ConfigBackupManager {
    /// The directory that holds the backups.
    pub closed spec fn dir(&self) -> Seq<char> {
        self.backup_dir@
    }

    /// How many backups rotation keeps.
    pub closed spec fn limit(&self) -> nat {
        self.max_backups as nat
    }

    /// Creates a new backup manager; it keeps at most 10 backups.
    pub fn new(backup_dir: String) -> (r: Self)
        ensures
            r.dir() == backup_dir@,
            r.limit() == 10,
    {
        ConfigBackupManager { backup_dir, max_backups: 10 }
    }

    /// Sets the maximum number of backups to keep
    pub fn with_max_backups(self, max: usize) -> (r: Self)
        ensures
            r.dir() == self.dir(),
            r.limit() == max,
    {
        let mut s = self;
        s.max_backups = max;
        s
    }

    /// The directory that holds the backups.
    pub fn backup_dir(&self) -> (r: &String)
        ensures
            r@ == self.dir(),
    {
        &self.backup_dir
    }

    /// How many backups rotation keeps.
    pub fn max_backups(&self) -> (r: usize)
        ensures
            r == self.limit(),
    {
        self.max_backups
    }

    /// How many of `existing` backups rotation deletes, oldest first: those
    /// beyond the limit.
    pub fn excess_backups(&self, existing: usize) -> (r: usize)
        ensures
            r == backups_beyond(existing as nat, self.limit()),
    {
        if existing > self.max_backups {
            existing - self.max_backups
        } else {
            0
        }
    }

    /// The file name of a backup made at the given local time, written
    /// `YYYYMMDD_HHMMSS_mmm`.
    pub fn backup_file_name(stamp: &str) -> (r: String)
        ensures
            r@ == "config_"@ + stamp@ + ".toml"@,
    {
        proof {
            reveal_strlit("config_");
            reveal_strlit(".toml");
        }
        cat3("config_", stamp, ".toml")
    }
}

/// Whether a file in the backup directory is a backup: its name starts with
/// `config_` and its extension is `toml`.
pub open spec fn names_backup(name: Seq<char>) -> bool {
    starts_with_text(name, "config_"@) && ends_with_text(name, ".toml"@)
}

/// Tells backups apart from other files in the backup directory.
pub fn is_backup_file_name(name: &str) -> (r: bool)
    ensures
        r == names_backup(name@),
{
    str_starts_with(name, "config_") && str_ends_with(name, ".toml")
}

/// How many backups are beyond a limit.
pub open spec fn backups_beyond(existing: nat, limit: nat) -> nat {
    if existing > limit {
        (existing - limit) as nat
    } else {
        0
    }
}

/// Information about a config backup
#[derive(Debug, Clone)]
pub struct BackupInfo {
    /// Full path to the backup file
    pub path: String,
    /// Filename of the backup
    pub filename: String,
    /// Creation time
    pub created: Timestamp,
    /// File size in bytes
    pub size_bytes: u64,
}

/// `n / d` with one decimal place, rounded to the nearest tenth and, on a
/// tie, to the even tenth; given in tenths.
pub open spec fn rounded_tenths(n: nat, d: nat) -> nat
    recommends
        d > 0,
{
    let q = (n * 10) / d;
    let r = (n * 10) % d;
    if r * 2 > d || (r * 2 == d && q % 2 == 1) {
        q + 1
    } else {
        q
    }
}

/// A count of tenths written with one decimal place.
pub open spec fn tenths_text(t: nat) -> Seq<char> {
    decimal(t / 10) + "."@ + decimal(t % 10)
}

/// A size in bytes as people read it: bytes below 1 KiB, else KB or MB with
/// one decimal place.
pub open spec fn size_text(bytes: nat) -> Seq<char> {
    if bytes < 1024 {
        decimal(bytes) + " B"@
    } else if bytes < 1048576 {
        tenths_text(rounded_tenths(bytes, 1024)) + " KB"@
    } else {
        tenths_text(rounded_tenths(bytes, 1048576)) + " MB"@
    }
}

/// Rounds `n / d` to tenths, ties to even.
fn round_tenths(n: u64, d: u64) -> (r: u128)
    requires
        d > 0,
    ensures
        r == rounded_tenths(n as nat, d as nat),
{
    let t: u128 = (n as u128) * 10;
    let q: u128 = t / (d as u128);
    let rem: u128 = t % (d as u128);
    if rem * 2 > d as u128 || (rem * 2 == d as u128 && q % 2 == 1) {
        q + 1
    } else {
        q
    }
}

fn tenths_string(t: u128) -> (r: String)
    ensures
        r@ == tenths_text(t as nat),
{
    let whole = t / 10;
    let frac = t % 10;
    proof {
        reveal_strlit(".");
    }
    cat3(
        crate::text::u128_decimal(whole).as_str(),
        ".",
        crate::text::u128_decimal(frac).as_str(),
    )
}

/// What chrono writes for the instant `secs` seconds after the epoch, in UTC,
/// as `%Y-%m-%d %H:%M:%S`; none where chrono has no date for it.
pub uninterp spec fn utc_text(secs: i64) -> Option<Seq<char>>;

/// `chrono::DateTime::from_timestamp(secs, 0)` formatted as
/// `%Y-%m-%d %H:%M:%S`, or none where chrono refuses the instant.
#[verifier::external_body]
fn utc_datetime_text(secs: i64) -> (r: Option<String>)
    ensures
        match r {
            Some(t) => utc_text(secs) == Some(t@),
            None => utc_text(secs) is None,
        },
{
    match chrono::DateTime::from_timestamp(secs, 0) {
        Some(dt) => Some(dt.format("%Y-%m-%d %H:%M:%S").to_string()),
        None => None,
    }
}

/// A creation time as people read it: the UTC date and time of its whole
/// second, or `Unknown` for a time before the epoch or one chrono cannot
/// date.
pub open spec fn created_text(millis: i64) -> Seq<char> {
    if millis < 0 {
        "Unknown"@
    } else {
        match utc_text((millis / 1000) as i64) {
            Some(t) => t,
            None => "Unknown"@,
        }
    }
}

impl BackupInfo {
    /// Returns a human-readable timestamp of the backup's creation.
    pub fn created_timestamp(&self) -> (r: String)
        ensures
            r@ == created_text(self.created@),
    {
        let millis = self.created.as_millis();
        if millis < 0 {
            return owned("Unknown");
        }
        match utc_datetime_text(millis / 1000) {
            Some(t) => t,
            None => owned("Unknown"),
        }
    }

    /// Returns file size in a human-readable format
    pub fn size_human(&self) -> (r: String)
        ensures
            r@ == size_text(self.size_bytes as nat),
    {
        let bytes = self.size_bytes;
        if bytes < 1024 {
            proof {
                reveal_strlit(" B");
            }
            concat(u64_decimal(bytes).as_str(), " B")
        } else if bytes < 1048576 {
            proof {
                reveal_strlit(" KB");
            }
            concat(tenths_string(round_tenths(bytes, 1024)).as_str(), " KB")
        } else {
            proof {
                reveal_strlit(" MB");
            }
            concat(tenths_string(round_tenths(bytes, 1048576)).as_str(), " MB")
        }
    }
}

// ------------------------------------------------------- loading and saving

/// Current config file format version for migrations
pub const CONFIG_VERSION: u32 = 1;

/// Whether a config file of the given format version must be migrated:
/// only older versions are; newer ones are used as they are.
pub fn needs_migration(version: u32) -> (r: bool)
    ensures
        r == (version < CONFIG_VERSION),
{
    version < CONFIG_VERSION
}

/// The format version of a config after migration: the current one for an
/// older file, the file's own otherwise.
pub fn migrated_version(version: u32) -> (r: u32)
    ensures
        r == (if version < CONFIG_VERSION { CONFIG_VERSION } else { version }),
{
    if version < CONFIG_VERSION {
        CONFIG_VERSION
    } else {
        version
    }
}

/// The texts of the issues, in order.
pub open spec fn issue_texts(v: Seq<ValidationIssue>) -> Seq<Seq<char>> {
    v.map_values(|e: ValidationIssue| issue_text(e))
}

/// Each error as text, in order.
pub fn validation_messages(errors: &Vec<ValidationError>) -> (r: Vec<String>)
    ensures
        crate::validate::texts(r@) == issue_texts(issues_of(errors@)),
{
    let mut out: Vec<String> = Vec::new();
    let mut i: usize = 0;
    while i < errors.len()
        invariant
            i <= errors@.len(),
            crate::validate::texts(out@) == issue_texts(issues_of(errors@.subrange(0, i as int))),
        decreases errors@.len() - i,
    {
        let ghost before = out@;
        out.push(errors[i].to_string());
        proof {
            assert(issue_texts(issues_of(errors@.subrange(0, i + 1))) =~= issue_texts(
                issues_of(errors@.subrange(0, i as int)),
            ).push(issue_text(errors@[i as int]@)));
            assert(crate::validate::texts(out@) =~= crate::validate::texts(before).push(
                issue_text(errors@[i as int]@),
            ));
        }
        i = i + 1;
    }
    proof {
        assert(errors@.subrange(0, errors@.len() as int) =~= errors@);
    }
    out
}

/// All errors as one text, separated by "; ", as a refused save reports them.
pub fn validation_summary(errors: &Vec<ValidationError>) -> (r: String)
    ensures
        r@ == joined(issue_texts(issues_of(errors@)), "; "@),
{
    let messages = validation_messages(errors);
    let ghost items = crate::validate::texts(messages@);
    let mut out = String::new();
    let mut i: usize = 0;
    while i < messages.len()
        invariant
            i <= messages@.len(),
            items == crate::validate::texts(messages@),
            out@ == joined(items.subrange(0, i as int), "; "@),
        decreases messages@.len() - i,
    {
        proof {
            let next = items.subrange(0, i + 1);
            assert(next.drop_last() =~= items.subrange(0, i as int));
            reveal_strlit("; ");
        }
        if i == 0 {
            out = owned(messages[i].as_str());
        } else {
            out = cat3(out.as_str(), "; ", messages[i].as_str());
        }
        i = i + 1;
    }
    proof {
        assert(items.subrange(0, items.len() as int) =~= items);
    }
    out
}

} // verus!
