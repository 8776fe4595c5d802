//! Error types and recovery strategies.
//!
//! Errors fall into three severity tiers: recoverable (can be retried
//! automatically), degraded (a feature is disabled but the app continues) and
//! fatal (restart or user intervention needed). Each error also carries a
//! recommended recovery action and a user-facing message.

use vstd::prelude::*;
use crate::text::{cat3, cat4, cat5, cat7, concat, decimal, owned, u64_decimal};

verus! {

#[verifier::external_type_specification]
#[verifier::external_body]
pub struct ExIoError(std::io::Error);

/// Recovery actions that can be taken when an error occurs
#[derive(Debug, Clone, Copy, PartialEq, Eq, Structural)]
pub enum RecoveryAction {
    /// Retry the operation immediately (e.g., transient network glitch)
    RetryImmediate,
    /// Retry with exponential backoff (e.g., server temporarily unavailable)
    RetryWithBackoff,
    /// Disable the failing feature and continue (e.g., missing optional codec)
    DisableFeature,
    /// Attempt to repair the database and retry
    RepairDatabase,
    /// Restore from the most recent backup
    RestoreBackup,
    /// Perform a safe shutdown and require user restart
    SafeShutdown,
    /// No automatic recovery - user intervention required
    UserIntervention,
}

pub open spec fn recovery_action_text(a: RecoveryAction) -> Seq<char> {
    match a {
        RecoveryAction::RetryImmediate => "Retrying immediately"@,
        RecoveryAction::RetryWithBackoff => "Retrying with backoff"@,
        RecoveryAction::DisableFeature => "Disabling feature"@,
        RecoveryAction::RepairDatabase => "Repairing database"@,
        RecoveryAction::RestoreBackup => "Restoring from backup"@,
        RecoveryAction::SafeShutdown => "Performing safe shutdown"@,
        RecoveryAction::UserIntervention => "User intervention required"@,
    }
}

impl RecoveryAction {
    /// The action as its `Display` form shows it.
    pub fn to_string(&self) -> (r: String)
        ensures
            r@ == recovery_action_text(*self),
    {
        match self {
            RecoveryAction::RetryImmediate => owned("Retrying immediately"),
            RecoveryAction::RetryWithBackoff => owned("Retrying with backoff"),
            RecoveryAction::DisableFeature => owned("Disabling feature"),
            RecoveryAction::RepairDatabase => owned("Repairing database"),
            RecoveryAction::RestoreBackup => owned("Restoring from backup"),
            RecoveryAction::SafeShutdown => owned("Performing safe shutdown"),
            RecoveryAction::UserIntervention => owned("User intervention required"),
        }
    }
}

/// Error severity classification, ordered from least to most severe
#[derive(Debug, Clone, Copy, PartialEq, Eq, PartialOrd, Ord, Structural)]
pub enum ErrorSeverity {
    /// Error can be automatically recovered from
    Recoverable,
    /// Feature degraded but app can continue
    Degraded,
    /// Critical error requiring restart or user action
    Fatal,
}

pub open spec fn severity_text(s: ErrorSeverity) -> Seq<char> {
    match s {
        ErrorSeverity::Recoverable => "Recoverable"@,
        ErrorSeverity::Degraded => "Degraded"@,
        ErrorSeverity::Fatal => "Fatal"@,
    }
}

impl ErrorSeverity {
    /// The severity as its `Display` form shows it.
    pub fn to_string(&self) -> (r: String)
        ensures
            r@ == severity_text(*self),
    {
        match self {
            ErrorSeverity::Recoverable => owned("Recoverable"),
            ErrorSeverity::Degraded => owned("Degraded"),
            ErrorSeverity::Fatal => owned("Fatal"),
        }
    }
}

/// Main error type. Paths are held as text; the error an error was built
/// from is held as its message.
#[derive(Debug)]
#[allow(inconsistent_fields)]
pub enum AppError {
    // ===== Network Errors =====
    NetworkError { message: String, source: Option<String> },
    NetworkTimeout { operation: String, seconds: u64 },
    ConnectionLost { message: String },
    InvalidUrl { url: String },
    // ===== Database Errors =====
    DatabaseError { message: String, source: Option<String> },
    DatabaseCorrupted { details: String },
    MigrationFailed { version: String, reason: String },
    DatabaseLocked { operation: String },
    RecordNotFound { entity: String, identifier: String },
    // ===== Audio/Media Errors =====
    UnsupportedFormat { format: String, file: String },
    AudioDecodeError { message: String, source: Option<String> },
    CorruptedAudioFile { file: String, reason: String },
    PlaybackDeviceError { message: String },
    InvalidPosition { position: u64, duration: u64 },
    // ===== File System Errors =====
    FileNotFound { path: String },
    PermissionDenied { operation: String, path: String },
    DiskFull { needed_bytes: u64, available_bytes: u64 },
    IoError { message: String, source: std::io::Error },
    // ===== Parsing/Metadata Errors =====
    MetadataParseError { file: String, reason: String },
    InvalidMetadata { field: String, value: String },
    MissingMetadata { field: String, file: String },
    // ===== Content Source Errors =====
    ContentSourceUnavailable { provider: String, reason: String },
    InvalidContentResponse { provider: String, details: String },
    ContentNotFound { identifier: String, provider: String },
    // ===== Configuration/Settings Errors =====
    InvalidConfiguration { setting: String, value: String, reason: String },
    ConfigurationCorrupted { path: String },
    // ===== Sync Errors =====
    SyncConflict { entity: String },
    SyncAuthFailed { provider: String },
    // ===== Cache Errors =====
    CacheWriteFailed { reason: String },
    CacheCorrupted { path: String, reason: String },
    // ===== System Resource Errors =====
    OutOfMemory { requested_bytes: u64 },
    TooManyOpenFiles { limit: usize },
    // ===== Generic Errors =====
    InternalError { message: String },
    Cancelled { operation: String },
    InvalidArgument { argument: String, reason: String },
}

/// Convenience type alias for Results using AppError
pub type Result<T> = std::result::Result<T, AppError>;

pub open spec fn severity_of(e: &AppError) -> ErrorSeverity {
    match e {
        AppError::NetworkError { .. }
        | AppError::NetworkTimeout { .. }
        | AppError::ConnectionLost { .. }
        | AppError::DatabaseLocked { .. }
        | AppError::CacheWriteFailed { .. } => ErrorSeverity::Recoverable,
        AppError::DatabaseCorrupted { .. }
        | AppError::MigrationFailed { .. }
        | AppError::OutOfMemory { .. }
        | AppError::DiskFull { .. }
        | AppError::ConfigurationCorrupted { .. }
        | AppError::CorruptedAudioFile { .. }
        | AppError::TooManyOpenFiles { .. } => ErrorSeverity::Fatal,
        _ => ErrorSeverity::Degraded,
    }
}

pub open spec fn recovery_of(e: &AppError) -> RecoveryAction {
    match e {
        AppError::NetworkTimeout { .. } | AppError::ConnectionLost { .. } => RecoveryAction::RetryImmediate,
        AppError::NetworkError { .. }
        | AppError::DatabaseLocked { .. }
        | AppError::CacheWriteFailed { .. } => RecoveryAction::RetryWithBackoff,
        AppError::DatabaseCorrupted { .. } => RecoveryAction::RepairDatabase,
        AppError::MigrationFailed { .. } | AppError::ConfigurationCorrupted { .. } => RecoveryAction::RestoreBackup,
        AppError::UnsupportedFormat { .. }
        | AppError::ContentSourceUnavailable { .. }
        | AppError::PlaybackDeviceError { .. }
        | AppError::CacheCorrupted { .. } => RecoveryAction::DisableFeature,
        AppError::OutOfMemory { .. } | AppError::TooManyOpenFiles { .. } => RecoveryAction::SafeShutdown,
        _ => RecoveryAction::UserIntervention,
    }
}

pub open spec fn is_retry(a: RecoveryAction) -> bool {
    a == RecoveryAction::RetryImmediate || a == RecoveryAction::RetryWithBackoff
}

/// The message shown to the user; it names no internal detail but the
/// audio format, the content provider or the setting concerned.
pub open spec fn user_message_of(e: &AppError) -> Seq<char> {
    match e {
        AppError::NetworkError { .. } | AppError::NetworkTimeout { .. } =>
            "Cannot connect to the internet. Please check your connection."@,
        AppError::ConnectionLost { .. } => "Connection was interrupted. Tap to retry."@,
        AppError::InvalidUrl { .. } => "The link provided is not valid."@,
        AppError::DatabaseError { .. } | AppError::DatabaseLocked { .. } =>
            "Database is temporarily unavailable. Please try again."@,
        AppError::DatabaseCorrupted { .. } =>
            "The app's database is damaged and needs repair. Your data will be restored from the latest backup."@,
        AppError::MigrationFailed { .. } =>
            "Failed to update the app's database. Restoring from backup..."@,
        AppError::RecordNotFound { .. } => "The requested item was not found."@,
        AppError::UnsupportedFormat { format, .. } =>
            "This audio format ("@ + format@ + ") is not supported."@,
        AppError::AudioDecodeError { .. } =>
            "Cannot play this audio file. It may be corrupted or in an unsupported format."@,
        AppError::CorruptedAudioFile { .. } => "This audio file is damaged and cannot be played."@,
        AppError::PlaybackDeviceError { .. } =>
            "Cannot access audio playback. Please check your device settings."@,
        AppError::InvalidPosition { .. } => "Cannot seek to that position in the audio."@,
        AppError::FileNotFound { .. } =>
            "The file was not found. It may have been moved or deleted."@,
        AppError::PermissionDenied { .. } =>
            "Permission denied. Please grant storage access in Settings."@,
        AppError::DiskFull { .. } =>
            "Not enough storage space. Please free up some space and try again."@,
        AppError::IoError { .. } => "A file operation failed. Please try again."@,
        AppError::MetadataParseError { .. } | AppError::InvalidMetadata { .. } =>
            "Cannot read this file's information."@,
        AppError::MissingMetadata { .. } => "This file is missing important information."@,
        AppError::ContentSourceUnavailable { provider, .. } =>
            provider@ + " is currently unavailable. Please try again later."@,
        AppError::ContentNotFound { .. } => "The requested content was not found."@,
        AppError::InvalidContentResponse { .. } => "Received invalid data from the server."@,
        AppError::InvalidConfiguration { setting, .. } =>
            "Invalid setting: "@ + setting@ + ". Please check your configuration."@,
        AppError::ConfigurationCorrupted { .. } =>
            "App settings are corrupted. Resetting to defaults..."@,
        AppError::SyncConflict { .. } =>
            "This item was modified on multiple devices. Please choose which version to keep."@,
        AppError::SyncAuthFailed { .. } => "Sync authentication failed. Please sign in again."@,
        AppError::CacheWriteFailed { .. } => "Cannot save cached data. Streaming may be slower."@,
        AppError::CacheCorrupted { .. } => "Cache is corrupted and will be cleared."@,
        AppError::OutOfMemory { .. } =>
            "Out of memory. The app will restart to free up resources."@,
        AppError::TooManyOpenFiles { .. } => "Too many files are open. The app will restart."@,
        AppError::InternalError { .. } => "An unexpected error occurred. Please try again."@,
        AppError::Cancelled { .. } => "Operation was cancelled."@,
        AppError::InvalidArgument { .. } => "Invalid input provided."@,
    }
}

/// The text of an I/O error, as its `Display` form shows it.
#[verifier::external_body]
pub(crate) fn io_error_text(e: &std::io::Error) -> String {
    e.to_string()
}

/// The error's text, as its `Display` form shows it. For an I/O error the
/// message was taken from the error's own text when it was built.
pub open spec fn display_text_of(e: &AppError) -> Seq<char> {
    match e {
        AppError::NetworkError { message, .. } => "Network error: "@ + message@,
        AppError::NetworkTimeout { operation, seconds } =>
            "Network timeout after "@ + decimal(*seconds as nat) + "s: "@ + operation@,
        AppError::ConnectionLost { message } => "Connection lost: "@ + message@,
        AppError::InvalidUrl { url } => "Invalid URL: "@ + url@,
        AppError::DatabaseError { message, .. } => "Database error: "@ + message@,
        AppError::DatabaseCorrupted { details } => "Database corrupted: "@ + details@,
        AppError::MigrationFailed { version, reason } =>
            "Migration failed: "@ + version@ + " - "@ + reason@,
        AppError::DatabaseLocked { operation } => "Database locked: "@ + operation@,
        AppError::RecordNotFound { entity, identifier } =>
            "Record not found: "@ + entity@ + " with "@ + identifier@,
        AppError::UnsupportedFormat { format, file } =>
            "Unsupported audio format: "@ + format@ + " in file "@ + file@,
        AppError::AudioDecodeError { message, .. } => "Audio decode error: "@ + message@,
        AppError::CorruptedAudioFile { file, reason } =>
            "Corrupted audio file: "@ + file@ + " - "@ + reason@,
        AppError::PlaybackDeviceError { message } => "Playback device error: "@ + message@,
        AppError::InvalidPosition { position, duration } =>
            "Invalid audio position: "@ + decimal(*position as nat) + "ms (file duration: "@
                + decimal(*duration as nat) + "ms)"@,
        AppError::FileNotFound { path } => "File not found: "@ + path@,
        AppError::PermissionDenied { operation, path } =>
            "Permission denied: "@ + operation@ + " on "@ + path@,
        AppError::DiskFull { needed_bytes, available_bytes } =>
            "Disk full: needed "@ + decimal(*needed_bytes as nat) + " bytes, available "@
                + decimal(*available_bytes as nat) + " bytes"@,
        AppError::IoError { message, .. } => "I/O error: "@ + message@,
        AppError::MetadataParseError { file, reason } =>
            "Metadata parse error in "@ + file@ + ": "@ + reason@,
        AppError::InvalidMetadata { field, value } =>
            "Invalid metadata: "@ + field@ + " has invalid value '"@ + value@ + "'"@,
        AppError::MissingMetadata { field, file } =>
            "Missing required metadata: "@ + field@ + " in "@ + file@,
        AppError::ContentSourceUnavailable { provider, reason } =>
            "Content source '"@ + provider@ + "' unavailable: "@ + reason@,
        AppError::InvalidContentResponse { provider, details } =>
            "Invalid response from "@ + provider@ + ": "@ + details@,
        AppError::ContentNotFound { identifier, provider } =>
            "Content not found: "@ + identifier@ + " at "@ + provider@,
        AppError::InvalidConfiguration { setting, value, reason } =>
            "Invalid configuration: "@ + setting@ + " = '"@ + value@ + "' ("@ + reason@ + ")"@,
        AppError::ConfigurationCorrupted { path } => "Configuration corrupted: "@ + path@,
        AppError::SyncConflict { entity } =>
            "Sync conflict: "@ + entity@ + " modified on multiple devices"@,
        AppError::SyncAuthFailed { provider } => "Sync authentication failed: "@ + provider@,
        AppError::CacheWriteFailed { reason } => "Cache write failed: "@ + reason@,
        AppError::CacheCorrupted { path, reason } =>
            "Cache corrupted at "@ + path@ + ": "@ + reason@,
        AppError::OutOfMemory { requested_bytes } =>
            "Out of memory: requested "@ + decimal(*requested_bytes as nat) + " bytes"@,
        AppError::TooManyOpenFiles { limit } =>
            "Too many open files (limit: "@ + decimal(*limit as nat) + ")"@,
        AppError::InternalError { message } => "Internal error: "@ + message@,
        AppError::Cancelled { operation } => "Operation cancelled: "@ + operation@,
        AppError::InvalidArgument { argument, reason } =>
            "Invalid argument: "@ + argument@ + " - "@ + reason@,
    }
}

/// The kinds of I/O error that the conversion tells apart.
#[derive(Debug, Clone, Copy, PartialEq, Eq, Structural)]
pub enum IoErrorKind {
    NotFound,
    PermissionDenied,
    Other,
}

/// `io::Error::kind`, told apart into the kinds the conversion needs.
#[verifier::external_body]
fn io_error_kind(e: &std::io::Error) -> IoErrorKind {
    match e.kind() {
        std::io::ErrorKind::NotFound => IoErrorKind::NotFound,
        std::io::ErrorKind::PermissionDenied => IoErrorKind::PermissionDenied,
        _ => IoErrorKind::Other,
    }
}

impl AppError {
    /// Returns the severity level of this error
    pub fn severity(&self) -> (r: ErrorSeverity)
        ensures
            r == severity_of(self),
    {
        match self {
            AppError::NetworkError { .. }
            | AppError::NetworkTimeout { .. }
            | AppError::ConnectionLost { .. }
            | AppError::DatabaseLocked { .. }
            | AppError::CacheWriteFailed { .. } => ErrorSeverity::Recoverable,
            AppError::UnsupportedFormat { .. }
            | AppError::ContentSourceUnavailable { .. }
            | AppError::ContentNotFound { .. }
            | AppError::PlaybackDeviceError { .. }
            | AppError::InvalidContentResponse { .. }
            | AppError::CacheCorrupted { .. }
            | AppError::SyncConflict { .. }
            | AppError::SyncAuthFailed { .. } => ErrorSeverity::Degraded,
            AppError::DatabaseCorrupted { .. }
            | AppError::MigrationFailed { .. }
            | AppError::OutOfMemory { .. }
            | AppError::DiskFull { .. }
            | AppError::ConfigurationCorrupted { .. }
            | AppError::CorruptedAudioFile { .. }
            | AppError::TooManyOpenFiles { .. } => ErrorSeverity::Fatal,
            _ => ErrorSeverity::Degraded,
        }
    }

    /// Returns the recommended recovery action for this error
    pub fn recovery_action(&self) -> (r: RecoveryAction)
        ensures
            r == recovery_of(self),
    {
        match self {
            AppError::NetworkTimeout { .. } | AppError::ConnectionLost { .. } => {
                RecoveryAction::RetryImmediate
            },
            AppError::NetworkError { .. }
            | AppError::DatabaseLocked { .. }
            | AppError::CacheWriteFailed { .. } => RecoveryAction::RetryWithBackoff,
            AppError::DatabaseCorrupted { .. } => RecoveryAction::RepairDatabase,
            AppError::MigrationFailed { .. } | AppError::ConfigurationCorrupted { .. } => {
                RecoveryAction::RestoreBackup
            },
            AppError::UnsupportedFormat { .. }
            | AppError::ContentSourceUnavailable { .. }
            | AppError::PlaybackDeviceError { .. }
            | AppError::CacheCorrupted { .. } => RecoveryAction::DisableFeature,
            AppError::OutOfMemory { .. } | AppError::TooManyOpenFiles { .. } => {
                RecoveryAction::SafeShutdown
            },
            AppError::DiskFull { .. }
            | AppError::PermissionDenied { .. }
            | AppError::SyncAuthFailed { .. } => RecoveryAction::UserIntervention,
            _ => RecoveryAction::UserIntervention,
        }
    }

    /// Returns a user-friendly error message suitable for display in the UI
    pub fn user_message(&self) -> (r: String)
        ensures
            r@ == user_message_of(self),
    {
        match self {
            AppError::NetworkError { .. } | AppError::NetworkTimeout { .. } => owned(
                "Cannot connect to the internet. Please check your connection.",
            ),
            AppError::ConnectionLost { .. } => owned("Connection was interrupted. Tap to retry."),
            AppError::InvalidUrl { .. } => owned("The link provided is not valid."),
            AppError::DatabaseError { .. } | AppError::DatabaseLocked { .. } => owned(
                "Database is temporarily unavailable. Please try again.",
            ),
            AppError::DatabaseCorrupted { .. } => owned(
                "The app's database is damaged and needs repair. Your data will be restored from the latest backup.",
            ),
            AppError::MigrationFailed { .. } => owned(
                "Failed to update the app's database. Restoring from backup...",
            ),
            AppError::RecordNotFound { .. } => owned("The requested item was not found."),
            AppError::UnsupportedFormat { format, .. } => cat3(
                "This audio format (",
                format.as_str(),
                ") is not supported.",
            ),
            AppError::AudioDecodeError { .. } => owned(
                "Cannot play this audio file. It may be corrupted or in an unsupported format.",
            ),
            AppError::CorruptedAudioFile { .. } => owned(
                "This audio file is damaged and cannot be played.",
            ),
            AppError::PlaybackDeviceError { .. } => owned(
                "Cannot access audio playback. Please check your device settings.",
            ),
            AppError::InvalidPosition { .. } => owned("Cannot seek to that position in the audio."),
            AppError::FileNotFound { .. } => owned(
                "The file was not found. It may have been moved or deleted.",
            ),
            AppError::PermissionDenied { .. } => owned(
                "Permission denied. Please grant storage access in Settings.",
            ),
            AppError::DiskFull { .. } => owned(
                "Not enough storage space. Please free up some space and try again.",
            ),
            AppError::IoError { .. } => owned("A file operation failed. Please try again."),
            AppError::MetadataParseError { .. } | AppError::InvalidMetadata { .. } => owned(
                "Cannot read this file's information.",
            ),
            AppError::MissingMetadata { .. } => owned("This file is missing important information."),
            AppError::ContentSourceUnavailable { provider, .. } => concat(
                provider.as_str(),
                " is currently unavailable. Please try again later.",
            ),
            AppError::ContentNotFound { .. } => owned("The requested content was not found."),
            AppError::InvalidContentResponse { .. } => owned("Received invalid data from the server."),
            AppError::InvalidConfiguration { setting, .. } => cat3(
                "Invalid setting: ",
                setting.as_str(),
                ". Please check your configuration.",
            ),
            AppError::ConfigurationCorrupted { .. } => owned(
                "App settings are corrupted. Resetting to defaults...",
            ),
            AppError::SyncConflict { .. } => owned(
                "This item was modified on multiple devices. Please choose which version to keep.",
            ),
            AppError::SyncAuthFailed { .. } => owned(
                "Sync authentication failed. Please sign in again.",
            ),
            AppError::CacheWriteFailed { .. } => owned(
                "Cannot save cached data. Streaming may be slower.",
            ),
            AppError::CacheCorrupted { .. } => owned("Cache is corrupted and will be cleared."),
            AppError::OutOfMemory { .. } => owned(
                "Out of memory. The app will restart to free up resources.",
            ),
            AppError::TooManyOpenFiles { .. } => owned("Too many files are open. The app will restart."),
            AppError::InternalError { .. } => owned("An unexpected error occurred. Please try again."),
            AppError::Cancelled { .. } => owned("Operation was cancelled."),
            AppError::InvalidArgument { .. } => owned("Invalid input provided."),
        }
    }

    /// The error's text, as its `Display` form shows it.
    pub fn to_string(&self) -> (r: String)
        ensures
            r@ == display_text_of(self),
    {
        match self {
            AppError::NetworkError { message, .. } => concat("Network error: ", message.as_str()),
            AppError::NetworkTimeout { operation, seconds } => {
                let s = u64_decimal(*seconds);
                cat4("Network timeout after ", s.as_str(), "s: ", operation.as_str())
            },
            AppError::ConnectionLost { message } => concat("Connection lost: ", message.as_str()),
            AppError::InvalidUrl { url } => concat("Invalid URL: ", url.as_str()),
            AppError::DatabaseError { message, .. } => concat("Database error: ", message.as_str()),
            AppError::DatabaseCorrupted { details } => concat(
                "Database corrupted: ",
                details.as_str(),
            ),
            AppError::MigrationFailed { version, reason } => cat4(
                "Migration failed: ",
                version.as_str(),
                " - ",
                reason.as_str(),
            ),
            AppError::DatabaseLocked { operation } => concat(
                "Database locked: ",
                operation.as_str(),
            ),
            AppError::RecordNotFound { entity, identifier } => cat4(
                "Record not found: ",
                entity.as_str(),
                " with ",
                identifier.as_str(),
            ),
            AppError::UnsupportedFormat { format, file } => cat4(
                "Unsupported audio format: ",
                format.as_str(),
                " in file ",
                file.as_str(),
            ),
            AppError::AudioDecodeError { message, .. } => concat(
                "Audio decode error: ",
                message.as_str(),
            ),
            AppError::CorruptedAudioFile { file, reason } => cat4(
                "Corrupted audio file: ",
                file.as_str(),
                " - ",
                reason.as_str(),
            ),
            AppError::PlaybackDeviceError { message } => concat(
                "Playback device error: ",
                message.as_str(),
            ),
            AppError::InvalidPosition { position, duration } => {
                let p = u64_decimal(*position);
                let d = u64_decimal(*duration);
                cat5("Invalid audio position: ", p.as_str(), "ms (file duration: ", d.as_str(), "ms)")
            },
            AppError::FileNotFound { path } => concat("File not found: ", path.as_str()),
            AppError::PermissionDenied { operation, path } => cat4(
                "Permission denied: ",
                operation.as_str(),
                " on ",
                path.as_str(),
            ),
            AppError::DiskFull { needed_bytes, available_bytes } => {
                let n = u64_decimal(*needed_bytes);
                let a = u64_decimal(*available_bytes);
                cat5("Disk full: needed ", n.as_str(), " bytes, available ", a.as_str(), " bytes")
            },
            AppError::IoError { message, .. } => concat("I/O error: ", message.as_str()),
            AppError::MetadataParseError { file, reason } => cat4(
                "Metadata parse error in ",
                file.as_str(),
                ": ",
                reason.as_str(),
            ),
            AppError::InvalidMetadata { field, value } => cat5(
                "Invalid metadata: ",
                field.as_str(),
                " has invalid value '",
                value.as_str(),
                "'",
            ),
            AppError::MissingMetadata { field, file } => cat4(
                "Missing required metadata: ",
                field.as_str(),
                " in ",
                file.as_str(),
            ),
            AppError::ContentSourceUnavailable { provider, reason } => cat4(
                "Content source '",
                provider.as_str(),
                "' unavailable: ",
                reason.as_str(),
            ),
            AppError::InvalidContentResponse { provider, details } => cat4(
                "Invalid response from ",
                provider.as_str(),
                ": ",
                details.as_str(),
            ),
            AppError::ContentNotFound { identifier, provider } => cat4(
                "Content not found: ",
                identifier.as_str(),
                " at ",
                provider.as_str(),
            ),
            AppError::InvalidConfiguration { setting, value, reason } => cat7(
                "Invalid configuration: ",
                setting.as_str(),
                " = '",
                value.as_str(),
                "' (",
                reason.as_str(),
                ")",
            ),
            AppError::ConfigurationCorrupted { path } => concat(
                "Configuration corrupted: ",
                path.as_str(),
            ),
            AppError::SyncConflict { entity } => cat3(
                "Sync conflict: ",
                entity.as_str(),
                " modified on multiple devices",
            ),
            AppError::SyncAuthFailed { provider } => concat(
                "Sync authentication failed: ",
                provider.as_str(),
            ),
            AppError::CacheWriteFailed { reason } => concat("Cache write failed: ", reason.as_str()),
            AppError::CacheCorrupted { path, reason } => cat4(
                "Cache corrupted at ",
                path.as_str(),
                ": ",
                reason.as_str(),
            ),
            AppError::OutOfMemory { requested_bytes } => {
                let n = u64_decimal(*requested_bytes);
                cat3("Out of memory: requested ", n.as_str(), " bytes")
            },
            AppError::TooManyOpenFiles { limit } => {
                let n = u64_decimal(*limit as u64);
                cat3("Too many open files (limit: ", n.as_str(), ")")
            },
            AppError::InternalError { message } => concat("Internal error: ", message.as_str()),
            AppError::Cancelled { operation } => concat(
                "Operation cancelled: ",
                operation.as_str(),
            ),
            AppError::InvalidArgument { argument, reason } => cat4(
                "Invalid argument: ",
                argument.as_str(),
                " - ",
                reason.as_str(),
            ),
        }
    }

    /// The message of the error this one was built from, if any.
    pub fn source(&self) -> (r: Option<String>)
        ensures
            match self {
                AppError::NetworkError { source, .. }
                | AppError::DatabaseError { source, .. }
                | AppError::AudioDecodeError { source, .. } => match source {
                    Some(s) => r is Some && r->0@ == s@,
                    None => r is None,
                },
                AppError::IoError { .. } => r is Some,
                _ => r is None,
            },
    {
        match self {
            AppError::NetworkError { source, .. }
            | AppError::DatabaseError { source, .. }
            | AppError::AudioDecodeError { source, .. } => match source {
                Some(s) => Some(owned(s.as_str())),
                None => None,
            },
            AppError::IoError { source, .. } => Some(io_error_text(source)),
            _ => None,
        }
    }

    /// Returns true if this error should be logged at ERROR level
    pub fn is_critical(&self) -> (r: bool)
        ensures
            r == (severity_of(self) == ErrorSeverity::Fatal),
    {
        match self.severity() {
            ErrorSeverity::Fatal => true,
            _ => false,
        }
    }

    /// Returns true if this error can be automatically retried: exactly the
    /// recoverable errors are.
    pub fn is_retryable(&self) -> (r: bool)
        ensures
            r == is_retry(recovery_of(self)),
            r == (severity_of(self) == ErrorSeverity::Recoverable),
    {
        match self.recovery_action() {
            RecoveryAction::RetryImmediate | RecoveryAction::RetryWithBackoff => true,
            _ => false,
        }
    }

    /// A network error with the text of the error that caused it
    pub fn network(message: &str, source: String) -> (r: Self)
        ensures
            r matches AppError::NetworkError { message: m, source: Some(s) } && m@ == message@
                && s@ == source@,
    {
        AppError::NetworkError { message: owned(message), source: Some(source) }
    }

    /// A database error with the text of the error that caused it
    pub fn database(message: &str, source: String) -> (r: Self)
        ensures
            r matches AppError::DatabaseError { message: m, source: Some(s) } && m@ == message@
                && s@ == source@,
    {
        AppError::DatabaseError { message: owned(message), source: Some(source) }
    }

    /// An audio decode error with the text of the error that caused it
    pub fn audio_decode(message: &str, source: String) -> (r: Self)
        ensures
            r matches AppError::AudioDecodeError { message: m, source: Some(s) } && m@
                == message@ && s@ == source@,
    {
        AppError::AudioDecodeError { message: owned(message), source: Some(source) }
    }
}

/// An error is retried automatically exactly when it is recoverable, and a
/// critical error is never retried automatically.
pub proof fn law_retryable_errors_are_recoverable(e: &AppError)
    ensures
        is_retry(recovery_of(e)) <==> severity_of(e) == ErrorSeverity::Recoverable,
        severity_of(e) == ErrorSeverity::Fatal ==> !is_retry(recovery_of(e)),
{
}

impl vstd::std_specs::convert::FromSpecImpl<std::io::Error> for AppError {
    /// The variant chosen depends on the I/O error's kind, which has no
    /// specification here; `from` states what holds of each outcome.
    open spec fn obeys_from_spec() -> bool {
        false
    }

    open spec fn from_spec(v: std::io::Error) -> AppError {
        arbitrary()
    }
}

impl From<std::io::Error> for AppError {
    /// A missing file and a refused permission get their own variants (the
    /// path is not known here); any other I/O error keeps its text and itself.
    fn from(err: std::io::Error) -> (r: Self)
        ensures
            r matches AppError::FileNotFound { path } ==> path@ == "unknown"@,
            r matches AppError::PermissionDenied { operation, path } ==> operation@
                == "file operation"@ && path@ == "unknown"@,
            r is FileNotFound || r is PermissionDenied || r is IoError,
    {
        let kind = io_error_kind(&err);
        AppError::from_io_kind(kind, err)
    }
}

impl AppError {
    /// The error that an I/O error of the given kind becomes: a missing file
    /// and a refused permission get their own variants, with the path
    /// unknown; any other kind keeps the error and its text.
    pub fn from_io_kind(kind: IoErrorKind, err: std::io::Error) -> (r: Self)
        ensures
            kind == IoErrorKind::NotFound ==> (r matches AppError::FileNotFound { path }
                && path@ == "unknown"@),
            kind == IoErrorKind::PermissionDenied ==> (r matches AppError::PermissionDenied {
                operation,
                path,
            } && operation@ == "file operation"@ && path@ == "unknown"@),
            kind == IoErrorKind::Other ==> (r matches AppError::IoError { source, .. }
                && source == err),
    {
        match kind {
            IoErrorKind::NotFound => AppError::FileNotFound { path: owned("unknown") },
            IoErrorKind::PermissionDenied => AppError::PermissionDenied {
                operation: owned("file operation"),
                path: owned("unknown"),
            },
            IoErrorKind::Other => {
                let message = io_error_text(&err);
                AppError::IoError { message, source: err }
            },
        }
    }
}

} // verus!
