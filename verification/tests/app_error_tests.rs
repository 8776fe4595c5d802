use std::io;
use storystream::app_error::{AppError, ErrorSeverity, IoErrorKind, RecoveryAction};

#[test]
fn test_recovery_action_display() {
    assert_eq!(RecoveryAction::RetryImmediate.to_string(), "Retrying immediately");
    assert_eq!(RecoveryAction::RetryWithBackoff.to_string(), "Retrying with backoff");
    assert_eq!(RecoveryAction::DisableFeature.to_string(), "Disabling feature");
    assert_eq!(RecoveryAction::RepairDatabase.to_string(), "Repairing database");
    assert_eq!(RecoveryAction::RestoreBackup.to_string(), "Restoring from backup");
    assert_eq!(RecoveryAction::SafeShutdown.to_string(), "Performing safe shutdown");
    assert_eq!(RecoveryAction::UserIntervention.to_string(), "User intervention required");
}

#[test]
fn test_error_severity_ordering() {
    assert!(ErrorSeverity::Recoverable < ErrorSeverity::Degraded);
    assert!(ErrorSeverity::Degraded < ErrorSeverity::Fatal);
}

#[test]
fn test_network_error_severity() {
    let err = AppError::NetworkError { message: "Connection failed".to_string(), source: None };
    assert_eq!(err.severity(), ErrorSeverity::Recoverable);
    assert_eq!(err.recovery_action(), RecoveryAction::RetryWithBackoff);
    assert!(err.is_retryable());
    assert!(!err.is_critical());
}

#[test]
fn test_network_timeout_severity() {
    let err = AppError::NetworkTimeout { operation: "download".to_string(), seconds: 30 };
    assert_eq!(err.severity(), ErrorSeverity::Recoverable);
    assert_eq!(err.recovery_action(), RecoveryAction::RetryImmediate);
    assert!(err.is_retryable());
}

#[test]
fn test_database_corrupted_severity() {
    let err = AppError::DatabaseCorrupted { details: "Invalid header".to_string() };
    assert_eq!(err.severity(), ErrorSeverity::Fatal);
    assert_eq!(err.recovery_action(), RecoveryAction::RepairDatabase);
    assert!(!err.is_retryable());
    assert!(err.is_critical());
}

#[test]
fn test_unsupported_format_severity() {
    let err = AppError::UnsupportedFormat {
        format: "WMA".to_string(),
        file: "/path/to/file.wma".to_string(),
    };
    assert_eq!(err.severity(), ErrorSeverity::Degraded);
    assert_eq!(err.recovery_action(), RecoveryAction::DisableFeature);
    assert!(!err.is_retryable());
    assert!(!err.is_critical());
}

#[test]
fn test_out_of_memory_severity() {
    let err = AppError::OutOfMemory { requested_bytes: 1_000_000 };
    assert_eq!(err.severity(), ErrorSeverity::Fatal);
    assert_eq!(err.recovery_action(), RecoveryAction::SafeShutdown);
    assert!(err.is_critical());
}

#[test]
fn test_disk_full_severity() {
    let err = AppError::DiskFull { needed_bytes: 1_000_000, available_bytes: 100_000 };
    assert_eq!(err.severity(), ErrorSeverity::Fatal);
    assert_eq!(err.recovery_action(), RecoveryAction::UserIntervention);
    assert!(err.is_critical());
}

#[test]
fn test_user_messages_are_friendly() {
    let err = AppError::NetworkError { message: "TCP connection refused".to_string(), source: None };
    let msg = err.user_message();
    assert!(!msg.contains("TCP"));
    assert!(msg.contains("internet"));

    let err2 = AppError::DatabaseCorrupted { details: "SQLite header corrupted".to_string() };
    let msg2 = err2.user_message();
    assert!(!msg2.contains("SQLite"));
    assert!(msg2.contains("database"));
}

#[test]
fn error_test_error_display() {
    let err = AppError::FileNotFound { path: "/test/file.mp3".to_string() };
    let display = err.to_string();
    assert!(display.contains("File not found"));
    assert!(display.contains("/test/file.mp3"));
}

#[test]
fn test_network_helper() {
    let inner_err = io::Error::new(io::ErrorKind::ConnectionRefused, "Connection refused");
    let err = AppError::network("Failed to connect", inner_err.to_string());

    assert!(matches!(err, AppError::NetworkError { .. }));
    if let AppError::NetworkError { message, source } = err {
        assert_eq!(message, "Failed to connect");
        assert!(source.is_some());
    }
}

#[test]
fn test_database_helper() {
    let inner_err = io::Error::new(io::ErrorKind::Other, "Database locked");
    let err = AppError::database("Query failed", inner_err.to_string());

    assert!(matches!(err, AppError::DatabaseError { .. }));
}

#[test]
fn test_audio_decode_helper() {
    let inner_err = io::Error::new(io::ErrorKind::InvalidData, "Invalid frame");
    let err = AppError::audio_decode("Decode failed", inner_err.to_string());

    assert!(matches!(err, AppError::AudioDecodeError { .. }));
}

#[test]
fn test_from_io_error_not_found() {
    let io_err = io::Error::new(io::ErrorKind::NotFound, "File not found");
    let app_err: AppError = io_err.into();

    assert!(matches!(app_err, AppError::FileNotFound { .. }));
}

#[test]
fn test_from_io_error_permission_denied() {
    let io_err = io::Error::new(io::ErrorKind::PermissionDenied, "Access denied");
    let app_err: AppError = io_err.into();

    assert!(matches!(app_err, AppError::PermissionDenied { .. }));
}

#[test]
fn test_from_io_error_other() {
    let io_err = io::Error::new(io::ErrorKind::Other, "Unknown error");
    let app_err: AppError = io_err.into();

    assert!(matches!(app_err, AppError::IoError { .. }));
}

#[test]
fn test_result_type_alias() {
    fn test_function() -> storystream::app_error::Result<i32> {
        Ok(42)
    }

    assert_eq!(test_function().unwrap(), 42);
}

#[test]
fn test_all_network_errors_have_correct_severity() {
    let errors = vec![
        AppError::NetworkError { message: "test".to_string(), source: None },
        AppError::NetworkTimeout { operation: "test".to_string(), seconds: 10 },
        AppError::ConnectionLost { message: "test".to_string() },
    ];

    for err in errors {
        assert_eq!(err.severity(), ErrorSeverity::Recoverable);
        assert!(err.is_retryable());
    }
}

#[test]
fn test_all_database_errors_have_correct_recovery() {
    let err1 = AppError::DatabaseLocked { operation: "write".to_string() };
    assert_eq!(err1.recovery_action(), RecoveryAction::RetryWithBackoff);

    let err2 = AppError::DatabaseCorrupted { details: "test".to_string() };
    assert_eq!(err2.recovery_action(), RecoveryAction::RepairDatabase);

    let err3 = AppError::MigrationFailed { version: "v2".to_string(), reason: "test".to_string() };
    assert_eq!(err3.recovery_action(), RecoveryAction::RestoreBackup);
}

#[test]
fn test_content_source_errors() {
    let err = AppError::ContentSourceUnavailable {
        provider: "LibriVox".to_string(),
        reason: "Server down".to_string(),
    };

    assert_eq!(err.severity(), ErrorSeverity::Degraded);
    assert_eq!(err.recovery_action(), RecoveryAction::DisableFeature);
    assert!(err.user_message().contains("LibriVox"));
}

#[test]
fn test_sync_errors_phase3_prep() {
    let err1 = AppError::SyncConflict { entity: "bookmark".to_string() };
    assert_eq!(err1.severity(), ErrorSeverity::Degraded);

    let err2 = AppError::SyncAuthFailed { provider: "Google Drive".to_string() };
    assert_eq!(err2.recovery_action(), RecoveryAction::UserIntervention);
}

#[test]
fn test_cache_errors() {
    let err1 = AppError::CacheWriteFailed { reason: "Disk full".to_string() };
    assert_eq!(err1.severity(), ErrorSeverity::Recoverable);

    let err2 = AppError::CacheCorrupted {
        path: "/cache".to_string(),
        reason: "Invalid header".to_string(),
    };
    assert_eq!(err2.severity(), ErrorSeverity::Degraded);
    assert_eq!(err2.recovery_action(), RecoveryAction::DisableFeature);
}

#[test]
fn test_system_resource_errors() {
    let err1 = AppError::OutOfMemory { requested_bytes: 1_000_000 };
    assert_eq!(err1.recovery_action(), RecoveryAction::SafeShutdown);
    assert!(err1.is_critical());

    let err2 = AppError::TooManyOpenFiles { limit: 1024 };
    assert_eq!(err2.recovery_action(), RecoveryAction::SafeShutdown);
    assert!(err2.is_critical());
}

#[test]
fn test_error_source_chain() {
    let inner = io::Error::new(io::ErrorKind::Other, "Inner error");
    let outer = AppError::network("Outer error", inner.to_string());

    assert!(outer.source().is_some());
}

#[test]
fn test_invalid_position_error() {
    let err = AppError::InvalidPosition { position: 5000, duration: 3000 };

    let display = err.to_string();
    assert!(display.contains("5000"));
    assert!(display.contains("3000"));
}

#[test]
fn test_metadata_errors() {
    let err1 = AppError::MetadataParseError {
        file: "/test.mp3".to_string(),
        reason: "Invalid ID3".to_string(),
    };
    assert!(!err1.is_critical());

    let err2 = AppError::InvalidMetadata { field: "duration".to_string(), value: "-5".to_string() };
    let msg = err2.user_message();
    assert!(!msg.is_empty());

    let err3 = AppError::MissingMetadata { field: "title".to_string(), file: "/test.mp3".to_string() };
    assert_eq!(err3.severity(), ErrorSeverity::Degraded);
}

#[test]
fn test_configuration_errors() {
    let err1 = AppError::InvalidConfiguration {
        setting: "playback_speed".to_string(),
        value: "5.0".to_string(),
        reason: "Must be between 0.5 and 3.0".to_string(),
    };
    assert!(!err1.is_retryable());

    let err2 = AppError::ConfigurationCorrupted { path: "/config.toml".to_string() };
    assert_eq!(err2.recovery_action(), RecoveryAction::RestoreBackup);
    assert!(err2.is_critical());
}

#[test]
fn test_cancelled_error() {
    let err = AppError::Cancelled { operation: "download".to_string() };
    assert!(!err.is_critical());
    assert!(!err.is_retryable());
}

#[test]
fn test_invalid_argument_error() {
    let err = AppError::InvalidArgument {
        argument: "volume".to_string(),
        reason: "Must be between 0 and 100".to_string(),
    };
    assert!(!err.is_retryable());
}

#[test]
fn severity_text_names_each_tier() {
    assert_eq!(ErrorSeverity::Recoverable.to_string(), "Recoverable");
    assert_eq!(ErrorSeverity::Degraded.to_string(), "Degraded");
    assert_eq!(ErrorSeverity::Fatal.to_string(), "Fatal");
}

#[test]
fn retryable_errors_are_recoverable_on_samples() {
    let samples = vec![
        AppError::NetworkTimeout { operation: "x".to_string(), seconds: 1 },
        AppError::DatabaseLocked { operation: "w".to_string() },
        AppError::DatabaseCorrupted { details: "d".to_string() },
        AppError::DiskFull { needed_bytes: 2, available_bytes: 1 },
    ];
    for e in samples {
        if e.is_retryable() {
            assert_eq!(e.severity(), ErrorSeverity::Recoverable);
        }
        if e.severity() == ErrorSeverity::Fatal {
            assert!(!e.is_retryable());
        }
    }
}

#[test]
fn io_kind_decides_the_variant() {
    let e = AppError::from_io_kind(IoErrorKind::NotFound, io::Error::new(io::ErrorKind::Other, "x"));
    match e {
        AppError::FileNotFound { path } => assert_eq!(path, "unknown"),
        _ => panic!("expected a missing file"),
    }
    let e = AppError::from_io_kind(
        IoErrorKind::PermissionDenied,
        io::Error::new(io::ErrorKind::Other, "x"),
    );
    match e {
        AppError::PermissionDenied { operation, path } => {
            assert_eq!(operation, "file operation");
            assert_eq!(path, "unknown");
        },
        _ => panic!("expected a refused permission"),
    }
    let e = AppError::from_io_kind(IoErrorKind::Other, io::Error::new(io::ErrorKind::Other, "boom"));
    match e {
        AppError::IoError { message, .. } => assert_eq!(message, "boom"),
        _ => panic!("expected an I/O error"),
    }
}

#[test]
fn recoverable_errors_are_exactly_the_retryable_ones() {
    let cache = AppError::CacheWriteFailed { reason: "Disk full".to_string() };
    assert_eq!(cache.recovery_action(), RecoveryAction::RetryWithBackoff);
    assert!(cache.is_retryable());
    let corrupted = AppError::CacheCorrupted { path: "/c".to_string(), reason: "bad".to_string() };
    assert!(!corrupted.is_retryable());
}
