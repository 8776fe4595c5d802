use storystream::app_error::AppError;
use storystream::app_config::{AppConfig, ColorScheme, LogLevel};
use storystream::backup_order::newest_backups_first;
use storystream::config_files::{
    is_backup_file_name, join_path, migrated_version, needs_migration, validation_messages,
    validation_summary, BackupInfo, ConfigBackupManager, ConfigManager, ConfigPersistence,
    CONFIG_VERSION,
};
use storystream::database_config::{current_version, DatabaseConfig};
use storystream::library_config::LibraryConfig;
use storystream::time::Timestamp;
use storystream::validation::{ConfigSection, ValidationError, Validator};

// ------------------------------------------------------------ app section

#[test]
fn app_config_test_default_is_valid() {
    let config = AppConfig::default();
    assert!(config.validate().is_ok());
}

#[test]
fn test_empty_database_path() {
    let mut config = AppConfig::default();
    config.database_path = String::new();
    assert!(config.validate().is_err());
}

#[test]
fn test_invalid_max_recent_books() {
    let mut config = AppConfig::default();
    config.max_recent_books = 0;
    assert!(config.validate().is_err());

    config.max_recent_books = 150;
    assert!(config.validate().is_err());
}

#[test]
fn app_config_test_merge() {
    let mut base = AppConfig::default();
    let mut other = AppConfig::default();
    other.log_level = LogLevel::Debug;
    other.debug_mode = true;
    other.max_recent_books = 20;

    base.merge(other);
    assert_eq!(base.log_level, LogLevel::Debug);
    assert!(base.debug_mode);
    assert_eq!(base.max_recent_books, 20);
}

#[test]
fn test_log_level_display() {
    assert_eq!(LogLevel::Error.to_string(), "error");
    assert_eq!(LogLevel::Info.to_string(), "info");
}

#[test]
fn test_color_scheme_display() {
    assert_eq!(ColorScheme::Auto.to_string(), "auto");
    assert_eq!(ColorScheme::Dark.to_string(), "dark");
}

#[test]
fn app_errors_come_in_order() {
    let mut config = AppConfig::default();
    config.database_path = String::new();
    config.max_recent_books = 0;
    let errors = config.validate().unwrap_err();
    assert_eq!(errors.len(), 2);
    assert_eq!(errors[0].to_string(), "Field 'app.database_path': must not be empty");
    assert_eq!(
        errors[1].to_string(),
        "Field 'app.max_recent_books': must be between 1 and 100 (got: 0)"
    );
    assert_eq!(config.section_name(), "app");
}

// -------------------------------------------------------- library section

#[test]
fn library_config_test_default_is_valid() {
    let config = LibraryConfig::default();
    assert!(config.validate().is_ok());
}

#[test]
fn test_invalid_min_file_size() {
    let mut config = LibraryConfig::default();
    config.min_file_size_bytes = 200 * 1024 * 1024;
    assert!(config.validate().is_err());
}

#[test]
fn test_empty_extension() {
    let mut config = LibraryConfig::default();
    config.supported_extensions.push("".to_string());
    assert!(config.validate().is_err());
}

#[test]
fn library_config_test_organize_files_without_target() {
    let mut config = LibraryConfig::default();
    config.organize_files = true;
    config.organization_target = None;
    assert!(config.validate().is_err());
}

#[test]
fn test_organize_files_with_empty_target() {
    let mut config = LibraryConfig::default();
    config.organize_files = true;
    config.organization_target = Some(String::new());
    assert!(config.validate().is_err());
}

#[test]
fn test_organize_files_with_valid_target() {
    let mut config = LibraryConfig::default();
    config.organize_files = true;
    config.organization_target = Some("/valid/path".to_string());
    assert!(config.validate().is_ok());
}

#[test]
fn library_config_test_merge() {
    let mut base = LibraryConfig::default();
    let mut other = LibraryConfig::default();
    other.auto_import = true;
    other.extract_metadata = false;
    other.library_paths = vec!["/books".to_string()];

    base.merge(other);
    assert!(base.auto_import);
    assert!(!base.extract_metadata);
    assert_eq!(base.library_paths, vec!["/books".to_string()]);
}

#[test]
fn library_errors_name_the_blank_extension() {
    let mut config = LibraryConfig::default();
    config.supported_extensions.push("   ".to_string());
    config.min_file_size_bytes = 104857601;
    config.organize_files = true;
    let errors = config.validate().unwrap_err();
    assert_eq!(errors.len(), 3);
    assert_eq!(
        errors[0].to_string(),
        "Field 'library.min_file_size_bytes': must be between 0 and 104857600 (got: 104857601)"
    );
    assert_eq!(
        errors[1].to_string(),
        "Field 'library.supported_extensions[7]': must not be empty"
    );
    assert_eq!(
        errors[2].to_string(),
        "Field 'library.organization_target': must be set when organize_files is true"
    );
    assert_eq!(config.section_name(), "library");
}

// ----------------------------------------------------------------- errors

#[test]
fn test_validation_error_display() {
    let err = ValidationError::new("player.volume", "must be between 0 and 100");
    assert_eq!(err.to_string(), "Field 'player.volume': must be between 0 and 100");
}

#[test]
fn test_validation_error_with_value() {
    let err = ValidationError::with_value("player.volume", "must be between 0 and 100", "150");
    assert_eq!(
        err.to_string(),
        "Field 'player.volume': must be between 0 and 100 (got: 150)"
    );
}

// ------------------------------------------------------------- validators

#[test]
fn test_in_range_valid() {
    assert!(Validator::in_range(50, 0, 100, "test").is_ok());
    assert!(Validator::in_range(0, 0, 100, "test").is_ok());
    assert!(Validator::in_range(100, 0, 100, "test").is_ok());
}

#[test]
fn test_in_range_invalid() {
    assert!(Validator::in_range(-1, 0, 100, "test").is_err());
    assert!(Validator::in_range(101, 0, 100, "test").is_err());
}

#[test]
fn test_not_empty_valid() {
    assert!(Validator::not_empty("hello", "test").is_ok());
    assert!(Validator::not_empty("  hello  ", "test").is_ok());
}

#[test]
fn test_not_empty_invalid() {
    assert!(Validator::not_empty("", "test").is_err());
    assert!(Validator::not_empty("   ", "test").is_err());
}

#[test]
fn test_one_of_valid() {
    assert!(Validator::one_of("red", &["red", "green", "blue"], "test").is_ok());
}

#[test]
fn test_one_of_invalid() {
    assert!(Validator::one_of("yellow", &["red", "green", "blue"], "test").is_err());
}

#[test]
fn test_collect_errors_all_ok() {
    let results = vec![Ok(()), Ok(()), Ok(())];
    assert!(Validator::collect_errors(results).is_ok());
}

#[test]
fn test_collect_errors_some_err() {
    let results = vec![
        Ok(()),
        Err(ValidationError::new("field1", "error1")),
        Ok(()),
        Err(ValidationError::new("field2", "error2")),
    ];
    let result = Validator::collect_errors(results);
    assert!(result.is_err());
    assert_eq!(result.unwrap_err().len(), 2);
}

#[test]
fn test_path_exists_nonexistent() {
    assert!(Validator::path_exists("/this/path/definitely/does/not/exist", "test").is_err());
}

#[test]
fn validator_messages_are_exact() {
    let e = Validator::in_range(-1, 0, 100, "x").unwrap_err();
    assert_eq!(e.to_string(), "Field 'x': must be between 0 and 100 (got: -1)");
    let e = Validator::one_of("yellow", &["red", "green", "blue"], "colour").unwrap_err();
    assert_eq!(
        e.to_string(),
        "Field 'colour': must be one of: red, green, blue (got: yellow)"
    );
    let e = Validator::not_empty("\t", "name").unwrap_err();
    assert_eq!(e.to_string(), "Field 'name': must not be empty");
    let e = Validator::path_verdict(false, "/nowhere", "dir", "path is not a directory").unwrap_err();
    assert_eq!(e.to_string(), "Field 'dir': path is not a directory (got: /nowhere)");
    assert!(Validator::path_verdict(true, "/nowhere", "dir", "path is not a directory").is_ok());
    assert!(Validator::is_directory(".", "dir").is_ok());
    assert!(Validator::path_exists(".", "dir").is_ok());
}

#[test]
fn collected_errors_keep_their_order() {
    let results = vec![
        Err(ValidationError::new("a", "first")),
        Ok(()),
        Err(ValidationError::with_value("b", "second", "2")),
    ];
    let errors = Validator::collect_errors(results).unwrap_err();
    assert_eq!(errors[0].field, "a");
    assert_eq!(errors[1].field, "b");
    assert_eq!(errors[1].value, Some("2".to_string()));
    assert_eq!(validation_summary(&errors), "Field 'a': first; Field 'b': second (got: 2)");
    assert_eq!(
        validation_messages(&errors),
        vec!["Field 'a': first".to_string(), "Field 'b': second (got: 2)".to_string()]
    );
}

// ------------------------------------------------------------------ files

#[test]
fn test_new_manager() {
    let manager = ConfigManager::with_directory("/tmp/storystream-config".to_string());
    assert_eq!(manager.config_dir(), "/tmp/storystream-config");
}

#[test]
fn config_file_path_ends_with_config_toml() {
    let manager = ConfigManager::with_directory("/home/user/.config/storystream".to_string());
    assert_eq!(manager.config_path(), "/home/user/.config/storystream/config.toml");
    assert!(manager.config_path().ends_with("config.toml"));
    assert_eq!(
        manager.persistence().config_path(),
        "/home/user/.config/storystream/config.toml"
    );
    let persistence = ConfigPersistence::new("/a/b.toml".to_string());
    assert_eq!(persistence.config_path(), "/a/b.toml");
    assert_eq!(join_path("", "config.toml"), "config.toml");
    assert_eq!(join_path("/etc/", "config.toml"), "/etc/config.toml");
}

#[test]
fn backup_rotation_and_names() {
    let manager = ConfigBackupManager::new("/tmp/backups".to_string());
    assert_eq!(manager.max_backups(), 10);
    assert_eq!(manager.backup_dir(), "/tmp/backups");
    let manager = manager.with_max_backups(3);
    assert_eq!(manager.max_backups(), 3);
    assert_eq!(manager.excess_backups(5), 2);
    assert_eq!(manager.excess_backups(3), 0);
    assert_eq!(manager.excess_backups(1), 0);
    assert_eq!(
        ConfigBackupManager::backup_file_name("20240101_120000_123"),
        "config_20240101_120000_123.toml"
    );
    assert!(is_backup_file_name("config_20240101_120000_123.toml"));
    assert!(!is_backup_file_name("config.toml"));
    assert!(!is_backup_file_name("notes_config_.toml"));
    assert!(!is_backup_file_name("config_x.toml.bak"));
}

fn info(size: u64) -> BackupInfo {
    BackupInfo {
        path: "/tmp/backups/config_x.toml".to_string(),
        filename: "config_x.toml".to_string(),
        created: Timestamp::from_millis(0),
        size_bytes: size,
    }
}

#[test]
fn backup_sizes_read_like_the_float_formula() {
    assert_eq!(info(512).size_human(), "512 B");
    assert_eq!(info(1536).size_human(), "1.5 KB");
    assert_eq!(info(1048576).size_human(), "1.0 MB");
    for size in [0u64, 1, 1023, 1024, 1075, 1280, 1331, 5000, 1048575, 1048576, 1153434, 3_000_000_000] {
        let bytes = size as f64;
        let expected = if bytes < 1024.0 {
            format!("{} B", bytes)
        } else if bytes < 1024.0 * 1024.0 {
            format!("{:.1} KB", bytes / 1024.0)
        } else {
            format!("{:.1} MB", bytes / (1024.0 * 1024.0))
        };
        assert_eq!(info(size).size_human(), expected, "size {}", size);
    }
}

#[test]
fn migration_only_for_older_versions() {
    assert_eq!(CONFIG_VERSION, 1);
    assert!(needs_migration(0));
    assert!(!needs_migration(1));
    assert!(!needs_migration(2));
    assert_eq!(migrated_version(0), 1);
    assert_eq!(migrated_version(1), 1);
    assert_eq!(migrated_version(7), 7);
}

#[test]
fn database_config_builder_and_default() {
    let config = DatabaseConfig::new("test.db")
        .with_max_connections(20)
        .with_wal(false)
        .with_create_if_missing(false);
    assert_eq!(config.path, "test.db");
    assert_eq!(config.max_connections, 20);
    assert!(!config.enable_wal);
    assert!(!config.create_if_missing);

    let config = DatabaseConfig::default();
    assert_eq!(config.path, "storystream.db");
    assert_eq!(config.max_connections, 10);
    assert!(config.enable_wal);
    assert!(config.create_if_missing);
    assert_eq!(current_version(), 5);
    assert!(!storystream::database_config::database_exists("/nonexistent/path/to/db.sqlite"));
}

// ------------------------------------- library edge cases, on the library section

#[test]
fn test_empty_library_paths() {
    let config = LibraryConfig::default();
    assert!(config.library_paths.is_empty());
    assert!(config.validate().is_ok());
}

#[test]
fn test_special_characters_in_paths() {
    let mut config = LibraryConfig::default();
    config.library_paths = vec![
        "/path/with spaces/audiobooks".to_string(),
        "/path/with-dashes/audiobooks".to_string(),
        "/path/with_underscores/audiobooks".to_string(),
        "/path/with.dots/audiobooks".to_string(),
    ];
    assert!(config.validate().is_ok());
}

#[test]
fn test_very_long_paths() {
    let mut config = LibraryConfig::default();
    let long_segment = "very_long_directory_name_that_keeps_going";
    let mut long_path = std::path::PathBuf::from("/");
    for _ in 0..20 {
        long_path.push(long_segment);
    }
    config.library_paths = vec![long_path.to_string_lossy().into_owned()];
    assert!(config.validate().is_ok());
}

#[test]
fn test_unicode_in_extensions() {
    let mut config = LibraryConfig::default();
    config.supported_extensions = vec![
        "mp3".to_string(),
        "файл".to_string(),
        "文件".to_string(),
        "ファイル".to_string(),
    ];
    assert!(config.validate().is_ok());
}

#[test]
fn test_whitespace_in_extensions() {
    let mut config = LibraryConfig::default();
    config.supported_extensions = vec![" mp3 ".to_string(), "  m4a  ".to_string()];
    config.supported_extensions.push("   ".to_string());
    assert!(config.validate().is_err());
}

#[test]
fn edge_case_tests_test_organize_files_without_target() {
    let mut config = LibraryConfig::default();
    config.organize_files = true;
    config.organization_target = None;
    assert!(config.validate().is_err());
}

fn made_at(name: &str, millis: i64) -> BackupInfo {
    BackupInfo {
        path: format!("/tmp/backups/{}", name),
        filename: name.to_string(),
        created: Timestamp::from_millis(millis),
        size_bytes: 1,
    }
}

fn names(backups: &[BackupInfo]) -> Vec<&str> {
    backups.iter().map(|b| b.filename.as_str()).collect()
}

#[test]
fn backups_list_newest_first_and_keep_ties_in_order() {
    let found = vec![
        made_at("b", 200),
        made_at("a", 100),
        made_at("c", 300),
        made_at("b2", 200),
    ];
    let listed = newest_backups_first(found);
    assert_eq!(names(&listed), vec!["c", "b", "b2", "a"]);
    assert!(newest_backups_first(Vec::new()).is_empty());
}

#[test]
fn rotation_deletes_the_oldest_beyond_the_limit() {
    let manager = ConfigBackupManager::new("/tmp/backups".to_string()).with_max_backups(2);
    let found = vec![
        made_at("d", 400),
        made_at("a", 100),
        made_at("c", 300),
        made_at("a2", 100),
        made_at("b", 200),
    ];
    let doomed = manager.backups_to_delete(found);
    assert_eq!(names(&doomed), vec!["a", "a2", "b"]);
    let few = vec![made_at("x", 1), made_at("y", 2)];
    assert!(manager.backups_to_delete(few).is_empty());
}

#[test]
fn connecting_opens_the_sqlite_url_of_the_path() {
    assert_eq!(DatabaseConfig::default().connection_url(), "sqlite:storystream.db");
    assert_eq!(DatabaseConfig::new("/data/books.db").connection_url(), "sqlite:/data/books.db");
}

#[test]
fn an_integrity_answer_other_than_ok_is_a_database_error() {
    assert!(storystream::database_config::integrity_verdict("ok").is_ok());
    match storystream::database_config::integrity_verdict("row 3 missing") {
        Err(AppError::DatabaseError { message, source }) => {
            assert_eq!(message, "Database integrity check failed: row 3 missing");
            assert_eq!(source, Some("Integrity check failed".to_string()));
        }
        _ => panic!("a damaged database is an error"),
    }
}

#[test]
fn backup_times_read_as_utc_or_unknown() {
    let at = |millis: i64| BackupInfo {
        path: "/tmp/backups/config_x.toml".to_string(),
        filename: "config_x.toml".to_string(),
        created: Timestamp::from_millis(millis),
        size_bytes: 1,
    };
    assert_eq!(at(0).created_timestamp(), "1970-01-01 00:00:00");
    assert_eq!(at(1_700_000_000_999).created_timestamp(), "2023-11-14 22:13:20");
    assert_eq!(at(-1).created_timestamp(), "Unknown");
    assert_eq!(at(i64::MAX).created_timestamp(), "Unknown");
}
