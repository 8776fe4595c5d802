use storystream::db_rows::json_column_text;
use storystream::player_controls::{key_press_step, seek_forward, PlayerKey};
use storystream::time::Timestamp;
use storystream::validate::playback_volume_problems;
use storystream::ffi::{LIBRARY_NAME, VERSION};
use storystream::config_files::{migrated_version, ConfigManager, CONFIG_VERSION};
use storystream::ids::{BookId, BookmarkId, ChapterId, PlaylistId};
use storystream::librivox::LibriVoxSource;
use storystream::metadata::AudioFormat;
use storystream::player_controls::core_duration_from_std;
use storystream::sources::{ArchiveSource, ContentSource, LocalSource, SearchQuery, SourceError};
use std::time::Duration as StdDuration;

fn setup_test_manager() -> (tempfile::TempDir, ConfigManager) {
    let temp_dir = tempfile::TempDir::new().expect("Should create temp dir");
    let dir = temp_dir.path().to_string_lossy().into_owned();
    let manager = ConfigManager::with_directory(dir);
    (temp_dir, manager)
}

#[test]
fn test_config_dir_path() {
    let (_temp_dir, manager) = setup_test_manager();
    let dir = std::path::Path::new(manager.config_dir());
    assert!(dir.is_dir() || !dir.exists());
}

#[test]
fn test_config_file_path() {
    let (_temp_dir, manager) = setup_test_manager();
    assert!(manager.config_path().ends_with("config.toml"));
}

#[test]
fn test_migrate_same_version() {
    assert_eq!(migrated_version(CONFIG_VERSION), CONFIG_VERSION);
}

#[test]
fn test_migrate_newer_version() {
    assert_eq!(migrated_version(CONFIG_VERSION + 1), CONFIG_VERSION + 1);
}

#[test]
fn test_all_formats_have_extensions() {
    let formats = [
        AudioFormat::Mp3,
        AudioFormat::M4b,
        AudioFormat::M4a,
        AudioFormat::Flac,
        AudioFormat::Ogg,
        AudioFormat::Opus,
        AudioFormat::Aac,
        AudioFormat::Wav,
        AudioFormat::Aiff,
    ];

    for format in &formats {
        assert!(!format.extension().is_empty());
        assert!(!format.mime_type().is_empty());
    }
}

#[test]
fn test_all_types_are_exported() {
    let _book_id: BookId = BookId::new();
    let _chapter_id: ChapterId = ChapterId::new();
    let _bookmark_id: BookmarkId = BookmarkId::new();
    let _playlist_id: PlaylistId = PlaylistId::new();
}

#[test]
fn test_duration_conversions() {
    let std_dur = StdDuration::from_secs(60);
    let core_dur = core_duration_from_std(std_dur);
    assert_eq!(core_dur.as_millis(), 60000);
}

#[test]
fn test_duration_conversion_large_value() {
    let std_dur = StdDuration::from_secs(u64::MAX / 1000);
    let core_dur = core_duration_from_std(std_dur);
    assert!(core_dur.as_millis() > 0);
}

#[test]
fn durations_beyond_the_largest_are_clamped() {
    let core_dur = core_duration_from_std(StdDuration::from_secs(u64::MAX));
    assert_eq!(core_dur.as_millis(), u64::MAX);
    let core_dur = core_duration_from_std(StdDuration::from_millis(1234));
    assert_eq!(core_dur.as_millis(), 1234);
}

#[test]
fn archive_test_empty_query() {
    let source = ArchiveSource::new();
    let query = SearchQuery::new(String::new());
    assert!(source.search(&query).is_err());
}

#[test]
fn test_all_sources_exported() {
    let _ = LocalSource::new();
    let _ = LibriVoxSource::with_client(true);
    let _ = ArchiveSource::new();
}

#[test]
fn test_librivox_creation() {
    let source = LibriVoxSource::with_client(true);
    assert!(source.is_available() || !source.is_available());
}

#[test]
fn test_librivox_metadata() {
    let source = LibriVoxSource::with_client(true);
    let meta = source.metadata();
    assert_eq!(meta.name, "LibriVox");
    assert!(!meta.requires_auth);
    assert!(meta.base_url.contains("librivox.org"));
}

#[test]
fn librivox_test_empty_query() {
    let source = LibriVoxSource::with_client(true);
    let query = SearchQuery::new(String::new());
    let result = source.search_books_url(&query.text, query.limit);
    assert!(result.is_err());
    assert!(matches!(result, Err(SourceError::InvalidQuery(_))));
}

#[test]
fn test_search_query_conversion() {
    let source = LibriVoxSource::with_client(true);
    let query = SearchQuery::new("Test Query".to_string()).with_limit(10);
    let _ = source.search_books_url(&query.text, query.limit);
}

#[test]
fn test_version_constant() {
    assert!(!VERSION.is_empty());
    assert!(VERSION.contains('.'));
}

#[test]
fn test_library_constants() {
    assert!(!VERSION.is_empty());
    assert!(VERSION.split('.').count() >= 2);
    assert_eq!(LIBRARY_NAME, "StoryStream Android Bridge");
}

#[test]
fn new_ids_are_version_4_uuids() {
    for _ in 0..50 {
        let texts = [
            BookId::new().as_string(),
            ChapterId::new().as_string(),
            BookmarkId::new().as_string(),
            PlaylistId::new().as_string(),
        ];
        for text in texts.iter() {
            let chars: Vec<char> = text.chars().collect();
            assert_eq!(chars[14], '4');
            assert!("89ab".contains(chars[19]));
        }
    }
}

#[test]
fn handles_are_positive_increasing_and_never_reused() {
    let mut manager = storystream::ffi::HandleManager::<String>::new();
    let a = manager.insert("a".to_string());
    let b = manager.insert("b".to_string());
    assert_eq!((a, b), (1, 2));
    assert!(manager.remove(a).is_ok());
    let c = manager.insert("c".to_string());
    assert_eq!(c, 3);
    assert!(!manager.contains(a));
    assert_eq!(manager.get(c).unwrap(), "c");
}

#[test]
fn clock_readings_become_timestamps() {
    assert_eq!(Timestamp::from_clock_reading(Some(1_700_000_000_123)).as_millis(), 1_700_000_000_123);
    assert_eq!(Timestamp::from_clock_reading(None).as_millis(), 0);
    assert_eq!(Timestamp::from_clock_reading(Some(1u128 << 64)).as_millis(), 0);
    assert!(Timestamp::now().as_millis() > 1_600_000_000_000);
}

#[test]
fn seeking_forward_stops_at_the_largest_position() {
    assert_eq!(seek_forward(5_000), 15_000);
    assert_eq!(seek_forward(u64::MAX - 3), u64::MAX);
}

#[test]
fn a_key_press_quits_or_steps_the_volume() {
    let step = key_press_step(PlayerKey::Char('q'), 50, true);
    assert!(step.quit);
    assert_eq!(step.volume, 50);
    assert!(key_press_step(PlayerKey::Escape, 50, true).quit);
    assert_eq!(key_press_step(PlayerKey::Char('+'), 98, true).volume, 100);
    assert_eq!(key_press_step(PlayerKey::Char('='), 40, false).volume, 40);
    assert_eq!(key_press_step(PlayerKey::Char('_'), 3, true).volume, 0);
    assert_eq!(key_press_step(PlayerKey::Char('-'), 60, true).volume, 55);
    assert_eq!(key_press_step(PlayerKey::ArrowLeft, 60, true).volume, 60);
    assert!(!key_press_step(PlayerKey::Char(' '), 60, true).quit);
}

#[test]
fn upper_case_extensions_name_their_formats() {
    assert_eq!(AudioFormat::from_extension("MP3"), Some(AudioFormat::Mp3));
    assert_eq!(AudioFormat::from_extension("AiF"), Some(AudioFormat::Aiff));
    assert_eq!(AudioFormat::from_extension("FLAC"), Some(AudioFormat::Flac));
    assert_eq!(AudioFormat::from_extension("unknown"), None);
}

#[test]
fn empty_json_columns_count_as_null() {
    assert_eq!(json_column_text(None), None);
    assert_eq!(json_column_text(Some(String::new())), None);
    assert_eq!(json_column_text(Some("{}".to_string())), Some("{}".to_string()));
}

#[test]
fn playback_volumes_above_100_are_problems() {
    assert!(playback_volume_problems(100, 0).is_empty());
    assert_eq!(
        playback_volume_problems(101, 200),
        vec![
            "Volume must be between 0 and 100".to_string(),
            "Volume boost must be between 0 and 100".to_string()
        ]
    );
    assert_eq!(playback_volume_problems(50, 150), vec!["Volume boost must be between 0 and 100".to_string()]);
}

#[test]
fn the_zero_duration_is_zero_milliseconds() {
    assert_eq!(storystream::time::Duration::zero().as_millis(), 0);
    assert_eq!(storystream::time::Duration::zero(), storystream::time::Duration::from_millis(0));
}

#[test]
fn a_fresh_sleep_timer_has_its_time_left() {
    let timer = storystream::sleep_timer::SleepTimer::new(storystream::time::Duration::from_seconds(600));
    let left = timer.remaining_millis();
    assert!(left > 590_000 && left <= 600_000);
    assert!(!timer.is_expired());
    assert!(!timer.is_fading());
}
