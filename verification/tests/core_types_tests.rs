use storystream::ids::{BookId, BookmarkId, ChapterId, PlaylistId};
use storystream::metadata::{AudioFormat, AudioMetadata, CoverArt};
use storystream::playlist::SmartPlaylistCriteria;
use storystream::sleep_timer::{SleepTimer, SleepTimerState};
use storystream::stats::{LibraryStats, PlaybackStats};
use storystream::time::{Duration, Timestamp};
use storystream::validate::Validator;

#[test]
fn it_works() {
    let result = storystream::add(2, 2);
    assert_eq!(result, 4);
}

// ---------------------------------------------------------------- common

#[test]
fn test_timestamp_from_millis() {
    let t = Timestamp::from_millis(1234567890123);
    assert_eq!(t.as_millis(), 1234567890123);
    assert_eq!(t.as_seconds(), 1234567890);
}

#[test]
fn common_test_timestamp_ordering() {
    let t1 = Timestamp::from_millis(1000);
    let t2 = Timestamp::from_millis(2000);
    assert!(t1 < t2);
    assert!(t2 > t1);
}

#[test]
fn test_timestamp_display() {
    let t = Timestamp::from_millis(1234567890123);
    assert_eq!(t.to_string(), "1234567890123");
}

#[test]
fn test_duration_from_seconds() {
    let d = Duration::from_seconds(3665);
    assert_eq!(d.as_seconds(), 3665);
    assert_eq!(d.as_millis(), 3665000);
}

#[test]
fn test_duration_from_millis() {
    let d = Duration::from_millis(3665000);
    assert_eq!(d.as_millis(), 3665000);
    assert_eq!(d.as_seconds(), 3665);
}

#[test]
fn test_duration_is_zero() {
    let d1 = Duration::from_millis(0);
    let d2 = Duration::from_millis(100);
    assert!(d1.is_zero());
    assert!(!d2.is_zero());
}

#[test]
fn test_duration_as_hms_with_hours() {
    let d = Duration::from_seconds(3665);
    assert_eq!(d.as_hms(), "1:01:05");
}

#[test]
fn test_duration_as_hms_without_hours() {
    let d = Duration::from_seconds(125);
    assert_eq!(d.as_hms(), "0:02:05");
}

#[test]
fn test_duration_as_hms_zero() {
    let d = Duration::from_seconds(0);
    assert_eq!(d.as_hms(), "0:00:00");
}

#[test]
fn test_duration_display() {
    let d = Duration::from_seconds(3665);
    assert_eq!(d.to_string(), "1:01:05");
}

#[test]
fn test_duration_ordering() {
    let d1 = Duration::from_seconds(100);
    let d2 = Duration::from_seconds(200);
    assert!(d1 < d2);
    assert!(d2 > d1);
}

#[test]
fn test_duration_from_std_duration() {
    let std_d = std::time::Duration::from_secs(42);
    let d: Duration = std_d.into();
    assert_eq!(d.as_seconds(), 42);
}

#[test]
fn test_validator_trait() {
    struct TestType {
        value: i32,
    }

    impl Validator for TestType {
        fn validate(&self) -> Result<(), Vec<String>> {
            if self.value < 0 {
                Err(vec!["Value must be positive".to_string()])
            } else {
                Ok(())
            }
        }
    }

    let valid = TestType { value: 10 };
    let invalid = TestType { value: -5 };

    assert!(valid.is_valid());
    assert!(!invalid.is_valid());
}

#[test]
fn test_duration_formatting() {
    let d = Duration::from_seconds(3665);
    assert!(d.to_string().contains("1:01:05"));
}

#[test]
fn ids_are_exported_and_round_trip() {
    let book_id = BookId::new();
    let _chapter_id = ChapterId::new();
    let _bookmark_id = BookmarkId::new();
    let _playlist_id = PlaylistId::new();
    let text = book_id.as_string();
    assert_eq!(BookId::from_string(&text), Ok(book_id));
    assert!(BookId::from_string("not a uuid").is_err());
    let fixed = BookId::from_u128(0x0123456789abcdef0123456789abcdef);
    assert_eq!(fixed.as_string(), "01234567-89ab-cdef-0123-456789abcdef");
}

#[test]
fn timestamp_seconds_truncate_toward_zero() {
    assert_eq!(Timestamp::from_millis(-1500).as_seconds(), -1);
    assert_eq!(Timestamp::from_millis(1999).as_seconds(), 1);
}

#[test]
fn durations_clamp_and_truncate() {
    assert_eq!(Duration::from_std_millis(u128::MAX).as_millis(), u64::MAX);
    assert_eq!(Duration::from_std_millis(60000).as_millis(), 60000);
    assert_eq!(Duration::from_millis_truncated((1u128 << 64) + 7).as_millis(), 7);
    assert_eq!(Duration::from_seconds(36000).as_hms(), "10:00:00");
}

// -------------------------------------------------------------- metadata

#[test]
fn test_audio_format_from_extension() {
    assert_eq!(AudioFormat::from_extension("mp3"), Some(AudioFormat::Mp3));
    assert_eq!(AudioFormat::from_extension("MP3"), Some(AudioFormat::Mp3));
    assert_eq!(AudioFormat::from_extension("m4b"), Some(AudioFormat::M4b));
    assert_eq!(AudioFormat::from_extension("flac"), Some(AudioFormat::Flac));
    assert_eq!(AudioFormat::from_extension("unknown"), None);
}

#[test]
fn test_audio_format_from_path() {
    assert_eq!(AudioFormat::from_path("/path/to/file.mp3"), Some(AudioFormat::Mp3));
    assert_eq!(AudioFormat::from_path("/path/to/file.FLAC"), Some(AudioFormat::Flac));
    assert_eq!(AudioFormat::from_path("/path/to/file"), None);
}

#[test]
fn test_audio_format_extension() {
    assert_eq!(AudioFormat::Mp3.extension(), "mp3");
    assert_eq!(AudioFormat::M4b.extension(), "m4b");
    assert_eq!(AudioFormat::Flac.extension(), "flac");
}

#[test]
fn test_audio_format_mime_type() {
    assert_eq!(AudioFormat::Mp3.mime_type(), "audio/mpeg");
    assert_eq!(AudioFormat::M4a.mime_type(), "audio/mp4");
    assert_eq!(AudioFormat::Flac.mime_type(), "audio/flac");
}

#[test]
fn test_audio_format_supports_chapters() {
    assert!(AudioFormat::Mp3.supports_chapters());
    assert!(AudioFormat::M4b.supports_chapters());
    assert!(AudioFormat::Flac.supports_chapters());
    assert!(!AudioFormat::Wav.supports_chapters());
    assert!(!AudioFormat::Aac.supports_chapters());
}

#[test]
fn test_audio_format_supports_cover_art() {
    assert!(AudioFormat::Mp3.supports_cover_art());
    assert!(AudioFormat::M4a.supports_cover_art());
    assert!(AudioFormat::Flac.supports_cover_art());
    assert!(!AudioFormat::Wav.supports_cover_art());
    assert!(!AudioFormat::Aiff.supports_cover_art());
}

#[test]
fn test_audio_format_display() {
    assert_eq!(AudioFormat::Mp3.to_string(), "MP3");
    assert_eq!(AudioFormat::Flac.to_string(), "FLAC");
}

#[test]
fn test_audio_metadata_new() {
    let metadata = AudioMetadata::new(AudioFormat::Mp3, Duration::from_seconds(3600));

    assert_eq!(metadata.format, AudioFormat::Mp3);
    assert_eq!(metadata.duration.as_seconds(), 3600);
    assert!(metadata.title.is_none());
    assert!(!metadata.has_cover_art);
}

#[test]
fn test_audio_metadata_has_technical_info() {
    let mut metadata = AudioMetadata::new(AudioFormat::Mp3, Duration::from_seconds(100));
    assert!(!metadata.has_technical_info());

    metadata.bitrate = Some(128000);
    metadata.sample_rate = Some(44100);
    metadata.channels = Some(2);
    assert!(metadata.has_technical_info());
}

#[test]
fn test_audio_metadata_technical_summary() {
    let mut metadata = AudioMetadata::new(AudioFormat::Mp3, Duration::from_seconds(100));
    assert!(metadata.technical_summary().is_none());

    metadata.bitrate = Some(128000);
    metadata.sample_rate = Some(44100);
    metadata.channels = Some(2);

    let summary = metadata.technical_summary().unwrap();
    assert!(summary.contains("128 kbps"));
    assert!(summary.contains("44 kHz"));
    assert!(summary.contains("Stereo"));
}

#[test]
fn test_audio_metadata_technical_summary_mono() {
    let mut metadata = AudioMetadata::new(AudioFormat::Mp3, Duration::from_seconds(100));
    metadata.bitrate = Some(64000);
    metadata.sample_rate = Some(22050);
    metadata.channels = Some(1);

    let summary = metadata.technical_summary().unwrap();
    assert!(summary.contains("Mono"));
}

#[test]
fn technical_summary_exact_text() {
    let mut metadata = AudioMetadata::new(AudioFormat::Flac, Duration::from_seconds(1));
    metadata.bitrate = Some(320000);
    metadata.sample_rate = Some(48000);
    metadata.channels = Some(6);
    assert_eq!(metadata.technical_summary().unwrap(), "320 kbps, 48 kHz, Multi-channel");
}

#[test]
fn test_cover_art_new() {
    let data = vec![0xFF, 0xD8, 0xFF];
    let art = CoverArt::new(data.clone(), "image/jpeg".to_string());

    assert_eq!(art.data, data);
    assert_eq!(art.mime_type, "image/jpeg");
}

#[test]
fn test_cover_art_image_format() {
    let art = CoverArt::new(vec![1, 2, 3], "image/jpeg".to_string());
    assert_eq!(art.image_format(), Some("jpeg"));

    let art2 = CoverArt::new(vec![1, 2, 3], "image/png".to_string());
    assert_eq!(art2.image_format(), Some("png"));

    let art3 = CoverArt::new(vec![1, 2, 3], "image/unknown".to_string());
    assert_eq!(art3.image_format(), None);
}

#[test]
fn test_cover_art_size() {
    let art = CoverArt::new(vec![1, 2, 3, 4, 5], "image/jpeg".to_string());
    assert_eq!(art.size(), 5);
}

#[test]
fn test_cover_art_is_larger_than() {
    let art = CoverArt::new(vec![1, 2, 3, 4, 5], "image/jpeg".to_string());
    assert!(art.is_larger_than(3));
    assert!(!art.is_larger_than(10));
}

#[test]
fn every_format_extension_names_it_again() {
    let formats = [
        AudioFormat::Mp3,
        AudioFormat::M4b,
        AudioFormat::M4a,
        AudioFormat::Flac,
        AudioFormat::Ogg,
        AudioFormat::Opus,
        AudioFormat::Aac,
        AudioFormat::Wav,
        AudioFormat::Aiff,
    ];
    for format in &formats {
        assert!(!format.extension().is_empty());
        assert!(!format.mime_type().is_empty());
        assert_eq!(AudioFormat::from_extension(format.extension()), Some(*format));
        assert_eq!(
            AudioFormat::from_extension(&format.extension().to_uppercase()),
            Some(*format)
        );
    }
}

// ------------------------------------------------------------ sleep timer

#[test]
fn test_sleep_timer_new() {
    let timer = SleepTimer::new(Duration::from_seconds(1800));
    assert_eq!(timer.duration.as_seconds(), 1800);
    assert_eq!(timer.fade_duration.as_seconds(), 10);
    assert_eq!(timer.state, SleepTimerState::Active);
}

#[test]
fn test_sleep_timer_with_fade() {
    let timer = SleepTimer::with_fade(Duration::from_seconds(1800), Duration::from_seconds(30));
    assert_eq!(timer.fade_duration.as_seconds(), 30);
}

#[test]
fn test_sleep_timer_remaining() {
    let timer = SleepTimer::new(Duration::from_seconds(60));
    let remaining = timer.remaining_millis();
    assert!(remaining > 0);
    assert!(remaining <= 60000);
}

#[test]
fn test_sleep_timer_not_expired() {
    let timer = SleepTimer::new(Duration::from_seconds(60));
    assert!(!timer.is_expired());
}

#[test]
fn test_sleep_timer_fading() {
    let fade_duration = Duration::from_seconds(30);
    let mut timer = SleepTimer {
        duration: Duration::from_seconds(60),
        fade_duration,
        started_at: Timestamp::now(),
        state: SleepTimerState::Active,
    };

    assert!(!timer.is_fading());

    timer.started_at = Timestamp::from_millis(
        Timestamp::now().as_millis() - Duration::from_seconds(30).as_millis() as i64,
    );

    assert!(timer.is_fading());

    timer.started_at = Timestamp::from_millis(
        Timestamp::now().as_millis() - Duration::from_seconds(45).as_millis() as i64,
    );
    assert!(timer.is_fading());
}

#[test]
fn sleep_timer_at_fixed_instants() {
    let timer = SleepTimer {
        duration: Duration::from_seconds(60),
        fade_duration: Duration::from_seconds(10),
        started_at: Timestamp::from_millis(1_000_000),
        state: SleepTimerState::Active,
    };
    assert_eq!(timer.remaining_millis_at(Timestamp::from_millis(1_000_000)), 60000);
    assert_eq!(timer.remaining_millis_at(Timestamp::from_millis(1_055_000)), 5000);
    assert_eq!(timer.remaining_millis_at(Timestamp::from_millis(1_070_000)), -10000);
    assert!(!timer.is_fading_at(Timestamp::from_millis(1_040_000)));
    assert!(timer.is_fading_at(Timestamp::from_millis(1_055_000)));
    assert!(!timer.is_expired_at(Timestamp::from_millis(1_055_000)));
    assert!(timer.is_expired_at(Timestamp::from_millis(1_060_000)));
    assert!(!timer.is_fading_at(Timestamp::from_millis(1_060_000)));
}

// --------------------------------------------------------------- playlists

#[test]
fn test_smart_criteria_favorites() {
    let criteria = SmartPlaylistCriteria::favorites();
    assert!(criteria.favorite_only);
    assert!(!criteria.unfinished_only);
}

#[test]
fn test_smart_criteria_unfinished() {
    let criteria = SmartPlaylistCriteria::unfinished();
    assert!(!criteria.favorite_only);
    assert!(criteria.unfinished_only);
}

#[test]
fn test_smart_criteria_by_authors() {
    let authors = vec!["Author 1".to_string(), "Author 2".to_string()];
    let criteria = SmartPlaylistCriteria::by_authors(authors.clone());
    assert_eq!(criteria.authors, authors);
}

#[test]
fn test_smart_criteria_highly_rated() {
    let criteria = SmartPlaylistCriteria::highly_rated(4);
    assert_eq!(criteria.min_rating, Some(4));
}

#[test]
fn test_smart_criteria_default() {
    let criteria = SmartPlaylistCriteria::default();
    assert!(!criteria.favorite_only);
    assert!(!criteria.unfinished_only);
    assert_eq!(criteria.max_results, Some(100));
}

// ------------------------------------------------------------------- stats

#[test]
fn test_library_stats_empty() {
    let stats = LibraryStats::empty();
    assert_eq!(stats.total_books, 0);
    assert_eq!(stats.total_duration.as_millis(), 0);
    assert_eq!(stats.total_size_bytes, 0);
}

#[test]
fn test_library_stats_default() {
    let stats = LibraryStats::default();
    assert_eq!(stats.total_books, 0);
}

#[test]
fn test_library_stats_average_book_duration() {
    let mut stats = LibraryStats::empty();
    stats.total_books = 10;
    stats.total_duration = Duration::from_seconds(36000);

    let avg = stats.average_book_duration();
    assert_eq!(avg.as_seconds(), 3600);
}

#[test]
fn test_library_stats_average_book_duration_zero_books() {
    let stats = LibraryStats::empty();
    let avg = stats.average_book_duration();
    assert_eq!(avg.as_millis(), 0);
}

#[test]
fn test_library_stats_average_book_size() {
    let mut stats = LibraryStats::empty();
    stats.total_books = 5;
    stats.total_size_bytes = 50_000_000;

    assert_eq!(stats.average_book_size(), 10_000_000);
}

#[test]
fn test_library_stats_average_book_size_zero_books() {
    let stats = LibraryStats::empty();
    assert_eq!(stats.average_book_size(), 0);
}

#[test]
fn test_library_stats_total_size_mb() {
    let mut stats = LibraryStats::empty();
    stats.total_size_bytes = 50_000_000;
    assert_eq!(stats.total_size_mb(), 50);
}

#[test]
fn test_playback_stats_empty() {
    let stats = PlaybackStats::empty();
    assert_eq!(stats.total_listening_time.as_millis(), 0);
    assert_eq!(stats.books_started, 0);
    assert_eq!(stats.books_finished, 0);
    assert!(!stats.has_history());
}

#[test]
fn test_playback_stats_default() {
    let stats = PlaybackStats::default();
    assert_eq!(stats.total_sessions, 0);
}

#[test]
fn test_playback_stats_has_history() {
    let mut stats = PlaybackStats::empty();
    assert!(!stats.has_history());

    stats.total_sessions = 1;
    assert!(stats.has_history());

    let mut stats2 = PlaybackStats::empty();
    stats2.books_started = 1;
    assert!(stats2.has_history());
}

#[test]
fn test_playback_stats_favorite_authors() {
    let mut stats = PlaybackStats::empty();
    stats.favorite_authors = vec!["Author 1".to_string(), "Author 2".to_string()];

    assert_eq!(stats.favorite_authors.len(), 2);
    assert!(stats.favorite_authors.contains(&"Author 1".to_string()));
}

#[test]
fn test_playback_stats_favorite_narrators() {
    let mut stats = PlaybackStats::empty();
    stats.favorite_narrators = vec!["Narrator 1".to_string()];

    assert_eq!(stats.favorite_narrators.len(), 1);
}

#[test]
fn test_playback_stats_most_played_book() {
    let mut stats = PlaybackStats::empty();
    assert!(stats.most_played_book_id.is_none());

    stats.most_played_book_id = Some("book-123".to_string());
    assert_eq!(stats.most_played_book_id, Some("book-123".to_string()));
}
