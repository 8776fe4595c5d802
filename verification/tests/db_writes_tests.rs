use storystream::db_rows::{fetched_playback, playback_from_row, PlaybackColumns};
use storystream::db_writes::playback_row;
use storystream::sleep_timer::SleepTimer;
use storystream::app_error::AppError;
use storystream::book::{Book, Chapter};
use storystream::bookmark::Bookmark;
use storystream::db_rows::{
    book_from_row, bookmark_from_row, bookmarks_from_rows, books_from_rows, chapter_from_row,
    chapters_from_rows, fetched_book, fetched_bookmark, fetched_chapter, fetched_playlist,
    playlist_from_row,
};
use storystream::db_writes::{
    book_row, book_to_row, bookmark_row, chapter_row, playlist_item_row, playlist_row,
};
use storystream::ids::{BookId, BookmarkId, ChapterId, PlaylistId};
use storystream::playlist::{Playlist, PlaylistItem, PlaylistType, SmartPlaylistCriteria};
use storystream::time::{Duration, Timestamp};

fn sample_book() -> Book {
    let mut book = Book::new(
        "Persuasion".to_string(),
        "/books/persuasion.m4b".to_string(),
        u64::MAX,
        Duration::from_millis(u64::MAX - 5),
    );
    book.author = Some("Jane Austen".to_string());
    book.series_position_bits = Some(0x3f80_0000);
    book.cover_art_path = Some("/covers/persuasion.jpg".to_string());
    book.last_played = Some(Timestamp::from_millis(-42));
    book.play_count = u32::MAX;
    book.is_favorite = true;
    book.rating = Some(4);
    book.tags = vec!["classic".to_string(), "say \"hi\"".to_string(), "ü".to_string()];
    book
}

fn assert_same_book(a: &Book, b: &Book) {
    assert_eq!(a.id, b.id);
    assert_eq!(a.title, b.title);
    assert_eq!(a.author, b.author);
    assert_eq!(a.narrator, b.narrator);
    assert_eq!(a.series_position_bits, b.series_position_bits);
    assert_eq!(a.duration, b.duration);
    assert_eq!(a.file_path, b.file_path);
    assert_eq!(a.file_size, b.file_size);
    assert_eq!(a.cover_art_path, b.cover_art_path);
    assert_eq!(a.added_date, b.added_date);
    assert_eq!(a.last_played, b.last_played);
    assert_eq!(a.play_count, b.play_count);
    assert_eq!(a.is_favorite, b.is_favorite);
    assert_eq!(a.rating, b.rating);
    assert_eq!(a.tags, b.tags);
    assert_eq!(a.deleted_at, b.deleted_at);
}

#[test]
fn a_book_written_and_read_back_is_the_same_book() {
    let book = sample_book();
    let row = book_to_row(book.clone()).unwrap();
    assert_eq!(row.id, Ok(book.id.as_string()));
    assert_eq!(row.duration_ms, Ok(-6));
    assert_eq!(row.file_size, Ok(-1));
    assert_eq!(row.play_count, Ok(4_294_967_295));
    assert_eq!(row.is_favorite, Ok(1));
    assert_eq!(row.rating, Some(4));
    assert_eq!(row.last_played, Some(-42));
    let back = book_from_row(row).unwrap();
    assert_same_book(&back, &book);
}

#[test]
fn a_rating_out_of_range_reads_back_as_none() {
    let mut book = sample_book();
    book.rating = Some(9);
    let back = book_from_row(book_row(book.clone(), "[]".to_string())).unwrap();
    assert_eq!(back.rating, None);
    assert!(back.tags.is_empty());
}

#[test]
fn a_chapter_written_and_read_back_is_the_same_chapter() {
    let chapter = Chapter::new(
        BookId::new(),
        "Chapter 1".to_string(),
        7,
        Duration::from_millis(0),
        Duration::from_millis(u64::MAX),
    );
    let row = chapter_row(chapter.clone());
    assert_eq!(row.end_time_ms, Ok(-1));
    let back = chapter_from_row(row).unwrap();
    assert_eq!(back.id, chapter.id);
    assert_eq!(back.book_id, chapter.book_id);
    assert_eq!(back.title, chapter.title);
    assert_eq!(back.index, 7);
    assert_eq!(back.start_time, chapter.start_time);
    assert_eq!(back.end_time, chapter.end_time);
    assert_eq!(back.image_path, None);
}

#[test]
fn a_bookmark_written_and_read_back_is_the_same_bookmark() {
    let mut bookmark = Bookmark::new(BookId::new(), Duration::from_seconds(90));
    bookmark.note = Some("the letter".to_string());
    let row = bookmark_row(bookmark.clone());
    assert_eq!(row.position_ms, Ok(90_000));
    let back = bookmark_from_row(row).unwrap();
    assert_eq!(back.id, bookmark.id);
    assert_eq!(back.book_id, bookmark.book_id);
    assert_eq!(back.position, bookmark.position);
    assert_eq!(back.title, None);
    assert_eq!(back.note, Some("the letter".to_string()));
    assert_eq!(back.created_at, bookmark.created_at);
    assert_eq!(back.updated_at, bookmark.updated_at);
}

#[test]
fn a_playlist_written_and_read_back_is_the_same_playlist() {
    let manual = Playlist::new_manual("Road trip".to_string());
    let row = playlist_row(manual.clone());
    assert_eq!(row.playlist_type, Ok("Manual".to_string()));
    let back = playlist_from_row(row).unwrap();
    assert_eq!(back.id, manual.id);
    assert_eq!(back.name, "Road trip");
    assert_eq!(back.playlist_type, PlaylistType::Manual);
    assert!(back.smart_criteria.is_none());

    let smart = Playlist::new_smart("Loved".to_string(), SmartPlaylistCriteria::favorites());
    let row = playlist_row(smart.clone());
    assert_eq!(row.playlist_type, Ok("Smart".to_string()));
    let back = playlist_from_row(row).unwrap();
    assert_eq!(back.playlist_type, PlaylistType::Smart);
    assert!(back.smart_criteria.unwrap().favorite_only);
    assert_eq!(back.created_at, smart.created_at);
}

#[test]
fn a_playlist_item_binds_its_ids_position_and_time() {
    let item = PlaylistItem::new(PlaylistId::new(), BookId::new(), 3);
    let row = playlist_item_row(&item);
    assert_eq!(row.playlist_id, item.playlist_id.as_string());
    assert_eq!(row.book_id, item.book_id.as_string());
    assert_eq!(row.position, 3);
    assert_eq!(row.added_at, item.added_at.as_millis());
}

#[test]
fn a_missing_record_names_its_entity_and_id() {
    let id = BookId::new();
    match fetched_book(None, id) {
        Err(AppError::RecordNotFound { entity, identifier }) => {
            assert_eq!(entity, "Book");
            assert_eq!(identifier, id.to_string());
        }
        _ => panic!("a missing row is a missing record"),
    }
    assert!(matches!(
        fetched_chapter(None, ChapterId::new()),
        Err(AppError::RecordNotFound { entity, .. }) if entity == "Chapter"
    ));
    assert!(matches!(
        fetched_bookmark(None, BookmarkId::new()),
        Err(AppError::RecordNotFound { entity, .. }) if entity == "Bookmark"
    ));
    assert!(matches!(
        fetched_playlist(None, PlaylistId::new()),
        Err(AppError::RecordNotFound { entity, .. }) if entity == "Playlist"
    ));
    let book = sample_book();
    let found = fetched_book(Some(book_to_row(book.clone()).unwrap()), book.id).unwrap();
    assert_same_book(&found, &book);
}

#[test]
fn listings_read_every_row_or_stop_at_the_first_bad_one() {
    let first = sample_book();
    let second = Book::new("Emma".to_string(), "/e".to_string(), 1, Duration::from_seconds(1));
    let rows = vec![book_to_row(first.clone()).unwrap(), book_to_row(second.clone()).unwrap()];
    let books = books_from_rows(rows).unwrap();
    assert_eq!(books.len(), 2);
    assert_same_book(&books[0], &first);
    assert_same_book(&books[1], &second);

    let mut bad = book_to_row(second.clone()).unwrap();
    bad.title = Err("no title".to_string());
    let mut worse = book_to_row(first.clone()).unwrap();
    worse.file_path = Err("no path".to_string());
    let rows = vec![book_to_row(first.clone()).unwrap(), bad, worse];
    match books_from_rows(rows) {
        Err(AppError::DatabaseError { message, source }) => {
            assert_eq!(message, "Missing title");
            assert_eq!(source, Some("no title".to_string()));
        }
        _ => panic!("the second row has no title"),
    }
    assert!(books_from_rows(Vec::new()).unwrap().is_empty());

    let book_id = BookId::new();
    let chapters = vec![
        chapter_row(Chapter::new(book_id, "One".to_string(), 0, Duration::from_millis(0), Duration::from_millis(10))),
        chapter_row(Chapter::new(book_id, "Two".to_string(), 1, Duration::from_millis(10), Duration::from_millis(20))),
    ];
    let read = chapters_from_rows(chapters).unwrap();
    assert_eq!(read.len(), 2);
    assert_eq!(read[1].title, "Two");

    let mut row = bookmark_row(Bookmark::new(book_id, Duration::from_millis(5)));
    row.created_at = Err("gone".to_string());
    match bookmarks_from_rows(vec![row]) {
        Err(AppError::DatabaseError { message, .. }) => assert_eq!(message, "Missing created_at"),
        _ => panic!("the row has no creation time"),
    }
}


fn sample_playback() -> PlaybackColumns<String> {
    PlaybackColumns {
        book_id: BookId::new(),
        position: Duration::from_millis(123_456),
        speed_bits: 1.25f64.to_bits(),
        pitch_correction: true,
        volume: 80,
        is_playing: false,
        equalizer: Some("voice".to_string()),
        sleep_timer: Some(SleepTimer::new(Duration::from_seconds(600))),
        skip_silence: true,
        volume_boost: 5,
        last_updated: Timestamp::from_millis(1_700_000_000_000),
    }
}

#[test]
fn a_playback_state_saved_and_read_back_is_the_same_state() {
    let state = sample_playback();
    let book_id = state.book_id;
    let timer = state.sleep_timer.unwrap();
    let row = playback_row(state);
    assert_eq!(row.position_ms, Ok(123_456));
    assert_eq!(row.pitch_correction, Ok(1));
    assert_eq!(row.is_playing, Ok(0));
    let back = playback_from_row(row).unwrap();
    assert_eq!(back.book_id, book_id);
    assert_eq!(back.position.as_millis(), 123_456);
    assert_eq!(f64::from_bits(back.speed_bits), 1.25);
    assert!(back.pitch_correction);
    assert_eq!(back.volume, 80);
    assert!(!back.is_playing);
    assert_eq!(back.equalizer, Some("voice".to_string()));
    assert_eq!(back.sleep_timer.unwrap().duration, timer.duration);
    assert!(back.skip_silence);
    assert_eq!(back.volume_boost, 5);
    assert_eq!(back.last_updated.as_millis(), 1_700_000_000_000);
}

#[test]
fn playback_rows_fail_in_column_order() {
    let mut row = playback_row(sample_playback());
    row.volume = Err("no volume".to_string());
    row.sleep_timer = Some(Err("bad timer".to_string()));
    match playback_from_row(row) {
        Err(AppError::DatabaseError { message, source }) => {
            assert_eq!(message, "Missing volume");
            assert_eq!(source, Some("no volume".to_string()));
        }
        _ => panic!("the volume is missing"),
    }
    let mut row = playback_row(sample_playback());
    row.equalizer = Some(Err("bad eq".to_string()));
    match playback_from_row(row) {
        Err(AppError::DatabaseError { message, .. }) => {
            assert_eq!(message, "Failed to deserialize equalizer")
        }
        _ => panic!("the equalizer is unreadable"),
    }
    let id = BookId::new();
    match fetched_playback::<String>(None, id) {
        Err(AppError::RecordNotFound { entity, identifier }) => {
            assert_eq!(entity, "PlaybackState");
            assert_eq!(identifier, id.to_string());
        }
        _ => panic!("no row is no state"),
    }
}
