use storystream::book::{Book, Chapter};
use storystream::bookmark::Bookmark;
use storystream::ids::{BookId, BookmarkId, ChapterId, PlaylistId};
use storystream::playlist::{Playlist, PlaylistItem, PlaylistType, SmartPlaylistCriteria};
use storystream::time::Duration;
use storystream::validate::Validator;

/// Waits ten milliseconds, so that a later timestamp differs from an earlier one.
fn pause_ten_millis() {
    let start = std::time::Instant::now();
    while start.elapsed() < std::time::Duration::from_millis(10) {}
}

fn book(title: &str, size: u64, duration: Duration) -> Book {
    Book::new(title.to_string(), "/test.mp3".to_string(), size, duration)
}

// ------------------------------------------------------------------ books

#[test]
fn test_book_id_creation() {
    let id1 = BookId::new();
    let id2 = BookId::new();
    assert_ne!(id1, id2);
}

#[test]
fn test_book_id_from_string() {
    let id = BookId::new();
    let s = id.as_string();
    let parsed = BookId::from_string(&s).unwrap();
    assert_eq!(id, parsed);
}

#[test]
fn test_book_id_display() {
    let id = BookId::new();
    let display = id.to_string();
    assert!(!display.is_empty());
}

#[test]
fn test_chapter_id_creation() {
    let id1 = ChapterId::new();
    let id2 = ChapterId::new();
    assert_ne!(id1, id2);
}

#[test]
fn test_book_new() {
    let book = Book::new(
        "Test Book".to_string(),
        "/test/book.mp3".to_string(),
        1000000,
        Duration::from_seconds(3600),
    );

    assert_eq!(book.title, "Test Book");
    assert_eq!(book.duration.as_seconds(), 3600);
    assert_eq!(book.play_count, 0);
    assert!(!book.is_favorite);
    assert!(!book.is_deleted());
}

#[test]
fn test_book_validation_success() {
    let book = book("Valid Book", 1000, Duration::from_seconds(100));
    assert!(book.is_valid());
}

#[test]
fn test_book_validation_empty_title() {
    let mut book = book("   ", 1000, Duration::from_seconds(100));
    book.title = "   ".to_string();
    assert!(!book.is_valid());
}

#[test]
fn test_book_validation_zero_duration() {
    let book = book("Test", 1000, Duration::from_millis(0));
    assert!(!book.is_valid());
}

#[test]
fn test_book_validation_invalid_rating() {
    let mut book = book("Test", 1000, Duration::from_seconds(100));
    book.rating = Some(6);
    assert!(!book.is_valid());
}

#[test]
fn book_problems_are_listed_in_order() {
    let mut book = book(" ", 0, Duration::from_millis(0));
    book.rating = Some(0);
    assert_eq!(
        book.validate().unwrap_err(),
        vec![
            "Title cannot be empty".to_string(),
            "Duration must be greater than zero".to_string(),
            "File size must be greater than zero".to_string(),
            "Rating must be between 1 and 5".to_string(),
        ]
    );
}

#[test]
fn test_book_soft_delete() {
    let mut book = book("Test", 1000, Duration::from_seconds(100));

    assert!(!book.is_deleted());
    book.delete();
    assert!(book.is_deleted());
    book.restore();
    assert!(!book.is_deleted());
}

#[test]
fn test_book_mark_played() {
    let mut book = book("Test", 1000, Duration::from_seconds(100));

    assert_eq!(book.play_count, 0);
    assert!(book.last_played.is_none());

    book.mark_played();

    assert_eq!(book.play_count, 1);
    assert!(book.last_played.is_some());

    book.mark_played();
    assert_eq!(book.play_count, 2);
}

#[test]
fn test_chapter_new() {
    let book_id = BookId::new();
    let chapter = Chapter::new(
        book_id,
        "Chapter 1".to_string(),
        1,
        Duration::from_seconds(0),
        Duration::from_seconds(600),
    );

    assert_eq!(chapter.book_id, book_id);
    assert_eq!(chapter.title, "Chapter 1");
    assert_eq!(chapter.index, 1);
}

#[test]
fn test_chapter_duration() {
    let chapter = Chapter::new(
        BookId::new(),
        "Test".to_string(),
        1,
        Duration::from_seconds(100),
        Duration::from_seconds(200),
    );

    assert_eq!(chapter.duration().as_seconds(), 100);
}

#[test]
fn test_chapter_validation_success() {
    let chapter = Chapter::new(
        BookId::new(),
        "Valid Chapter".to_string(),
        1,
        Duration::from_seconds(0),
        Duration::from_seconds(100),
    );
    assert!(chapter.is_valid());
}

#[test]
fn test_chapter_validation_empty_title() {
    let mut chapter = Chapter::new(
        BookId::new(),
        "Test".to_string(),
        1,
        Duration::from_seconds(0),
        Duration::from_seconds(100),
    );
    chapter.title = "   ".to_string();
    assert!(!chapter.is_valid());
}

#[test]
fn test_chapter_validation_invalid_times() {
    let chapter = Chapter::new(
        BookId::new(),
        "Test".to_string(),
        1,
        Duration::from_seconds(100),
        Duration::from_seconds(50),
    );
    assert!(!chapter.is_valid());
}

// -------------------------------------------------------------- bookmarks

#[test]
fn test_bookmark_id_creation() {
    let id1 = BookmarkId::new();
    let id2 = BookmarkId::new();
    assert_ne!(id1, id2);
}

#[test]
fn test_bookmark_id_from_string() {
    let id = BookmarkId::new();
    let s = id.as_string();
    let parsed = BookmarkId::from_string(&s).unwrap();
    assert_eq!(id, parsed);
}

#[test]
fn test_bookmark_id_display() {
    let id = BookmarkId::new();
    let display = id.to_string();
    assert!(!display.is_empty());
}

#[test]
fn test_bookmark_new() {
    let book_id = BookId::new();
    let position = Duration::from_seconds(1234);
    let bookmark = Bookmark::new(book_id, position);

    assert_eq!(bookmark.book_id, book_id);
    assert_eq!(bookmark.position, position);
    assert!(bookmark.title.is_none());
    assert!(bookmark.note.is_none());
}

#[test]
fn test_bookmark_with_title() {
    let book_id = BookId::new();
    let position = Duration::from_seconds(1234);
    let bookmark = Bookmark::with_title(book_id, position, "Important moment".to_string());

    assert_eq!(bookmark.title, Some("Important moment".to_string()));
    assert!(bookmark.has_title());
}

#[test]
fn test_bookmark_set_note() {
    let mut bookmark = Bookmark::new(BookId::new(), Duration::from_seconds(100));

    assert!(!bookmark.has_note());

    let before = bookmark.updated_at;
    pause_ten_millis();

    bookmark.set_note("This is a note".to_string());

    assert!(bookmark.has_note());
    assert_eq!(bookmark.note, Some("This is a note".to_string()));
    assert!(bookmark.updated_at > before);
}

#[test]
fn test_bookmark_set_title() {
    let mut bookmark = Bookmark::new(BookId::new(), Duration::from_seconds(100));

    assert!(!bookmark.has_title());

    let before = bookmark.updated_at;
    pause_ten_millis();

    bookmark.set_title("New Title".to_string());

    assert!(bookmark.has_title());
    assert_eq!(bookmark.title, Some("New Title".to_string()));
    assert!(bookmark.updated_at > before);
}

#[test]
fn test_bookmark_has_note_empty_string() {
    let mut bookmark = Bookmark::new(BookId::new(), Duration::from_seconds(100));
    bookmark.note = Some("   ".to_string());
    assert!(!bookmark.has_note());
}

#[test]
fn test_bookmark_has_title_empty_string() {
    let mut bookmark = Bookmark::new(BookId::new(), Duration::from_seconds(100));
    bookmark.title = Some("   ".to_string());
    assert!(!bookmark.has_title());
}

#[test]
fn test_bookmark_validation_success() {
    let bookmark = Bookmark::new(BookId::new(), Duration::from_seconds(100));
    assert!(bookmark.is_valid());
}

#[test]
fn test_bookmark_validation_zero_position() {
    let bookmark = Bookmark::new(BookId::new(), Duration::from_millis(0));
    assert!(!bookmark.is_valid());
}

#[test]
fn test_bookmark_validation_empty_title() {
    let mut bookmark = Bookmark::new(BookId::new(), Duration::from_seconds(100));
    bookmark.title = Some("   ".to_string());
    assert!(!bookmark.is_valid());
}

#[test]
fn test_bookmark_validation_empty_note() {
    let mut bookmark = Bookmark::new(BookId::new(), Duration::from_seconds(100));
    bookmark.note = Some("   ".to_string());
    assert!(!bookmark.is_valid());
}

#[test]
fn test_bookmark_timestamps() {
    let bookmark = Bookmark::new(BookId::new(), Duration::from_seconds(100));
    assert_eq!(bookmark.created_at, bookmark.updated_at);
}

// -------------------------------------------------------------- playlists

#[test]
fn test_playlist_id_creation() {
    let id1 = PlaylistId::new();
    let id2 = PlaylistId::new();
    assert_ne!(id1, id2);
}

#[test]
fn test_playlist_id_from_string() {
    let id = PlaylistId::new();
    let s = id.as_string();
    let parsed = PlaylistId::from_string(&s).unwrap();
    assert_eq!(id, parsed);
}

#[test]
fn test_playlist_id_display() {
    let id = PlaylistId::new();
    let display = id.to_string();
    assert!(!display.is_empty());
}

#[test]
fn test_playlist_new_manual() {
    let playlist = Playlist::new_manual("My Playlist".to_string());

    assert_eq!(playlist.name, "My Playlist");
    assert_eq!(playlist.playlist_type, PlaylistType::Manual);
    assert!(!playlist.is_smart());
    assert!(playlist.smart_criteria.is_none());
}

#[test]
fn test_playlist_new_smart() {
    let criteria = SmartPlaylistCriteria::favorites();
    let playlist = Playlist::new_smart("Favorites".to_string(), criteria);

    assert_eq!(playlist.name, "Favorites");
    assert_eq!(playlist.playlist_type, PlaylistType::Smart);
    assert!(playlist.is_smart());
    assert!(playlist.smart_criteria.is_some());
}

#[test]
fn test_playlist_set_name() {
    let mut playlist = Playlist::new_manual("Old Name".to_string());
    let before = playlist.updated_at;

    pause_ten_millis();
    playlist.set_name("New Name".to_string());

    assert_eq!(playlist.name, "New Name");
    assert!(playlist.updated_at > before);
}

#[test]
fn test_playlist_set_description() {
    let mut playlist = Playlist::new_manual("Test".to_string());

    playlist.set_description(Some("A description".to_string()));
    assert_eq!(playlist.description, Some("A description".to_string()));
}

#[test]
fn test_playlist_validation_success() {
    let playlist = Playlist::new_manual("Valid".to_string());
    assert!(playlist.is_valid());
}

#[test]
fn test_playlist_validation_empty_name() {
    let mut playlist = Playlist::new_manual("Test".to_string());
    playlist.name = "   ".to_string();
    assert!(!playlist.is_valid());
}

#[test]
fn test_playlist_validation_smart_without_criteria() {
    let mut playlist = Playlist::new_manual("Test".to_string());
    playlist.playlist_type = PlaylistType::Smart;
    playlist.smart_criteria = None;
    assert!(!playlist.is_valid());
}

#[test]
fn test_playlist_item_new() {
    let playlist_id = PlaylistId::new();
    let book_id = BookId::new();
    let item = PlaylistItem::new(playlist_id, book_id, 0);

    assert_eq!(item.playlist_id, playlist_id);
    assert_eq!(item.book_id, book_id);
    assert_eq!(item.position, 0);
}

#[test]
fn test_playlist_item_ordering() {
    let playlist_id = PlaylistId::new();
    let item1 = PlaylistItem::new(playlist_id, BookId::new(), 0);
    let item2 = PlaylistItem::new(playlist_id, BookId::new(), 1);
    let item3 = PlaylistItem::new(playlist_id, BookId::new(), 2);

    assert!(item1.position < item2.position);
    assert!(item2.position < item3.position);
}
