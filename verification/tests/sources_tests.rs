use storystream::librivox::{
    book_status, encode, first_book, json_parse_failed, listing_status, request_failed,
    search_results, search_status, LibriVoxBook, LibriVoxSource,
};
use storystream::sources::{
    ArchiveItem, ArchiveSource, ContentSource, LocalSource, SearchQuery, SourceError,
};

#[test]
fn lib_test_error_display() {
    let err = SourceError::NotFound;
    assert!(err.to_string().contains("Not found"));
}

#[test]
fn source_errors_display_exactly() {
    assert_eq!(SourceError::NetworkError("x".to_string()).to_string(), "Network error: x");
    assert_eq!(SourceError::ParseError("y".to_string()).to_string(), "Parse error: y");
    assert_eq!(SourceError::InvalidQuery("z".to_string()).to_string(), "Invalid query: z");
    assert_eq!(SourceError::RateLimited.to_string(), "Rate limited");
    assert_eq!(SourceError::Unavailable("w".to_string()).to_string(), "Source unavailable: w");
}

#[test]
fn test_search_query_builder() {
    let query = SearchQuery::new("test".to_string())
        .with_author("Author".to_string())
        .with_limit(10);

    assert_eq!(query.text, "test");
    assert_eq!(query.author, Some("Author".to_string()));
    assert_eq!(query.limit, 10);
}

#[test]
fn test_search_query_default() {
    let query = SearchQuery::new("test".to_string());
    assert_eq!(query.limit, 20);
    assert_eq!(query.author, None);
}

// ---------------------------------------------------------------- archive

#[test]
fn test_archive_creation() {
    let source = ArchiveSource::new();
    assert!(source.is_available());
}

#[test]
fn test_archive_metadata() {
    let source = ArchiveSource::new();
    let meta = source.metadata();
    assert_eq!(meta.name, "Internet Archive");
    assert_eq!(meta.base_url, "https://archive.org/advancedsearch.php");
}

#[test]
fn archive_refuses_an_empty_query() {
    let source = ArchiveSource::new();
    let query = SearchQuery::new(String::new());
    assert_eq!(source.search(&query).unwrap_err(), SourceError::InvalidQuery("Empty query".to_string()));
    let query = SearchQuery::new("dickens".to_string());
    assert!(source.search(&query).unwrap().is_empty());
}

#[test]
fn test_archive_item_creation() {
    let item = ArchiveItem::new("test-id".to_string(), "Test Item".to_string());
    assert_eq!(item.identifier, "test-id");
    assert!(item.is_audio());
}

#[test]
fn test_archive_item_audio_detection() {
    let mut item = ArchiveItem::new("test".to_string(), "Test".to_string());
    assert!(item.is_audio());

    item.mediatype = "etree".to_string();
    assert!(item.is_audio());

    item.mediatype = "video".to_string();
    assert!(!item.is_audio());
}

// ------------------------------------------------------------------ local

#[test]
fn test_local_source_creation() {
    let source = LocalSource::new();
    assert_eq!(source.name, "Local Files");
}

#[test]
fn test_local_source_with_path() {
    let source = LocalSource::with_path(
        "My Audiobooks".to_string(),
        "/home/user/audiobooks".to_string(),
    );
    assert_eq!(source.name, "My Audiobooks");
    assert_eq!(source.root_path, "/home/user/audiobooks".to_string());
}

#[test]
fn test_local_source_metadata() {
    let source = LocalSource::new();
    let metadata = source.metadata();
    assert_eq!(metadata.name, "Local Files");
    assert!(!metadata.requires_auth);
    assert_eq!(metadata.description, "Local audiobooks at .");
}

#[test]
fn test_local_source_is_available() {
    let source = LocalSource::with_path("Test".to_string(), ".".to_string());
    assert!(source.is_available());

    let source = LocalSource::with_path("Test".to_string(), "/nonexistent/path".to_string());
    assert!(!source.is_available());
}

// --------------------------------------------------------------- librivox

#[test]
fn test_librivox_book_creation() {
    let book = LibriVoxBook::new("123".to_string(), "Test Book".to_string(), "Test Author".to_string());
    assert_eq!(book.id, "123");
    assert_eq!(book.title, "Test Book");
    assert_eq!(book.author, "Test Author");
    assert_eq!(book.language, "en");
}

#[test]
fn test_book_has_download() {
    let mut book = LibriVoxBook::new("123".to_string(), "Test".to_string(), "Author".to_string());

    assert!(!book.has_download());

    book.url_zip_file = "http://example.com/book.zip".to_string();
    assert!(book.has_download());
}

#[test]
fn test_book_download_url() {
    let mut book = LibriVoxBook::new("123".to_string(), "Test".to_string(), "Author".to_string());

    assert!(book.download_url().is_none());

    book.url_zip_file = "http://example.com/book.zip".to_string();
    assert_eq!(book.download_url(), Some("http://example.com/book.zip".to_string()));

    book.url_zip_file = String::new();
    book.url_rss = "http://example.com/rss".to_string();
    assert_eq!(book.download_url(), Some("http://example.com/rss".to_string()));
}

#[test]
fn test_duration_parsing() {
    let mut book = LibriVoxBook::new("1".to_string(), "T".to_string(), "A".to_string());

    book.totaltime = "1:30:45".to_string();
    assert_eq!(book.duration_seconds(), Some(5445));

    book.totaltime = "45:30".to_string();
    assert_eq!(book.duration_seconds(), Some(2730));

    book.totaltime = "invalid".to_string();
    assert_eq!(book.duration_seconds(), None);
}

#[test]
fn duration_parsing_skips_pieces_that_are_not_numbers() {
    let mut book = LibriVoxBook::new("1".to_string(), "T".to_string(), "A".to_string());
    book.totaltime = "1:xx:45".to_string();
    assert!(book.duration_fits());
    assert_eq!(book.duration_seconds(), Some(105));
    book.totaltime = String::new();
    assert_eq!(book.duration_seconds(), None);
    book.totaltime = "+7".to_string();
    assert_eq!(book.duration_seconds(), Some(7));
    book.totaltime = "0:0:0:0:0:0:0:0:0:0:0:0".to_string();
    assert!(!book.duration_fits());
    book.totaltime = "18446744073709551615:1".to_string();
    assert!(!book.duration_fits());
}

#[test]
fn test_chapter_count_parsing() {
    let mut book = LibriVoxBook::new("1".to_string(), "T".to_string(), "A".to_string());

    book.num_sections = "15".to_string();
    assert_eq!(book.chapter_count(), Some(15));

    book.num_sections = "invalid".to_string();
    assert_eq!(book.chapter_count(), None);
}

#[test]
fn test_url_encoding() {
    let encoded = encode("Pride and Prejudice");
    assert!(encoded.contains('+') || encoded.contains("%20"));

    let encoded = encode("C++ Programming");
    assert!(encoded.contains("C%2B%2B") || encoded.contains("C++"));
}

#[test]
fn url_encoding_exact() {
    assert_eq!(encode("Pride and Prejudice"), "Pride+and+Prejudice");
    assert_eq!(encode("C++ Programming"), "C%2B%2B+Programming");
    assert_eq!(encode("a-b_c.d~e"), "a-b_c.d~e");
    assert_eq!(encode("é"), "%E9");
}

#[test]
fn librivox_requests() {
    let source = LibriVoxSource::with_client(true);
    assert!(source.is_available());
    assert_eq!(
        source.search_books_url("Pride and Prejudice", 5).unwrap(),
        "https://librivox.org/api/feed/audiobooks?title=^Pride+and+Prejudice^&format=json&limit=5"
    );
    assert_eq!(
        source.search_books_url("", 5).unwrap_err(),
        SourceError::InvalidQuery("Empty query".to_string())
    );
    assert_eq!(
        source.search_by_author_url("Jane Austen", 10).unwrap(),
        "https://librivox.org/api/feed/audiobooks?author=^Jane+Austen^&format=json&limit=10"
    );
    assert_eq!(
        source.search_by_author_url("", 10).unwrap_err(),
        SourceError::InvalidQuery("Empty author".to_string())
    );
    assert_eq!(
        source.book_url("42").unwrap(),
        "https://librivox.org/api/feed/audiobooks?id=42&format=json"
    );
    assert_eq!(
        source.latest_releases_url(10).unwrap(),
        "https://librivox.org/api/feed/audiobooks?format=json&limit=10"
    );
    assert_eq!(
        source.availability_url(),
        Some("https://librivox.org/api/feed/audiobooks?format=json&limit=1".to_string())
    );
    let meta = source.metadata();
    assert_eq!(meta.name, "LibriVox");
    assert!(!meta.requires_auth);
    assert!(meta.base_url.contains("librivox.org"));

    let offline = LibriVoxSource::with_client(false);
    assert!(!offline.is_available());
    assert_eq!(
        offline.search_books_url("x", 1).unwrap_err(),
        SourceError::NetworkError("HTTP client not available".to_string())
    );
    assert_eq!(
        offline.search_books_url("", 1).unwrap_err(),
        SourceError::InvalidQuery("Empty query".to_string())
    );
    assert!(offline.availability_url().is_none());
}

#[test]
fn librivox_answers() {
    assert!(search_status(200, Some("OK")).is_ok());
    assert_eq!(
        search_status(503, Some("Service Unavailable")).unwrap_err(),
        SourceError::NetworkError("HTTP 503 Service Unavailable".to_string())
    );
    assert_eq!(
        search_status(599, None).unwrap_err(),
        SourceError::NetworkError("HTTP 599 Unknown".to_string())
    );
    assert_eq!(listing_status(404).unwrap_err(), SourceError::NetworkError("HTTP 404".to_string()));
    assert!(listing_status(204).is_ok());
    assert_eq!(book_status(404).unwrap_err(), SourceError::NotFound);
    assert_eq!(request_failed("timeout"), SourceError::NetworkError("Request failed: timeout".to_string()));
    assert_eq!(json_parse_failed("eof"), SourceError::ParseError("JSON parse error: eof".to_string()));
    assert_eq!(first_book(Vec::new()).unwrap_err(), SourceError::NotFound);
    let book = LibriVoxBook::new("9".to_string(), "T".to_string(), "A".to_string());
    assert_eq!(first_book(vec![book]).unwrap().id, "9");
}

#[test]
fn librivox_books_become_results() {
    let mut book = LibriVoxBook::new("7".to_string(), "Emma".to_string(), "Jane Austen".to_string());
    book.totaltime = "1:00:00".to_string();
    book.url_librivox = "https://librivox.org/emma".to_string();
    let mut other = LibriVoxBook::new("8".to_string(), "Persuasion".to_string(), "Jane Austen".to_string());
    other.description = "A novel".to_string();
    let results = search_results(&vec![book, other]);
    assert_eq!(results.len(), 2);
    assert_eq!(results[0].id, "7");
    assert_eq!(results[0].duration, Some(3600));
    assert_eq!(results[0].description, None);
    assert_eq!(results[0].url, "https://librivox.org/emma");
    assert_eq!(results[0].source, "LibriVox");
    assert_eq!(results[1].duration, None);
    assert_eq!(results[1].description, Some("A novel".to_string()));
}
