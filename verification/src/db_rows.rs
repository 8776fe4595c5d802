//! Database rows into domain values: what each column must hold, and the
//! error that a missing or malformed column gives.

use vstd::prelude::*;
use crate::app_error::AppError;
use crate::book::{Book, Chapter};
use crate::bookmark::Bookmark;
use crate::ids::{uuid_parse, uuid_text, BookId, BookmarkId, ChapterId, PlaylistId};
use crate::playlist::{Playlist, PlaylistType, SmartPlaylistCriteria};
use crate::sleep_timer::SleepTimer;
use crate::text::{owned, str_equal};
use crate::time::{Duration, Timestamp};
use crate::validate::texts;

verus! {

/// A column's value as read from a row, or the text of the error reading it
/// gave.
pub type Column<T> = Result<T, String>;

/// Why a row could not be read: the message, and the text of the error that
/// caused it when the row alone determines it.
pub ghost struct RowFailure {
    pub message: Seq<char>,
    pub source: Option<Seq<char>>,
}

pub open spec fn failure(message: Seq<char>, source: Option<Seq<char>>) -> RowFailure {
    RowFailure { message, source }
}

/// The failure of a column that must be present, if it is missing.
pub open spec fn missing<T>(c: Column<T>, message: Seq<char>) -> Option<RowFailure> {
    match c {
        Ok(_) => None,
        Err(t) => Some(failure(message, Some(t@))),
    }
}

/// `e` is the database error that a failure describes.
pub open spec fn reports(e: AppError, f: RowFailure) -> bool {
    e matches AppError::DatabaseError { message, source: Some(s) } && message@ == f.message && (
    f.source matches Some(t) ==> s@ == t)
}

/// The first failure among checks made in order.
pub open spec fn first_failure(fs: Seq<Option<RowFailure>>) -> Option<RowFailure>
    decreases fs.len(),
{
    if fs.len() == 0 {
        None
    } else if fs[0] is Some {
        fs[0]
    } else {
        first_failure(fs.drop_first())
    }
}

/// What `serde_json::from_str::<Vec<String>>` makes of a text: the strings,
/// or the text of its error.
pub uninterp spec fn json_string_list(text: Seq<char>) -> Result<Seq<Seq<char>>, Seq<char>>;

pub open spec fn list_result_view(r: Result<Vec<String>, String>) -> Result<Seq<Seq<char>>, Seq<char>> {
    match r {
        Ok(v) => Ok(texts(v@)),
        Err(e) => Err(e@),
    }
}

/// `serde_json::from_str::<Vec<String>>`, with its error as text.
#[verifier::external_body]
fn parse_string_list(text: &str) -> (r: Result<Vec<String>, String>)
    ensures
        list_result_view(r) == json_string_list(text@),
{
    serde_json::from_str::<Vec<String>>(text).map_err(|e| e.to_string())
}

/// The value of a column that must be present, or the database error for it.
pub fn required<T>(c: Column<T>, message: &str) -> (r: Result<T, AppError>)
    ensures
        c matches Ok(v) ==> r == Ok::<T, AppError>(v),
        c is Err ==> (r matches Err(e) && reports(e, missing(c, message@)->0)),
{
    match c {
        Ok(v) => Ok(v),
        Err(t) => Err(AppError::database(message, t)),
    }
}

/// The id in a column, read as a UUID; a missing column or a text that is no
/// UUID is a database error.
pub open spec fn id_failure(c: Column<String>, missing_message: Seq<char>, invalid_message: Seq<char>) -> Option<
    RowFailure,
> {
    match c {
        Err(t) => Some(failure(missing_message, Some(t@))),
        Ok(s) => if uuid_parse(s@) is None {
            Some(failure(invalid_message, None))
        } else {
            None
        },
    }
}

/// The UUID value of an id column.
pub open spec fn id_value(c: Column<String>) -> u128 {
    uuid_parse(c->Ok_0@)->0
}

pub fn read_book_id(c: Column<String>, missing_message: &str, invalid_message: &str) -> (r: Result<
    BookId,
    AppError,
>)
    ensures
        match id_failure(c, missing_message@, invalid_message@) {
            Some(f) => r matches Err(e) && reports(e, f),
            None => r matches Ok(id) && id@ == id_value(c),
        },
{
    let text = match c {
        Ok(s) => s,
        Err(t) => return Err(AppError::database(missing_message, t)),
    };
    match BookId::from_string(text.as_str()) {
        Ok(id) => Ok(id),
        Err(e) => Err(AppError::database(invalid_message, e.reason)),
    }
}

pub fn read_chapter_id(c: Column<String>, missing_message: &str, invalid_message: &str) -> (r: Result<
    ChapterId,
    AppError,
>)
    ensures
        match id_failure(c, missing_message@, invalid_message@) {
            Some(f) => r matches Err(e) && reports(e, f),
            None => r matches Ok(id) && id@ == id_value(c),
        },
{
    let text = match c {
        Ok(s) => s,
        Err(t) => return Err(AppError::database(missing_message, t)),
    };
    match ChapterId::from_string(text.as_str()) {
        Ok(id) => Ok(id),
        Err(e) => Err(AppError::database(invalid_message, e.reason)),
    }
}

pub fn read_bookmark_id(c: Column<String>, missing_message: &str, invalid_message: &str) -> (r: Result<
    BookmarkId,
    AppError,
>)
    ensures
        match id_failure(c, missing_message@, invalid_message@) {
            Some(f) => r matches Err(e) && reports(e, f),
            None => r matches Ok(id) && id@ == id_value(c),
        },
{
    let text = match c {
        Ok(s) => s,
        Err(t) => return Err(AppError::database(missing_message, t)),
    };
    match BookmarkId::from_string(text.as_str()) {
        Ok(id) => Ok(id),
        Err(e) => Err(AppError::database(invalid_message, e.reason)),
    }
}

pub fn read_playlist_id(c: Column<String>, missing_message: &str, invalid_message: &str) -> (r: Result<
    PlaylistId,
    AppError,
>)
    ensures
        match id_failure(c, missing_message@, invalid_message@) {
            Some(f) => r matches Err(e) && reports(e, f),
            None => r matches Ok(id) && id@ == id_value(c),
        },
{
    let text = match c {
        Ok(s) => s,
        Err(t) => return Err(AppError::database(missing_message, t)),
    };
    match PlaylistId::from_string(text.as_str()) {
        Ok(id) => Ok(id),
        Err(e) => Err(AppError::database(invalid_message, e.reason)),
    }
}

/// An optional timestamp column as a timestamp.
pub open spec fn stamp_matches(t: Option<Timestamp>, ms: Option<i64>) -> bool {
    match ms {
        Some(m) => t matches Some(x) && x@ == m,
        None => t is None,
    }
}

fn optional_stamp(ms: Option<i64>) -> (r: Option<Timestamp>)
    ensures
        stamp_matches(r, ms),
{
    match ms {
        Some(m) => Some(Timestamp::from_millis(m)),
        None => None,
    }
}

// ------------------------------------------------------------------ books

/// The columns of a row of the books table.
pub struct BookRow {
    pub id: Column<String>,
    pub title: Column<String>,
    pub author: Option<String>,
    pub narrator: Option<String>,
    pub series: Option<String>,
    pub series_position_bits: Option<u32>,
    pub description: Option<String>,
    pub language: Option<String>,
    pub publisher: Option<String>,
    pub published_date: Option<String>,
    pub isbn: Option<String>,
    pub duration_ms: Column<i64>,
    pub file_path: Column<String>,
    pub file_size: Column<i64>,
    pub cover_art_path: Option<String>,
    pub added_date: Column<i64>,
    pub last_played: Option<i64>,
    pub play_count: Column<i64>,
    pub is_favorite: Column<i64>,
    pub rating: Option<i64>,
    pub tags: Column<String>,
    pub deleted_at: Option<i64>,
}

/// The tags column's JSON, if it is present but not a list of strings.
pub open spec fn tags_failure(c: Column<String>) -> Option<RowFailure> {
    match c {
        Ok(t) => match json_string_list(t@) {
            Err(m) => Some(failure("Failed to deserialize tags"@, Some(m))),
            Ok(_) => None,
        },
        Err(_) => None,
    }
}

/// Why a books row cannot be read, checked column by column in this order.
pub open spec fn book_row_failure(row: BookRow) -> Option<RowFailure> {
    first_failure(
        seq![
            id_failure(row.id, "Missing book ID"@, "Invalid book ID"@),
            missing(row.tags, "Missing tags"@),
            tags_failure(row.tags),
            missing(row.duration_ms, "Missing duration"@),
            missing(row.file_path, "Missing file path"@),
            missing(row.added_date, "Missing added date"@),
            missing(row.play_count, "Missing play count"@),
            missing(row.is_favorite, "Missing is_favorite"@),
            missing(row.file_size, "Missing file size"@),
            missing(row.title, "Missing title"@),
        ],
    )
}

/// A rating column kept only when it is between 1 and 5.
pub open spec fn rating_of(r: Option<i64>) -> Option<u8> {
    match r {
        Some(x) => if 1 <= x <= 5 {
            Some(x as u8)
        } else {
            None
        },
        None => None,
    }
}

/// The book that a readable books row holds: its columns, with integers
/// cast as `as` casts them.
pub open spec fn book_of_row(b: Book, row: BookRow) -> bool {
    &&& b.id@ == id_value(row.id)
    &&& b.title == row.title->Ok_0
    &&& b.author == row.author
    &&& b.narrator == row.narrator
    &&& b.series == row.series
    &&& b.series_position_bits == row.series_position_bits
    &&& b.description == row.description
    &&& b.language == row.language
    &&& b.publisher == row.publisher
    &&& b.published_date == row.published_date
    &&& b.isbn == row.isbn
    &&& b.duration@ == row.duration_ms->Ok_0 as u64
    &&& b.file_path == row.file_path->Ok_0
    &&& b.file_size == row.file_size->Ok_0 as u64
    &&& b.cover_art_path == row.cover_art_path
    &&& b.added_date@ == row.added_date->Ok_0
    &&& stamp_matches(b.last_played, row.last_played)
    &&& b.play_count == row.play_count->Ok_0 as u32
    &&& b.is_favorite == (row.is_favorite->Ok_0 != 0)
    &&& b.rating == rating_of(row.rating)
    &&& texts(b.tags@) == json_string_list(row.tags->Ok_0@)->Ok_0
    &&& stamp_matches(b.deleted_at, row.deleted_at)
}

/// Reads a book from a row of the books table.
pub fn book_from_row(row: BookRow) -> (r: Result<Book, AppError>)
    ensures
        match book_row_failure(row) {
            Some(f) => r matches Err(e) && reports(e, f),
            None => r matches Ok(b) && book_of_row(b, row),
        },
{
    let ghost g = row;
    proof {
        reveal_with_fuel(first_failure, 11);
    }
    let id = read_book_id(row.id, "Missing book ID", "Invalid book ID")?;
    let tags_json = required(row.tags, "Missing tags")?;
    let tags = match parse_string_list(tags_json.as_str()) {
        Ok(v) => v,
        Err(m) => return Err(AppError::database("Failed to deserialize tags", m)),
    };
    let duration_ms = required(row.duration_ms, "Missing duration")?;
    let file_path = required(row.file_path, "Missing file path")?;
    let added_date_ms = required(row.added_date, "Missing added date")?;
    let play_count = required(row.play_count, "Missing play count")?;
    let is_favorite = required(row.is_favorite, "Missing is_favorite")?;
    let file_size = required(row.file_size, "Missing file size")?;
    let title = required(row.title, "Missing title")?;
    let rating = match row.rating {
        Some(x) => if 1 <= x && x <= 5 {
            Some(x as u8)
        } else {
            None
        },
        None => None,
    };
    proof {
        assert(book_row_failure(g) is None);
    }
    Ok(Book {
        id,
        title,
        author: row.author,
        narrator: row.narrator,
        series: row.series,
        series_position_bits: row.series_position_bits,
        description: row.description,
        language: row.language,
        publisher: row.publisher,
        published_date: row.published_date,
        isbn: row.isbn,
        duration: Duration::from_millis(#[verifier::truncate] (duration_ms as u64)),
        file_path,
        file_size: #[verifier::truncate] (file_size as u64),
        cover_art_path: row.cover_art_path,
        added_date: Timestamp::from_millis(added_date_ms),
        last_played: optional_stamp(row.last_played),
        play_count: #[verifier::truncate] (play_count as u32),
        is_favorite: is_favorite != 0,
        rating,
        tags,
        deleted_at: optional_stamp(row.deleted_at),
    })
}

// --------------------------------------------------------------- chapters

/// The columns of a row of the chapters table.
pub struct ChapterRow {
    pub id: Column<String>,
    pub book_id: Column<String>,
    pub title: Column<String>,
    pub index_number: Column<i64>,
    pub start_time_ms: Column<i64>,
    pub end_time_ms: Column<i64>,
    pub image_path: Option<String>,
}

/// Why a chapters row cannot be read, checked column by column in this order.
pub open spec fn chapter_row_failure(row: ChapterRow) -> Option<RowFailure> {
    first_failure(
        seq![
            id_failure(row.id, "Missing chapter ID"@, "Invalid chapter ID"@),
            id_failure(row.book_id, "Missing book ID"@, "Invalid book ID"@),
            missing(row.start_time_ms, "Missing start time"@),
            missing(row.end_time_ms, "Missing end time"@),
            missing(row.index_number, "Missing index"@),
            missing(row.title, "Missing title"@),
        ],
    )
}

/// The chapter that a readable chapters row holds.
pub open spec fn chapter_of_row(c: Chapter, row: ChapterRow) -> bool {
    &&& c.id@ == id_value(row.id)
    &&& c.book_id@ == id_value(row.book_id)
    &&& c.title == row.title->Ok_0
    &&& c.index == row.index_number->Ok_0 as u32
    &&& c.start_time@ == row.start_time_ms->Ok_0 as u64
    &&& c.end_time@ == row.end_time_ms->Ok_0 as u64
    &&& c.image_path == row.image_path
}

/// Reads a chapter from a row of the chapters table.
pub fn chapter_from_row(row: ChapterRow) -> (r: Result<Chapter, AppError>)
    ensures
        match chapter_row_failure(row) {
            Some(f) => r matches Err(e) && reports(e, f),
            None => r matches Ok(c) && chapter_of_row(c, row),
        },
{
    let ghost g = row;
    proof {
        reveal_with_fuel(first_failure, 7);
    }
    let id = read_chapter_id(row.id, "Missing chapter ID", "Invalid chapter ID")?;
    let book_id = read_book_id(row.book_id, "Missing book ID", "Invalid book ID")?;
    let start_time_ms = required(row.start_time_ms, "Missing start time")?;
    let end_time_ms = required(row.end_time_ms, "Missing end time")?;
    let index = required(row.index_number, "Missing index")?;
    let title = required(row.title, "Missing title")?;
    proof {
        assert(chapter_row_failure(g) is None);
    }
    Ok(Chapter {
        id,
        book_id,
        title,
        index: #[verifier::truncate] (index as u32),
        start_time: Duration::from_millis(#[verifier::truncate] (start_time_ms as u64)),
        end_time: Duration::from_millis(#[verifier::truncate] (end_time_ms as u64)),
        image_path: row.image_path,
    })
}

// -------------------------------------------------------------- bookmarks

/// The columns of a row of the bookmarks table.
pub struct BookmarkRow {
    pub id: Column<String>,
    pub book_id: Column<String>,
    pub position_ms: Column<i64>,
    pub title: Option<String>,
    pub note: Option<String>,
    pub created_at: Column<i64>,
    pub updated_at: Column<i64>,
}

/// Why a bookmarks row cannot be read, checked column by column in this order.
pub open spec fn bookmark_row_failure(row: BookmarkRow) -> Option<RowFailure> {
    first_failure(
        seq![
            id_failure(row.id, "Missing bookmark ID"@, "Invalid bookmark ID"@),
            id_failure(row.book_id, "Missing book ID"@, "Invalid book ID"@),
            missing(row.position_ms, "Missing position"@),
            missing(row.created_at, "Missing created_at"@),
            missing(row.updated_at, "Missing updated_at"@),
        ],
    )
}

/// The bookmark that a readable bookmarks row holds.
pub open spec fn bookmark_of_row(b: Bookmark, row: BookmarkRow) -> bool {
    &&& b.id@ == id_value(row.id)
    &&& b.book_id@ == id_value(row.book_id)
    &&& b.position@ == row.position_ms->Ok_0 as u64
    &&& b.title == row.title
    &&& b.note == row.note
    &&& b.created_at@ == row.created_at->Ok_0
    &&& b.updated_at@ == row.updated_at->Ok_0
}

/// Reads a bookmark from a row of the bookmarks table.
pub fn bookmark_from_row(row: BookmarkRow) -> (r: Result<Bookmark, AppError>)
    ensures
        match bookmark_row_failure(row) {
            Some(f) => r matches Err(e) && reports(e, f),
            None => r matches Ok(b) && bookmark_of_row(b, row),
        },
{
    let ghost g = row;
    proof {
        reveal_with_fuel(first_failure, 6);
    }
    let id = read_bookmark_id(row.id, "Missing bookmark ID", "Invalid bookmark ID")?;
    let book_id = read_book_id(row.book_id, "Missing book ID", "Invalid book ID")?;
    let position_ms = required(row.position_ms, "Missing position")?;
    let created_at_ms = required(row.created_at, "Missing created_at")?;
    let updated_at_ms = required(row.updated_at, "Missing updated_at")?;
    proof {
        assert(bookmark_row_failure(g) is None);
    }
    Ok(Bookmark {
        id,
        book_id,
        position: Duration::from_millis(#[verifier::truncate] (position_ms as u64)),
        title: row.title,
        note: row.note,
        created_at: Timestamp::from_millis(created_at_ms),
        updated_at: Timestamp::from_millis(updated_at_ms),
    })
}

// -------------------------------------------------------------- playlists

/// The columns of a row of the playlists table. The smart criteria are
/// given as read from their JSON: none when the column is absent or empty,
/// else the criteria or the text of the error reading them.
pub struct PlaylistRow {
    pub id: Column<String>,
    pub name: Column<String>,
    pub description: Option<String>,
    pub playlist_type: Column<String>,
    pub smart_criteria: Option<Result<SmartPlaylistCriteria, String>>,
    pub created_at: Column<i64>,
    pub updated_at: Column<i64>,
}

/// The playlist type that a type column names.
pub open spec fn playlist_type_named(text: Seq<char>) -> Option<PlaylistType> {
    if text == "Manual"@ {
        Some(PlaylistType::Manual)
    } else if text == "Smart"@ {
        Some(PlaylistType::Smart)
    } else {
        None
    }
}

/// The database errors of a playlists row before its type is known.
pub open spec fn playlist_head_failure(row: PlaylistRow) -> Option<RowFailure> {
    first_failure(
        seq![
            id_failure(row.id, "Missing playlist ID"@, "Invalid playlist ID"@),
            missing(row.playlist_type, "Missing playlist type"@),
        ],
    )
}

/// The criteria's failure, if their JSON could not be read.
pub open spec fn criteria_failure(c: Option<Result<SmartPlaylistCriteria, String>>) -> Option<
    RowFailure,
> {
    match c {
        Some(Err(t)) => Some(failure("Failed to deserialize criteria"@, Some(t@))),
        _ => None,
    }
}

/// The database errors of a playlists row after its type was read.
pub open spec fn playlist_tail_failure(row: PlaylistRow) -> Option<RowFailure> {
    first_failure(
        seq![
            missing(row.created_at, "Missing created_at"@),
            missing(row.updated_at, "Missing updated_at"@),
            criteria_failure(row.smart_criteria),
            missing(row.name, "Missing name"@),
        ],
    )
}

/// The playlist that a readable playlists row holds.
pub open spec fn playlist_of_row(p: Playlist, row: PlaylistRow) -> bool {
    &&& p.id@ == id_value(row.id)
    &&& p.name == row.name->Ok_0
    &&& p.description == row.description
    &&& Some(p.playlist_type) == playlist_type_named(row.playlist_type->Ok_0@)
    &&& p.smart_criteria == match row.smart_criteria {
        Some(Ok(c)) => Some(c),
        _ => None,
    }
    &&& p.created_at@ == row.created_at->Ok_0
    &&& p.updated_at@ == row.updated_at->Ok_0
}

/// Reads a playlist from a row of the playlists table: an unknown type is
/// an invalid argument; the other failures are database errors.
pub fn playlist_from_row(row: PlaylistRow) -> (r: Result<Playlist, AppError>)
    ensures
        match playlist_head_failure(row) {
            Some(f) => r matches Err(e) && reports(e, f),
            None => match playlist_type_named(row.playlist_type->Ok_0@) {
                None => r matches Err(AppError::InvalidArgument { argument, reason })
                    && argument@ == "playlist_type"@ && reason@ == "Invalid playlist type"@,
                Some(_) => match playlist_tail_failure(row) {
                    Some(f) => r matches Err(e) && reports(e, f),
                    None => r matches Ok(p) && playlist_of_row(p, row),
                },
            },
        },
{
    let ghost g = row;
    proof {
        reveal_with_fuel(first_failure, 5);
    }
    let id = read_playlist_id(row.id, "Missing playlist ID", "Invalid playlist ID")?;
    let type_text = required(row.playlist_type, "Missing playlist type")?;
    let playlist_type = if str_equal(type_text.as_str(), "Manual") {
        PlaylistType::Manual
    } else if str_equal(type_text.as_str(), "Smart") {
        PlaylistType::Smart
    } else {
        return Err(AppError::InvalidArgument {
            argument: owned("playlist_type"),
            reason: owned("Invalid playlist type"),
        });
    };
    let created_at_ms = required(row.created_at, "Missing created_at")?;
    let updated_at_ms = required(row.updated_at, "Missing updated_at")?;
    let smart_criteria = match row.smart_criteria {
        Some(Ok(c)) => Some(c),
        Some(Err(t)) => return Err(AppError::database("Failed to deserialize criteria", t)),
        None => None,
    };
    let name = required(row.name, "Missing name")?;
    proof {
        assert(playlist_tail_failure(g) is None);
    }
    Ok(Playlist {
        id,
        name,
        description: row.description,
        playlist_type,
        smart_criteria,
        created_at: Timestamp::from_millis(created_at_ms),
        updated_at: Timestamp::from_millis(updated_at_ms),
    })
}

// --------------------------------------------------------- playback state

/// The columns of a row of the playback_state table. The speed is given as
/// the bit pattern of the 64-bit float that its column holds; the equalizer
/// and the sleep timer as read from their JSON: none when the column is
/// absent or empty, else the value or the text of the error reading it.
pub struct PlaybackRow<E> {
    pub book_id: Column<String>,
    pub position_ms: Column<i64>,
    pub speed_bits: Column<u64>,
    pub pitch_correction: Column<i64>,
    pub volume: Column<i64>,
    pub is_playing: Column<i64>,
    pub equalizer: Option<Result<E, String>>,
    pub sleep_timer: Option<Result<SleepTimer, String>>,
    pub skip_silence: Column<i64>,
    pub volume_boost: Column<i64>,
    pub last_updated: Column<i64>,
}

/// What a readable playback row holds; the speed is still the bit pattern
/// of its float.
pub struct PlaybackColumns<E> {
    pub book_id: BookId,
    pub position: Duration,
    pub speed_bits: u64,
    pub pitch_correction: bool,
    pub volume: u8,
    pub is_playing: bool,
    pub equalizer: Option<E>,
    pub sleep_timer: Option<SleepTimer>,
    pub skip_silence: bool,
    pub volume_boost: u8,
    pub last_updated: Timestamp,
}

/// A JSON column's text as it is read: an absent or empty text counts as
/// no value.
pub open spec fn json_text_present(c: Option<String>) -> Option<String> {
    match c {
        Some(t) => if t@.len() == 0 {
            None
        } else {
            Some(t)
        },
        None => None,
    }
}

/// The text of a JSON column that is read as a value: none when the column
/// is null or empty.
pub fn json_column_text(c: Option<String>) -> (r: Option<String>)
    ensures
        r == json_text_present(c),
{
    match c {
        Some(t) => if t.as_str().unicode_len() == 0 {
            None
        } else {
            Some(t)
        },
        None => None,
    }
}

/// The failure of a JSON column, if its JSON could not be read.
pub open spec fn json_failure<T>(c: Option<Result<T, String>>, message: Seq<char>) -> Option<RowFailure> {
    match c {
        Some(Err(t)) => Some(failure(message, Some(t@))),
        _ => None,
    }
}

/// The value of a JSON column that could be read.
pub open spec fn json_value<T>(c: Option<Result<T, String>>) -> Option<T> {
    match c {
        Some(Ok(v)) => Some(v),
        _ => None,
    }
}

/// Why a playback row cannot be read, checked column by column in this order.
pub open spec fn playback_row_failure<E>(row: PlaybackRow<E>) -> Option<RowFailure> {
    first_failure(
        seq![
            id_failure(row.book_id, "Missing book ID"@, "Invalid book ID"@),
            missing(row.position_ms, "Missing position"@),
            missing(row.speed_bits, "Missing speed"@),
            missing(row.pitch_correction, "Missing pitch correction"@),
            missing(row.volume, "Missing volume"@),
            missing(row.is_playing, "Missing is_playing"@),
            missing(row.skip_silence, "Missing skip_silence"@),
            missing(row.volume_boost, "Missing volume_boost"@),
            missing(row.last_updated, "Missing last_updated"@),
            json_failure(row.equalizer, "Failed to deserialize equalizer"@),
            json_failure(row.sleep_timer, "Failed to deserialize sleep timer"@),
        ],
    )
}

/// The playback state that a readable row holds.
pub open spec fn playback_of_row<E>(p: PlaybackColumns<E>, row: PlaybackRow<E>) -> bool {
    &&& p.book_id@ == id_value(row.book_id)
    &&& p.position@ == row.position_ms->Ok_0 as u64
    &&& p.speed_bits == row.speed_bits->Ok_0
    &&& p.pitch_correction == (row.pitch_correction->Ok_0 != 0)
    &&& p.volume == row.volume->Ok_0 as u8
    &&& p.is_playing == (row.is_playing->Ok_0 != 0)
    &&& p.equalizer == json_value(row.equalizer)
    &&& p.sleep_timer == json_value(row.sleep_timer)
    &&& p.skip_silence == (row.skip_silence->Ok_0 != 0)
    &&& p.volume_boost == row.volume_boost->Ok_0 as u8
    &&& p.last_updated@ == row.last_updated->Ok_0
}

/// Reads the playback state of a book from a row of the playback_state table.
pub fn playback_from_row<E>(row: PlaybackRow<E>) -> (r: Result<PlaybackColumns<E>, AppError>)
    ensures
        match playback_row_failure(row) {
            Some(f) => r matches Err(e) && reports(e, f),
            None => r matches Ok(p) && playback_of_row(p, row),
        },
{
    let ghost g = row;
    proof {
        reveal_with_fuel(first_failure, 12);
    }
    let book_id = read_book_id(row.book_id, "Missing book ID", "Invalid book ID")?;
    let position_ms = required(row.position_ms, "Missing position")?;
    let speed_bits = required(row.speed_bits, "Missing speed")?;
    let pitch_correction = required(row.pitch_correction, "Missing pitch correction")?;
    let volume = required(row.volume, "Missing volume")?;
    let is_playing = required(row.is_playing, "Missing is_playing")?;
    let skip_silence = required(row.skip_silence, "Missing skip_silence")?;
    let volume_boost = required(row.volume_boost, "Missing volume_boost")?;
    let last_updated_ms = required(row.last_updated, "Missing last_updated")?;
    let equalizer = match row.equalizer {
        Some(Ok(e)) => Some(e),
        Some(Err(t)) => return Err(AppError::database("Failed to deserialize equalizer", t)),
        None => None,
    };
    let sleep_timer = match row.sleep_timer {
        Some(Ok(t)) => Some(t),
        Some(Err(t)) => return Err(AppError::database("Failed to deserialize sleep timer", t)),
        None => None,
    };
    proof {
        assert(playback_row_failure(g) is None);
    }
    Ok(PlaybackColumns {
        book_id,
        position: Duration::from_millis(#[verifier::truncate] (position_ms as u64)),
        speed_bits,
        pitch_correction: pitch_correction != 0,
        volume: #[verifier::truncate] (volume as u8),
        is_playing: is_playing != 0,
        equalizer,
        sleep_timer,
        skip_silence: skip_silence != 0,
        volume_boost: #[verifier::truncate] (volume_boost as u8),
        last_updated: Timestamp::from_millis(last_updated_ms),
    })
}

// ------------------------------------------------- fetched rows and listings

/// A books row can be read: no column is missing or malformed.
#[verifier::opaque]
pub open spec fn book_row_readable(row: BookRow) -> bool {
    book_row_failure(row) is None
}

/// What reading a books row gives: the book it holds, or its failure.
#[verifier::opaque]
pub open spec fn book_read(row: BookRow, r: Result<Book, AppError>) -> bool {
    match book_row_failure(row) {
        Some(f) => r matches Err(e) && reports(e, f),
        None => r matches Ok(b) && book_of_row(b, row),
    }
}

/// A chapters row can be read: no column is missing or malformed.
#[verifier::opaque]
pub open spec fn chapter_row_readable(row: ChapterRow) -> bool {
    chapter_row_failure(row) is None
}

/// What reading a chapters row gives.
#[verifier::opaque]
pub open spec fn chapter_read(row: ChapterRow, r: Result<Chapter, AppError>) -> bool {
    match chapter_row_failure(row) {
        Some(f) => r matches Err(e) && reports(e, f),
        None => r matches Ok(c) && chapter_of_row(c, row),
    }
}

/// A bookmarks row can be read: no column is missing or malformed.
#[verifier::opaque]
pub open spec fn bookmark_row_readable(row: BookmarkRow) -> bool {
    bookmark_row_failure(row) is None
}

/// What reading a bookmarks row gives.
#[verifier::opaque]
pub open spec fn bookmark_read(row: BookmarkRow, r: Result<Bookmark, AppError>) -> bool {
    match bookmark_row_failure(row) {
        Some(f) => r matches Err(e) && reports(e, f),
        None => r matches Ok(b) && bookmark_of_row(b, row),
    }
}

/// What reading a playlists row gives.
#[verifier::opaque]
pub open spec fn playlist_read(row: PlaylistRow, r: Result<Playlist, AppError>) -> bool {
    match playlist_head_failure(row) {
        Some(f) => r matches Err(e) && reports(e, f),
        None => match playlist_type_named(row.playlist_type->Ok_0@) {
            None => r matches Err(AppError::InvalidArgument { argument, reason })
                && argument@ == "playlist_type"@ && reason@ == "Invalid playlist type"@,
            Some(_) => match playlist_tail_failure(row) {
                Some(f) => r matches Err(e) && reports(e, f),
                None => r matches Ok(p) && playlist_of_row(p, row),
            },
        },
    }
}

/// `e` says that no record of `entity` has the id whose text is `identifier`.
pub open spec fn not_found(e: AppError, entity: Seq<char>, identifier: Seq<char>) -> bool {
    e matches AppError::RecordNotFound { entity: n, identifier: i } && n@ == entity && i@
        == identifier
}

/// Fetching a book by id: the book its row holds, or that no book has the id.
pub fn fetched_book(row: Option<BookRow>, id: BookId) -> (r: Result<Book, AppError>)
    ensures
        match row {
            None => r matches Err(e) && not_found(e, "Book"@, uuid_text(id@)),
            Some(x) => book_read(x, r),
        },
{
    match row {
        None => Err(AppError::RecordNotFound { entity: owned("Book"), identifier: id.to_string() }),
        Some(x) => {
            let r = book_from_row(x);
            proof {
                reveal(book_read);
            }
            r
        },
    }
}

/// Fetching a chapter by id.
pub fn fetched_chapter(row: Option<ChapterRow>, id: ChapterId) -> (r: Result<Chapter, AppError>)
    ensures
        match row {
            None => r matches Err(e) && not_found(e, "Chapter"@, uuid_text(id@)),
            Some(x) => chapter_read(x, r),
        },
{
    match row {
        None => Err(
            AppError::RecordNotFound { entity: owned("Chapter"), identifier: id.to_string() },
        ),
        Some(x) => {
            let r = chapter_from_row(x);
            proof {
                reveal(chapter_read);
            }
            r
        },
    }
}

/// Fetching a bookmark by id.
pub fn fetched_bookmark(row: Option<BookmarkRow>, id: BookmarkId) -> (r: Result<
    Bookmark,
    AppError,
>)
    ensures
        match row {
            None => r matches Err(e) && not_found(e, "Bookmark"@, uuid_text(id@)),
            Some(x) => bookmark_read(x, r),
        },
{
    match row {
        None => Err(
            AppError::RecordNotFound { entity: owned("Bookmark"), identifier: id.to_string() },
        ),
        Some(x) => {
            let r = bookmark_from_row(x);
            proof {
                reveal(bookmark_read);
            }
            r
        },
    }
}

/// Fetching a playlist by id.
pub fn fetched_playlist(row: Option<PlaylistRow>, id: PlaylistId) -> (r: Result<
    Playlist,
    AppError,
>)
    ensures
        match row {
            None => r matches Err(e) && not_found(e, "Playlist"@, uuid_text(id@)),
            Some(x) => playlist_read(x, r),
        },
{
    match row {
        None => Err(
            AppError::RecordNotFound { entity: owned("Playlist"), identifier: id.to_string() },
        ),
        Some(x) => {
            let r = playlist_from_row(x);
            proof {
                reveal(playlist_read);
            }
            r
        },
    }
}

/// Fetching the playback state of a book.
pub fn fetched_playback<E>(row: Option<PlaybackRow<E>>, book_id: BookId) -> (r: Result<
    PlaybackColumns<E>,
    AppError,
>)
    ensures
        match row {
            None => r matches Err(e) && not_found(e, "PlaybackState"@, uuid_text(book_id@)),
            Some(x) => match playback_row_failure(x) {
                Some(f) => r matches Err(e) && reports(e, f),
                None => r matches Ok(p) && playback_of_row(p, x),
            },
        },
{
    match row {
        None => Err(
            AppError::RecordNotFound {
                entity: owned("PlaybackState"),
                identifier: book_id.to_string(),
            },
        ),
        Some(x) => playback_from_row(x),
    }
}

fn read_book(row: BookRow) -> (r: Result<Book, AppError>)
    ensures
        book_read(row, r),
        r is Ok <==> book_row_readable(row),
{
    let r = book_from_row(row);
    proof {
        reveal(book_read);
        reveal(book_row_readable);
    }
    r
}

/// Reads listed rows in turn: every book when all rows are readable, else
/// the failure of the first row that is not.
pub fn books_from_rows(rows: Vec<BookRow>) -> (r: Result<Vec<Book>, AppError>)
    ensures
        r is Ok <==> forall|i: int| 0 <= i < rows@.len() ==> book_row_readable(#[trigger] rows@[i]),
        r matches Ok(v) ==> v@.len() == rows@.len() && forall|i: int|
            0 <= i < rows@.len() ==> book_read(#[trigger] rows@[i], Ok(v@[i])),
        r matches Err(e) ==> exists|j: int|
            0 <= j < rows@.len() && (forall|i: int| 0 <= i < j ==> book_row_readable(#[trigger] rows@[i]))
                && book_read(#[trigger] rows@[j], Err(e)),
{
    let ghost all = rows@;
    let mut rest = rows;
    let mut out: Vec<Book> = Vec::new();
    let ghost mut k: int = 0;
    while rest.len() > 0
        invariant
            all == rows@,
            0 <= k <= all.len(),
            rest@ == all.subrange(k, all.len() as int),
            out@.len() == k,
            forall|i: int| 0 <= i < k ==> book_row_readable(#[trigger] all[i]),
            forall|i: int| 0 <= i < k ==> book_read(#[trigger] all[i], Ok(out@[i])),
        decreases rest.len(),
    {
        let row = rest.remove(0);
        proof {
            assert(row == all[k]);
            assert(rest@ =~= all.subrange(k + 1, all.len() as int));
        }
        match read_book(row) {
            Ok(b) => {
                out.push(b);
                proof {
                    k = k + 1;
                }
            },
            Err(e) => {
                proof {
                    assert(!book_row_readable(all[k]));
                }
                return Err(e);
            },
        }
    }
    proof {
        assert(k == all.len());
    }
    Ok(out)
}

fn read_chapter(row: ChapterRow) -> (r: Result<Chapter, AppError>)
    ensures
        chapter_read(row, r),
        r is Ok <==> chapter_row_readable(row),
{
    let r = chapter_from_row(row);
    proof {
        reveal(chapter_read);
        reveal(chapter_row_readable);
    }
    r
}

/// Reads listed rows in turn: every chapter when all rows are readable, else
/// the failure of the first row that is not.
pub fn chapters_from_rows(rows: Vec<ChapterRow>) -> (r: Result<Vec<Chapter>, AppError>)
    ensures
        r is Ok <==> forall|i: int| 0 <= i < rows@.len() ==> chapter_row_readable(#[trigger] rows@[i]),
        r matches Ok(v) ==> v@.len() == rows@.len() && forall|i: int|
            0 <= i < rows@.len() ==> chapter_read(#[trigger] rows@[i], Ok(v@[i])),
        r matches Err(e) ==> exists|j: int|
            0 <= j < rows@.len() && (forall|i: int| 0 <= i < j ==> chapter_row_readable(#[trigger] rows@[i]))
                && chapter_read(#[trigger] rows@[j], Err(e)),
{
    let ghost all = rows@;
    let mut rest = rows;
    let mut out: Vec<Chapter> = Vec::new();
    let ghost mut k: int = 0;
    while rest.len() > 0
        invariant
            all == rows@,
            0 <= k <= all.len(),
            rest@ == all.subrange(k, all.len() as int),
            out@.len() == k,
            forall|i: int| 0 <= i < k ==> chapter_row_readable(#[trigger] all[i]),
            forall|i: int| 0 <= i < k ==> chapter_read(#[trigger] all[i], Ok(out@[i])),
        decreases rest.len(),
    {
        let row = rest.remove(0);
        proof {
            assert(row == all[k]);
            assert(rest@ =~= all.subrange(k + 1, all.len() as int));
        }
        match read_chapter(row) {
            Ok(b) => {
                out.push(b);
                proof {
                    k = k + 1;
                }
            },
            Err(e) => {
                proof {
                    assert(!chapter_row_readable(all[k]));
                }
                return Err(e);
            },
        }
    }
    proof {
        assert(k == all.len());
    }
    Ok(out)
}

fn read_bookmark(row: BookmarkRow) -> (r: Result<Bookmark, AppError>)
    ensures
        bookmark_read(row, r),
        r is Ok <==> bookmark_row_readable(row),
{
    let r = bookmark_from_row(row);
    proof {
        reveal(bookmark_read);
        reveal(bookmark_row_readable);
    }
    r
}

/// Reads listed rows in turn: every bookmark when all rows are readable, else
/// the failure of the first row that is not.
pub fn bookmarks_from_rows(rows: Vec<BookmarkRow>) -> (r: Result<Vec<Bookmark>, AppError>)
    ensures
        r is Ok <==> forall|i: int| 0 <= i < rows@.len() ==> bookmark_row_readable(#[trigger] rows@[i]),
        r matches Ok(v) ==> v@.len() == rows@.len() && forall|i: int|
            0 <= i < rows@.len() ==> bookmark_read(#[trigger] rows@[i], Ok(v@[i])),
        r matches Err(e) ==> exists|j: int|
            0 <= j < rows@.len() && (forall|i: int| 0 <= i < j ==> bookmark_row_readable(#[trigger] rows@[i]))
                && bookmark_read(#[trigger] rows@[j], Err(e)),
{
    let ghost all = rows@;
    let mut rest = rows;
    let mut out: Vec<Bookmark> = Vec::new();
    let ghost mut k: int = 0;
    while rest.len() > 0
        invariant
            all == rows@,
            0 <= k <= all.len(),
            rest@ == all.subrange(k, all.len() as int),
            out@.len() == k,
            forall|i: int| 0 <= i < k ==> bookmark_row_readable(#[trigger] all[i]),
            forall|i: int| 0 <= i < k ==> bookmark_read(#[trigger] all[i], Ok(out@[i])),
        decreases rest.len(),
    {
        let row = rest.remove(0);
        proof {
            assert(row == all[k]);
            assert(rest@ =~= all.subrange(k + 1, all.len() as int));
        }
        match read_bookmark(row) {
            Ok(b) => {
                out.push(b);
                proof {
                    k = k + 1;
                }
            },
            Err(e) => {
                proof {
                    assert(!bookmark_row_readable(all[k]));
                }
                return Err(e);
            },
        }
    }
    proof {
        assert(k == all.len());
    }
    Ok(out)
}

} // verus!
