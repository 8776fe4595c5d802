//! Domain values into database rows: the values that each insert or update
//! binds, and what reading such a row back gives.

use vstd::prelude::*;
use crate::app_error::AppError;
use crate::book::{Book, Chapter};
use crate::bookmark::Bookmark;
use crate::db_rows::{
    book_of_row, book_row_failure, bookmark_of_row, bookmark_row_failure, chapter_of_row,
    chapter_row_failure, json_string_list, playlist_head_failure, playlist_of_row,
    playlist_tail_failure, playlist_type_named, playback_of_row, playback_row_failure, BookRow,
    BookmarkRow, ChapterRow, PlaybackColumns, PlaybackRow, PlaylistRow,
};
use crate::playlist::{Playlist, PlaylistItem, PlaylistType, SmartPlaylistCriteria};
use crate::text::owned;
use crate::ids::{uuid_parse, uuid_text};
use crate::time::Timestamp;
use crate::validate::texts;

verus! {

/// `serde_json::from_str` reads `json` as the list `items`.
pub open spec fn reads_back(json: Seq<char>, items: Seq<Seq<char>>) -> bool {
    json_string_list(json) is Ok && json_string_list(json)->Ok_0 == items
}

/// What `serde_json::to_string` writes for a list of strings.
pub uninterp spec fn json_of_string_list(items: Seq<Seq<char>>) -> Seq<char>;

/// `serde_json::to_string::<Vec<String>>`, with its error as text. It
/// succeeds: serde_json fails only where a `Serialize` impl fails or a map
/// has keys that are not strings, and a list of strings has neither. The text
/// it writes is a JSON array of the strings, which `serde_json::from_str`
/// reads back to the same strings.
#[verifier::external_body]
fn string_list_json(items: &Vec<String>) -> (r: Result<String, String>)
    ensures
        r is Ok,
        r matches Ok(t) ==> t@ == json_of_string_list(texts(items@)) && reads_back(t@, texts(items@)),
{
    serde_json::to_string(items).map_err(|e| e.to_string())
}

/// An optional timestamp as its column: the milliseconds, or null.
pub open spec fn stamp_column(t: Option<Timestamp>) -> Option<i64> {
    match t {
        Some(x) => Some(x@),
        None => None,
    }
}

fn optional_millis(t: Option<Timestamp>) -> (r: Option<i64>)
    ensures
        r == stamp_column(t),
{
    match t {
        Some(x) => Some(x.as_millis()),
        None => None,
    }
}

/// The id column of a row: the id's hyphenated text, which reads back as the
/// id.
pub open spec fn id_column(c: Result<String, String>, id: u128) -> bool {
    c matches Ok(s) && s@ == uuid_text(id) && uuid_parse(s@) == Some(id)
}

// ------------------------------------------------------------------ books

/// The row that a book is written as, with `tags_json` in its tags column:
/// integers are cast as `as` casts them, a flag is 1 or 0.
pub open spec fn book_row_of(b: Book, tags_json: Seq<char>, row: BookRow) -> bool {
    &&& id_column(row.id, b.id@)
    &&& row.title == Ok::<String, String>(b.title)
    &&& row.author == b.author
    &&& row.narrator == b.narrator
    &&& row.series == b.series
    &&& row.series_position_bits == b.series_position_bits
    &&& row.description == b.description
    &&& row.language == b.language
    &&& row.publisher == b.publisher
    &&& row.published_date == b.published_date
    &&& row.isbn == b.isbn
    &&& row.duration_ms == Ok::<i64, String>(b.duration@ as i64)
    &&& row.file_path == Ok::<String, String>(b.file_path)
    &&& row.file_size == Ok::<i64, String>(b.file_size as i64)
    &&& row.cover_art_path == b.cover_art_path
    &&& row.added_date == Ok::<i64, String>(b.added_date@)
    &&& row.last_played == stamp_column(b.last_played)
    &&& row.play_count == Ok::<i64, String>(b.play_count as i64)
    &&& row.is_favorite == Ok::<i64, String>(if b.is_favorite { 1 } else { 0 })
    &&& row.rating == match b.rating {
        Some(x) => Some(x as i64),
        None => None,
    }
    &&& row.tags matches Ok(t) && t@ == tags_json
    &&& row.deleted_at == stamp_column(b.deleted_at)
}

/// The values that inserting or updating a book binds, with its tags already
/// written as JSON.
pub fn book_row(book: Book, tags_json: String) -> (row: BookRow)
    ensures
        book_row_of(book, tags_json@, row),
{
    let id = book.id.as_string();
    let duration_ms: i64 = #[verifier::truncate] (book.duration.as_millis() as i64);
    let file_size: i64 = #[verifier::truncate] (book.file_size as i64);
    let added_date = book.added_date.as_millis();
    let last_played = optional_millis(book.last_played);
    let deleted_at = optional_millis(book.deleted_at);
    let is_favorite: i64 = if book.is_favorite {
        1
    } else {
        0
    };
    let rating = match book.rating {
        Some(x) => Some(x as i64),
        None => None,
    };
    BookRow {
        id: Ok(id),
        title: Ok(book.title),
        author: book.author,
        narrator: book.narrator,
        series: book.series,
        series_position_bits: book.series_position_bits,
        description: book.description,
        language: book.language,
        publisher: book.publisher,
        published_date: book.published_date,
        isbn: book.isbn,
        duration_ms: Ok(duration_ms),
        file_path: Ok(book.file_path),
        file_size: Ok(file_size),
        cover_art_path: book.cover_art_path,
        added_date: Ok(added_date),
        last_played,
        play_count: Ok(book.play_count as i64),
        is_favorite: Ok(is_favorite),
        rating,
        tags: Ok(tags_json),
        deleted_at,
    }
}

/// The row that inserting or updating a book writes: its tags as a JSON
/// array, which reads back as the same tags. Writing the JSON of a list of
/// strings does not fail, so neither does this.
pub fn book_to_row(book: Book) -> (r: Result<BookRow, AppError>)
    ensures
        r matches Ok(row) && book_row_of(book, json_of_string_list(texts(book.tags@)), row)
            && reads_back(json_of_string_list(texts(book.tags@)), texts(book.tags@)),
{
    match string_list_json(&book.tags) {
        Ok(t) => Ok(book_row(book, t)),
        Err(m) => Err(AppError::database("Failed to serialize tags", m)),
    }
}

/// A book written to a row and read back is the same book: the row is
/// readable, and the book is what it holds, field by field. The one value
/// that does not survive is a rating outside 1 to 5, which reads back as no
/// rating, so the law speaks of books whose rating is absent or in range.
pub proof fn law_book_row_round_trip(b: Book, tags_json: Seq<char>, row: BookRow)
    requires
        book_row_of(b, tags_json, row),
        reads_back(tags_json, texts(b.tags@)),
        b.rating matches Some(x) ==> 1 <= x <= 5,
    ensures
        book_row_failure(row) is None,
        book_of_row(b, row),
{
    let d: u64 = b.duration@;
    let s: u64 = b.file_size;
    assert((d as i64) as u64 == d) by (bit_vector);
    assert((s as i64) as u64 == s) by (bit_vector);
    reveal_with_fuel(crate::db_rows::first_failure, 11);
}

// --------------------------------------------------------------- chapters

/// The row that a chapter is written as.
pub open spec fn chapter_row_of(c: Chapter, row: ChapterRow) -> bool {
    &&& id_column(row.id, c.id@)
    &&& id_column(row.book_id, c.book_id@)
    &&& row.title == Ok::<String, String>(c.title)
    &&& row.index_number == Ok::<i64, String>(c.index as i64)
    &&& row.start_time_ms == Ok::<i64, String>(c.start_time@ as i64)
    &&& row.end_time_ms == Ok::<i64, String>(c.end_time@ as i64)
    &&& row.image_path == c.image_path
}

/// The values that inserting a chapter binds.
pub fn chapter_row(chapter: Chapter) -> (row: ChapterRow)
    ensures
        chapter_row_of(chapter, row),
{
    let id = chapter.id.as_string();
    let book_id = chapter.book_id.as_string();
    let start: i64 = #[verifier::truncate] (chapter.start_time.as_millis() as i64);
    let end: i64 = #[verifier::truncate] (chapter.end_time.as_millis() as i64);
    ChapterRow {
        id: Ok(id),
        book_id: Ok(book_id),
        title: Ok(chapter.title),
        index_number: Ok(chapter.index as i64),
        start_time_ms: Ok(start),
        end_time_ms: Ok(end),
        image_path: chapter.image_path,
    }
}

/// A chapter written to a row and read back is the same chapter.
pub proof fn law_chapter_row_round_trip(c: Chapter, row: ChapterRow)
    requires
        chapter_row_of(c, row),
    ensures
        chapter_row_failure(row) is None,
        chapter_of_row(c, row),
{
    let a: u64 = c.start_time@;
    let b: u64 = c.end_time@;
    assert((a as i64) as u64 == a) by (bit_vector);
    assert((b as i64) as u64 == b) by (bit_vector);
    reveal_with_fuel(crate::db_rows::first_failure, 7);
}

// -------------------------------------------------------------- bookmarks

/// The row that a bookmark is written as.
pub open spec fn bookmark_row_of(b: Bookmark, row: BookmarkRow) -> bool {
    &&& id_column(row.id, b.id@)
    &&& id_column(row.book_id, b.book_id@)
    &&& row.position_ms == Ok::<i64, String>(b.position@ as i64)
    &&& row.title == b.title
    &&& row.note == b.note
    &&& row.created_at == Ok::<i64, String>(b.created_at@)
    &&& row.updated_at == Ok::<i64, String>(b.updated_at@)
}

/// The values that inserting a bookmark binds.
pub fn bookmark_row(bookmark: Bookmark) -> (row: BookmarkRow)
    ensures
        bookmark_row_of(bookmark, row),
{
    let id = bookmark.id.as_string();
    let book_id = bookmark.book_id.as_string();
    let position: i64 = #[verifier::truncate] (bookmark.position.as_millis() as i64);
    BookmarkRow {
        id: Ok(id),
        book_id: Ok(book_id),
        position_ms: Ok(position),
        title: bookmark.title,
        note: bookmark.note,
        created_at: Ok(bookmark.created_at.as_millis()),
        updated_at: Ok(bookmark.updated_at.as_millis()),
    }
}

/// A bookmark written to a row and read back is the same bookmark.
pub proof fn law_bookmark_row_round_trip(b: Bookmark, row: BookmarkRow)
    requires
        bookmark_row_of(b, row),
    ensures
        bookmark_row_failure(row) is None,
        bookmark_of_row(b, row),
{
    let p: u64 = b.position@;
    assert((p as i64) as u64 == p) by (bit_vector);
    reveal_with_fuel(crate::db_rows::first_failure, 6);
}

// -------------------------------------------------------------- playlists

/// The text that the type column holds for a playlist type.
pub open spec fn playlist_type_text(t: PlaylistType) -> Seq<char> {
    match t {
        PlaylistType::Manual => "Manual"@,
        PlaylistType::Smart => "Smart"@,
    }
}

/// The row that a playlist is written as. Its smart criteria are given as
/// they read back from their JSON, which the caller writes.
pub open spec fn playlist_row_of(p: Playlist, row: PlaylistRow) -> bool {
    &&& id_column(row.id, p.id@)
    &&& row.name == Ok::<String, String>(p.name)
    &&& row.description == p.description
    &&& row.playlist_type matches Ok(t) && t@ == playlist_type_text(p.playlist_type)
    &&& row.smart_criteria == match p.smart_criteria {
        Some(c) => Some(Ok::<SmartPlaylistCriteria, String>(c)),
        None => None,
    }
    &&& row.created_at == Ok::<i64, String>(p.created_at@)
    &&& row.updated_at == Ok::<i64, String>(p.updated_at@)
}

/// The values that inserting a playlist binds.
pub fn playlist_row(playlist: Playlist) -> (row: PlaylistRow)
    ensures
        playlist_row_of(playlist, row),
{
    let id = playlist.id.as_string();
    let type_text = match playlist.playlist_type {
        PlaylistType::Manual => owned("Manual"),
        PlaylistType::Smart => owned("Smart"),
    };
    let smart_criteria = match playlist.smart_criteria {
        Some(c) => Some(Ok(c)),
        None => None,
    };
    PlaylistRow {
        id: Ok(id),
        name: Ok(playlist.name),
        description: playlist.description,
        playlist_type: Ok(type_text),
        smart_criteria,
        created_at: Ok(playlist.created_at.as_millis()),
        updated_at: Ok(playlist.updated_at.as_millis()),
    }
}

/// A playlist written to a row and read back is the same playlist: its type
/// is one the reader knows, and nothing in the row is missing.
pub proof fn law_playlist_row_round_trip(p: Playlist, row: PlaylistRow)
    requires
        playlist_row_of(p, row),
    ensures
        playlist_head_failure(row) is None,
        playlist_type_named(row.playlist_type->Ok_0@) == Some(p.playlist_type),
        playlist_tail_failure(row) is None,
        playlist_of_row(p, row),
{
    reveal_strlit("Manual");
    reveal_strlit("Smart");
    assert("Smart"@[0] != "Manual"@[0]);
    assert("Smart"@ != "Manual"@);
    reveal_with_fuel(crate::db_rows::first_failure, 5);
    match p.playlist_type {
        PlaylistType::Manual => {},
        PlaylistType::Smart => {},
    }
}

/// The values that adding a book to a playlist binds.
pub struct PlaylistItemRow {
    pub playlist_id: String,
    pub book_id: String,
    pub position: i64,
    pub added_at: i64,
}

/// The values that adding a book to a playlist binds for an item.
pub fn playlist_item_row(item: &PlaylistItem) -> (row: PlaylistItemRow)
    ensures
        row.playlist_id@ == uuid_text(item.playlist_id@),
        row.book_id@ == uuid_text(item.book_id@),
        row.position == item.position as i64,
        row.added_at == item.added_at@,
{
    PlaylistItemRow {
        playlist_id: item.playlist_id.as_string(),
        book_id: item.book_id.as_string(),
        position: item.position as i64,
        added_at: item.added_at.as_millis(),
    }
}

// --------------------------------------------------------- playback state

/// A flag as an integer column: 1 or 0.
pub open spec fn flag_column(b: bool) -> i64 {
    if b {
        1
    } else {
        0
    }
}

fn flag(b: bool) -> (r: i64)
    ensures
        r == flag_column(b),
{
    if b {
        1
    } else {
        0
    }
}

/// The row that a book's playback state is saved as. The equalizer and the
/// sleep timer are given as they read back from their JSON, which the caller
/// writes.
pub open spec fn playback_row_of<E>(p: PlaybackColumns<E>, row: PlaybackRow<E>) -> bool {
    &&& id_column(row.book_id, p.book_id@)
    &&& row.position_ms == Ok::<i64, String>(p.position@ as i64)
    &&& row.speed_bits == Ok::<u64, String>(p.speed_bits)
    &&& row.pitch_correction == Ok::<i64, String>(flag_column(p.pitch_correction))
    &&& row.volume == Ok::<i64, String>(p.volume as i64)
    &&& row.is_playing == Ok::<i64, String>(flag_column(p.is_playing))
    &&& row.equalizer == match p.equalizer {
        Some(e) => Some(Ok::<E, String>(e)),
        None => None,
    }
    &&& row.sleep_timer == match p.sleep_timer {
        Some(t) => Some(Ok::<crate::sleep_timer::SleepTimer, String>(t)),
        None => None,
    }
    &&& row.skip_silence == Ok::<i64, String>(flag_column(p.skip_silence))
    &&& row.volume_boost == Ok::<i64, String>(p.volume_boost as i64)
    &&& row.last_updated == Ok::<i64, String>(p.last_updated@)
}

/// The values that saving a book's playback state binds.
pub fn playback_row<E>(p: PlaybackColumns<E>) -> (row: PlaybackRow<E>)
    ensures
        playback_row_of(p, row),
{
    let book_id = p.book_id.as_string();
    let position: i64 = #[verifier::truncate] (p.position.as_millis() as i64);
    let equalizer = match p.equalizer {
        Some(e) => Some(Ok(e)),
        None => None,
    };
    let sleep_timer = match p.sleep_timer {
        Some(t) => Some(Ok(t)),
        None => None,
    };
    PlaybackRow {
        book_id: Ok(book_id),
        position_ms: Ok(position),
        speed_bits: Ok(p.speed_bits),
        pitch_correction: Ok(flag(p.pitch_correction)),
        volume: Ok(p.volume as i64),
        is_playing: Ok(flag(p.is_playing)),
        equalizer,
        sleep_timer,
        skip_silence: Ok(flag(p.skip_silence)),
        volume_boost: Ok(p.volume_boost as i64),
        last_updated: Ok(p.last_updated.as_millis()),
    }
}

/// A playback state saved to a row and read back is the same state.
pub proof fn law_playback_row_round_trip<E>(p: PlaybackColumns<E>, row: PlaybackRow<E>)
    requires
        playback_row_of(p, row),
    ensures
        playback_row_failure(row) is None,
        playback_of_row(p, row),
{
    let m: u64 = p.position@;
    assert((m as i64) as u64 == m) by (bit_vector);
    reveal_with_fuel(crate::db_rows::first_failure, 12);
}

} // verus!
