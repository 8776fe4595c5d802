//! Library and playback statistics (the whole-number parts; ratios and
//! percentages in floating point are computed outside the library).

use vstd::prelude::*;
use crate::time::Duration;

verus! {

/// Library-wide statistics
#[derive(Debug, Clone)]
pub struct LibraryStats {
    pub total_books: usize,
    pub total_chapters: usize,
    pub total_bookmarks: usize,
    pub total_playlists: usize,
    pub total_duration: Duration,
    pub total_size_bytes: u64,
    pub favorite_count: usize,
    pub unfinished_count: usize,
    pub finished_count: usize,
    pub authors_count: usize,
    pub narrators_count: usize,
    pub series_count: usize,
}

pub open spec fn is_empty_library_stats(s: LibraryStats) -> bool {
    &&& s.total_books == 0
    &&& s.total_chapters == 0
    &&& s.total_bookmarks == 0
    &&& s.total_playlists == 0
    &&& s.total_duration@ == 0
    &&& s.total_size_bytes == 0
    &&& s.favorite_count == 0
    &&& s.unfinished_count == 0
    &&& s.finished_count == 0
    &&& s.authors_count == 0
    &&& s.narrators_count == 0
    &&& s.series_count == 0
}

impl LibraryStats {
    /// Creates empty statistics
    pub fn empty() -> (r: Self)
        ensures
            is_empty_library_stats(r),
    {
        LibraryStats {
            total_books: 0,
            total_chapters: 0,
            total_bookmarks: 0,
            total_playlists: 0,
            total_duration: Duration::from_millis(0),
            total_size_bytes: 0,
            favorite_count: 0,
            unfinished_count: 0,
            finished_count: 0,
            authors_count: 0,
            narrators_count: 0,
            series_count: 0,
        }
    }

    /// Returns the average book duration (zero for an empty library)
    pub fn average_book_duration(&self) -> (r: Duration)
        ensures
            r@ == (if self.total_books == 0 {
                0
            } else {
                self.total_duration@ / (self.total_books as u64)
            }),
    {
        if self.total_books == 0 {
            return Duration::from_millis(0);
        }
        Duration::from_millis(self.total_duration.as_millis() / self.total_books as u64)
    }

    /// Returns the average book size in bytes (zero for an empty library)
    pub fn average_book_size(&self) -> (r: u64)
        ensures
            r == (if self.total_books == 0 {
                0
            } else {
                self.total_size_bytes / (self.total_books as u64)
            }),
    {
        if self.total_books == 0 {
            return 0;
        }
        self.total_size_bytes / self.total_books as u64
    }

    /// Returns the total size in whole megabytes (10^6 bytes)
    pub fn total_size_mb(&self) -> (r: u64)
        ensures
            r == self.total_size_bytes / 1_000_000,
    {
        self.total_size_bytes / 1_000_000
    }
}

impl Default for LibraryStats {
    fn default() -> (r: Self)
        ensures
            is_empty_library_stats(r),
    {
        Self::empty()
    }
}

/// Playback statistics for a user
#[derive(Debug, Clone)]
pub struct PlaybackStats {
    pub total_listening_time: Duration,
    pub books_started: usize,
    pub books_finished: usize,
    pub total_sessions: usize,
    pub average_session_duration: Duration,
    pub favorite_authors: Vec<String>,
    pub favorite_narrators: Vec<String>,
    pub most_played_book_id: Option<String>,
}

pub open spec fn is_empty_playback_stats(s: PlaybackStats) -> bool {
    &&& s.total_listening_time@ == 0
    &&& s.books_started == 0
    &&& s.books_finished == 0
    &&& s.total_sessions == 0
    &&& s.average_session_duration@ == 0
    &&& s.favorite_authors@.len() == 0
    &&& s.favorite_narrators@.len() == 0
    &&& s.most_played_book_id is None
}

impl PlaybackStats {
    /// Creates empty playback statistics
    pub fn empty() -> (r: Self)
        ensures
            is_empty_playback_stats(r),
    {
        PlaybackStats {
            total_listening_time: Duration::from_millis(0),
            books_started: 0,
            books_finished: 0,
            total_sessions: 0,
            average_session_duration: Duration::from_millis(0),
            favorite_authors: Vec::new(),
            favorite_narrators: Vec::new(),
            most_played_book_id: None,
        }
    }

    /// Returns true if the user has any playback history
    pub fn has_history(&self) -> (r: bool)
        ensures
            r == (self.total_sessions > 0 || self.books_started > 0),
    {
        self.total_sessions > 0 || self.books_started > 0
    }
}

impl Default for PlaybackStats {
    fn default() -> (r: Self)
        ensures
            is_empty_playback_stats(r),
    {
        Self::empty()
    }
}

} // verus!
