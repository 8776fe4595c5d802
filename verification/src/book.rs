//! Books and their chapters.

use vstd::prelude::*;
use crate::ids::{BookId, ChapterId};
use crate::text::{is_blank, str_is_blank};
use crate::time::{Duration, Timestamp};
use crate::validate::{note_problem, problem_if, problems_result, texts, Validator};

verus! {

/// Represents a complete audiobook. Paths are held as text; the series
/// position, a 32-bit float, is held as its IEEE 754 bit pattern.
#[derive(Debug, Clone)]
pub struct Book {
    pub id: BookId,
    pub title: String,
    pub author: Option<String>,
    pub narrator: Option<String>,
    pub series: Option<String>,
    pub series_position_bits: Option<u32>,
    pub description: Option<String>,
    pub language: Option<String>,
    pub publisher: Option<String>,
    pub published_date: Option<String>,
    pub isbn: Option<String>,
    pub duration: Duration,
    pub file_path: String,
    pub file_size: u64,
    pub cover_art_path: Option<String>,
    pub added_date: Timestamp,
    pub last_played: Option<Timestamp>,
    pub play_count: u32,
    pub is_favorite: bool,
    /// 1-5 stars
    pub rating: Option<u8>,
    pub tags: Vec<String>,
    /// Soft delete
    pub deleted_at: Option<Timestamp>,
}

impl Book {
    /// Creates a new book with required fields; it gets a fresh id and is
    /// added now.
    pub fn new(title: String, file_path: String, file_size: u64, duration: Duration) -> (r: Self)
        ensures
            r.title@ == title@,
            r.file_path@ == file_path@,
            r.file_size == file_size,
            r.duration == duration,
            r.author is None && r.narrator is None && r.series is None,
            r.series_position_bits is None && r.description is None && r.language is None,
            r.publisher is None && r.published_date is None && r.isbn is None,
            r.cover_art_path is None && r.last_played is None && r.rating is None,
            r.deleted_at is None,
            r.play_count == 0,
            !r.is_favorite,
            r.tags@.len() == 0,
    {
        Book {
            id: BookId::new(),
            title,
            author: None,
            narrator: None,
            series: None,
            series_position_bits: None,
            description: None,
            language: None,
            publisher: None,
            published_date: None,
            isbn: None,
            duration,
            file_path,
            file_size,
            cover_art_path: None,
            added_date: Timestamp::now(),
            last_played: None,
            play_count: 0,
            is_favorite: false,
            rating: None,
            tags: Vec::new(),
            deleted_at: None,
        }
    }

    /// Returns true if this book is deleted (soft delete)
    pub fn is_deleted(&self) -> (r: bool)
        ensures
            r == self.deleted_at is Some,
    {
        self.deleted_at.is_some()
    }

    /// Marks the book as deleted, now
    pub fn delete(&mut self)
        ensures
            final(self).deleted_at is Some,
            *final(self) == (Book { deleted_at: final(self).deleted_at, ..*old(self) }),
    {
        self.deleted_at = Some(Timestamp::now());
    }

    /// Restores a deleted book
    pub fn restore(&mut self)
        ensures
            *final(self) == (Book { deleted_at: None, ..*old(self) }),
    {
        self.deleted_at = None;
    }

    /// Increments the play count and sets the last played time to now
    pub fn mark_played(&mut self)
        requires
            old(self).play_count < u32::MAX,
        ensures
            final(self).last_played is Some,
            *final(self) == (Book {
                play_count: (old(self).play_count + 1) as u32,
                last_played: final(self).last_played,
                ..*old(self)
            }),
    {
        self.play_count = self.play_count + 1;
        self.last_played = Some(Timestamp::now());
    }
}

pub open spec fn book_problems(b: &Book) -> Seq<Seq<char>> {
    problem_if(is_blank(b.title@), "Title cannot be empty"@) + problem_if(
        b.duration@ == 0,
        "Duration must be greater than zero"@,
    ) + problem_if(b.file_size == 0, "File size must be greater than zero"@) + problem_if(
        b.rating matches Some(r) && !(1 <= r <= 5),
        "Rating must be between 1 and 5"@,
    )
}

impl Validator for Book {
    open spec fn problems(&self) -> Seq<Seq<char>> {
        book_problems(self)
    }

    fn validate(&self) -> (r: Result<(), Vec<String>>) {
        let mut errors: Vec<String> = Vec::new();
        proof {
            assert(texts(errors@) =~= Seq::<Seq<char>>::empty());
        }
        note_problem(&mut errors, str_is_blank(self.title.as_str()), "Title cannot be empty");
        note_problem(&mut errors, self.duration.is_zero(), "Duration must be greater than zero");
        note_problem(&mut errors, self.file_size == 0, "File size must be greater than zero");
        let bad_rating = match self.rating {
            Some(r) => !(1 <= r && r <= 5),
            None => false,
        };
        note_problem(&mut errors, bad_rating, "Rating must be between 1 and 5");
        proof {
            assert(texts(errors@) =~= book_problems(self));
        }
        problems_result(errors)
    }
}

/// Represents a chapter within an audiobook
#[derive(Debug, Clone)]
pub struct Chapter {
    pub id: ChapterId,
    pub book_id: BookId,
    pub title: String,
    pub index: u32,
    pub start_time: Duration,
    pub end_time: Duration,
    pub image_path: Option<String>,
}

impl Chapter {
    /// Creates a new chapter with a fresh id
    pub fn new(book_id: BookId, title: String, index: u32, start_time: Duration, end_time: Duration) -> (r: Self)
        ensures
            r.book_id == book_id,
            r.title@ == title@,
            r.index == index,
            r.start_time == start_time,
            r.end_time == end_time,
            r.image_path is None,
    {
        Chapter { id: ChapterId::new(), book_id, title, index, start_time, end_time, image_path: None }
    }

    /// Returns the duration of this chapter
    pub fn duration(&self) -> (r: Duration)
        requires
            self.start_time@ <= self.end_time@,
        ensures
            r@ == self.end_time@ - self.start_time@,
    {
        Duration::from_millis(self.end_time.as_millis() - self.start_time.as_millis())
    }
}

pub open spec fn chapter_problems(c: &Chapter) -> Seq<Seq<char>> {
    problem_if(is_blank(c.title@), "Chapter title cannot be empty"@) + problem_if(
        c.end_time@ <= c.start_time@,
        "End time must be after start time"@,
    )
}

impl Validator for Chapter {
    open spec fn problems(&self) -> Seq<Seq<char>> {
        chapter_problems(self)
    }

    fn validate(&self) -> (r: Result<(), Vec<String>>) {
        let mut errors: Vec<String> = Vec::new();
        proof {
            assert(texts(errors@) =~= Seq::<Seq<char>>::empty());
        }
        note_problem(&mut errors, str_is_blank(self.title.as_str()), "Chapter title cannot be empty");
        note_problem(
            &mut errors,
            self.end_time.as_millis() <= self.start_time.as_millis(),
            "End time must be after start time",
        );
        proof {
            assert(texts(errors@) =~= chapter_problems(self));
        }
        problems_result(errors)
    }
}

} // verus!
