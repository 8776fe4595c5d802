//! User bookmarks.

use vstd::prelude::*;
use crate::ids::{BookId, BookmarkId};
use crate::text::{is_blank, str_is_blank};
use crate::time::{Duration, Timestamp};
use crate::validate::{note_problem, problem_if, problems_result, texts, Validator};

verus! {

/// Represents a user bookmark in an audiobook
#[derive(Debug, Clone)]
pub struct Bookmark {
    pub id: BookmarkId,
    pub book_id: BookId,
    pub position: Duration,
    pub title: Option<String>,
    pub note: Option<String>,
    pub created_at: Timestamp,
    pub updated_at: Timestamp,
}

/// The optional text is present and not blank.
pub open spec fn has_text(o: Option<String>) -> bool {
    match o {
        Some(s) => !is_blank(s@),
        None => false,
    }
}

fn option_has_text(o: &Option<String>) -> (r: bool)
    ensures
        r == has_text(*o),
{
    match o {
        Some(s) => !str_is_blank(s.as_str()),
        None => false,
    }
}

impl Bookmark {
    /// Creates a new bookmark at the specified position, created and updated now
    pub fn new(book_id: BookId, position: Duration) -> (r: Self)
        ensures
            r.book_id == book_id,
            r.position == position,
            r.title is None,
            r.note is None,
            r.created_at == r.updated_at,
    {
        let now = Timestamp::now();
        Bookmark { id: BookmarkId::new(), book_id, position, title: None, note: None, created_at: now, updated_at: now }
    }

    /// Creates a bookmark with a title
    pub fn with_title(book_id: BookId, position: Duration, title: String) -> (r: Self)
        ensures
            r.book_id == book_id,
            r.position == position,
            r.title matches Some(t) && t@ == title@,
            r.note is None,
            r.created_at == r.updated_at,
    {
        let mut bookmark = Self::new(book_id, position);
        bookmark.title = Some(title);
        bookmark
    }

    /// Updates the bookmark's note and its update time
    pub fn set_note(&mut self, note: String)
        ensures
            final(self).note matches Some(n) && n@ == note@,
            final(self).title == old(self).title,
            final(self).id == old(self).id,
            final(self).book_id == old(self).book_id,
            final(self).position == old(self).position,
            final(self).created_at == old(self).created_at,
    {
        self.note = Some(note);
        self.updated_at = Timestamp::now();
    }

    /// Updates the bookmark's title and its update time
    pub fn set_title(&mut self, title: String)
        ensures
            final(self).title matches Some(t) && t@ == title@,
            final(self).note == old(self).note,
            final(self).id == old(self).id,
            final(self).book_id == old(self).book_id,
            final(self).position == old(self).position,
            final(self).created_at == old(self).created_at,
    {
        self.title = Some(title);
        self.updated_at = Timestamp::now();
    }

    /// Returns true if this bookmark has a note that is not blank
    pub fn has_note(&self) -> (r: bool)
        ensures
            r == has_text(self.note),
    {
        option_has_text(&self.note)
    }

    /// Returns true if this bookmark has a title that is not blank
    pub fn has_title(&self) -> (r: bool)
        ensures
            r == has_text(self.title),
    {
        option_has_text(&self.title)
    }
}

pub open spec fn bookmark_problems(b: &Bookmark) -> Seq<Seq<char>> {
    problem_if(b.position@ == 0, "Bookmark position must be greater than zero"@) + problem_if(
        b.title matches Some(t) && is_blank(t@),
        "Bookmark title cannot be empty if set"@,
    ) + problem_if(
        b.note matches Some(n) && is_blank(n@),
        "Bookmark note cannot be empty if set"@,
    )
}

impl Validator for Bookmark {
    open spec fn problems(&self) -> Seq<Seq<char>> {
        bookmark_problems(self)
    }

    fn validate(&self) -> (r: Result<(), Vec<String>>) {
        let mut errors: Vec<String> = Vec::new();
        proof {
            assert(texts(errors@) =~= Seq::<Seq<char>>::empty());
        }
        note_problem(&mut errors, self.position.is_zero(), "Bookmark position must be greater than zero");
        let blank_title = match &self.title {
            Some(t) => str_is_blank(t.as_str()),
            None => false,
        };
        note_problem(&mut errors, blank_title, "Bookmark title cannot be empty if set");
        let blank_note = match &self.note {
            Some(n) => str_is_blank(n.as_str()),
            None => false,
        };
        note_problem(&mut errors, blank_note, "Bookmark note cannot be empty if set");
        proof {
            assert(texts(errors@) =~= bookmark_problems(self));
        }
        problems_result(errors)
    }
}

} // verus!
