//! Playlists, smart playlist criteria and playlist items.

use vstd::prelude::*;
use crate::ids::{BookId, PlaylistId};
use crate::text::{is_blank, str_is_blank};
use crate::time::Timestamp;
use crate::validate::{note_problem, problem_if, problems_result, texts, Validator};

verus! {

/// Type of playlist
#[derive(Debug, Clone, Copy, PartialEq, Eq, Structural)]
pub enum PlaylistType {
    /// Manually curated playlist
    Manual,
    /// Smart playlist with automatic criteria
    Smart,
}

/// Criteria for smart playlists
#[derive(Debug, Clone)]
pub struct SmartPlaylistCriteria {
    pub favorite_only: bool,
    pub unfinished_only: bool,
    pub min_rating: Option<u8>,
    pub authors: Vec<String>,
    pub narrators: Vec<String>,
    pub tags: Vec<String>,
    pub series: Vec<String>,
    pub max_results: Option<usize>,
}

/// Criteria with the given flags, rating and authors, and no other filter.
pub open spec fn criteria_is(
    c: SmartPlaylistCriteria,
    favorite_only: bool,
    unfinished_only: bool,
    min_rating: Option<u8>,
    authors: Seq<String>,
    max_results: Option<usize>,
) -> bool {
    &&& c.favorite_only == favorite_only
    &&& c.unfinished_only == unfinished_only
    &&& c.min_rating == min_rating
    &&& c.authors@ == authors
    &&& c.narrators@.len() == 0
    &&& c.tags@.len() == 0
    &&& c.series@.len() == 0
    &&& c.max_results == max_results
}

impl SmartPlaylistCriteria {
    /// Creates criteria for favorite books
    pub fn favorites() -> (r: Self)
        ensures
            criteria_is(r, true, false, None, Seq::empty(), None),
    {
        SmartPlaylistCriteria {
            favorite_only: true,
            unfinished_only: false,
            min_rating: None,
            authors: Vec::new(),
            narrators: Vec::new(),
            tags: Vec::new(),
            series: Vec::new(),
            max_results: None,
        }
    }

    /// Creates criteria for unfinished books
    pub fn unfinished() -> (r: Self)
        ensures
            criteria_is(r, false, true, None, Seq::empty(), None),
    {
        SmartPlaylistCriteria {
            favorite_only: false,
            unfinished_only: true,
            min_rating: None,
            authors: Vec::new(),
            narrators: Vec::new(),
            tags: Vec::new(),
            series: Vec::new(),
            max_results: None,
        }
    }

    /// Creates criteria for books by specific authors
    pub fn by_authors(authors: Vec<String>) -> (r: Self)
        ensures
            criteria_is(r, false, false, None, authors@, None),
    {
        SmartPlaylistCriteria {
            favorite_only: false,
            unfinished_only: false,
            min_rating: None,
            authors,
            narrators: Vec::new(),
            tags: Vec::new(),
            series: Vec::new(),
            max_results: None,
        }
    }

    /// Creates criteria for highly rated books
    pub fn highly_rated(min_rating: u8) -> (r: Self)
        ensures
            criteria_is(r, false, false, Some(min_rating), Seq::empty(), None),
    {
        SmartPlaylistCriteria {
            favorite_only: false,
            unfinished_only: false,
            min_rating: Some(min_rating),
            authors: Vec::new(),
            narrators: Vec::new(),
            tags: Vec::new(),
            series: Vec::new(),
            max_results: None,
        }
    }
}

impl Default for SmartPlaylistCriteria {
    /// No filter, at most 100 results
    fn default() -> (r: Self)
        ensures
            criteria_is(r, false, false, None, Seq::empty(), Some(100)),
    {
        SmartPlaylistCriteria {
            favorite_only: false,
            unfinished_only: false,
            min_rating: None,
            authors: Vec::new(),
            narrators: Vec::new(),
            tags: Vec::new(),
            series: Vec::new(),
            max_results: Some(100),
        }
    }
}

/// Represents a playlist of audiobooks
#[derive(Debug, Clone)]
pub struct Playlist {
    pub id: PlaylistId,
    pub name: String,
    pub description: Option<String>,
    pub playlist_type: PlaylistType,
    pub smart_criteria: Option<SmartPlaylistCriteria>,
    pub created_at: Timestamp,
    pub updated_at: Timestamp,
}

impl Playlist {
    /// Creates a new manual playlist, created and updated now
    pub fn new_manual(name: String) -> (r: Self)
        ensures
            r.name@ == name@,
            r.description is None,
            r.playlist_type == PlaylistType::Manual,
            r.smart_criteria is None,
            r.created_at == r.updated_at,
    {
        let now = Timestamp::now();
        Playlist {
            id: PlaylistId::new(),
            name,
            description: None,
            playlist_type: PlaylistType::Manual,
            smart_criteria: None,
            created_at: now,
            updated_at: now,
        }
    }

    /// Creates a new smart playlist, created and updated now
    pub fn new_smart(name: String, criteria: SmartPlaylistCriteria) -> (r: Self)
        ensures
            r.name@ == name@,
            r.description is None,
            r.playlist_type == PlaylistType::Smart,
            r.smart_criteria == Some(criteria),
            r.created_at == r.updated_at,
    {
        let now = Timestamp::now();
        Playlist {
            id: PlaylistId::new(),
            name,
            description: None,
            playlist_type: PlaylistType::Smart,
            smart_criteria: Some(criteria),
            created_at: now,
            updated_at: now,
        }
    }

    /// Returns true if this is a smart playlist
    pub fn is_smart(&self) -> (r: bool)
        ensures
            r == (self.playlist_type == PlaylistType::Smart),
    {
        self.playlist_type == PlaylistType::Smart
    }

    /// Updates the playlist name and its update time
    pub fn set_name(&mut self, name: String)
        ensures
            final(self).name@ == name@,
            final(self).id == old(self).id,
            final(self).description == old(self).description,
            final(self).playlist_type == old(self).playlist_type,
            final(self).smart_criteria == old(self).smart_criteria,
            final(self).created_at == old(self).created_at,
    {
        self.name = name;
        self.updated_at = Timestamp::now();
    }

    /// Updates the playlist description and its update time
    pub fn set_description(&mut self, description: Option<String>)
        ensures
            final(self).description == description,
            final(self).id == old(self).id,
            final(self).name == old(self).name,
            final(self).playlist_type == old(self).playlist_type,
            final(self).smart_criteria == old(self).smart_criteria,
            final(self).created_at == old(self).created_at,
    {
        self.description = description;
        self.updated_at = Timestamp::now();
    }
}

pub open spec fn playlist_problems(p: &Playlist) -> Seq<Seq<char>> {
    problem_if(is_blank(p.name@), "Playlist name cannot be empty"@) + problem_if(
        p.playlist_type == PlaylistType::Smart && p.smart_criteria is None,
        "Smart playlist must have criteria"@,
    )
}

impl Validator for Playlist {
    open spec fn problems(&self) -> Seq<Seq<char>> {
        playlist_problems(self)
    }

    fn validate(&self) -> (r: Result<(), Vec<String>>) {
        let mut errors: Vec<String> = Vec::new();
        proof {
            assert(texts(errors@) =~= Seq::<Seq<char>>::empty());
        }
        note_problem(&mut errors, str_is_blank(self.name.as_str()), "Playlist name cannot be empty");
        note_problem(
            &mut errors,
            self.playlist_type == PlaylistType::Smart && self.smart_criteria.is_none(),
            "Smart playlist must have criteria",
        );
        proof {
            assert(texts(errors@) =~= playlist_problems(self));
        }
        problems_result(errors)
    }
}

/// Represents an item in a playlist
#[derive(Debug, Clone)]
pub struct PlaylistItem {
    pub playlist_id: PlaylistId,
    pub book_id: BookId,
    pub position: u32,
    pub added_at: Timestamp,
}

impl PlaylistItem {
    /// Creates a new playlist item, added now
    pub fn new(playlist_id: PlaylistId, book_id: BookId, position: u32) -> (r: Self)
        ensures
            r.playlist_id == playlist_id,
            r.book_id == book_id,
            r.position == position,
    {
        PlaylistItem { playlist_id, book_id, position, added_at: Timestamp::now() }
    }
}

} // verus!
