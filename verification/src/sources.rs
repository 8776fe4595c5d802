//! Content sources: where audiobooks can be found, and what a search asks.

use vstd::prelude::*;
use crate::text::{concat, owned, str_equal};
use crate::validation::path_is_present;

verus! {

/// Errors from content sources
#[derive(Debug, Clone, PartialEq)]
pub enum SourceError {
    /// Network error
    NetworkError(String),
    /// Parse error
    ParseError(String),
    /// Not found
    NotFound,
    /// Invalid query
    InvalidQuery(String),
    /// Rate limited
    RateLimited,
    /// Source unavailable
    Unavailable(String),
}

impl SourceError {
    /// The error as it is displayed.
    pub open spec fn text(&self) -> Seq<char> {
        match self {
            SourceError::NetworkError(e) => "Network error: "@ + e@,
            SourceError::ParseError(e) => "Parse error: "@ + e@,
            SourceError::NotFound => "Not found"@,
            SourceError::InvalidQuery(e) => "Invalid query: "@ + e@,
            SourceError::RateLimited => "Rate limited"@,
            SourceError::Unavailable(e) => "Source unavailable: "@ + e@,
        }
    }

    /// The error as text, as it is displayed.
    pub fn to_string(&self) -> (r: String)
        ensures
            r@ == self.text(),
    {
        match self {
            SourceError::NetworkError(e) => concat("Network error: ", e.as_str()),
            SourceError::ParseError(e) => concat("Parse error: ", e.as_str()),
            SourceError::NotFound => owned("Not found"),
            SourceError::InvalidQuery(e) => concat("Invalid query: ", e.as_str()),
            SourceError::RateLimited => owned("Rate limited"),
            SourceError::Unavailable(e) => concat("Source unavailable: ", e.as_str()),
        }
    }
}

/// Search query
#[derive(Debug, Clone)]
pub struct SearchQuery {
    pub text: String,
    pub author: Option<String>,
    pub title: Option<String>,
    pub limit: usize,
}

impl SearchQuery {
    /// A query for `text`, with no author or title and a limit of 20 results.
    pub fn new(text: String) -> (r: Self)
        ensures
            r.text == text,
            r.author is None,
            r.title is None,
            r.limit == 20,
    {
        SearchQuery { text, author: None, title: None, limit: 20 }
    }

    pub fn with_author(self, author: String) -> (r: Self)
        ensures
            r.text == self.text,
            r.author == Some(author),
            r.title == self.title,
            r.limit == self.limit,
    {
        let mut s = self;
        s.author = Some(author);
        s
    }

    pub fn with_limit(self, limit: usize) -> (r: Self)
        ensures
            r.text == self.text,
            r.author == self.author,
            r.title == self.title,
            r.limit == limit,
    {
        let mut s = self;
        s.limit = limit;
        s
    }
}

/// Search result; the duration is in whole seconds.
#[derive(Debug, Clone)]
pub struct SearchResult {
    pub id: String,
    pub title: String,
    pub author: String,
    pub description: Option<String>,
    pub duration: Option<u64>,
    pub url: String,
    pub source: String,
}

/// Source metadata
#[derive(Debug, Clone)]
pub struct SourceMetadata {
    pub name: String,
    pub description: String,
    pub base_url: String,
    pub requires_auth: bool,
}

/// Content source
pub trait ContentSource {
    /// Search for content
    fn search(&self, query: &SearchQuery) -> Result<Vec<SearchResult>, SourceError>;

    /// Get metadata about the source
    fn metadata(&self) -> SourceMetadata;

    /// Check if source is available
    fn is_available(&self) -> bool;
}

/// `e` is an invalid-query error that says `message`.
pub open spec fn is_invalid_query(e: SourceError, message: Seq<char>) -> bool {
    e matches SourceError::InvalidQuery(m) && m@ == message
}

/// `e` is a network error that says `message`.
pub open spec fn is_network_error(e: SourceError, message: Seq<char>) -> bool {
    e matches SourceError::NetworkError(m) && m@ == message
}

/// Internet Archive content source
pub struct ArchiveSource {
    base_url: String,
}

/// The Internet Archive's search endpoint.
pub const ARCHIVE_API_BASE: &'static str = "https://archive.org/advancedsearch.php";

impl ArchiveSource {
    /// The endpoint this source searches.
    pub closed spec fn endpoint(&self) -> Seq<char> {
        self.base_url@
    }

    pub fn new() -> (r: Self)
        ensures
            r.endpoint() == ARCHIVE_API_BASE@,
    {
        ArchiveSource { base_url: owned(ARCHIVE_API_BASE) }
    }
}

impl ContentSource for ArchiveSource {
    /// A query without text is refused; any other finds nothing yet.
    fn search(&self, query: &SearchQuery) -> (r: Result<Vec<SearchResult>, SourceError>)
        ensures
            query.text@.len() == 0 ==> (r matches Err(e) && is_invalid_query(e, "Empty query"@)),
            query.text@.len() > 0 ==> (r matches Ok(v) && v@.len() == 0),
    {
        if query.text.as_str().unicode_len() == 0 {
            return Err(SourceError::InvalidQuery(owned("Empty query")));
        }
        Ok(Vec::new())
    }

    fn metadata(&self) -> (r: SourceMetadata)
        ensures
            r.name@ == "Internet Archive"@,
            r.description@ == "Large collection of audiobooks and audio content"@,
            r.base_url@ == self.endpoint(),
            !r.requires_auth,
    {
        SourceMetadata {
            name: owned("Internet Archive"),
            description: owned("Large collection of audiobooks and audio content"),
            base_url: owned(self.base_url.as_str()),
            requires_auth: false,
        }
    }

    fn is_available(&self) -> (r: bool)
        ensures
            r,
    {
        true
    }
}

/// Internet Archive item
#[derive(Debug, Clone)]
pub struct ArchiveItem {
    pub identifier: String,
    pub title: String,
    pub creator: Option<String>,
    pub description: Option<String>,
    pub mediatype: String,
}

impl ArchiveItem {
    /// An item of media type `audio`, with no creator or description.
    pub fn new(identifier: String, title: String) -> (r: Self)
        ensures
            r.identifier == identifier,
            r.title == title,
            r.creator is None,
            r.description is None,
            r.mediatype@ == "audio"@,
    {
        ArchiveItem { identifier, title, creator: None, description: None, mediatype: owned("audio") }
    }

    /// Audio items are those of media type `audio` or `etree`.
    pub fn is_audio(&self) -> (r: bool)
        ensures
            r == (self.mediatype@ == "audio"@ || self.mediatype@ == "etree"@),
    {
        str_equal(self.mediatype.as_str(), "audio") || str_equal(self.mediatype.as_str(), "etree")
    }
}

/// Local filesystem content source
#[derive(Debug, Clone)]
pub struct LocalSource {
    /// Root directory for this source
    pub root_path: String,
    /// Human-readable name for this source
    pub name: String,
}

impl LocalSource {
    /// Creates a new local source named "Local Files" at the current directory.
    pub fn new() -> (r: Self)
        ensures
            r.name@ == "Local Files"@,
            r.root_path@ == "."@,
    {
        LocalSource { name: owned("Local Files"), root_path: owned(".") }
    }

    /// Creates a local source with specific name and path
    pub fn with_path(name: String, root_path: String) -> (r: Self)
        ensures
            r.name == name,
            r.root_path == root_path,
    {
        LocalSource { name, root_path }
    }
}

impl ContentSource for LocalSource {
    /// Nothing is found on the local file system yet.
    fn search(&self, query: &SearchQuery) -> (r: Result<Vec<SearchResult>, SourceError>)
        ensures
            r matches Ok(v) && v@.len() == 0,
    {
        Ok(Vec::new())
    }

    fn metadata(&self) -> (r: SourceMetadata)
        ensures
            r.name@ == self.name@,
            r.description@ == "Local audiobooks at "@ + self.root_path@,
            r.base_url@.len() == 0,
            !r.requires_auth,
    {
        SourceMetadata {
            name: owned(self.name.as_str()),
            description: concat("Local audiobooks at ", self.root_path.as_str()),
            base_url: String::new(),
            requires_auth: false,
        }
    }

    /// Whether the root directory exists; what is on disk decides.
    fn is_available(&self) -> bool {
        path_is_present(self.root_path.as_str())
    }
}

} // verus!
