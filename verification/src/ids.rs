//! Identifiers of books, chapters, bookmarks and playlists: random version-4
//! UUIDs, held as their 128-bit value.

use vstd::prelude::*;

verus! {

#[verifier::external_type_specification]
#[verifier::external_body]
pub struct ExUuidError(uuid::Error);

/// The lower-case hexadecimal digit for `n < 16`.
pub open spec fn hex_digit(n: u128) -> char {
    if n < 10 {
        (48 + n) as char
    } else {
        (87 + n) as char
    }
}

/// The 32 hexadecimal digits of `v`, most significant first.
pub open spec fn hex_digits(v: u128) -> Seq<char> {
    Seq::new(32, |i: int| hex_digit((v >> ((124 - 4 * i) as u128)) & 15u128))
}

/// The hyphenated form of a UUID, `xxxxxxxx-xxxx-xxxx-xxxx-xxxxxxxxxxxx`,
/// which is what `Uuid`'s `Display` writes.
pub open spec fn uuid_text(v: u128) -> Seq<char> {
    let h = hex_digits(v);
    h.subrange(0, 8) + seq!['-'] + h.subrange(8, 12) + seq!['-'] + h.subrange(12, 16) + seq!['-']
        + h.subrange(16, 20) + seq!['-'] + h.subrange(20, 32)
}

/// The value that `Uuid::parse_str` reads from `text`, if it accepts it.
pub uninterp spec fn uuid_parse(text: Seq<char>) -> Option<u128>;

/// `v` is a random (version-4, RFC 4122 variant) UUID: its version digit is
/// 4 and the two top bits of its variant byte are `10`. The other 122 bits
/// may be anything.
pub open spec fn is_random_uuid(v: u128) -> bool {
    &&& (v >> 76u128) & 0xfu128 == 4
    &&& (v >> 62u128) & 0x3u128 == 2
}

/// `Uuid::new_v4().as_u128()`: random bits, with the version digit set to 4
/// and the variant bits to `10` (the crate masks them in); nothing more is
/// stated of the value.
#[verifier::external_body]
fn random_uuid() -> (r: u128)
    ensures
        is_random_uuid(r),
{
    uuid::Uuid::new_v4().as_u128()
}

/// `Uuid::parse_str`, as the parsed value.
#[verifier::external_body]
fn parse_uuid(text: &str) -> (r: Result<u128, uuid::Error>)
    ensures
        match r {
            Ok(v) => uuid_parse(text@) == Some(v),
            Err(_) => uuid_parse(text@) is None,
        },
{
    uuid::Uuid::parse_str(text).map(|u| u.as_u128())
}

/// `Uuid::from_u128(v).to_string()`: the hyphenated lower-case form, which
/// `Uuid::parse_str` reads back to `v`.
#[verifier::external_body]
fn format_uuid(v: u128) -> (r: String)
    ensures
        r@ == uuid_text(v),
        uuid_parse(r@) == Some(v),
{
    uuid::Uuid::from_u128(v).to_string()
}

/// The text of a `uuid::Error`, as its `Display` form shows it. Nothing is
/// stated of it here.
#[verifier::external_body]
fn uuid_error_text(e: &uuid::Error) -> String {
    e.to_string()
}

/// The text is not a UUID; `reason` says why, as the UUID parser put it.
#[derive(Debug, Clone, PartialEq, Eq)]
pub struct InvalidUuid {
    pub reason: String,
}

/// Unique identifier for a book
#[derive(Debug, Clone, Copy, PartialEq, Eq, Hash, Structural)]
pub struct BookId(u128);

/// Unique identifier for a chapter
#[derive(Debug, Clone, Copy, PartialEq, Eq, Hash, Structural)]
pub struct ChapterId(u128);

/// Unique identifier for a bookmark
#[derive(Debug, Clone, Copy, PartialEq, Eq, Hash, Structural)]
pub struct BookmarkId(u128);

/// Unique identifier for a playlist
#[derive(Debug, Clone, Copy, PartialEq, Eq, Hash, Structural)]
pub struct PlaylistId(u128);

impl View for BookId {
    type V = u128;

    closed spec fn view(&self) -> u128 {
        self.0
    }
}

impl View for ChapterId {
    type V = u128;

    closed spec fn view(&self) -> u128 {
        self.0
    }
}

impl View for BookmarkId {
    type V = u128;

    closed spec fn view(&self) -> u128 {
        self.0
    }
}

impl View for PlaylistId {
    type V = u128;

    closed spec fn view(&self) -> u128 {
        self.0
    }
}

impl BookId {
    /// Creates a new random BookId: a version-4 UUID.
    pub fn new() -> (r: Self)
        ensures
            is_random_uuid(r@),
    {
        BookId(random_uuid())
    }

    /// The id with the given UUID value.
    pub fn from_u128(v: u128) -> (r: Self)
        ensures
            r@ == v,
    {
        BookId(v)
    }

    /// Creates a BookId from a UUID string
    pub fn from_string(s: &str) -> (r: Result<Self, InvalidUuid>)
        ensures
            match r {
                Ok(id) => uuid_parse(s@) == Some(id@),
                Err(_) => uuid_parse(s@) is None,
            },
    {
        match parse_uuid(s) {
            Ok(v) => Ok(BookId(v)),
            Err(e) => Err(InvalidUuid { reason: uuid_error_text(&e) }),
        }
    }

    /// Returns the BookId as a string
    pub fn as_string(&self) -> (r: String)
        ensures
            r@ == uuid_text(self@),
            uuid_parse(r@) == Some(self@),
    {
        format_uuid(self.0)
    }

    /// The id as its `Display` form shows it.
    pub fn to_string(&self) -> (r: String)
        ensures
            r@ == uuid_text(self@),
    {
        format_uuid(self.0)
    }
}

impl ChapterId {
    /// Creates a new random ChapterId: a version-4 UUID.
    pub fn new() -> (r: Self)
        ensures
            is_random_uuid(r@),
    {
        ChapterId(random_uuid())
    }

    /// The id with the given UUID value.
    pub fn from_u128(v: u128) -> (r: Self)
        ensures
            r@ == v,
    {
        ChapterId(v)
    }

    /// Creates a ChapterId from a UUID string
    pub fn from_string(s: &str) -> (r: Result<Self, InvalidUuid>)
        ensures
            match r {
                Ok(id) => uuid_parse(s@) == Some(id@),
                Err(_) => uuid_parse(s@) is None,
            },
    {
        match parse_uuid(s) {
            Ok(v) => Ok(ChapterId(v)),
            Err(e) => Err(InvalidUuid { reason: uuid_error_text(&e) }),
        }
    }

    /// Returns the ChapterId as a string
    pub fn as_string(&self) -> (r: String)
        ensures
            r@ == uuid_text(self@),
            uuid_parse(r@) == Some(self@),
    {
        format_uuid(self.0)
    }

    /// The id as its `Display` form shows it.
    pub fn to_string(&self) -> (r: String)
        ensures
            r@ == uuid_text(self@),
    {
        format_uuid(self.0)
    }
}

impl BookmarkId {
    /// Creates a new random BookmarkId: a version-4 UUID.
    pub fn new() -> (r: Self)
        ensures
            is_random_uuid(r@),
    {
        BookmarkId(random_uuid())
    }

    /// The id with the given UUID value.
    pub fn from_u128(v: u128) -> (r: Self)
        ensures
            r@ == v,
    {
        BookmarkId(v)
    }

    /// Creates a BookmarkId from a UUID string
    pub fn from_string(s: &str) -> (r: Result<Self, InvalidUuid>)
        ensures
            match r {
                Ok(id) => uuid_parse(s@) == Some(id@),
                Err(_) => uuid_parse(s@) is None,
            },
    {
        match parse_uuid(s) {
            Ok(v) => Ok(BookmarkId(v)),
            Err(e) => Err(InvalidUuid { reason: uuid_error_text(&e) }),
        }
    }

    /// Returns the BookmarkId as a string
    pub fn as_string(&self) -> (r: String)
        ensures
            r@ == uuid_text(self@),
            uuid_parse(r@) == Some(self@),
    {
        format_uuid(self.0)
    }

    /// The id as its `Display` form shows it.
    pub fn to_string(&self) -> (r: String)
        ensures
            r@ == uuid_text(self@),
    {
        format_uuid(self.0)
    }
}

impl PlaylistId {
    /// Creates a new random PlaylistId: a version-4 UUID.
    pub fn new() -> (r: Self)
        ensures
            is_random_uuid(r@),
    {
        PlaylistId(random_uuid())
    }

    /// The id with the given UUID value.
    pub fn from_u128(v: u128) -> (r: Self)
        ensures
            r@ == v,
    {
        PlaylistId(v)
    }

    /// Creates a PlaylistId from a UUID string
    pub fn from_string(s: &str) -> (r: Result<Self, InvalidUuid>)
        ensures
            match r {
                Ok(id) => uuid_parse(s@) == Some(id@),
                Err(_) => uuid_parse(s@) is None,
            },
    {
        match parse_uuid(s) {
            Ok(v) => Ok(PlaylistId(v)),
            Err(e) => Err(InvalidUuid { reason: uuid_error_text(&e) }),
        }
    }

    /// Returns the PlaylistId as a string
    pub fn as_string(&self) -> (r: String)
        ensures
            r@ == uuid_text(self@),
            uuid_parse(r@) == Some(self@),
    {
        format_uuid(self.0)
    }

    /// The id as its `Display` form shows it.
    pub fn to_string(&self) -> (r: String)
        ensures
            r@ == uuid_text(self@),
    {
        format_uuid(self.0)
    }
}

} // verus!
