//! The LibriVox catalog: its books, the requests a search makes, and what
//! the answers become.

use vstd::prelude::*;
use crate::sources::{is_invalid_query, is_network_error, SearchResult, SourceError, SourceMetadata};
use crate::text::{
    cat3, cat4, cat5, chars_of, concat, decimal, owned, parse_u64_chars, parse_unsigned,
    parse_usize, push_char, u64_decimal,
};

verus! {

// ------------------------------------------------------------ URL encoding

/// Characters that stand for themselves in an encoded query.
pub open spec fn is_unreserved(c: char) -> bool {
    ('A' <= c <= 'Z') || ('a' <= c <= 'z') || ('0' <= c <= '9') || c == '-' || c == '_' || c
        == '.' || c == '~'
}

/// An upper-case hexadecimal digit.
pub open spec fn hex_digit(d: nat) -> char {
    if d < 10 {
        (48 + d) as char
    } else {
        (55 + d) as char
    }
}

/// The low eight bits of a character's code, as `c as u8` gives them.
pub open spec fn low_byte(c: char) -> nat {
    ((c as u32) % 256) as nat
}

/// How one character is written in an encoded query: unreserved characters
/// as they are, a space as `+`, anything else as `%` and two hex digits of
/// its low byte.
pub open spec fn encoded_char(c: char) -> Seq<char> {
    if is_unreserved(c) {
        seq![c]
    } else if c == ' ' {
        seq!['+']
    } else {
        seq!['%', hex_digit(low_byte(c) / 16), hex_digit(low_byte(c) % 16)]
    }
}

/// A text encoded for a query string, character by character.
pub open spec fn url_encoded(s: Seq<char>) -> Seq<char>
    decreases s.len(),
{
    if s.len() == 0 {
        Seq::empty()
    } else {
        url_encoded(s.drop_last()) + encoded_char(s.last())
    }
}

/// The value of an upper-case hexadecimal digit.
pub open spec fn hex_value(d: char) -> int {
    if '0' <= d <= '9' {
        d as int - 48
    } else {
        d as int - 55
    }
}

/// An upper-case hexadecimal digit: `0`-`9` or `A`-`F`.
pub open spec fn is_upper_hex(d: char) -> bool {
    ('0' <= d <= '9') || ('A' <= d <= 'F')
}

proof fn lemma_hex_digit(d: nat)
    requires
        d < 16,
    ensures
        is_upper_hex(hex_digit(d)),
        hex_value(hex_digit(d)) == d,
{
}

proof fn lemma_encoded_char_safe(c: char)
    ensures
        forall|k: int|
            0 <= k < encoded_char(c).len() ==> {
                let x = #[trigger] encoded_char(c)[k];
                ('A' <= x <= 'Z') || ('a' <= x <= 'z') || ('0' <= x <= '9') || x == '-' || x == '_'
                    || x == '.' || x == '~' || x == '+' || x == '%'
            },
{
    if !is_unreserved(c) && c != ' ' {
        lemma_hex_digit(low_byte(c) / 16);
        lemma_hex_digit(low_byte(c) % 16);
    }
}

/// An encoded text holds only characters that are safe in a query string:
/// letters, digits, `-`, `_`, `.`, `~`, `+` and `%`. In particular no `&`,
/// `=` or `#` can split or end a query parameter.
pub proof fn law_encoded_text_is_query_safe(s: Seq<char>)
    ensures
        forall|i: int|
            0 <= i < url_encoded(s).len() ==> {
                let x = #[trigger] url_encoded(s)[i];
                ('A' <= x <= 'Z') || ('a' <= x <= 'z') || ('0' <= x <= '9') || x == '-' || x == '_'
                    || x == '.' || x == '~' || x == '+' || x == '%'
            },
        forall|i: int|
            0 <= i < url_encoded(s).len() ==> #[trigger] url_encoded(s)[i] != '&'
                && url_encoded(s)[i] != '=' && url_encoded(s)[i] != '#',
    decreases s.len(),
{
    if s.len() > 0 {
        law_encoded_text_is_query_safe(s.drop_last());
        lemma_encoded_char_safe(s.last());
        let a = url_encoded(s.drop_last());
        let b = encoded_char(s.last());
        assert forall|i: int| 0 <= i < url_encoded(s).len() implies {
            let x = #[trigger] url_encoded(s)[i];
            ('A' <= x <= 'Z') || ('a' <= x <= 'z') || ('0' <= x <= '9') || x == '-' || x == '_'
                || x == '.' || x == '~' || x == '+' || x == '%'
        } by {
            if i < a.len() {
                assert(url_encoded(s)[i] == a[i]);
            } else {
                assert(url_encoded(s)[i] == b[i - a.len()]);
            }
        }
    }
}

/// Encoding works character by character: the encoding of two texts one
/// after the other is the two encodings one after the other.
pub proof fn law_encoding_splits(a: Seq<char>, b: Seq<char>)
    ensures
        url_encoded(a + b) == url_encoded(a) + url_encoded(b),
    decreases b.len(),
{
    if b.len() == 0 {
        assert(a + b =~= a);
        assert(url_encoded(a) + url_encoded(b) =~= url_encoded(a));
    } else {
        law_encoding_splits(a, b.drop_last());
        assert((a + b).drop_last() =~= a + b.drop_last());
        assert((a + b).last() == b.last());
        assert(url_encoded(a + b) =~= url_encoded(a) + url_encoded(b));
    }
}

/// How one character is encoded: a letter, digit, `-`, `_`, `.` or `~` as
/// itself, a space as `+`, and any other character as `%` and two
/// upper-case hex digits that read back as the low byte of its code.
pub proof fn law_one_character_encoding(c: char)
    ensures
        (('A' <= c <= 'Z') || ('a' <= c <= 'z') || ('0' <= c <= '9') || c == '-' || c == '_' || c
            == '.' || c == '~') ==> url_encoded(seq![c]) == seq![c],
        c == ' ' ==> url_encoded(seq![c]) == seq!['+'],
        !(('A' <= c <= 'Z') || ('a' <= c <= 'z') || ('0' <= c <= '9') || c == '-' || c == '_' || c
            == '.' || c == '~' || c == ' ') ==> {
            let e = url_encoded(seq![c]);
            &&& e.len() == 3
            &&& e[0] == '%'
            &&& is_upper_hex(e[1]) && is_upper_hex(e[2])
            &&& hex_value(e[1]) * 16 + hex_value(e[2]) == (c as u32) % 256
        },
{
    let one = seq![c];
    assert(one.drop_last() =~= Seq::<char>::empty());
    assert(one.last() == c);
    assert(url_encoded(one.drop_last()) == Seq::<char>::empty());
    assert(url_encoded(one) == url_encoded(one.drop_last()) + encoded_char(c));
    assert(url_encoded(one) =~= encoded_char(c));
    if !is_unreserved(c) && c != ' ' {
        lemma_hex_digit(low_byte(c) / 16);
        lemma_hex_digit(low_byte(c) % 16);
    }
}

fn hex_digit_exec(d: u32) -> (c: char)
    requires
        d < 16,
    ensures
        c == hex_digit(d as nat),
{
    if d < 10 {
        let b: u8 = (48 + d) as u8;
        b as char
    } else {
        let b: u8 = (55 + d) as u8;
        b as char
    }
}

/// Encodes a text for use in a query string.
pub fn encode(s: &str) -> (r: String)
    ensures
        r@ == url_encoded(s@),
{
    let chars = chars_of(s);
    let mut out = String::new();
    let mut i: usize = 0;
    while i < chars.len()
        invariant
            i <= chars@.len(),
            chars@ == s@,
            out@ == url_encoded(chars@.subrange(0, i as int)),
        decreases chars@.len() - i,
    {
        let c = chars[i];
        proof {
            let next = chars@.subrange(0, i + 1);
            assert(next.drop_last() =~= chars@.subrange(0, i as int));
            assert(next.last() == c);
        }
        let ghost before = out@;
        if ('A' <= c && c <= 'Z') || ('a' <= c && c <= 'z') || ('0' <= c && c <= '9') || c == '-'
            || c == '_' || c == '.' || c == '~' {
            push_char(&mut out, c);
        } else if c == ' ' {
            push_char(&mut out, '+');
        } else {
            let byte: u32 = (c as u32) % 256;
            push_char(&mut out, '%');
            push_char(&mut out, hex_digit_exec(byte / 16));
            push_char(&mut out, hex_digit_exec(byte % 16));
        }
        proof {
            assert(out@ =~= before + encoded_char(c));
        }
        i = i + 1;
    }
    proof {
        assert(chars@.subrange(0, chars@.len() as int) =~= chars@);
    }
    out
}

// ------------------------------------------------------- durations of books

/// The pieces of a text between separators, as `str::split` gives them.
pub open spec fn splits(s: Seq<char>, sep: char) -> Seq<Seq<char>>
    decreases s.len(),
{
    if s.len() == 0 {
        seq![Seq::empty()]
    } else {
        let p = splits(s.drop_last(), sep);
        if s.last() == sep {
            p.push(Seq::empty())
        } else {
            p.update(p.len() - 1, p.last().push(s.last()))
        }
    }
}

proof fn lemma_splits_nonempty(s: Seq<char>, sep: char)
    ensures
        splits(s, sep).len() >= 1,
    decreases s.len(),
{
    if s.len() > 0 {
        lemma_splits_nonempty(s.drop_last(), sep);
    }
}

/// The pieces that read as `u64` numbers, in order; the others are skipped.
pub open spec fn valid_values(parts: Seq<Seq<char>>) -> Seq<u64>
    decreases parts.len(),
{
    if parts.len() == 0 {
        Seq::empty()
    } else {
        valid_values(parts.drop_last()) + match parse_unsigned(parts.last(), u64::MAX as nat) {
            Some(n) => seq![n as u64],
            None => Seq::<u64>::empty(),
        }
    }
}

/// Numbers read as the digits of a base-60 number, the last one counting
/// ones, the one before it sixties, and so on.
pub open spec fn sexagesimal(v: Seq<u64>) -> nat
    decreases v.len(),
{
    if v.len() == 0 {
        0
    } else {
        sexagesimal(v.drop_last()) * 60 + v.last() as nat
    }
}

proof fn lemma_sexagesimal_prefix(v: Seq<u64>, k: int)
    requires
        0 <= k <= v.len(),
    ensures
        sexagesimal(v.subrange(0, k)) <= sexagesimal(v),
    decreases v.len() - k,
{
    if k < v.len() {
        lemma_sexagesimal_prefix(v, k + 1);
        assert(v.subrange(0, k + 1).drop_last() =~= v.subrange(0, k));
    } else {
        assert(v.subrange(0, k) =~= v);
    }
}

/// The numbers of a `totaltime` text such as `1:30:45`.
pub open spec fn time_values(t: Seq<char>) -> Seq<u64> {
    valid_values(splits(t, ':'))
}

/// A `totaltime` text's duration in seconds, if any piece of it is a number.
pub open spec fn duration_of(t: Seq<char>) -> Option<nat> {
    if time_values(t).len() == 0 {
        None
    } else {
        Some(sexagesimal(time_values(t)))
    }
}

/// Reading the duration stays within `u64`: at most eleven numbers, so that
/// the power of 60 of each fits, and a total that fits.
pub open spec fn duration_fits(t: Seq<char>) -> bool {
    time_values(t).len() <= 11 && sexagesimal(time_values(t)) <= u64::MAX
}

/// The numbers of a `totaltime` text, in order.
fn read_time_values(t: &str) -> (r: Vec<u64>)
    ensures
        r@ == time_values(t@),
{
    let chars = chars_of(t);
    let ghost done: Seq<Seq<char>> = Seq::empty();
    let mut current: Vec<char> = Vec::new();
    let mut values: Vec<u64> = Vec::new();
    let mut i: usize = 0;
    proof {
        assert(chars@.subrange(0, 0) =~= Seq::<char>::empty());
        assert(done.push(current@) =~= seq![Seq::<char>::empty()]);
    }
    while i < chars.len()
        invariant
            i <= chars@.len(),
            chars@ == t@,
            done.push(current@) == splits(chars@.subrange(0, i as int), ':'),
            values@ == valid_values(done),
        decreases chars@.len() - i,
    {
        let c = chars[i];
        proof {
            let next = chars@.subrange(0, i + 1);
            assert(next.drop_last() =~= chars@.subrange(0, i as int));
            assert(next.last() == c);
        }
        if c == ':' {
            let ghost finished = done.push(current@);
            match parse_u64_chars(&current) {
                Some(n) => values.push(n),
                None => {},
            }
            proof {
                assert(finished.drop_last() =~= done);
                assert(finished.last() == current@);
                done = finished;
            }
            current = Vec::new();
            proof {
                assert(done.push(current@) =~= splits(chars@.subrange(0, i + 1), ':'));
            }
        } else {
            let ghost before = done.push(current@);
            current.push(c);
            proof {
                assert(done.push(current@) =~= before.update(before.len() - 1, before.last().push(c)));
            }
        }
        i = i + 1;
    }
    proof {
        assert(chars@.subrange(0, chars@.len() as int) =~= chars@);
        let all = done.push(current@);
        assert(all.drop_last() =~= done);
        assert(all.last() == current@);
    }
    match parse_u64_chars(&current) {
        Some(n) => values.push(n),
        None => {},
    }
    values
}

// ---------------------------------------------------------------- the books

/// A search result stands for a book: same id, title, author and page; the
/// description when there is one; the duration read from its total time;
/// and LibriVox as its source.
pub open spec fn stands_for(r: SearchResult, b: LibriVoxBook) -> bool {
    &&& r.id@ == b.id@
    &&& r.title@ == b.title@
    &&& r.author@ == b.author@
    &&& (b.description@.len() == 0 ==> r.description is None)
    &&& (b.description@.len() > 0 ==> (r.description matches Some(d) && d@ == b.description@))
    &&& r.duration == (match duration_of(b.totaltime@) {
        Some(n) => Some(n as u64),
        None => None,
    })
    &&& r.url@ == b.url_librivox@
    &&& r.source@ == "LibriVox"@
}

/// LibriVox book information
#[derive(Debug, Clone)]
pub struct LibriVoxBook {
    /// Unique book ID
    pub id: String,
    /// Book title
    pub title: String,
    /// Author name(s)
    pub author: String,
    /// Book description
    pub description: String,
    /// Language code (e.g., "en")
    pub language: String,
    /// LibriVox page URL
    pub url_librivox: String,
    /// Direct RSS feed URL for book chapters
    pub url_rss: String,
    /// ZIP file download URL
    pub url_zip_file: String,
    /// Total duration, as `H:MM:SS` or `MM:SS`
    pub totaltime: String,
    /// Number of sections/chapters
    pub num_sections: String,
}

impl LibriVoxBook {
    /// Create a new LibriVoxBook with minimal information; the language is
    /// English and every other field is empty.
    pub fn new(id: String, title: String, author: String) -> (r: Self)
        ensures
            r.id == id,
            r.title == title,
            r.author == author,
            r.description@.len() == 0,
            r.language@ == "en"@,
            r.url_librivox@.len() == 0,
            r.url_rss@.len() == 0,
            r.url_zip_file@.len() == 0,
            r.totaltime@.len() == 0,
            r.num_sections@.len() == 0,
    {
        LibriVoxBook {
            id,
            title,
            author,
            description: String::new(),
            language: owned("en"),
            url_librivox: String::new(),
            url_rss: String::new(),
            url_zip_file: String::new(),
            totaltime: String::new(),
            num_sections: String::new(),
        }
    }

    /// Check if book has downloadable content
    pub fn has_download(&self) -> (r: bool)
        ensures
            r == (self.url_zip_file@.len() > 0 || self.url_rss@.len() > 0),
    {
        self.url_zip_file.as_str().unicode_len() > 0 || self.url_rss.as_str().unicode_len() > 0
    }

    /// Get download URL (prefers ZIP over RSS)
    pub fn download_url(&self) -> (r: Option<String>)
        ensures
            self.url_zip_file@.len() > 0 ==> (r matches Some(u) && u@ == self.url_zip_file@),
            self.url_zip_file@.len() == 0 && self.url_rss@.len() > 0 ==> (r matches Some(u)
                && u@ == self.url_rss@),
            self.url_zip_file@.len() == 0 && self.url_rss@.len() == 0 ==> r is None,
    {
        if self.url_zip_file.as_str().unicode_len() > 0 {
            Some(owned(self.url_zip_file.as_str()))
        } else if self.url_rss.as_str().unicode_len() > 0 {
            Some(owned(self.url_rss.as_str()))
        } else {
            None
        }
    }

    /// Whether `duration_seconds` can read this book's total time.
    pub fn duration_fits(&self) -> (r: bool)
        ensures
            r == duration_fits(self.totaltime@),
    {
        let values = read_time_values(self.totaltime.as_str());
        if values.len() > 11 {
            return false;
        }
        let mut total: u64 = 0;
        let mut k: usize = 0;
        while k < values.len()
            invariant
                k <= values@.len(),
                values@ == time_values(self.totaltime@),
                total == sexagesimal(values@.subrange(0, k as int)),
            decreases values@.len() - k,
        {
            proof {
                assert(values@.subrange(0, k + 1).drop_last() =~= values@.subrange(0, k as int));
            }
            if total > (u64::MAX - values[k]) / 60 {
                proof {
                    assert(total * 60 + values[k as int] > u64::MAX) by (nonlinear_arith)
                        requires
                            total > (u64::MAX - values[k as int]) / 60,
                    ;
                    lemma_sexagesimal_prefix(values@, k + 1);
                }
                return false;
            }
            proof {
                assert(total * 60 + values[k as int] <= u64::MAX) by (nonlinear_arith)
                    requires
                        total <= (u64::MAX - values[k as int]) / 60,
                        values[k as int] <= u64::MAX,
                ;
            }
            total = total * 60 + values[k];
            k = k + 1;
        }
        proof {
            assert(values@.subrange(0, values@.len() as int) =~= values@);
        }
        true
    }

    /// Parse total time into seconds: the pieces between colons that are
    /// numbers, read as base-60 digits; `None` when no piece is a number.
    pub fn duration_seconds(&self) -> (r: Option<u64>)
        requires
            duration_fits(self.totaltime@),
        ensures
            r == (match duration_of(self.totaltime@) {
                Some(n) => Some(n as u64),
                None => None,
            }),
    {
        let values = read_time_values(self.totaltime.as_str());
        if values.len() == 0 {
            return None;
        }
        let mut total: u64 = 0;
        let mut k: usize = 0;
        while k < values.len()
            invariant
                k <= values@.len(),
                values@ == time_values(self.totaltime@),
                sexagesimal(values@) <= u64::MAX,
                total == sexagesimal(values@.subrange(0, k as int)),
            decreases values@.len() - k,
        {
            proof {
                assert(values@.subrange(0, k + 1).drop_last() =~= values@.subrange(0, k as int));
                lemma_sexagesimal_prefix(values@, k + 1);
            }
            total = total * 60 + values[k];
            k = k + 1;
        }
        proof {
            assert(values@.subrange(0, values@.len() as int) =~= values@);
        }
        Some(total)
    }

    /// Get number of chapters/sections
    pub fn chapter_count(&self) -> (r: Option<usize>)
        ensures
            r == (match parse_unsigned(self.num_sections@, usize::MAX as nat) {
                Some(n) => Some(n as usize),
                None => None,
            }),
    {
        parse_usize(self.num_sections.as_str())
    }

    /// The search result that stands for this book.
    pub fn to_search_result(&self) -> (r: SearchResult)
        requires
            duration_fits(self.totaltime@),
        ensures
            stands_for(r, *self),
    {
        SearchResult {
            id: owned(self.id.as_str()),
            title: owned(self.title.as_str()),
            author: owned(self.author.as_str()),
            description: if self.description.as_str().unicode_len() == 0 {
                None
            } else {
                Some(owned(self.description.as_str()))
            },
            duration: self.duration_seconds(),
            url: owned(self.url_librivox.as_str()),
            source: owned("LibriVox"),
        }
    }
}

// ------------------------------------------------------ requests and answers

/// The LibriVox catalog's API endpoint.
pub const LIBRIVOX_API_BASE: &'static str = "https://librivox.org/api/feed/audiobooks";

/// The results that stand for `books`, one for each, in order.
pub fn search_results(books: &Vec<LibriVoxBook>) -> (r: Vec<SearchResult>)
    requires
        forall|i: int| 0 <= i < books@.len() ==> duration_fits(#[trigger] books@[i].totaltime@),
    ensures
        r@.len() == books@.len(),
        forall|i: int| 0 <= i < books@.len() ==> stands_for(#[trigger] r@[i], books@[i]),
{
    let mut results: Vec<SearchResult> = Vec::new();
    let mut i: usize = 0;
    while i < books.len()
        invariant
            i <= books@.len(),
            results@.len() == i,
            forall|j: int| 0 <= j < books@.len() ==> duration_fits(#[trigger] books@[j].totaltime@),
            forall|j: int| 0 <= j < i ==> stands_for(#[trigger] results@[j], books@[j]),
        decreases books@.len() - i,
    {
        let result = books[i].to_search_result();
        results.push(result);
        i = i + 1;
    }
    results
}

/// The book an answer about one book gives: the first listed, if any.
pub fn first_book(books: Vec<LibriVoxBook>) -> (r: Result<LibriVoxBook, SourceError>)
    ensures
        books@.len() == 0 ==> r matches Err(SourceError::NotFound),
        books@.len() > 0 ==> r == Ok::<LibriVoxBook, SourceError>(books@[0]),
{
    let mut books = books;
    if books.len() == 0 {
        Err(SourceError::NotFound)
    } else {
        Ok(books.swap_remove(0))
    }
}

/// The error for a request that could not be sent or answered.
pub fn request_failed(detail: &str) -> (r: SourceError)
    ensures
        is_network_error(r, "Request failed: "@ + detail@),
{
    SourceError::NetworkError(concat("Request failed: ", detail))
}

/// The error for an answer whose JSON could not be read.
pub fn json_parse_failed(detail: &str) -> (r: SourceError)
    ensures
        r matches SourceError::ParseError(m) && m@ == "JSON parse error: "@ + detail@,
{
    SourceError::ParseError(concat("JSON parse error: ", detail))
}

/// HTTP statuses of success: 200 to 299.
pub open spec fn is_success(status: u16) -> bool {
    200 <= status <= 299
}

/// What a search answer's status means: success, or a network error that
/// gives the code and the reason phrase ("Unknown" when there is none).
pub fn search_status(status: u16, reason: Option<&str>) -> (r: Result<(), SourceError>)
    ensures
        is_success(status) ==> r is Ok,
        !is_success(status) ==> (r matches Err(e) && is_network_error(
            e,
            "HTTP "@ + decimal(status as nat) + " "@ + match reason {
                Some(p) => p@,
                None => "Unknown"@,
            },
        )),
{
    if 200 <= status && status <= 299 {
        Ok(())
    } else {
        let phrase = match reason {
            Some(p) => p,
            None => "Unknown",
        };
        Err(SourceError::NetworkError(cat4("HTTP ", u64_decimal(status as u64).as_str(), " ", phrase)))
    }
}

/// What the status of an answer listing books means: success, or a network
/// error that gives the code.
pub fn listing_status(status: u16) -> (r: Result<(), SourceError>)
    ensures
        is_success(status) ==> r is Ok,
        !is_success(status) ==> (r matches Err(e) && is_network_error(
            e,
            "HTTP "@ + decimal(status as nat),
        )),
{
    if 200 <= status && status <= 299 {
        Ok(())
    } else {
        Err(SourceError::NetworkError(concat("HTTP ", u64_decimal(status as u64).as_str())))
    }
}

/// What the status of an answer about one book means: success, or not found.
pub fn book_status(status: u16) -> (r: Result<(), SourceError>)
    ensures
        is_success(status) ==> r is Ok,
        !is_success(status) ==> r matches Err(SourceError::NotFound),
{
    if 200 <= status && status <= 299 {
        Ok(())
    } else {
        Err(SourceError::NotFound)
    }
}

/// The LibriVox source as its requests see it: the endpoint, and whether an
/// HTTP client could be made.
pub struct LibriVoxSource {
    base_url: String,
    client_ready: bool,
}

impl LibriVoxSource {
    /// The endpoint requests go to.
    pub closed spec fn endpoint(&self) -> Seq<char> {
        self.base_url@
    }

    /// Whether an HTTP client could be made.
    pub closed spec fn has_client(&self) -> bool {
        self.client_ready
    }

    /// The source at the LibriVox endpoint, with or without a client.
    pub fn with_client(client_ready: bool) -> (r: Self)
        ensures
            r.endpoint() == LIBRIVOX_API_BASE@,
            r.has_client() == client_ready,
    {
        LibriVoxSource { base_url: owned(LIBRIVOX_API_BASE), client_ready }
    }

    fn client_missing() -> (r: SourceError)
        ensures
            is_network_error(r, "HTTP client not available"@),
    {
        SourceError::NetworkError(owned("HTTP client not available"))
    }

    /// The request of a search by title: refused for an empty query, or
    /// without a client.
    pub fn search_books_url(&self, query: &str, limit: usize) -> (r: Result<String, SourceError>)
        ensures
            query@.len() == 0 ==> (r matches Err(e) && is_invalid_query(e, "Empty query"@)),
            query@.len() > 0 && !self.has_client() ==> (r matches Err(e) && is_network_error(
                e,
                "HTTP client not available"@,
            )),
            query@.len() > 0 && self.has_client() ==> (r matches Ok(u) && u@ == self.endpoint()
                + "?title=^"@ + url_encoded(query@) + "^&format=json&limit="@ + decimal(
                limit as nat,
            )),
    {
        if query.unicode_len() == 0 {
            return Err(SourceError::InvalidQuery(owned("Empty query")));
        }
        if !self.client_ready {
            return Err(Self::client_missing());
        }
        proof {
            reveal_strlit("?title=^");
            reveal_strlit("^&format=json&limit=");
        }
        Ok(cat5(
            self.base_url.as_str(),
            "?title=^",
            encode(query).as_str(),
            "^&format=json&limit=",
            u64_decimal(limit as u64).as_str(),
        ))
    }

    /// The request for one book's details.
    pub fn book_url(&self, book_id: &str) -> (r: Result<String, SourceError>)
        ensures
            !self.has_client() ==> (r matches Err(e) && is_network_error(
                e,
                "HTTP client not available"@,
            )),
            self.has_client() ==> (r matches Ok(u) && u@ == self.endpoint() + "?id="@ + book_id@
                + "&format=json"@),
    {
        if !self.client_ready {
            return Err(Self::client_missing());
        }
        proof {
            reveal_strlit("?id=");
            reveal_strlit("&format=json");
        }
        Ok(cat4(self.base_url.as_str(), "?id=", book_id, "&format=json"))
    }

    /// The request for the latest releases.
    pub fn latest_releases_url(&self, limit: usize) -> (r: Result<String, SourceError>)
        ensures
            !self.has_client() ==> (r matches Err(e) && is_network_error(
                e,
                "HTTP client not available"@,
            )),
            self.has_client() ==> (r matches Ok(u) && u@ == self.endpoint()
                + "?format=json&limit="@ + decimal(limit as nat)),
    {
        if !self.client_ready {
            return Err(Self::client_missing());
        }
        proof {
            reveal_strlit("?format=json&limit=");
        }
        Ok(cat3(self.base_url.as_str(), "?format=json&limit=", u64_decimal(limit as u64).as_str()))
    }

    /// The request of a search by author: refused for an empty author, or
    /// without a client.
    pub fn search_by_author_url(&self, author: &str, limit: usize) -> (r: Result<
        String,
        SourceError,
    >)
        ensures
            author@.len() == 0 ==> (r matches Err(e) && is_invalid_query(e, "Empty author"@)),
            author@.len() > 0 && !self.has_client() ==> (r matches Err(e) && is_network_error(
                e,
                "HTTP client not available"@,
            )),
            author@.len() > 0 && self.has_client() ==> (r matches Ok(u) && u@ == self.endpoint()
                + "?author=^"@ + url_encoded(author@) + "^&format=json&limit="@ + decimal(
                limit as nat,
            )),
    {
        if author.unicode_len() == 0 {
            return Err(SourceError::InvalidQuery(owned("Empty author")));
        }
        if !self.client_ready {
            return Err(Self::client_missing());
        }
        proof {
            reveal_strlit("?author=^");
            reveal_strlit("^&format=json&limit=");
        }
        Ok(cat5(
            self.base_url.as_str(),
            "?author=^",
            encode(author).as_str(),
            "^&format=json&limit=",
            u64_decimal(limit as u64).as_str(),
        ))
    }

    /// The minimal request that tells whether the API answers; none without
    /// a client.
    pub fn availability_url(&self) -> (r: Option<String>)
        ensures
            !self.has_client() ==> r is None,
            self.has_client() ==> (r matches Some(u) && u@ == self.endpoint()
                + "?format=json&limit=1"@),
    {
        if !self.client_ready {
            return None;
        }
        proof {
            reveal_strlit("?format=json&limit=1");
        }
        Some(concat(self.base_url.as_str(), "?format=json&limit=1"))
    }

    pub fn metadata(&self) -> (r: SourceMetadata)
        ensures
            r.name@ == "LibriVox"@,
            r.description@ == "Free public domain audiobooks read by volunteers"@,
            r.base_url@ == self.endpoint(),
            !r.requires_auth,
    {
        SourceMetadata {
            name: owned("LibriVox"),
            description: owned("Free public domain audiobooks read by volunteers"),
            base_url: owned(self.base_url.as_str()),
            requires_auth: false,
        }
    }

    /// The source is available when it has a client.
    pub fn is_available(&self) -> (r: bool)
        ensures
            r == self.has_client(),
    {
        self.client_ready
    }
}

} // verus!
