//! Feed parsing: format detection and the RSS 2.0 and Atom readers that turn
//! a document's XML events into a [`Feed`].

use vstd::prelude::*;
use crate::feed::{
    blank_feed, blank_item, opt_text, EnclosureView, Feed, FeedItem, FeedItemView, FeedTimestamp,
    FeedType, FeedView, Enclosure,
};
use crate::text::{
    contains_text, is_empty_text, owned, parse_u64, parse_unsigned, str_contains, str_equal, trim_string, trimmed,
};
use crate::xml_source::{
    attribute_view, document_events, read_events, XmlElement, XmlEvent, XmlElementView, XmlEventView,
};

verus! {

// ------------------------------------------------------------------ errors

/// Errors that can occur during feed parsing
#[derive(Debug)]
pub enum FeedError {
    /// Invalid XML structure
    InvalidXml(String),
    /// Unsupported feed format
    UnsupportedFormat(String),
    /// Missing required field
    MissingField(String),
    /// Invalid date format
    InvalidDate(String),
    /// Invalid URL
    InvalidUrl(String),
    /// IO error, with its message
    Io(String),
    /// XML parsing error
    XmlParse(String),
}

pub enum FeedErrorView {
    InvalidXml(Seq<char>),
    UnsupportedFormat(Seq<char>),
    MissingField(Seq<char>),
    InvalidDate(Seq<char>),
    InvalidUrl(Seq<char>),
    Io(Seq<char>),
    XmlParse(Seq<char>),
}

impl View for FeedError {
    type V = FeedErrorView;

    open spec fn view(&self) -> FeedErrorView {
        match self {
            FeedError::InvalidXml(m) => FeedErrorView::InvalidXml(m@),
            FeedError::UnsupportedFormat(m) => FeedErrorView::UnsupportedFormat(m@),
            FeedError::MissingField(m) => FeedErrorView::MissingField(m@),
            FeedError::InvalidDate(m) => FeedErrorView::InvalidDate(m@),
            FeedError::InvalidUrl(m) => FeedErrorView::InvalidUrl(m@),
            FeedError::Io(m) => FeedErrorView::Io(m@),
            FeedError::XmlParse(m) => FeedErrorView::XmlParse(m@),
        }
    }
}

/// The text that the error displays.
pub open spec fn feed_error_text(e: FeedErrorView) -> Seq<char> {
    match e {
        FeedErrorView::InvalidXml(m) => "Invalid XML: "@ + m,
        FeedErrorView::UnsupportedFormat(m) => "Unsupported feed format: "@ + m,
        FeedErrorView::MissingField(m) => "Missing required field: "@ + m,
        FeedErrorView::InvalidDate(m) => "Invalid date format: "@ + m,
        FeedErrorView::InvalidUrl(m) => "Invalid URL: "@ + m,
        FeedErrorView::Io(m) => "IO error: "@ + m,
        FeedErrorView::XmlParse(m) => "XML parsing error: "@ + m,
    }
}

impl FeedError {
    /// The text of the error, as its `Display` form shows it.
    pub fn to_string(&self) -> (r: String)
        ensures
            r@ == feed_error_text(self@),
    {
        let (prefix, m) = match self {
            FeedError::InvalidXml(m) => ("Invalid XML: ", m),
            FeedError::UnsupportedFormat(m) => ("Unsupported feed format: ", m),
            FeedError::MissingField(m) => ("Missing required field: ", m),
            FeedError::InvalidDate(m) => ("Invalid date format: ", m),
            FeedError::InvalidUrl(m) => ("Invalid URL: ", m),
            FeedError::Io(m) => ("IO error: ", m),
            FeedError::XmlParse(m) => ("XML parsing error: ", m),
        };
        crate::text::concat(prefix, m.as_str())
    }
}

impl From<std::io::Error> for FeedError {
    /// An I/O error becomes an `Io` error that keeps its text.
    fn from(err: std::io::Error) -> (r: Self)
        ensures
            r is Io,
    {
        FeedError::Io(crate::app_error::io_error_text(&err))
    }
}

impl vstd::std_specs::convert::FromSpecImpl<std::io::Error> for FeedError {
    /// The text kept comes from the I/O error, which has no specification
    /// here; `from` states what holds of every outcome.
    open spec fn obeys_from_spec() -> bool {
        false
    }

    open spec fn from_spec(v: std::io::Error) -> FeedError {
        arbitrary()
    }
}

pub type FeedResult<T> = Result<T, FeedError>;

pub open spec fn result_view(r: Result<Feed, FeedError>) -> Result<FeedView, FeedErrorView> {
    match r {
        Ok(f) => Ok(f@),
        Err(e) => Err(e@),
    }
}

// ------------------------------------------------------------------- dates

/// The instant that chrono's `DateTime::parse_from_rfc2822` reads from `text`,
/// if it accepts it.
pub uninterp spec fn rfc2822_instant(text: Seq<char>) -> Option<FeedTimestamp>;

/// The instant that chrono's `DateTime::parse_from_rfc3339` reads from `text`,
/// if it accepts it.
pub uninterp spec fn rfc3339_instant(text: Seq<char>) -> Option<FeedTimestamp>;

/// chrono's `DateTime::parse_from_rfc2822`, as seconds and nanoseconds since the epoch in UTC.
#[verifier::external_body]
fn parse_rfc2822(text: &str) -> (r: Option<FeedTimestamp>)
    ensures
        r == rfc2822_instant(text@),
{
    chrono::DateTime::parse_from_rfc2822(text).ok().map(
        |d| FeedTimestamp { seconds: d.timestamp(), nanos: d.timestamp_subsec_nanos() },
    )
}

/// chrono's `DateTime::parse_from_rfc3339`, as seconds and nanoseconds since the epoch in UTC.
#[verifier::external_body]
fn parse_rfc3339(text: &str) -> (r: Option<FeedTimestamp>)
    ensures
        r == rfc3339_instant(text@),
{
    chrono::DateTime::parse_from_rfc3339(text).ok().map(
        |d| FeedTimestamp { seconds: d.timestamp(), nanos: d.timestamp_subsec_nanos() },
    )
}

// --------------------------------------------------------------- detection

pub open spec fn detected_type(content: Seq<char>) -> FeedType {
    if contains_text(content, "<rss"@) {
        FeedType::Rss
    } else if contains_text(content, "<feed"@) && (contains_text(
        content,
        "xmlns=\"http://www.w3.org/2005/Atom\""@,
    ) || contains_text(content, "xmlns=\"https://www.w3.org/2005/Atom\""@) || contains_text(
        content,
        "http://www.w3.org/2005/Atom"@,
    ) || contains_text(content, "https://www.w3.org/2005/Atom"@)) {
        FeedType::Atom
    } else {
        FeedType::Unknown
    }
}

// --------------------------------------------------------------------- RSS

/// The state of the RSS reader between events.
pub struct RssReader {
    pub feed: Feed,
    pub current_item: Option<FeedItem>,
    pub text: String,
    pub in_item: bool,
}

pub struct ReaderState {
    pub feed: FeedView,
    pub current_item: Option<FeedItemView>,
    pub text: Seq<char>,
    pub in_item: bool,
}

impl View for RssReader {
    type V = ReaderState;

    open spec fn view(&self) -> ReaderState {
        ReaderState {
            feed: self.feed@,
            current_item: match self.current_item {
                Some(i) => Some(i@),
                None => None,
            },
            text: self.text@,
            in_item: self.in_item,
        }
    }
}

pub open spec fn initial_state(feed_type: FeedType) -> ReaderState {
    ReaderState {
        feed: blank_feed(feed_type, Seq::empty()),
        current_item: None,
        text: Seq::empty(),
        in_item: false,
    }
}

/// The url, type and length attributes of an `<enclosure>`; a later attribute
/// of the same name replaces an earlier one, an attribute that could not be
/// read is skipped, and a length that does not parse is dropped.
pub open spec fn enclosure_fields(attrs: Seq<Option<(Seq<char>, Seq<char>)>>) -> (
    Seq<char>,
    Option<Seq<char>>,
    Option<u64>,
)
    decreases attrs.len(),
{
    if attrs.len() == 0 {
        (Seq::empty(), None, None)
    } else {
        let (url, mime, length) = enclosure_fields(attrs.drop_last());
        let (key, value) = match attrs.last() {
            Some(a) => a,
            None => (Seq::empty(), Seq::empty()),
        };
        if attrs.last() is None {
            (url, mime, length)
        } else if key == "url"@ {
            (value, mime, length)
        } else if key == "type"@ {
            (url, Some(value), length)
        } else if key == "length"@ {
            (
                url,
                mime,
                match parse_unsigned(value, u64::MAX as nat) {
                    Some(n) => Some(n as u64),
                    None => None,
                },
            )
        } else {
            (url, mime, length)
        }
    }
}

pub open spec fn rss_start(st: ReaderState, el: XmlElementView) -> ReaderState {
    if el.name == "item"@ {
        ReaderState { in_item: true, current_item: Some(blank_item(Seq::empty())), ..st }
    } else if el.name == "enclosure"@ {
        let (url, mime, length) = enclosure_fields(el.attributes);
        if url.len() > 0 && st.current_item is Some {
            let item = st.current_item->0;
            ReaderState {
                current_item: Some(
                    FeedItemView {
                        enclosure: Some(EnclosureView { url, mime_type: mime, length }),
                        ..item
                    },
                ),
                ..st
            }
        } else {
            st
        }
    } else {
        st
    }
}

/// An RSS item after the element `name` closed around the text `t`.
pub open spec fn rss_item_field(item: FeedItemView, name: Seq<char>, t: Seq<char>) -> FeedItemView {
    if name == "title"@ && item.title.len() == 0 {
        FeedItemView { title: t, ..item }
    } else if name == "description"@ {
        FeedItemView { description: Some(t), ..item }
    } else if name == "link"@ {
        FeedItemView { url: Some(t), ..item }
    } else if name == "author"@ {
        FeedItemView { author: Some(t), ..item }
    } else if name == "pubDate"@ {
        FeedItemView { published: rfc2822_instant(t), ..item }
    } else if name == "guid"@ {
        FeedItemView { guid: Some(t), ..item }
    } else {
        item
    }
}

/// The RSS channel after the element `name` closed around the text `t`.
pub open spec fn rss_channel_field(feed: FeedView, name: Seq<char>, t: Seq<char>) -> FeedView {
    if name == "title"@ && feed.title.len() == 0 {
        FeedView { title: t, ..feed }
    } else if name == "description"@ {
        FeedView { description: Some(t), ..feed }
    } else if name == "link"@ {
        FeedView { url: Some(t), ..feed }
    } else if name == "language"@ {
        FeedView { language: Some(t), ..feed }
    } else {
        feed
    }
}

/// After an end tag inside an item (RSS `item`, Atom `entry`): the item gets
/// the field, and closing `item_tag` hands the item to the feed.
pub open spec fn close_in_item(
    st: ReaderState,
    name: Seq<char>,
    item_tag: Seq<char>,
    updated: Option<FeedItemView>,
) -> ReaderState {
    if name == item_tag {
        ReaderState {
            feed: match updated {
                Some(i) => FeedView { items: st.feed.items.push(i), ..st.feed },
                None => st.feed,
            },
            current_item: None,
            in_item: false,
            text: Seq::empty(),
        }
    } else {
        ReaderState { current_item: updated, text: Seq::empty(), ..st }
    }
}

pub open spec fn rss_end(st: ReaderState, name: Seq<char>) -> ReaderState {
    let t = trimmed(st.text);
    if st.in_item {
        let updated = match st.current_item {
            Some(i) => Some(rss_item_field(i, name, t)),
            None => None,
        };
        close_in_item(st, name, "item"@, updated)
    } else {
        ReaderState { feed: rss_channel_field(st.feed, name, t), text: Seq::empty(), ..st }
    }
}

/// Character data adds to the text being collected.
pub open spec fn add_text(st: ReaderState, t: Option<Seq<char>>) -> ReaderState {
    match t {
        Some(s) => ReaderState { text: st.text + s, ..st },
        None => st,
    }
}

pub open spec fn rss_step(st: ReaderState, e: XmlEventView) -> ReaderState {
    match e {
        XmlEventView::Start(el) => rss_start(st, el),
        XmlEventView::Empty(el) => rss_start(st, el),
        XmlEventView::Text(t) => add_text(st, t),
        XmlEventView::End(n) => rss_end(st, n),
        _ => st,
    }
}

// -------------------------------------------------------------------- Atom

/// The value of the last readable `href` attribute, if there is one.
pub open spec fn href_of(attrs: Seq<Option<(Seq<char>, Seq<char>)>>) -> Option<Seq<char>>
    decreases attrs.len(),
{
    if attrs.len() == 0 {
        None
    } else if attrs.last() matches Some(a) && a.0 == "href"@ {
        Some((attrs.last()->0).1)
    } else {
        href_of(attrs.drop_last())
    }
}

pub open spec fn atom_start(st: ReaderState, el: XmlElementView) -> ReaderState {
    if el.name == "entry"@ {
        ReaderState { in_item: true, current_item: Some(blank_item(Seq::empty())), ..st }
    } else if el.name == "link"@ {
        match href_of(el.attributes) {
            Some(url) => if st.in_item {
                match st.current_item {
                    Some(item) => ReaderState {
                        current_item: Some(FeedItemView { url: Some(url), ..item }),
                        ..st
                    },
                    None => st,
                }
            } else {
                ReaderState { feed: FeedView { url: Some(url), ..st.feed }, ..st }
            },
            None => st,
        }
    } else {
        st
    }
}

/// An Atom entry after the element `name` closed around the text `t`.
pub open spec fn atom_item_field(item: FeedItemView, name: Seq<char>, t: Seq<char>) -> FeedItemView {
    if name == "title"@ && item.title.len() == 0 {
        FeedItemView { title: t, ..item }
    } else if name == "summary"@ || name == "content"@ {
        FeedItemView { description: Some(t), ..item }
    } else if name == "author"@ {
        FeedItemView { author: Some(t), ..item }
    } else if name == "published"@ || name == "updated"@ {
        FeedItemView { published: rfc3339_instant(t), ..item }
    } else if name == "id"@ {
        FeedItemView { guid: Some(t), ..item }
    } else {
        item
    }
}

/// The Atom feed after the element `name` closed around the text `t`.
pub open spec fn atom_feed_field(feed: FeedView, name: Seq<char>, t: Seq<char>) -> FeedView {
    if name == "title"@ && feed.title.len() == 0 {
        FeedView { title: t, ..feed }
    } else if name == "subtitle"@ {
        FeedView { description: Some(t), ..feed }
    } else {
        feed
    }
}

pub open spec fn atom_end(st: ReaderState, name: Seq<char>) -> ReaderState {
    let t = trimmed(st.text);
    if st.in_item {
        let updated = match st.current_item {
            Some(i) => Some(atom_item_field(i, name, t)),
            None => None,
        };
        close_in_item(st, name, "entry"@, updated)
    } else {
        ReaderState { feed: atom_feed_field(st.feed, name, t), text: Seq::empty(), ..st }
    }
}

pub open spec fn atom_step(st: ReaderState, e: XmlEventView) -> ReaderState {
    match e {
        XmlEventView::Start(el) => atom_start(st, el),
        XmlEventView::Empty(el) => atom_start(st, el),
        XmlEventView::Text(t) => add_text(st, t),
        XmlEventView::End(n) => atom_end(st, n),
        _ => st,
    }
}

/// In an Atom entry, a closed `<summary>` becomes the entry's description:
/// whatever text was collected since the last closed element, with the
/// summary's text added and trimmed. Nothing else of the entry changes, and
/// the reader stays in the entry with no text collected.
pub proof fn law_atom_summary_becomes_description(st: ReaderState, summary: Seq<char>)
    requires
        st.in_item,
        st.current_item is Some,
    ensures
        ({
            let after = atom_step(
                atom_step(st, XmlEventView::Text(Some(summary))),
                XmlEventView::End("summary"@),
            );
            &&& after.current_item == Some(
                FeedItemView {
                    description: Some(trimmed(st.text + summary)),
                    ..st.current_item->0
                },
            )
            &&& after.in_item
            &&& after.text.len() == 0
            &&& after.feed == st.feed
        }),
{
    reveal_strlit("summary");
    reveal_strlit("title");
    reveal_strlit("entry");
    assert("summary"@ != "title"@) by {
        assert("summary"@[0] != "title"@[0]);
    }
    assert("summary"@ != "entry"@) by {
        assert("summary"@[0] != "entry"@[0]);
    }
}

// ----------------------------------------------------------- the whole run

pub open spec fn feed_step(feed_type: FeedType, st: ReaderState, e: XmlEventView) -> ReaderState {
    if feed_type == FeedType::Rss {
        rss_step(st, e)
    } else {
        atom_step(st, e)
    }
}

/// The reader's state after the events, stopping at the end of the document;
/// an error event stops the run with its message.
pub open spec fn run_events(feed_type: FeedType, st: ReaderState, events: Seq<XmlEventView>) -> Result<
    ReaderState,
    Seq<char>,
>
    decreases events.len(),
{
    if events.len() == 0 {
        Ok(st)
    } else {
        match events[0] {
            XmlEventView::Eof => Ok(st),
            XmlEventView::Error(m) => Err(m),
            e => run_events(feed_type, feed_step(feed_type, st, e), events.drop_first()),
        }
    }
}

/// The feed that the events describe, or the error that the reader reports.
pub open spec fn feed_from_events(feed_type: FeedType, events: Seq<XmlEventView>) -> Result<
    FeedView,
    FeedErrorView,
> {
    match run_events(feed_type, initial_state(feed_type), events) {
        Err(m) => Err(FeedErrorView::XmlParse(m)),
        Ok(st) => if st.feed.title.len() == 0 {
            Err(FeedErrorView::MissingField("title"@))
        } else {
            Ok(st.feed)
        },
    }
}

/// What parsing `content` gives.
pub open spec fn parsed_feed(content: Seq<char>) -> Result<FeedView, FeedErrorView> {
    match detected_type(content) {
        FeedType::Rss => feed_from_events(FeedType::Rss, document_events(content)),
        FeedType::Atom => feed_from_events(FeedType::Atom, document_events(content)),
        FeedType::Unknown => Err(FeedErrorView::UnsupportedFormat("Unknown feed format"@)),
    }
}

proof fn lemma_run_events_step(feed_type: FeedType, st: ReaderState, events: Seq<XmlEventView>, i: int)
    requires
        0 <= i < events.len(),
        !(events[i] is Eof),
        !(events[i] is Error),
    ensures
        run_events(feed_type, st, events.subrange(i, events.len() as int)) == run_events(
            feed_type,
            feed_step(feed_type, st, events[i]),
            events.subrange(i + 1, events.len() as int),
        ),
{
    let s = events.subrange(i, events.len() as int);
    assert(s[0] == events[i]);
    assert(s.drop_first() =~= events.subrange(i + 1, events.len() as int));
}

impl RssReader {
    pub fn new(feed_type: FeedType) -> (r: Self)
        ensures
            r@ == initial_state(feed_type),
    {
        RssReader {
            feed: Feed::new(feed_type, String::new()),
            current_item: None,
            text: String::new(),
            in_item: false,
        }
    }

    fn name_is(name: &String, lit: &str) -> (r: bool)
        ensures
            r == (name@ == lit@),
    {
        str_equal(name.as_str(), lit)
    }

    /// The fields of an `<enclosure>` tag.
    fn enclosure_fields_of(el: &XmlElement) -> (r: (String, Option<String>, Option<u64>))
        ensures
            ({
                let (u, m, l) = enclosure_fields(el@.attributes);
                &&& r.0@ == u
                &&& opt_text(r.1) == m
                &&& r.2 == l
            }),
    {
        let mut url = String::new();
        let mut mime: Option<String> = None;
        let mut length: Option<u64> = None;
        let mut i: usize = 0;
        while i < el.attributes.len()
            invariant
                i <= el.attributes.len(),
                ({
                    let (u, m, l) = enclosure_fields(el@.attributes.subrange(0, i as int));
                    &&& url@ == u
                    &&& opt_text(mime) == m
                    &&& length == l
                }),
            decreases el.attributes.len() - i,
        {
            proof {
                let pre = el@.attributes.subrange(0, i + 1);
                assert(pre.drop_last() =~= el@.attributes.subrange(0, i as int));
                assert(pre.last() == attribute_view(el.attributes@[i as int]));
            }
            match &el.attributes[i] {
                Some(a) => {
                    if Self::name_is(&a.key, "url") {
                        url = owned(a.value.as_str());
                    } else if Self::name_is(&a.key, "type") {
                        mime = Some(owned(a.value.as_str()));
                    } else if Self::name_is(&a.key, "length") {
                        length = parse_u64(a.value.as_str());
                    }
                },
                None => {},
            }
            i = i + 1;
        }
        proof {
            assert(el@.attributes.subrange(0, el@.attributes.len() as int) =~= el@.attributes);
        }
        (url, mime, length)
    }

    /// The value of the last `href` attribute.
    fn href_of_element(el: &XmlElement) -> (r: Option<String>)
        ensures
            opt_text(r) == href_of(el@.attributes),
    {
        let mut href: Option<String> = None;
        let mut i: usize = 0;
        while i < el.attributes.len()
            invariant
                i <= el.attributes.len(),
                opt_text(href) == href_of(el@.attributes.subrange(0, i as int)),
            decreases el.attributes.len() - i,
        {
            proof {
                let pre = el@.attributes.subrange(0, i + 1);
                assert(pre.drop_last() =~= el@.attributes.subrange(0, i as int));
                assert(pre.last() == attribute_view(el.attributes@[i as int]));
            }
            match &el.attributes[i] {
                Some(a) => {
                    if Self::name_is(&a.key, "href") {
                        href = Some(owned(a.value.as_str()));
                    }
                },
                None => {},
            }
            i = i + 1;
        }
        proof {
            assert(el@.attributes.subrange(0, el@.attributes.len() as int) =~= el@.attributes);
        }
        href
    }

    fn rss_start_tag(&mut self, el: &XmlElement)
        ensures
            final(self)@ == rss_start(old(self)@, el@),
    {
        if Self::name_is(&el.name, "item") {
            self.in_item = true;
            self.current_item = Some(FeedItem::new(String::new()));
        } else if Self::name_is(&el.name, "enclosure") {
            let (url, mime, length) = Self::enclosure_fields_of(el);
            if !is_empty_text(url.as_str()) {
                proof {
                    assert(url@.len() > 0);
                }
                match &mut self.current_item {
                    Some(item) => {
                        let mut enc = Enclosure::new(url);
                        enc.mime_type = mime;
                        enc.length = length;
                        item.enclosure = Some(enc);
                    },
                    None => {},
                }
            } else {
                proof {
                    assert(url@.len() == 0);
                }
            }
        }
    }

    fn atom_start_tag(&mut self, el: &XmlElement)
        ensures
            final(self)@ == atom_start(old(self)@, el@),
    {
        if Self::name_is(&el.name, "entry") {
            self.in_item = true;
            self.current_item = Some(FeedItem::new(String::new()));
        } else if Self::name_is(&el.name, "link") {
            match Self::href_of_element(el) {
                Some(url) => {
                    if self.in_item {
                        match &mut self.current_item {
                            Some(item) => {
                                item.url = Some(url);
                            },
                            None => {},
                        }
                    } else {
                        self.feed.url = Some(url);
                    }
                },
                None => {},
            }
        }
    }

    fn rss_item_end(item: &mut FeedItem, name: &String, t: String)
        ensures
            final(item)@ == rss_item_field(old(item)@, name@, t@),
    {
        if Self::name_is(name, "title") && is_empty_text(item.title.as_str()) {
            item.title = t;
        } else if Self::name_is(name, "description") {
            item.description = Some(t);
        } else if Self::name_is(name, "link") {
            item.url = Some(t);
        } else if Self::name_is(name, "author") {
            item.author = Some(t);
        } else if Self::name_is(name, "pubDate") {
            item.published = parse_rfc2822(t.as_str());
        } else if Self::name_is(name, "guid") {
            item.guid = Some(t);
        }
    }

    fn atom_item_end(item: &mut FeedItem, name: &String, t: String)
        ensures
            final(item)@ == atom_item_field(old(item)@, name@, t@),
    {
        if Self::name_is(name, "title") && is_empty_text(item.title.as_str()) {
            item.title = t;
        } else if Self::name_is(name, "summary") || Self::name_is(name, "content") {
            item.description = Some(t);
        } else if Self::name_is(name, "author") {
            item.author = Some(t);
        } else if Self::name_is(name, "published") || Self::name_is(name, "updated") {
            item.published = parse_rfc3339(t.as_str());
        } else if Self::name_is(name, "id") {
            item.guid = Some(t);
        }
    }

    fn end_tag(&mut self, name: &String, is_rss: bool)
        ensures
            final(self)@ == (if is_rss {
                rss_end(old(self)@, name@)
            } else {
                atom_end(old(self)@, name@)
            }),
    {
        let t = trim_string(self.text.as_str());
        if self.in_item {
            let item_tag = if is_rss { "item" } else { "entry" };
            match &mut self.current_item {
                Some(item) => {
                    if is_rss {
                        Self::rss_item_end(item, name, t);
                    } else {
                        Self::atom_item_end(item, name, t);
                    }
                },
                None => {},
            }
            if Self::name_is(name, item_tag) {
                let taken = self.current_item.take();
                match taken {
                    Some(item) => self.feed.add_item(item),
                    None => {},
                }
                self.in_item = false;
            }
        } else {
            if is_rss {
                if Self::name_is(name, "title") && is_empty_text(self.feed.title.as_str()) {
                    self.feed.title = t;
                } else if Self::name_is(name, "description") {
                    self.feed.description = Some(t);
                } else if Self::name_is(name, "link") {
                    self.feed.url = Some(t);
                } else if Self::name_is(name, "language") {
                    self.feed.language = Some(t);
                }
            } else {
                if Self::name_is(name, "title") && is_empty_text(self.feed.title.as_str()) {
                    self.feed.title = t;
                } else if Self::name_is(name, "subtitle") {
                    self.feed.description = Some(t);
                }
            }
        }
        self.text = String::new();
    }

    /// Handles one event that is not the end of the document or an error.
    pub fn step(&mut self, e: &XmlEvent, feed_type: FeedType)
        requires
            feed_type != FeedType::Unknown,
        ensures
            final(self)@ == feed_step(feed_type, old(self)@, e@),
    {
        let is_rss = match feed_type {
            FeedType::Rss => true,
            _ => false,
        };
        match e {
            XmlEvent::Start(el) => {
                if is_rss {
                    self.rss_start_tag(el)
                } else {
                    self.atom_start_tag(el)
                }
            },
            XmlEvent::Empty(el) => {
                if is_rss {
                    self.rss_start_tag(el)
                } else {
                    self.atom_start_tag(el)
                }
            },
            XmlEvent::Text(t) => match t {
                Some(s) => self.text.append(s.as_str()),
                None => {},
            },
            XmlEvent::End(n) => self.end_tag(n, is_rss),
            _ => {},
        }
    }
}

/// A parsed feed
pub struct FeedParser;

impl FeedParser {
    /// Detects the feed type from content
    pub fn detect_type(content: &str) -> (r: FeedResult<FeedType>)
        ensures
            r matches Ok(t) && t == detected_type(content@),
    {
        if str_contains(content, "<rss") {
            Ok(FeedType::Rss)
        } else if str_contains(content, "<feed") && (str_contains(
            content,
            "xmlns=\"http://www.w3.org/2005/Atom\"",
        ) || str_contains(content, "xmlns=\"https://www.w3.org/2005/Atom\"") || str_contains(
            content,
            "http://www.w3.org/2005/Atom",
        ) || str_contains(content, "https://www.w3.org/2005/Atom")) {
            Ok(FeedType::Atom)
        } else {
            Ok(FeedType::Unknown)
        }
    }

    /// Builds a feed of the given type from a document's events: they are
    /// handled in order up to the end of the document; an error event gives
    /// `XmlParse`, and a feed without a title gives `MissingField("title")`.
    pub fn parse_events(feed_type: FeedType, events: &Vec<XmlEvent>) -> (r: FeedResult<Feed>)
        requires
            feed_type != FeedType::Unknown,
        ensures
            result_view(r) == feed_from_events(
                feed_type,
                events@.map_values(|e: XmlEvent| e@),
            ),
    {
        let ghost evs = events@.map_values(|e: XmlEvent| e@);
        let mut reader = RssReader::new(feed_type);
        let mut i: usize = 0;
        let mut at_end = false;
        proof {
            assert(evs.subrange(0, evs.len() as int) =~= evs);
        }
        while i < events.len() && !at_end
            invariant
                i <= events.len(),
                feed_type != FeedType::Unknown,
                evs == events@.map_values(|e: XmlEvent| e@),
                at_end ==> i < events.len() && evs[i as int] is Eof,
                run_events(feed_type, initial_state(feed_type), evs) == run_events(
                    feed_type,
                    reader@,
                    evs.subrange(i as int, evs.len() as int),
                ),
            decreases events.len() - i, if at_end { 0int } else { 1int },
        {
            let e = &events[i];
            proof {
                assert(evs[i as int] == e@);
                assert(evs.subrange(i as int, evs.len() as int)[0] == e@);
            }
            match e {
                XmlEvent::Eof => {
                    at_end = true;
                },
                XmlEvent::Error(m) => {
                    return Err(FeedError::XmlParse(owned(m.as_str())));
                },
                _ => {
                    proof {
                        lemma_run_events_step(feed_type, reader@, evs, i as int);
                    }
                    reader.step(e, feed_type);
                    i = i + 1;
                },
            }
        }
        proof {
            if at_end {
                assert(evs.subrange(i as int, evs.len() as int)[0] is Eof);
            } else {
                assert(evs.subrange(i as int, evs.len() as int) =~= Seq::<XmlEventView>::empty());
            }
        }
        if is_empty_text(reader.feed.title.as_str()) {
            Err(FeedError::MissingField(owned("title")))
        } else {
            Ok(reader.feed)
        }
    }

    /// Parses a feed from a string
    pub fn parse(content: &str) -> (r: FeedResult<Feed>)
        ensures
            result_view(r) == parsed_feed(content@),
    {
        let feed_type = match Self::detect_type(content) {
            Ok(t) => t,
            Err(e) => {
                return Err(e);
            },
        };
        match feed_type {
            FeedType::Rss => {
                let events = read_events(content);
                Self::parse_events(FeedType::Rss, &events)
            },
            FeedType::Atom => {
                let events = read_events(content);
                Self::parse_events(FeedType::Atom, &events)
            },
            FeedType::Unknown => Err(FeedError::UnsupportedFormat(owned("Unknown feed format"))),
        }
    }
}

} // verus!
