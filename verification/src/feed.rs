//! Feed data structures: feeds, their items and media enclosures.

use vstd::prelude::*;
use crate::text::{starts_with_text, str_starts_with};

verus! {

/// Type of feed format
#[derive(Debug, Clone, Copy, PartialEq, Eq, Structural)]
pub enum FeedType {
    /// RSS 2.0 feed
    Rss,
    /// Atom feed
    Atom,
    /// Unknown or unsupported format
    Unknown,
}

/// An instant in UTC: whole seconds since the Unix epoch and the nanoseconds
/// within that second.
#[derive(Debug, Clone, Copy, PartialEq, Eq, Structural)]
pub struct FeedTimestamp {
    pub seconds: i64,
    pub nanos: u32,
}

/// `a` is strictly earlier than `b`.
pub open spec fn timestamp_before(a: FeedTimestamp, b: FeedTimestamp) -> bool {
    a.seconds < b.seconds || (a.seconds == b.seconds && a.nanos < b.nanos)
}

pub fn timestamp_is_before(a: FeedTimestamp, b: FeedTimestamp) -> (r: bool)
    ensures
        r == timestamp_before(a, b),
{
    a.seconds < b.seconds || (a.seconds == b.seconds && a.nanos < b.nanos)
}

pub open spec fn opt_text(o: Option<String>) -> Option<Seq<char>> {
    match o {
        Some(s) => Some(s@),
        None => None,
    }
}

/// Media enclosure (typically audio or video)
#[derive(Debug, Clone)]
pub struct Enclosure {
    /// URL to the media file
    pub url: String,
    /// MIME type (e.g., "audio/mpeg")
    pub mime_type: Option<String>,
    /// File size in bytes
    pub length: Option<u64>,
}

pub struct EnclosureView {
    pub url: Seq<char>,
    pub mime_type: Option<Seq<char>>,
    pub length: Option<u64>,
}

impl View for Enclosure {
    type V = EnclosureView;

    open spec fn view(&self) -> EnclosureView {
        EnclosureView { url: self.url@, mime_type: opt_text(self.mime_type), length: self.length }
    }
}

/// The MIME type is present and starts with `prefix`.
pub open spec fn mime_starts_with(mime: Option<Seq<char>>, prefix: Seq<char>) -> bool {
    match mime {
        Some(m) => starts_with_text(m, prefix),
        None => false,
    }
}

pub open spec fn enclosure_is_audio(e: EnclosureView) -> bool {
    mime_starts_with(e.mime_type, "audio/"@)
}

impl Enclosure {
    /// Creates a new enclosure
    pub fn new(url: String) -> (r: Self)
        ensures
            r@ == (EnclosureView { url: url@, mime_type: None, length: None }),
    {
        Enclosure { url, mime_type: None, length: None }
    }

    /// Returns true if this is an audio enclosure
    pub fn is_audio(&self) -> (r: bool)
        ensures
            r == enclosure_is_audio(self@),
    {
        match &self.mime_type {
            Some(m) => str_starts_with(m.as_str(), "audio/"),
            None => false,
        }
    }

    /// Returns true if this is a video enclosure
    pub fn is_video(&self) -> (r: bool)
        ensures
            r == mime_starts_with(self@.mime_type, "video/"@),
    {
        match &self.mime_type {
            Some(m) => str_starts_with(m.as_str(), "video/"),
            None => false,
        }
    }
}

/// A single item in a feed (episode, article, etc.)
#[derive(Debug, Clone)]
pub struct FeedItem {
    /// Item title
    pub title: String,
    /// Item description/summary
    pub description: Option<String>,
    /// Item URL/link
    pub url: Option<String>,
    /// Publication date
    pub published: Option<FeedTimestamp>,
    /// Author/creator
    pub author: Option<String>,
    /// Unique identifier (GUID)
    pub guid: Option<String>,
    /// Audio/video enclosure
    pub enclosure: Option<Enclosure>,
}

pub struct FeedItemView {
    pub title: Seq<char>,
    pub description: Option<Seq<char>>,
    pub url: Option<Seq<char>>,
    pub published: Option<FeedTimestamp>,
    pub author: Option<Seq<char>>,
    pub guid: Option<Seq<char>>,
    pub enclosure: Option<EnclosureView>,
}

impl View for FeedItem {
    type V = FeedItemView;

    open spec fn view(&self) -> FeedItemView {
        FeedItemView {
            title: self.title@,
            description: opt_text(self.description),
            url: opt_text(self.url),
            published: self.published,
            author: opt_text(self.author),
            guid: opt_text(self.guid),
            enclosure: match self.enclosure {
                Some(e) => Some(e@),
                None => None,
            },
        }
    }
}

/// An item with the given title and nothing else set.
pub open spec fn blank_item(title: Seq<char>) -> FeedItemView {
    FeedItemView {
        title,
        description: None,
        url: None,
        published: None,
        author: None,
        guid: None,
        enclosure: None,
    }
}

pub open spec fn item_has_audio(i: FeedItemView) -> bool {
    match i.enclosure {
        Some(e) => enclosure_is_audio(e),
        None => false,
    }
}

impl FeedItem {
    /// Creates a new feed item
    pub fn new(title: String) -> (r: Self)
        ensures
            r@ == blank_item(title@),
    {
        FeedItem {
            title,
            description: None,
            url: None,
            published: None,
            author: None,
            guid: None,
            enclosure: None,
        }
    }

    /// Returns true if this item has an audio enclosure
    pub fn has_audio(&self) -> (r: bool)
        ensures
            r == item_has_audio(self@),
    {
        match &self.enclosure {
            Some(e) => e.is_audio(),
            None => false,
        }
    }

    /// Returns the enclosure URL if available
    pub fn audio_url(&self) -> (r: Option<&str>)
        ensures
            match self@.enclosure {
                Some(e) => r is Some && r->0@ == e.url,
                None => r is None,
            },
    {
        match &self.enclosure {
            Some(e) => Some(e.url.as_str()),
            None => None,
        }
    }
}

/// A parsed feed with metadata and items
#[derive(Debug, Clone)]
pub struct Feed {
    /// Type of feed
    pub feed_type: FeedType,
    /// Feed title
    pub title: String,
    /// Feed description
    pub description: Option<String>,
    /// Feed URL
    pub url: Option<String>,
    /// Feed author
    pub author: Option<String>,
    /// Feed language
    pub language: Option<String>,
    /// Last update time
    pub updated: Option<FeedTimestamp>,
    /// Feed items/episodes
    pub items: Vec<FeedItem>,
}

pub struct FeedView {
    pub feed_type: FeedType,
    pub title: Seq<char>,
    pub description: Option<Seq<char>>,
    pub url: Option<Seq<char>>,
    pub author: Option<Seq<char>>,
    pub language: Option<Seq<char>>,
    pub updated: Option<FeedTimestamp>,
    pub items: Seq<FeedItemView>,
}

pub open spec fn item_views(items: Seq<FeedItem>) -> Seq<FeedItemView> {
    items.map_values(|i: FeedItem| i@)
}

impl View for Feed {
    type V = FeedView;

    open spec fn view(&self) -> FeedView {
        FeedView {
            feed_type: self.feed_type,
            title: self.title@,
            description: opt_text(self.description),
            url: opt_text(self.url),
            author: opt_text(self.author),
            language: opt_text(self.language),
            updated: self.updated,
            items: item_views(self.items@),
        }
    }
}

/// A feed of the given type and title with nothing else set.
pub open spec fn blank_feed(feed_type: FeedType, title: Seq<char>) -> FeedView {
    FeedView {
        feed_type,
        title,
        description: None,
        url: None,
        author: None,
        language: None,
        updated: None,
        items: Seq::empty(),
    }
}

/// `a` sorts strictly before `b` in the newest-first order: both have dates and
/// `a` is later, or only `b` has a date (undated items come first).
pub open spec fn sorts_before(a: FeedItemView, b: FeedItemView) -> bool {
    match (a.published, b.published) {
        (Some(da), Some(db)) => timestamp_before(db, da),
        (None, Some(_)) => true,
        _ => false,
    }
}

/// Where a stable sort places `x` among already sorted items: after every item
/// that `x` does not sort before.
pub open spec fn insertion_index(s: Seq<FeedItemView>, x: FeedItemView) -> int
    decreases s.len(),
{
    if s.len() == 0 {
        0
    } else if sorts_before(x, s.last()) {
        insertion_index(s.drop_last(), x)
    } else {
        s.len() as int
    }
}

/// The items in newest-first order, stable for items that compare equal
/// (as `sort_by` with the date comparator leaves them).
pub open spec fn newest_first(s: Seq<FeedItemView>) -> Seq<FeedItemView>
    decreases s.len(),
{
    if s.len() == 0 {
        Seq::empty()
    } else {
        let rest = newest_first(s.drop_last());
        rest.insert(insertion_index(rest, s.last()), s.last())
    }
}

proof fn lemma_insertion_index_bounds(s: Seq<FeedItemView>, x: FeedItemView)
    ensures
        0 <= insertion_index(s, x) <= s.len(),
    decreases s.len(),
{
    if s.len() > 0 && sorts_before(x, s.last()) {
        lemma_insertion_index_bounds(s.drop_last(), x);
    }
}

proof fn lemma_newest_first_len(s: Seq<FeedItemView>)
    ensures
        newest_first(s).len() == s.len(),
    decreases s.len(),
{
    if s.len() > 0 {
        lemma_newest_first_len(s.drop_last());
        lemma_insertion_index_bounds(newest_first(s.drop_last()), s.last());
    }
}

/// No item sorts before one that comes earlier: newest dates first, undated
/// items ahead of dated ones.
pub open spec fn in_date_order(s: Seq<FeedItemView>) -> bool {
    forall|i: int, j: int| 0 <= i < j < s.len() ==> !sorts_before(#[trigger] s[j], #[trigger] s[i])
}

proof fn lemma_sorts_before_asymmetric(a: FeedItemView, b: FeedItemView)
    ensures
        sorts_before(a, b) ==> !sorts_before(b, a),
{
}

proof fn lemma_sorts_before_splits(a: FeedItemView, b: FeedItemView, c: FeedItemView)
    ensures
        sorts_before(a, c) ==> sorts_before(a, b) || sorts_before(b, c),
{
}

proof fn lemma_insertion_index_place(s: Seq<FeedItemView>, x: FeedItemView)
    ensures
        forall|j: int| insertion_index(s, x) <= j < s.len() ==> sorts_before(x, #[trigger] s[j]),
        insertion_index(s, x) > 0 ==> !sorts_before(x, s[insertion_index(s, x) - 1]),
    decreases s.len(),
{
    if s.len() > 0 && sorts_before(x, s.last()) {
        lemma_insertion_index_place(s.drop_last(), x);
        lemma_insertion_index_bounds(s.drop_last(), x);
        let k = insertion_index(s, x);
        assert forall|j: int| k <= j < s.len() implies sorts_before(x, #[trigger] s[j]) by {
            if j < s.len() - 1 {
                assert(s.drop_last()[j] == s[j]);
            }
        }
        if k > 0 {
            assert(s.drop_last()[k - 1] == s[k - 1]);
        }
    }
}

proof fn lemma_insert_keeps_order(s: Seq<FeedItemView>, x: FeedItemView)
    requires
        in_date_order(s),
    ensures
        in_date_order(s.insert(insertion_index(s, x), x)),
{
    lemma_insertion_index_bounds(s, x);
    lemma_insertion_index_place(s, x);
    let k = insertion_index(s, x);
    let r = s.insert(k, x);
    assert forall|i: int, j: int| 0 <= i < j < r.len() implies !sorts_before(
        #[trigger] r[j],
        #[trigger] r[i],
    ) by {
        if j < k {
            assert(r[i] == s[i] && r[j] == s[j]);
        } else if i > k {
            assert(r[i] == s[i - 1] && r[j] == s[j - 1]);
        } else if i == k {
            assert(r[j] == s[j - 1]);
            lemma_sorts_before_asymmetric(x, s[j - 1]);
        } else if j == k {
            assert(r[i] == s[i]);
            if sorts_before(x, s[i]) {
                lemma_sorts_before_splits(x, s[k - 1], s[i]);
                if i < k - 1 {
                    assert(!sorts_before(s[k - 1], s[i]));
                }
            }
        } else {
            assert(r[i] == s[i] && r[j] == s[j - 1]);
        }
    }
}

/// Sorting by date puts the items in date order (newest first, undated ones
/// ahead) and keeps every item: the result is a reordering of the input.
pub proof fn law_date_sort_orders_and_keeps_items(s: Seq<FeedItemView>)
    ensures
        in_date_order(newest_first(s)),
        newest_first(s).to_multiset() == s.to_multiset(),
        newest_first(s).len() == s.len(),
    decreases s.len(),
{
    broadcast use vstd::seq_lib::group_to_multiset_ensures;

    lemma_newest_first_len(s);
    if s.len() > 0 {
        let rest = newest_first(s.drop_last());
        law_date_sort_orders_and_keeps_items(s.drop_last());
        lemma_insertion_index_bounds(rest, s.last());
        lemma_insert_keeps_order(rest, s.last());
        assert(s.drop_last().push(s.last()) =~= s);
    }
}

impl Feed {
    /// Creates a new feed
    pub fn new(feed_type: FeedType, title: String) -> (r: Self)
        ensures
            r@ == blank_feed(feed_type, title@),
    {
        let r = Feed {
            feed_type,
            title,
            description: None,
            url: None,
            author: None,
            language: None,
            updated: None,
            items: Vec::new(),
        };
        proof {
            assert(r@.items =~= Seq::<FeedItemView>::empty());
        }
        r
    }

    /// Returns the number of items in the feed
    pub fn item_count(&self) -> (r: usize)
        ensures
            r == self@.items.len(),
    {
        self.items.len()
    }

    /// Returns true if the feed has no items
    pub fn is_empty(&self) -> (r: bool)
        ensures
            r == (self@.items.len() == 0),
    {
        self.items.len() == 0
    }

    /// Adds an item to the feed
    pub fn add_item(&mut self, item: FeedItem)
        ensures
            final(self)@ == (FeedView { items: old(self)@.items.push(item@), ..old(self)@ }),
    {
        self.items.push(item);
        proof {
            assert(item_views(self.items@) =~= item_views(old(self).items@).push(item@));
        }
    }

    /// Sorts items by publication date (newest first); items without a date
    /// go first, and items that compare equal keep their order.
    pub fn sort_by_date(&mut self)
        ensures
            final(self)@ == (FeedView { items: newest_first(old(self)@.items), ..old(self)@ }),
    {
        let ghost orig = self@.items;
        let mut sorted: Vec<FeedItem> = Vec::new();
        let mut rest: Vec<FeedItem> = Vec::new();
        std::mem::swap(&mut rest, &mut self.items);
        let ghost mut i: int = 0;
        while rest.len() > 0
            invariant
                0 <= i <= orig.len(),
                item_views(rest@) == orig.subrange(i, orig.len() as int),
                item_views(sorted@) == newest_first(orig.subrange(0, i)),
            decreases rest.len(),
        {
            proof {
                assert(item_views(rest@).len() == rest@.len());
                assert(i < orig.len());
                assert(orig.subrange(i, orig.len() as int)[0] == orig[i]);
                assert(item_views(rest@)[0] == rest@[0]@);
            }
            let ghost before = rest@;
            let x = rest.remove(0);
            proof {
                assert(rest@ =~= before.subrange(1, before.len() as int));
                assert(item_views(rest@) =~= item_views(before).subrange(1, before.len() as int));
            }
            let ghost done = item_views(sorted@);
            proof {
                assert(done.subrange(0, sorted@.len() as int) =~= done);
            }
            // find where `x` goes, scanning from the back
            let mut k: usize = sorted.len();
            while k > 0 && item_sorts_before(&x, &sorted[k - 1])
                invariant
                    k <= sorted.len(),
                    done == item_views(sorted@),
                    insertion_index(done, x@) == insertion_index(done.subrange(0, k as int), x@),
                decreases k,
            {
                proof {
                    assert(done.subrange(0, k as int).drop_last() =~= done.subrange(0, k - 1));
                }
                k = k - 1;
            }
            proof {
                lemma_insertion_index_bounds(done, x@);
                assert(done.subrange(0, k as int) =~= done.subrange(0, k as int));
                if k as int == done.len() {
                    assert(done.subrange(0, k as int) =~= done);
                }
            }
            sorted.insert(k, x);
            proof {
                assert(orig.subrange(0, i + 1).drop_last() =~= orig.subrange(0, i));
                assert(orig.subrange(0, i + 1).last() == orig[i]);
                assert(item_views(sorted@) =~= done.insert(k as int, orig[i]));
                assert(item_views(rest@) =~= orig.subrange(i + 1, orig.len() as int));
                i = i + 1;
            }
        }
        proof {
            assert(orig.subrange(0, i) =~= orig);
        }
        self.items = sorted;
    }

    /// Filters items to only those with audio enclosures
    pub fn audio_items(&self) -> (r: Vec<&FeedItem>)
        ensures
            r@.map_values(|i: &FeedItem| i@) == self@.items.filter(|i: FeedItemView| item_has_audio(i)),
    {
        let mut r: Vec<&FeedItem> = Vec::new();
        let mut i: usize = 0;
        while i < self.items.len()
            invariant
                i <= self.items.len(),
                r@.map_values(|x: &FeedItem| x@) == item_views(self.items@.subrange(0, i as int)).filter(
                    |x: FeedItemView| item_has_audio(x),
                ),
            decreases self.items.len() - i,
        {
            let item = &self.items[i];
            let ghost prev = item_views(self.items@.subrange(0, i as int));
            proof {
                assert(item_views(self.items@.subrange(0, i + 1)) =~= prev.push(item@));
                assert(item_views(self.items@.subrange(0, i + 1)).drop_last() =~= prev);
                reveal_with_fuel(Seq::<_>::filter, 1);
            }
            if item.has_audio() {
                r.push(item);
            }
            proof {
                assert(r@.map_values(|x: &FeedItem| x@) =~= item_views(
                    self.items@.subrange(0, i + 1),
                ).filter(|x: FeedItemView| item_has_audio(x)));
            }
            i = i + 1;
        }
        proof {
            assert(self.items@.subrange(0, self.items@.len() as int) =~= self.items@);
        }
        r
    }
}

/// `x` sorts strictly before `y` in the newest-first order.
pub fn item_sorts_before(x: &FeedItem, y: &FeedItem) -> (r: bool)
    ensures
        r == sorts_before(x@, y@),
{
    match (&x.published, &y.published) {
        (Some(dx), Some(dy)) => timestamp_is_before(*dy, *dx),
        (None, Some(_)) => true,
        _ => false,
    }
}

} // verus!
