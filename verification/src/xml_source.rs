//! The stream of XML events that quick-xml reads from a document, as plain
//! values the feed parser can work on.

use vstd::prelude::*;
use quick_xml::events::{BytesStart, Event};
use quick_xml::Reader;

verus! {

#[verifier::external_type_specification]
#[verifier::external_body]
#[verifier::reject_recursive_types(R)]
pub struct ExXmlReader<R>(Reader<R>);

#[verifier::external_type_specification]
#[verifier::external_body]
pub struct ExBytesStart<'a>(BytesStart<'a>);

/// One attribute of an element: its name and its raw value.
#[derive(Debug, Clone)]
pub struct XmlAttribute {
    pub key: String,
    pub value: String,
}

/// A start or empty-element tag: its name and its attributes, in order;
/// `None` stands for an attribute that quick-xml could not read.
#[derive(Debug, Clone)]
pub struct XmlElement {
    pub name: String,
    pub attributes: Vec<Option<XmlAttribute>>,
}

/// An XML event, with names and values decoded to text.
#[derive(Debug, Clone)]
pub enum XmlEvent {
    /// `<name ...>`
    Start(XmlElement),
    /// `<name .../>`
    Empty(XmlElement),
    /// `</name>`
    End(String),
    /// Character data with entities resolved; `None` when an entity could not be resolved.
    Text(Option<String>),
    /// The end of the document.
    Eof,
    /// A syntax error, with its message.
    Error(String),
    /// Any other event (CDATA, comments, declarations, processing instructions, doctype).
    Other,
}

pub struct XmlElementView {
    pub name: Seq<char>,
    pub attributes: Seq<Option<(Seq<char>, Seq<char>)>>,
}

pub open spec fn attribute_view(a: Option<XmlAttribute>) -> Option<(Seq<char>, Seq<char>)> {
    match a {
        Some(x) => Some((x.key@, x.value@)),
        None => None,
    }
}

pub enum XmlEventView {
    Start(XmlElementView),
    Empty(XmlElementView),
    End(Seq<char>),
    Text(Option<Seq<char>>),
    Eof,
    Error(Seq<char>),
    Other,
}

impl View for XmlElement {
    type V = XmlElementView;

    open spec fn view(&self) -> XmlElementView {
        XmlElementView {
            name: self.name@,
            attributes: self.attributes@.map_values(|a: Option<XmlAttribute>| attribute_view(a)),
        }
    }
}

impl View for XmlEvent {
    type V = XmlEventView;

    open spec fn view(&self) -> XmlEventView {
        match self {
            XmlEvent::Start(e) => XmlEventView::Start(e@),
            XmlEvent::Empty(e) => XmlEventView::Empty(e@),
            XmlEvent::End(n) => XmlEventView::End(n@),
            XmlEvent::Text(t) => XmlEventView::Text(
                match t {
                    Some(s) => Some(s@),
                    None => None,
                },
            ),
            XmlEvent::Eof => XmlEventView::Eof,
            XmlEvent::Error(m) => XmlEventView::Error(m@),
            XmlEvent::Other => XmlEventView::Other,
        }
    }
}

/// The event that quick-xml's `Reader::read_event` returns on its
/// `index`-th call (counting from 0) on a reader made by `Reader::from_str`
/// over `content`.
pub uninterp spec fn xml_event_at(content: Seq<char>, index: int) -> XmlEventView;

/// `Reader::from_str`: a reader over the bytes of `content`, before its first event.
#[verifier::external_body]
fn open_reader<'a>(content: &'a str) -> Reader<&'a [u8]> {
    Reader::from_str(content)
}

/// The name and the attributes of a tag, decoded lossily from UTF-8; an
/// attribute that `Attributes` yields as an error becomes `None`.
#[verifier::external_body]
fn element_of(tag: &BytesStart) -> XmlElement {
    XmlElement {
        name: String::from_utf8_lossy(tag.name().as_ref()).into_owned(),
        attributes: tag.attributes().map(|a| a.ok().map(|a| XmlAttribute {
            key: String::from_utf8_lossy(a.key.as_ref()).into_owned(),
            value: String::from_utf8_lossy(&a.value).into_owned(),
        })).collect(),
    }
}

/// A reader over one document that counts the events it has handed out.
pub struct XmlEventSource<'a> {
    reader: Reader<&'a [u8]>,
    text: Ghost<Seq<char>>,
    consumed: Ghost<nat>,
}

impl<'a> XmlEventSource<'a> {
    /// The document this source reads.
    pub closed spec fn document(&self) -> Seq<char> {
        self.text@
    }

    /// How many events this source has handed out.
    pub closed spec fn consumed(&self) -> nat {
        self.consumed@
    }

    pub fn new(content: &'a str) -> (r: Self)
        ensures
            r.document() == content@,
            r.consumed() == 0,
    {
        XmlEventSource { reader: open_reader(content), text: Ghost(content@), consumed: Ghost(0) }
    }

    /// `Reader::read_event`: the next event of the document. The reader was
    /// made over `document()` and has returned `consumed()` events before.
    #[verifier::external_body]
    pub fn next_event(&mut self) -> (e: XmlEvent)
        ensures
            e@ == xml_event_at(old(self).document(), old(self).consumed() as int),
            final(self).document() == old(self).document(),
            final(self).consumed() == old(self).consumed() + 1,
    {
        match self.reader.read_event() {
            Ok(Event::Start(tag)) => XmlEvent::Start(element_of(&tag)),
            Ok(Event::Empty(tag)) => XmlEvent::Empty(element_of(&tag)),
            Ok(Event::End(tag)) => XmlEvent::End(String::from_utf8_lossy(tag.name().as_ref()).into_owned()),
            Ok(Event::Text(t)) => XmlEvent::Text(t.unescape().ok().map(|u| u.into_owned())),
            Ok(Event::Eof) => XmlEvent::Eof,
            Ok(_) => XmlEvent::Other,
            Err(err) => XmlEvent::Error(err.to_string()),
        }
    }
}

/// The end of a document's event stream: its end or an error.
pub open spec fn is_terminal(e: XmlEventView) -> bool {
    e is Eof || e is Error
}

/// The events of `content` from the `start`-th on, up to and including the
/// first end or error, reading at most `fuel` of them.
pub open spec fn events_from(content: Seq<char>, start: int, fuel: nat) -> Seq<XmlEventView>
    decreases fuel,
{
    if fuel == 0 {
        Seq::empty()
    } else {
        let e = xml_event_at(content, start);
        if is_terminal(e) {
            seq![e]
        } else {
            seq![e] + events_from(content, start + 1, (fuel - 1) as nat)
        }
    }
}

/// How many events a document of `n` characters can have before its end:
/// every event but the last consumes at least one byte, and a character takes
/// at most four.
pub open spec fn event_budget(n: nat) -> nat {
    4 * n + 2
}

/// The events of a whole document, up to and including its end or first error.
pub open spec fn document_events(content: Seq<char>) -> Seq<XmlEventView> {
    events_from(content, 0, event_budget(content.len()))
}

proof fn lemma_events_from_step(content: Seq<char>, start: int, fuel: nat)
    requires
        fuel > 0,
        !is_terminal(xml_event_at(content, start)),
    ensures
        events_from(content, start, fuel) == seq![xml_event_at(content, start)] + events_from(
            content,
            start + 1,
            (fuel - 1) as nat,
        ),
{
}

/// Reads the events of `content` until its end or its first error.
pub fn read_events(content: &str) -> (r: Vec<XmlEvent>)
    ensures
        r@.map_values(|e: XmlEvent| e@) == document_events(content@),
{
    let n = content.unicode_len();
    let budget: u128 = 4 * (n as u128) + 2;
    let mut source = XmlEventSource::new(content);
    let mut out: Vec<XmlEvent> = Vec::new();
    let mut used: u128 = 0;
    while used < budget
        invariant
            used <= budget,
            budget == event_budget(content@.len()),
            source.document() == content@,
            source.consumed() == used,
            out@.map_values(|e: XmlEvent| e@) + events_from(
                content@,
                used as int,
                (budget - used) as nat,
            ) == document_events(content@),
        decreases budget - used,
    {
        let ghost prev = out@.map_values(|e: XmlEvent| e@);
        let e = source.next_event();
        let terminal = match &e {
            XmlEvent::Eof => true,
            XmlEvent::Error(_) => true,
            _ => false,
        };
        let ghost ev = e@;
        out.push(e);
        proof {
            assert(out@.map_values(|x: XmlEvent| x@) =~= prev.push(ev));
        }
        if terminal {
            proof {
                assert(events_from(content@, used as int, (budget - used) as nat) == seq![ev]);
                assert(prev.push(ev) =~= prev + seq![ev]);
            }
            return out;
        }
        proof {
            lemma_events_from_step(content@, used as int, (budget - used) as nat);
            assert(prev.push(ev) + events_from(content@, used + 1, (budget - used - 1) as nat)
                =~= prev + (seq![ev] + events_from(content@, used + 1, (budget - used - 1) as nat)));
        }
        used = used + 1;
    }
    proof {
        assert(events_from(content@, used as int, 0) =~= Seq::<XmlEventView>::empty());
        assert(out@.map_values(|x: XmlEvent| x@) + Seq::<XmlEventView>::empty() =~= out@.map_values(
            |x: XmlEvent| x@,
        ));
    }
    out
}

} // verus!
