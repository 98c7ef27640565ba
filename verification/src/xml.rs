//! The boundary to the XML tokenizer.
//!
//! A feed is read as a forward scan of events. The tokenizer itself is the
//! `quick_xml` crate; this module holds the few calls into it, each behind a
//! function whose contract is taken on trust, and the plain values that the
//! rest of the library works on.

use vstd::prelude::*;
use vstd::string::StringSliceAdditionalSpecFns;

verus! {

/// One `key="value"` pair of a start tag. Both parts are the raw bytes of the
/// document: the value is still escaped.
#[derive(Debug)]
pub struct XmlAttribute {
    pub key: Vec<u8>,
    pub value: Vec<u8>,
}

/// One event of the forward scan over a document.
#[derive(Debug)]
pub enum XmlEvent {
    /// A start tag. `name` is the tag's name and `raw` the whole content of
    /// the tag, name and attributes, as it stands in the document. A
    /// self-closing tag is reported as a start tag followed by an end tag.
    Start { name: Vec<u8>, raw: Vec<u8> },
    /// An end tag with its name.
    End { name: Vec<u8> },
    /// Character data or a CDATA section, in escaped form.
    Text { escaped: Vec<u8> },
    /// Anything else: a comment, a declaration, a processing instruction, a
    /// doctype, or a place where the tokenizer found the document malformed.
    Other,
    /// The end of the document.
    Eof,
}

/// What an [`XmlEvent`] holds, as mathematical values.
pub enum XmlEventView {
    Start { name: Seq<u8>, raw: Seq<u8> },
    End { name: Seq<u8> },
    Text { escaped: Seq<u8> },
    Other,
    Eof,
}

impl View for XmlEvent {
    type V = XmlEventView;

    open spec fn view(&self) -> XmlEventView {
        match *self {
            XmlEvent::Start { name, raw } => XmlEventView::Start { name: name@, raw: raw@ },
            XmlEvent::End { name } => XmlEventView::End { name: name@ },
            XmlEvent::Text { escaped } => XmlEventView::Text { escaped: escaped@ },
            XmlEvent::Other => XmlEventView::Other,
            XmlEvent::Eof => XmlEventView::Eof,
        }
    }
}

/// A tokenizer positioned somewhere in a document.
///
/// Trusted: the struct hides a `quick_xml::Reader` over the document's bytes.
/// Nothing is known of it but what [`pending_events`] names.
#[verifier::external_body]
pub struct FeedReader<'a> {
    inner: quick_xml::Reader<&'a [u8]>,
}

/// The events that `reader` has yet to hand out, in order, up to but not
/// including the end of the document.
///
/// The sequence is finite: every read either consumes input or is the last
/// one. After a malformed construct the tokenizer reports it once and then
/// the end of the document.
pub uninterp spec fn pending_events(reader: FeedReader) -> Seq<XmlEventView>;

/// The events of the document `data`, read with surrounding whitespace
/// trimmed from text and with self-closing tags expanded.
pub uninterp spec fn document_events(data: Seq<char>) -> Seq<XmlEventView>;

/// The attributes of the start tag with content `raw`, whose name is the
/// first `name_len` bytes, in document order. An entry is `None` where the
/// tag is malformed; nothing follows such an entry.
pub uninterp spec fn tag_attributes(raw: Seq<u8>, name_len: nat) -> Seq<Option<XmlAttribute>>;

/// The bytes that `escaped` stands for once its character and entity
/// references are replaced, or `None` if one of them is malformed or unknown.
pub uninterp spec fn xml_unescaped(escaped: Seq<u8>) -> Option<Seq<u8>>;

/// The text that `bytes` decodes to as UTF-8, with each malformed sequence
/// replaced by U+FFFD.
pub uninterp spec fn utf8_lossy(bytes: Seq<u8>) -> Seq<char>;

/// What is left of `events` once its first event has been read.
pub open spec fn rest_of(events: Seq<XmlEventView>) -> Seq<XmlEventView> {
    if events.len() == 0 {
        events
    } else {
        events.subrange(1, events.len() as int)
    }
}

/// The text of a piece of escaped character data: unescaped where that
/// succeeds, taken as it stands where it does not, and decoded leniently
/// either way.
pub open spec fn text_content(escaped: Seq<u8>) -> Seq<char> {
    match xml_unescaped(escaped) {
        Some(bytes) => utf8_lossy(bytes),
        None => utf8_lossy(escaped),
    }
}

/// The escaped value of the last well-formed attribute of `attributes` whose
/// key is `key`, if there is one.
pub open spec fn last_attribute(attributes: Seq<Option<XmlAttribute>>, key: Seq<u8>) -> Option<
    Seq<u8>,
>
    decreases attributes.len(),
{
    if attributes.len() == 0 {
        None
    } else {
        match attributes.last() {
            Some(attribute) if attribute.key@ == key => Some(attribute.value@),
            _ => last_attribute(attributes.drop_last(), key),
        }
    }
}

/// Something that hands out the events of a document one by one.
pub trait EventSource {
    /// The events yet to come, up to but not including the end of the
    /// document.
    spec fn pending(&self) -> Seq<XmlEventView>;

    /// Hands out the next event, or [`XmlEvent::Eof`] when none is left.
    fn next_event(&mut self) -> (event: XmlEvent)
        ensures
            event is Eof <==> old(self).pending().len() == 0,
            !(event is Eof) ==> event@ == old(self).pending()[0],
            final(self).pending() == rest_of(old(self).pending()),
    ;
}

impl<'a> FeedReader<'a> {
    /// Starts a scan of `data`.
    ///
    /// Trusted: calls `quick_xml::Reader::from_str`, then `trim_text(true)`
    /// and `expand_empty_elements(true)` on the new reader. The contract only
    /// gives the events of such a scan their name.
    #[verifier::external_body]
    pub(crate) fn open(data: &'a str) -> (reader: FeedReader<'a>)
        ensures
            pending_events(reader) == document_events(data@),
    {
        let mut inner = quick_xml::Reader::from_str(data);
        inner.trim_text(true).expand_empty_elements(true);
        FeedReader { inner }
    }

    /// Reads the next event.
    ///
    /// Trusted: calls `quick_xml::Reader::read_event` with a fresh buffer and
    /// copies what the event borrows. The contract claims that the call
    /// hands out the first pending event and leaves the others pending, and
    /// that it reports the end of the document exactly when nothing is
    /// pending. An error of the tokenizer is reported as
    /// [`XmlEvent::Other`]; the tokenizer then stops, so the end of the
    /// document follows.
    #[verifier::external_body]
    pub(crate) fn read(&mut self) -> (event: XmlEvent)
        ensures
            event is Eof <==> pending_events(*old(self)).len() == 0,
            !(event is Eof) ==> event@ == pending_events(*old(self))[0],
            pending_events(*final(self)) == rest_of(pending_events(*old(self))),
    {
        let mut buf = Vec::new();
        match self.inner.read_event(&mut buf) {
            Ok(quick_xml::events::Event::Start(e)) => XmlEvent::Start {
                name: e.name().to_vec(),
                raw: e.to_vec(),
            },
            Ok(quick_xml::events::Event::End(e)) => XmlEvent::End { name: e.name().to_vec() },
            Ok(quick_xml::events::Event::Text(e)) => XmlEvent::Text { escaped: e.escaped().to_vec() },
            Ok(quick_xml::events::Event::CData(e)) => XmlEvent::Text { escaped: e.escaped().to_vec() },
            Ok(quick_xml::events::Event::Eof) => XmlEvent::Eof,
            _ => XmlEvent::Other,
        }
    }
}

impl<'a> EventSource for FeedReader<'a> {
    open spec fn pending(&self) -> Seq<XmlEventView> {
        pending_events(*self)
    }

    fn next_event(&mut self) -> (event: XmlEvent) {
        self.read()
    }
}

/// The views of the events of `events` that come before the first
/// [`XmlEvent::Eof`] among them.
pub open spec fn until_eof(events: Seq<XmlEvent>) -> Seq<XmlEventView>
    decreases events.len(),
{
    if events.len() == 0 || events[0] is Eof {
        Seq::empty()
    } else {
        seq![events[0]@] + until_eof(events.subrange(1, events.len() as int))
    }
}

/// A list of events held in memory, handed out from `position` on. It ends
/// at its first [`XmlEvent::Eof`], or where the list ends.
#[derive(Debug)]
pub struct EventList {
    pub events: Vec<XmlEvent>,
    pub position: usize,
}

impl EventList {
    /// A source that hands out `events` from the first one on.
    pub fn new(events: Vec<XmlEvent>) -> (list: EventList)
        ensures
            list.events == events,
            list.position == 0,
            list.pending() == until_eof(events@),
    {
        assert(events@.subrange(0, events@.len() as int) =~= events@);
        EventList { events, position: 0 }
    }
}

impl EventSource for EventList {
    open spec fn pending(&self) -> Seq<XmlEventView> {
        if self.position <= self.events.len() {
            until_eof(self.events@.subrange(self.position as int, self.events.len() as int))
        } else {
            Seq::empty()
        }
    }

    fn next_event(&mut self) -> (event: XmlEvent) {
        if self.position >= self.events.len() {
            return XmlEvent::Eof;
        }
        let ghost tail = self.events@.subrange(self.position as int, self.events.len() as int);
        assert(tail[0] == self.events@[self.position as int]);
        assert(tail.subrange(1, tail.len() as int) =~= self.events@.subrange(
            self.position + 1,
            self.events.len() as int,
        ));
        let event = copy_event(&self.events[self.position]);
        match event {
            XmlEvent::Eof => {},
            _ => {
                self.position = self.position + 1;
                assert(rest_of(seq![event@] + until_eof(tail.subrange(1, tail.len() as int)))
                    =~= until_eof(tail.subrange(1, tail.len() as int)));
            },
        }
        event
    }
}

/// A copy of `bytes`.
pub fn copy_bytes(bytes: &Vec<u8>) -> (copy: Vec<u8>)
    ensures
        copy@ == bytes@,
{
    let mut copy: Vec<u8> = Vec::new();
    let mut i: usize = 0;
    while i < bytes.len()
        invariant
            i <= bytes.len(),
            copy@ == bytes@.subrange(0, i as int),
        decreases bytes.len() - i,
    {
        copy.push(bytes[i]);
        i = i + 1;
        assert(copy@ =~= bytes@.subrange(0, i as int));
    }
    assert(bytes@.subrange(0, i as int) =~= bytes@);
    copy
}

/// A copy of `event`.
pub fn copy_event(event: &XmlEvent) -> (copy: XmlEvent)
    ensures
        copy@ == event@,
{
    match event {
        XmlEvent::Start { name, raw } => XmlEvent::Start {
            name: copy_bytes(name),
            raw: copy_bytes(raw),
        },
        XmlEvent::End { name } => XmlEvent::End { name: copy_bytes(name) },
        XmlEvent::Text { escaped } => XmlEvent::Text { escaped: copy_bytes(escaped) },
        XmlEvent::Other => XmlEvent::Other,
        XmlEvent::Eof => XmlEvent::Eof,
    }
}

/// The attributes of a start tag.
///
/// Trusted: builds a `quick_xml::events::BytesStart` over `raw` and walks
/// its `attributes()` with the duplicate check switched off, as
/// `with_checks(false)` does. Each item is copied as it comes; an error of
/// the iterator becomes `None`. The contract only gives the result its name.
#[verifier::external_body]
pub(crate) fn read_attributes(raw: &Vec<u8>, name_len: usize) -> (attributes: Vec<
    Option<XmlAttribute>,
>)
    ensures
        attributes@ == tag_attributes(raw@, name_len as nat),
{
    quick_xml::events::BytesStart::borrowed(raw, name_len)
        .attributes()
        .with_checks(false)
        .map(|item| item.ok().map(|a| XmlAttribute { key: a.key.to_vec(), value: a.value.to_vec() }))
        .collect()
}

/// Replaces the character and entity references of `escaped`.
///
/// Trusted: calls `quick_xml::escape::unescape`; its error becomes `None`.
/// The contract only gives the result its name.
#[verifier::external_body]
pub(crate) fn unescape(escaped: &Vec<u8>) -> (bytes: Option<Vec<u8>>)
    ensures
        match bytes {
            Some(b) => xml_unescaped(escaped@) == Some(b@),
            None => xml_unescaped(escaped@) is None,
        },
{
    match quick_xml::escape::unescape(escaped) {
        Ok(bytes) => Some(bytes.into_owned()),
        Err(_) => None,
    }
}

/// Decodes `bytes` as UTF-8, leniently.
///
/// Trusted: calls `String::from_utf8_lossy`. Its documentation promises the
/// text of `bytes` where they are valid UTF-8; what it gives otherwise is
/// only named.
#[verifier::external_body]
pub(crate) fn decode_lossy(bytes: &Vec<u8>) -> (text: String)
    ensures
        text@ == utf8_lossy(bytes@),
        vstd::utf8::valid_utf8(bytes@) ==> text@ == vstd::utf8::decode_utf8(bytes@),
{
    String::from_utf8_lossy(bytes).into_owned()
}

/// Reads `bytes` as UTF-8 text, strictly.
///
/// Trusted: calls `std::str::from_utf8`, which by its documentation gives
/// the text of `bytes` exactly when they are valid UTF-8.
#[verifier::external_body]
pub(crate) fn utf8_text(bytes: &Vec<u8>) -> (text: Option<&str>)
    ensures
        text is Some <==> vstd::utf8::valid_utf8(bytes@),
        text matches Some(t) ==> t@ == vstd::utf8::decode_utf8(bytes@),
{
    match std::str::from_utf8(bytes) {
        Ok(text) => Some(text),
        Err(_) => None,
    }
}

/// Whether `name` is the tag name `tag`, byte for byte.
pub fn name_is(name: &Vec<u8>, tag: &str) -> (same: bool)
    ensures
        same == (name@ == tag.spec_bytes()),
{
    let expected = tag.as_bytes();
    if name.len() != expected.len() {
        return false;
    }
    let mut i: usize = 0;
    while i < name.len()
        invariant
            i <= name.len(),
            name.len() == expected.len(),
            expected@ == tag.spec_bytes(),
            forall|j: int| 0 <= j < i ==> name@[j] == expected@[j],
        decreases name.len() - i,
    {
        if name[i] != expected[i] {
            return false;
        }
        i = i + 1;
    }
    assert(name@ =~= expected@);
    true
}

/// The text of a piece of escaped character data, as tolerant of broken
/// escapes as can be: where the data cannot be unescaped it is decoded as it
/// stands.
pub fn safe_unescape_and_decode(escaped: &Vec<u8>) -> (text: String)
    ensures
        text@ == text_content(escaped@),
{
    match unescape(escaped) {
        Some(bytes) => decode_lossy(&bytes),
        None => decode_lossy(escaped),
    }
}

/// The text of the last well-formed attribute with key `key`, if there is
/// one.
pub fn attribute_text(attributes: &Vec<Option<XmlAttribute>>, key: &str) -> (text: Option<String>)
    ensures
        match last_attribute(attributes@, key.spec_bytes()) {
            Some(value) => text matches Some(t) && t@ == text_content(value),
            None => text is None,
        },
{
    let mut i: usize = attributes.len();
    assert(attributes@.subrange(0, i as int) =~= attributes@);
    while i > 0
        invariant
            i <= attributes.len(),
            last_attribute(attributes@, key.spec_bytes()) == last_attribute(
                attributes@.subrange(0, i as int),
                key.spec_bytes(),
            ),
        decreases i,
    {
        i = i - 1;
        let ghost prefix = attributes@.subrange(0, i + 1);
        assert(prefix.last() == attributes@[i as int]);
        assert(prefix.drop_last() =~= attributes@.subrange(0, i as int));
        match &attributes[i] {
            Some(attribute) => {
                if name_is(&attribute.key, key) {
                    return Some(safe_unescape_and_decode(&attribute.value));
                }
            },
            None => {},
        }
    }
    None
}

} // verus!
