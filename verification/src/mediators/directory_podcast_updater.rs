//! Ingesting one feed: from the bytes that were fetched to the rows to
//! write.

use vstd::prelude::*;
use vstd::string::StringSliceAdditionalSpecFns;
use crate::errors::Error;
use crate::model::insertable;
use crate::model::{text_of, DirectoryPodcast, Episode, Podcast};
use crate::xml::{
    attribute_text, last_attribute, name_is, read_attributes, rest_of,
    tag_attributes, text_content, document_events, utf8_text, EventSource, FeedReader, XmlAttribute,
    XmlEvent, XmlEventView,
};
use vstd::utf8::{decode_utf8, valid_utf8};

pub use crate::xml::safe_unescape_and_decode;

verus! {

/// An item of a feed as it was read, every field still optional and the
/// publishing date still text.
#[derive(Debug)]
pub struct EpisodeRaw {
    pub description: Option<String>,
    pub explicit: Option<bool>,
    pub guid: Option<String>,
    pub link_url: Option<String>,
    pub media_type: Option<String>,
    pub media_url: Option<String>,
    pub published_at: Option<String>,
    pub title: Option<String>,
}

/// What an [`EpisodeRaw`] holds, as mathematical values.
pub struct EpisodeRawView {
    pub description: Option<Seq<char>>,
    pub explicit: Option<bool>,
    pub guid: Option<Seq<char>>,
    pub link_url: Option<Seq<char>>,
    pub media_type: Option<Seq<char>>,
    pub media_url: Option<Seq<char>>,
    pub published_at: Option<Seq<char>>,
    pub title: Option<Seq<char>>,
}

impl View for EpisodeRaw {
    type V = EpisodeRawView;

    open spec fn view(&self) -> EpisodeRawView {
        EpisodeRawView {
            description: text_of(self.description),
            explicit: self.explicit,
            guid: text_of(self.guid),
            link_url: text_of(self.link_url),
            media_type: text_of(self.media_type),
            media_url: text_of(self.media_url),
            published_at: text_of(self.published_at),
            title: text_of(self.title),
        }
    }
}

impl EpisodeRawView {
    /// An item of which nothing has been read yet.
    pub open spec fn empty() -> EpisodeRawView {
        EpisodeRawView {
            description: None,
            explicit: None,
            guid: None,
            link_url: None,
            media_type: None,
            media_url: None,
            published_at: None,
            title: None,
        }
    }
}

impl EpisodeRaw {
    /// An item of which nothing has been read yet.
    pub fn new() -> (episode: EpisodeRaw)
        ensures
            episode@ == EpisodeRawView::empty(),
    {
        EpisodeRaw {
            description: None,
            explicit: None,
            media_type: None,
            media_url: None,
            guid: None,
            link_url: None,
            published_at: None,
            title: None,
        }
    }
}

/// The channel of a feed as it was read, every field still optional.
#[derive(Debug)]
pub struct PodcastRaw {
    pub image_url: Option<String>,
    pub language: Option<String>,
    pub link_url: Option<String>,
    pub title: Option<String>,
}

/// What a [`PodcastRaw`] holds, as mathematical values.
pub struct PodcastRawView {
    pub image_url: Option<Seq<char>>,
    pub language: Option<Seq<char>>,
    pub link_url: Option<Seq<char>>,
    pub title: Option<Seq<char>>,
}

impl View for PodcastRaw {
    type V = PodcastRawView;

    open spec fn view(&self) -> PodcastRawView {
        PodcastRawView {
            image_url: text_of(self.image_url),
            language: text_of(self.language),
            link_url: text_of(self.link_url),
            title: text_of(self.title),
        }
    }
}

impl PodcastRawView {
    /// A channel of which nothing has been read yet.
    pub open spec fn empty() -> PodcastRawView {
        PodcastRawView { image_url: None, language: None, link_url: None, title: None }
    }
}

impl PodcastRaw {
    /// A channel of which nothing has been read yet.
    pub fn new() -> (podcast: PodcastRaw)
        ensures
            podcast@ == PodcastRawView::empty(),
    {
        PodcastRaw { image_url: None, language: None, link_url: None, title: None }
    }
}

/// The views of a list of items, in order.
pub open spec fn episode_views(episodes: Seq<EpisodeRaw>) -> Seq<EpisodeRawView> {
    episodes.map_values(|e: EpisodeRaw| e@)
}

/// What a start tag inside an item means to the parser.
#[derive(Clone, Copy, Debug, PartialEq, Eq, Structural)]
pub enum ItemField {
    Description,
    Explicit,
    Guid,
    Link,
    /// `enclosure` or `media:content`: the media file, given by attributes.
    Media,
    PubDate,
    Title,
    /// A tag that the parser passes over.
    Unknown,
}

/// What a start tag inside the channel means to the parser.
#[derive(Clone, Copy, Debug, PartialEq, Eq, Structural)]
pub enum ChannelField {
    Item,
    Language,
    Link,
    /// `media:thumbnail`: the image, given by an attribute.
    Thumbnail,
    Title,
    /// A tag that the parser passes over.
    Unknown,
}

/// The meaning of the tag name `name` inside an item.
pub open spec fn item_field_of(name: Seq<u8>) -> ItemField {
    if name == "description".spec_bytes() {
        ItemField::Description
    } else if name == "enclosure".spec_bytes() || name == "media:content".spec_bytes() {
        ItemField::Media
    } else if name == "guid".spec_bytes() {
        ItemField::Guid
    } else if name == "itunes:explicit".spec_bytes() {
        ItemField::Explicit
    } else if name == "link".spec_bytes() {
        ItemField::Link
    } else if name == "pubDate".spec_bytes() {
        ItemField::PubDate
    } else if name == "title".spec_bytes() {
        ItemField::Title
    } else {
        ItemField::Unknown
    }
}

/// The meaning of the tag name `name` inside the channel.
pub open spec fn channel_field_of(name: Seq<u8>) -> ChannelField {
    if name == "item".spec_bytes() {
        ChannelField::Item
    } else if name == "language".spec_bytes() {
        ChannelField::Language
    } else if name == "link".spec_bytes() {
        ChannelField::Link
    } else if name == "media:thumbnail".spec_bytes() {
        ChannelField::Thumbnail
    } else if name == "title".spec_bytes() {
        ChannelField::Title
    } else {
        ChannelField::Unknown
    }
}

/// The meaning of the tag name `name` inside an item.
pub fn item_field(name: &Vec<u8>) -> (field: ItemField)
    ensures
        field == item_field_of(name@),
{
    if name_is(name, "description") {
        ItemField::Description
    } else if name_is(name, "enclosure") || name_is(name, "media:content") {
        ItemField::Media
    } else if name_is(name, "guid") {
        ItemField::Guid
    } else if name_is(name, "itunes:explicit") {
        ItemField::Explicit
    } else if name_is(name, "link") {
        ItemField::Link
    } else if name_is(name, "pubDate") {
        ItemField::PubDate
    } else if name_is(name, "title") {
        ItemField::Title
    } else {
        ItemField::Unknown
    }
}

/// The meaning of the tag name `name` inside the channel.
pub fn channel_field(name: &Vec<u8>) -> (field: ChannelField)
    ensures
        field == channel_field_of(name@),
{
    if name_is(name, "item") {
        ChannelField::Item
    } else if name_is(name, "language") {
        ChannelField::Language
    } else if name_is(name, "link") {
        ChannelField::Link
    } else if name_is(name, "media:thumbnail") {
        ChannelField::Thumbnail
    } else if name_is(name, "title") {
        ChannelField::Title
    } else {
        ChannelField::Unknown
    }
}

/// The text of an element whose start tag has just been read: the content
/// of the event that follows, if that is character data, and nothing
/// otherwise.
pub open spec fn element_text_of(events: Seq<XmlEventView>) -> Option<Seq<char>> {
    if events.len() > 0 {
        match events[0] {
            XmlEventView::Text { escaped } => Some(text_content(escaped)),
            _ => None,
        }
    } else {
        None
    }
}

/// The explicit-content flag that the text of an `itunes:explicit` element
/// stands for: set for `yes`, cleared for any other text, absent without
/// text.
pub open spec fn explicit_flag(text: Option<Seq<char>>) -> Option<bool> {
    match text {
        Some(t) => Some(t == "yes"@),
        None => None,
    }
}

/// The item `episode` after the element `field` was read with text `text`.
/// The last element of a kind decides; one without text leaves the field
/// absent.
pub open spec fn item_with_text(
    episode: EpisodeRawView,
    field: ItemField,
    text: Option<Seq<char>>,
) -> EpisodeRawView {
    match field {
        ItemField::Description => EpisodeRawView { description: text, ..episode },
        ItemField::Explicit => EpisodeRawView { explicit: explicit_flag(text), ..episode },
        ItemField::Guid => EpisodeRawView { guid: text, ..episode },
        ItemField::Link => EpisodeRawView { link_url: text, ..episode },
        ItemField::PubDate => EpisodeRawView { published_at: text, ..episode },
        ItemField::Title => EpisodeRawView { title: text, ..episode },
        _ => episode,
    }
}

/// The text of the attribute `key` among `attributes` where the tag has
/// one, and `before` where it has not.
pub open spec fn attribute_or(
    attributes: Seq<Option<XmlAttribute>>,
    key: Seq<u8>,
    before: Option<Seq<char>>,
) -> Option<Seq<char>> {
    match last_attribute(attributes, key) {
        Some(value) => Some(text_content(value)),
        None => before,
    }
}

/// The item `episode` after a media tag with `attributes` was read.
pub open spec fn item_with_media(
    episode: EpisodeRawView,
    attributes: Seq<Option<XmlAttribute>>,
) -> EpisodeRawView {
    EpisodeRawView {
        media_type: attribute_or(attributes, "type".spec_bytes(), episode.media_type),
        media_url: attribute_or(attributes, "url".spec_bytes(), episode.media_url),
        ..episode
    }
}

/// Reading an item: which item results from `events`, read from just after
/// the item's start tag on and added to what `episode` holds, and which
/// events are left once the item's end tag, or the end of the document, has
/// been read.
pub open spec fn parse_item_events(events: Seq<XmlEventView>, episode: EpisodeRawView) -> (
    EpisodeRawView,
    Seq<XmlEventView>,
)
    decreases events.len(),
{
    if events.len() == 0 {
        (episode, events)
    } else {
        let rest = rest_of(events);
        match events[0] {
            XmlEventView::End { name } => if name == "item".spec_bytes() {
                (episode, rest)
            } else {
                parse_item_events(rest, episode)
            },
            XmlEventView::Start { name, raw } => match item_field_of(name) {
                ItemField::Media => parse_item_events(
                    rest,
                    item_with_media(episode, tag_attributes(raw, name.len())),
                ),
                ItemField::Unknown => parse_item_events(rest, episode),
                field => parse_item_events(
                    rest_of(rest),
                    item_with_text(episode, field, element_text_of(rest)),
                ),
            },
            _ => parse_item_events(rest, episode),
        }
    }
}

/// Reading an item leaves no more events than there were.
pub proof fn lemma_parse_item_rest(events: Seq<XmlEventView>, episode: EpisodeRawView)
    ensures
        parse_item_events(events, episode).1.len() <= events.len(),
    decreases events.len(),
{
    if events.len() != 0 {
        let rest = rest_of(events);
        match events[0] {
            XmlEventView::End { name } => {
                if name != "item".spec_bytes() {
                    lemma_parse_item_rest(rest, episode);
                }
            },
            XmlEventView::Start { name, raw } => match item_field_of(name) {
                ItemField::Media => lemma_parse_item_rest(
                    rest,
                    item_with_media(episode, tag_attributes(raw, name.len())),
                ),
                ItemField::Unknown => lemma_parse_item_rest(rest, episode),
                field => lemma_parse_item_rest(
                    rest_of(rest),
                    item_with_text(episode, field, element_text_of(rest)),
                ),
            },
            _ => lemma_parse_item_rest(rest, episode),
        }
    }
}

/// The channel `podcast` after the element `field` was read with text
/// `text`.
pub open spec fn channel_with_text(
    podcast: PodcastRawView,
    field: ChannelField,
    text: Option<Seq<char>>,
) -> PodcastRawView {
    match field {
        ChannelField::Language => PodcastRawView { language: text, ..podcast },
        ChannelField::Link => PodcastRawView { link_url: text, ..podcast },
        ChannelField::Title => PodcastRawView { title: text, ..podcast },
        _ => podcast,
    }
}

/// The channel `podcast` after a thumbnail tag with `attributes` was read.
pub open spec fn channel_with_thumbnail(
    podcast: PodcastRawView,
    attributes: Seq<Option<XmlAttribute>>,
) -> PodcastRawView {
    PodcastRawView {
        image_url: attribute_or(attributes, "url".spec_bytes(), podcast.image_url),
        ..podcast
    }
}

/// Reading the channel: the channel and the items, in document order, that
/// result from `events`, read from just after the channel's start tag to
/// the end of the document and added to `podcast` and `episodes`.
pub open spec fn parse_channel_events(
    events: Seq<XmlEventView>,
    podcast: PodcastRawView,
    episodes: Seq<EpisodeRawView>,
) -> (PodcastRawView, Seq<EpisodeRawView>)
    decreases events.len(),
{
    if events.len() == 0 {
        (podcast, episodes)
    } else {
        let rest = rest_of(events);
        match events[0] {
            XmlEventView::Start { name, raw } => match channel_field_of(name) {
                ChannelField::Item => {
                    let (episode, after) = parse_item_events(rest, EpisodeRawView::empty());
                    proof {
                        lemma_parse_item_rest(rest, EpisodeRawView::empty());
                    }
                    parse_channel_events(after, podcast, episodes.push(episode))
                },
                ChannelField::Thumbnail => parse_channel_events(
                    rest,
                    channel_with_thumbnail(podcast, tag_attributes(raw, name.len())),
                    episodes,
                ),
                ChannelField::Unknown => parse_channel_events(rest, podcast, episodes),
                field => parse_channel_events(
                    rest_of(rest),
                    channel_with_text(podcast, field, element_text_of(rest)),
                    episodes,
                ),
            },
            _ => parse_channel_events(rest, podcast, episodes),
        }
    }
}

/// Reading inside `rss`: what the first `channel` element among `events`
/// gives, or nothing if there is none.
pub open spec fn parse_rss_events(events: Seq<XmlEventView>) -> Option<
    (PodcastRawView, Seq<EpisodeRawView>),
>
    decreases events.len(),
{
    if events.len() == 0 {
        None
    } else {
        match events[0] {
            XmlEventView::Start { name, raw } if name == "channel".spec_bytes() => Some(
                parse_channel_events(rest_of(events), PodcastRawView::empty(), Seq::empty()),
            ),
            _ => parse_rss_events(rest_of(events)),
        }
    }
}

/// Reading a document: what the first `rss` element among `events` gives.
/// Without an `rss` element the document is rejected with
/// [`Error::NoRssTag`], without a `channel` element inside it with
/// [`Error::NoChannelTag`].
pub open spec fn parse_feed_events(events: Seq<XmlEventView>) -> Result<
    (PodcastRawView, Seq<EpisodeRawView>),
    Error,
>
    decreases events.len(),
{
    if events.len() == 0 {
        Err(Error::NoRssTag)
    } else {
        match events[0] {
            XmlEventView::Start { name, raw } if name == "rss".spec_bytes() => match parse_rss_events(
                rest_of(events),
            ) {
                Some(feed) => Ok(feed),
                None => Err(Error::NoChannelTag),
            },
            _ => parse_feed_events(rest_of(events)),
        }
    }
}

/// Whether `parsed` is what `expected` describes: the same channel and the
/// same items in the same order, or the same rejection.
pub open spec fn feed_matches(
    parsed: Result<(PodcastRaw, Vec<EpisodeRaw>), Error>,
    expected: Result<(PodcastRawView, Seq<EpisodeRawView>), Error>,
) -> bool {
    match (parsed, expected) {
        (Ok((podcast, episodes)), Ok((podcast_view, episode_seq))) => podcast@ == podcast_view
            && episode_views(episodes@) == episode_seq,
        (Err(e), Err(expected_error)) => e@ == expected_error@,
        _ => false,
    }
}

/// The text of the element whose start tag was just read. Reads one event.
pub fn element_text<S: EventSource>(source: &mut S) -> (text: Option<String>)
    ensures
        text_of(text) == element_text_of(old(source).pending()),
        final(source).pending() == rest_of(old(source).pending()),
{
    match source.next_event() {
        XmlEvent::Text { escaped } => Some(safe_unescape_and_decode(&escaped)),
        _ => None,
    }
}

/// Reads an item, from just after its start tag to its end tag or to the
/// end of the document, whichever comes first.
pub fn parse_item<S: EventSource>(source: &mut S) -> (episode: EpisodeRaw)
    ensures
        (episode@, final(source).pending()) == parse_item_events(
            old(source).pending(),
            EpisodeRawView::empty(),
        ),
{
    let mut episode = EpisodeRaw::new();
    loop
        invariant_except_break
            parse_item_events(source.pending(), episode@) == parse_item_events(
                old(source).pending(),
                EpisodeRawView::empty(),
            ),
        ensures
            (episode@, source.pending()) == parse_item_events(
                old(source).pending(),
                EpisodeRawView::empty(),
            ),
        decreases source.pending().len(),
    {
        match source.next_event() {
            XmlEvent::Start { name, raw } => {
                match item_field(&name) {
                    ItemField::Description => {
                        episode.description = element_text(source);
                    },
                    ItemField::Explicit => {
                        episode.explicit = match element_text(source) {
                            Some(text) => Some(text == "yes".to_owned()),
                            None => None,
                        };
                    },
                    ItemField::Guid => {
                        episode.guid = element_text(source);
                    },
                    ItemField::Link => {
                        episode.link_url = element_text(source);
                    },
                    ItemField::Media => {
                        let attributes = read_attributes(&raw, name.len());
                        match attribute_text(&attributes, "type") {
                            Some(text) => {
                                episode.media_type = Some(text);
                            },
                            None => {},
                        }
                        match attribute_text(&attributes, "url") {
                            Some(text) => {
                                episode.media_url = Some(text);
                            },
                            None => {},
                        }
                    },
                    ItemField::PubDate => {
                        episode.published_at = element_text(source);
                    },
                    ItemField::Title => {
                        episode.title = element_text(source);
                    },
                    ItemField::Unknown => {},
                }
            },
            XmlEvent::End { name } => {
                if name_is(&name, "item") {
                    break ;
                }
            },
            XmlEvent::Eof => {
                break ;
            },
            _ => {},
        }
    }
    episode
}

/// Reads the channel, from just after its start tag to the end of the
/// document. Items come out in document order.
pub fn parse_channel<S: EventSource>(source: &mut S) -> (feed: (PodcastRaw, Vec<EpisodeRaw>))
    ensures
        (feed.0@, episode_views(feed.1@)) == parse_channel_events(
            old(source).pending(),
            PodcastRawView::empty(),
            Seq::empty(),
        ),
        final(source).pending().len() == 0,
{
    let mut episodes: Vec<EpisodeRaw> = Vec::new();
    let mut podcast = PodcastRaw::new();
    assert(episode_views(episodes@) =~= Seq::empty());
    loop
        invariant_except_break
            parse_channel_events(source.pending(), podcast@, episode_views(episodes@))
                == parse_channel_events(
                old(source).pending(),
                PodcastRawView::empty(),
                Seq::empty(),
            ),
        ensures
            (podcast@, episode_views(episodes@)) == parse_channel_events(
                old(source).pending(),
                PodcastRawView::empty(),
                Seq::empty(),
            ),
            source.pending().len() == 0,
        decreases source.pending().len(),
    {
        match source.next_event() {
            XmlEvent::Start { name, raw } => {
                match channel_field(&name) {
                    ChannelField::Item => {
                        let ghost before = episode_views(episodes@);
                        proof {
                            lemma_parse_item_rest(source.pending(), EpisodeRawView::empty());
                        }
                        let episode = parse_item(source);
                        episodes.push(episode);
                        assert(episode_views(episodes@) =~= before.push(episode@));
                    },
                    ChannelField::Language => {
                        podcast.language = element_text(source);
                    },
                    ChannelField::Link => {
                        podcast.link_url = element_text(source);
                    },
                    ChannelField::Thumbnail => {
                        let attributes = read_attributes(&raw, name.len());
                        match attribute_text(&attributes, "url") {
                            Some(text) => {
                                podcast.image_url = Some(text);
                            },
                            None => {},
                        }
                    },
                    ChannelField::Title => {
                        podcast.title = element_text(source);
                    },
                    ChannelField::Unknown => {},
                }
            },
            XmlEvent::Eof => {
                break ;
            },
            _ => {},
        }
    }
    (podcast, episodes)
}

/// Reads on to the first `channel` element and then reads that. Without
/// one, the document is rejected.
pub fn parse_rss<S: EventSource>(source: &mut S) -> (feed: Result<
    (PodcastRaw, Vec<EpisodeRaw>),
    Error,
>)
    ensures
        feed_matches(
            feed,
            match parse_rss_events(old(source).pending()) {
                Some(expected) => Ok(expected),
                None => Err(Error::NoChannelTag),
            },
        ),
{
    loop
        invariant
            parse_rss_events(source.pending()) == parse_rss_events(old(source).pending()),
        decreases source.pending().len(),
    {
        match source.next_event() {
            XmlEvent::Start { name, raw } => {
                if name_is(&name, "channel") {
                    return Ok(parse_channel(source));
                }
            },
            XmlEvent::Eof => {
                return Err(Error::NoChannelTag);
            },
            _ => {},
        }
    }
}

/// Reads the events of a document on to the first `rss` element and then
/// reads that.
pub fn parse_events<S: EventSource>(source: &mut S) -> (feed: Result<
    (PodcastRaw, Vec<EpisodeRaw>),
    Error,
>)
    ensures
        feed_matches(feed, parse_feed_events(old(source).pending())),
{
    loop
        invariant
            parse_feed_events(source.pending()) == parse_feed_events(old(source).pending()),
        decreases source.pending().len(),
    {
        match source.next_event() {
            XmlEvent::Start { name, raw } => {
                if name_is(&name, "rss") {
                    return parse_rss(source);
                }
            },
            XmlEvent::Eof => {
                return Err(Error::NoRssTag);
            },
            _ => {},
        }
    }
}

/// Reads a feed: the channel, and the items in document order.
///
/// The scan runs once over the text, forwards. Unknown elements are passed
/// over, the last element of a kind decides, and an element without text
/// leaves its field absent. The only documents rejected are those without an
/// `rss` element or without a `channel` element inside it.
pub fn parse_feed(data: &str) -> (feed: Result<(PodcastRaw, Vec<EpisodeRaw>), Error>)
    ensures
        feed_matches(feed, parse_feed_events(document_events(data@))),
{
    let mut reader = FeedReader::open(data);
    parse_events(&mut reader)
}

/// The instant that `text` names when read strictly as an RFC 2822 date and
/// time, in whole seconds since the Unix epoch, or `None` if it cannot be
/// read so. Named time zones such as `EST` stand for their fixed offsets.
pub uninterp spec fn rfc2822_seconds(text: Seq<char>) -> Option<i64>;

/// `text` with the leftmost match of the regular expression `pattern`
/// replaced by `replacement`, in which `$name` stands for what the group
/// `name` matched; `text` itself where nothing matches; `None` where
/// `pattern` is not a regular expression.
pub uninterp spec fn regex_replaced(
    pattern: Seq<char>,
    text: Seq<char>,
    replacement: Seq<char>,
) -> Option<Seq<char>>;

/// The SHA-256 digest of `content`, in hexadecimal digits.
pub uninterp spec fn sha256_hex(content: Seq<u8>) -> Seq<char>;

/// Reads an RFC 2822 date and time.
///
/// Trusted: calls `chrono::DateTime::parse_from_rfc2822` and, where that
/// succeeds, `timestamp` on what it returns. The contract only gives the
/// result its name.
#[verifier::external_body]
fn rfc2822_timestamp(text: &str) -> (seconds: Option<i64>)
    ensures
        seconds == rfc2822_seconds(text@),
{
    match chrono::DateTime::parse_from_rfc2822(text) {
        Ok(date_time) => Some(date_time.timestamp()),
        Err(_) => None,
    }
}

/// Replaces the leftmost match of a regular expression.
///
/// Trusted: calls `regex::Regex::new` on `pattern` and, where that
/// succeeds, `replace` on the expression. The contract only gives the
/// result its name.
#[verifier::external_body]
fn replace_first(pattern: &str, text: &str, replacement: &str) -> (replaced: Option<String>)
    ensures
        text_of(replaced) == regex_replaced(pattern@, text@, replacement@),
{
    match regex::Regex::new(pattern) {
        Ok(expression) => Some(expression.replace(text, replacement).into_owned()),
        Err(_) => None,
    }
}

/// The fingerprint of a feed body.
///
/// Trusted: feeds `content` to a fresh `crypto::sha2::Sha256` and takes its
/// `result_str`. The contract only gives the result its name.
#[verifier::external_body]
pub(crate) fn content_hash(content: &Vec<u8>) -> (digest: String)
    ensures
        digest@ == sha256_hex(content@),
{
    let mut sha = crypto::sha2::Sha256::new();
    crypto::digest::Digest::input(&mut sha, content);
    crypto::digest::Digest::result_str(&mut sha)
}

/// A rule that rewrites a date that is not quite RFC 2822 into one that is:
/// the leftmost match of `find` is replaced by `replace`.
#[derive(Debug)]
pub struct DateTimeReplaceRule {
    pub find: &'static str,
    pub replace: &'static str,
}

/// The pattern of a time zone of `-0000` at the end of a date.
pub const ZONE_FIND: &'static str = "-0000$";

/// What stands in for a time zone of `-0000`.
pub const ZONE_REPLACE: &'static str = "+0000";

/// The pattern of an hour of a single digit, as in `9:42:00`.
pub const HOUR_FIND: &'static str = "\\b(?P<h>\\d):";

/// What stands in for an hour of a single digit: the same, after a zero.
pub const HOUR_REPLACE: &'static str = "0$h:";

/// `text` after one rule: rewritten where the rule's pattern is a regular
/// expression, unchanged where it is not.
pub open spec fn rule_applied(find: Seq<char>, replace: Seq<char>, text: Seq<char>) -> Seq<char> {
    match regex_replaced(find, text, replace) {
        Some(replaced) => replaced,
        None => text,
    }
}

/// `text` after both repairs: first the time zone, then the hour.
pub open spec fn repaired_date(text: Seq<char>) -> Seq<char> {
    rule_applied(HOUR_FIND@, HOUR_REPLACE@, rule_applied(ZONE_FIND@, ZONE_REPLACE@, text))
}

/// The instant that `text` names: read strictly where that succeeds, and
/// else read strictly after both repairs.
pub open spec fn date_time_of(text: Seq<char>) -> Option<i64> {
    match rfc2822_seconds(text) {
        Some(seconds) => Some(seconds),
        None => rfc2822_seconds(repaired_date(text)),
    }
}

/// Applies one rule to `text`.
pub fn apply_rule(rule: &DateTimeReplaceRule, text: String) -> (replaced: String)
    ensures
        replaced@ == rule_applied(rule.find@, rule.replace@, text@),
{
    match replace_first(rule.find, text.as_str(), rule.replace) {
        Some(replaced) => replaced,
        None => text,
    }
}

/// Reads the publishing date of an item, in whole seconds since the Unix
/// epoch.
///
/// A date that is valid RFC 2822 is taken as it is. One that is not is
/// repaired and read again: a time zone of `-0000` becomes `+0000`, and an
/// hour of one digit gets its zero. If it still cannot be read the result
/// is [`Error::DateParse`] with the date as repaired.
pub fn parse_date_time(s: &str) -> (parsed: Result<i64, Error>)
    ensures
        match date_time_of(s@) {
            Some(seconds) => parsed == Ok::<i64, Error>(seconds),
            None => parsed matches Err(Error::DateParse { input }) && input@ == repaired_date(s@),
        },
{
    match rfc2822_timestamp(s) {
        Some(seconds) => Ok(seconds),
        None => {
            let zone = DateTimeReplaceRule { find: ZONE_FIND, replace: ZONE_REPLACE };
            let hour = DateTimeReplaceRule { find: HOUR_FIND, replace: HOUR_REPLACE };
            let repaired = apply_rule(&hour, apply_rule(&zone, s.to_owned()));
            match rfc2822_timestamp(repaired.as_str()) {
                Some(seconds) => Ok(seconds),
                None => Err(Error::DateParse { input: repaired }),
            }
        },
    }
}

/// The outcome of validating a channel.
#[derive(Debug)]
pub enum PodcastInsOrInvalid {
    Valid(insertable::Podcast),
    Invalid { message: &'static str },
}

/// The outcome of validating an item.
#[derive(Debug)]
pub enum EpisodeInsOrInvalid {
    Valid(insertable::Episode),
    /// The item is passed over. `guid` tells which one it was, where the
    /// item has one.
    Invalid { message: &'static str, guid: Option<String> },
}

/// An item that was passed over, with the reason.
#[derive(Debug)]
pub struct SkippedEpisode {
    pub message: &'static str,
    pub guid: Option<String>,
}

/// What a [`SkippedEpisode`] holds, as mathematical values.
pub struct SkippedEpisodeView {
    pub message: Seq<char>,
    pub guid: Option<Seq<char>>,
}

impl View for SkippedEpisode {
    type V = SkippedEpisodeView;

    open spec fn view(&self) -> SkippedEpisodeView {
        SkippedEpisodeView { message: self.message@, guid: text_of(self.guid) }
    }
}

/// The items of a feed after validation: those to write, and those passed
/// over, each list in document order.
#[derive(Debug)]
pub struct ValidatedEpisodes {
    pub episodes: Vec<insertable::Episode>,
    pub skipped: Vec<SkippedEpisode>,
}

/// What a [`ValidatedEpisodes`] holds, as mathematical values.
pub struct ValidatedEpisodesView {
    pub episodes: Seq<insertable::EpisodeView>,
    pub skipped: Seq<SkippedEpisodeView>,
}

impl View for ValidatedEpisodes {
    type V = ValidatedEpisodesView;

    open spec fn view(&self) -> ValidatedEpisodesView {
        ValidatedEpisodesView {
            episodes: self.episodes@.map_values(|e: insertable::Episode| e@),
            skipped: self.skipped@.map_values(|s: SkippedEpisode| s@),
        }
    }
}

impl ValidatedEpisodes {
    /// How many items are to be written.
    pub fn num_valid(&self) -> (n: usize)
        ensures
            n == self@.episodes.len(),
    {
        self.episodes.len()
    }

    /// How many items were passed over.
    pub fn num_invalid(&self) -> (n: usize)
        ensures
            n == self@.skipped.len(),
    {
        self.skipped.len()
    }
}

/// Whether a channel has what a podcast needs: a title that is not empty.
pub open spec fn podcast_is_valid(raw: PodcastRawView) -> bool {
    raw.title matches Some(title) && title.len() > 0
}

/// The podcast to write for a valid channel read at `now`.
pub open spec fn podcast_ins_of(raw: PodcastRawView, now: i64) -> insertable::PodcastView
    recommends
        podcast_is_valid(raw),
{
    insertable::PodcastView {
        image_url: raw.image_url,
        language: raw.language,
        last_retrieved_at: now,
        link_url: raw.link_url,
        title: raw.title->0,
    }
}

/// The first thing that an item lacks, if it lacks any: the reason for
/// which it is passed over.
pub open spec fn episode_defect(raw: EpisodeRawView) -> Option<Seq<char>> {
    if raw.guid is None {
        Some("Missing GUID from feed item"@)
    } else if raw.media_url is None {
        Some("Missing media URL from feed item"@)
    } else if raw.published_at is None {
        Some("Missing publishing date from feed item"@)
    } else if raw.title is None {
        Some("Missing title from feed item"@)
    } else {
        None
    }
}

/// The episode to write for an item that lacks nothing, published at
/// `published_at`, of the podcast `podcast_id`.
pub open spec fn episode_ins_of(raw: EpisodeRawView, podcast_id: i64, published_at: i64) -> insertable::EpisodeView
    recommends
        episode_defect(raw) is None,
{
    insertable::EpisodeView {
        description: raw.description,
        explicit: raw.explicit,
        guid: raw.guid->0,
        link_url: raw.link_url,
        media_type: raw.media_type,
        media_url: raw.media_url->0,
        podcast_id,
        published_at,
        title: raw.title->0,
    }
}

/// What validating one item gives: the episode to write, the reason for
/// passing it over, or the date that could not be read.
pub enum EpisodeVerdict {
    Valid(insertable::EpisodeView),
    Skipped(SkippedEpisodeView),
    BadDate(Seq<char>),
}

/// The verdict on one item: passed over for the first thing it lacks;
/// failing on a date that cannot be read even after repair; valid
/// otherwise.
pub open spec fn episode_verdict(raw: EpisodeRawView, podcast_id: i64) -> EpisodeVerdict {
    match episode_defect(raw) {
        Some(message) => EpisodeVerdict::Skipped(SkippedEpisodeView { message, guid: raw.guid }),
        None => match date_time_of(raw.published_at->0) {
            Some(seconds) => EpisodeVerdict::Valid(episode_ins_of(raw, podcast_id, seconds)),
            None => EpisodeVerdict::BadDate(repaired_date(raw.published_at->0)),
        },
    }
}

/// The verdict on a list of items: the episodes to write and the items
/// passed over, each in document order, unless the date of some item that
/// lacks nothing cannot be read. The feed then fails on the first such
/// date.
pub open spec fn episodes_verdict(raws: Seq<EpisodeRawView>, podcast_id: i64) -> Result<
    ValidatedEpisodesView,
    Seq<char>,
>
    decreases raws.len(),
{
    if raws.len() == 0 {
        Ok(ValidatedEpisodesView { episodes: Seq::empty(), skipped: Seq::empty() })
    } else {
        match episodes_verdict(raws.drop_last(), podcast_id) {
            Err(input) => Err(input),
            Ok(before) => match episode_verdict(raws.last(), podcast_id) {
                EpisodeVerdict::Valid(episode) => Ok(
                    ValidatedEpisodesView { episodes: before.episodes.push(episode), ..before },
                ),
                EpisodeVerdict::Skipped(skipped) => Ok(
                    ValidatedEpisodesView { skipped: before.skipped.push(skipped), ..before },
                ),
                EpisodeVerdict::BadDate(input) => Err(input),
            },
        }
    }
}

/// A copy of an optional text.
pub fn copy_text(text: &Option<String>) -> (copy: Option<String>)
    ensures
        text_of(copy) == text_of(*text),
{
    match text {
        Some(s) => Some(s.clone()),
        None => None,
    }
}

/// Validates a channel read at `now`. A channel without a title, or with
/// an empty one, is rejected; any other becomes the podcast to write.
pub fn validate_podcast(raw: &PodcastRaw, now: i64) -> (outcome: PodcastInsOrInvalid)
    ensures
        podcast_is_valid(raw@) ==> (outcome matches PodcastInsOrInvalid::Valid(podcast)
            && podcast@ == podcast_ins_of(raw@, now) && podcast.title@.len() > 0),
        !podcast_is_valid(raw@) ==> (outcome matches PodcastInsOrInvalid::Invalid { message }
            && message@ == "Missing title from podcast feed"@),
{
    match &raw.title {
        Some(title) => {
            if title.as_str().unicode_len() == 0 {
                return PodcastInsOrInvalid::Invalid { message: "Missing title from podcast feed" };
            }
            PodcastInsOrInvalid::Valid(
                insertable::Podcast {
                    image_url: copy_text(&raw.image_url),
                    language: copy_text(&raw.language),
                    last_retrieved_at: now,
                    link_url: copy_text(&raw.link_url),
                    title: title.clone(),
                },
            )
        },
        None => PodcastInsOrInvalid::Invalid { message: "Missing title from podcast feed" },
    }
}

/// Validates one item of the podcast `podcast`.
///
/// An item without a GUID, a media URL, a publishing date or a title is
/// passed over, with the first of these that it lacks as the reason. An
/// item that has them all is valid if its date can be read; if not, the
/// result is the error of [`parse_date_time`].
pub fn validate_episode(raw: &EpisodeRaw, podcast: &Podcast) -> (outcome: Result<
    EpisodeInsOrInvalid,
    Error,
>)
    ensures
        match episode_verdict(raw@, podcast.id) {
            EpisodeVerdict::Valid(expected) => outcome matches Ok(
                EpisodeInsOrInvalid::Valid(episode),
            ) && episode@ == expected,
            EpisodeVerdict::Skipped(expected) => outcome matches Ok(
                EpisodeInsOrInvalid::Invalid { message, guid },
            ) && message@ == expected.message && text_of(guid) == expected.guid,
            EpisodeVerdict::BadDate(expected) => outcome matches Err(Error::DateParse { input })
                && input@ == expected,
        },
{
    let guid = match &raw.guid {
        Some(guid) => guid,
        None => {
            return Ok(
                EpisodeInsOrInvalid::Invalid { message: "Missing GUID from feed item", guid: None },
            );
        },
    };
    let media_url = match &raw.media_url {
        Some(media_url) => media_url,
        None => {
            return Ok(
                EpisodeInsOrInvalid::Invalid {
                    message: "Missing media URL from feed item",
                    guid: Some(guid.clone()),
                },
            );
        },
    };
    let published_at = match &raw.published_at {
        Some(published_at) => published_at,
        None => {
            return Ok(
                EpisodeInsOrInvalid::Invalid {
                    message: "Missing publishing date from feed item",
                    guid: Some(guid.clone()),
                },
            );
        },
    };
    let title = match &raw.title {
        Some(title) => title,
        None => {
            return Ok(
                EpisodeInsOrInvalid::Invalid {
                    message: "Missing title from feed item",
                    guid: Some(guid.clone()),
                },
            );
        },
    };
    let seconds = match parse_date_time(published_at.as_str()) {
        Ok(seconds) => seconds,
        Err(e) => {
            return Err(e);
        },
    };
    Ok(
        EpisodeInsOrInvalid::Valid(
            insertable::Episode {
                description: copy_text(&raw.description),
                explicit: raw.explicit,
                guid: guid.clone(),
                link_url: copy_text(&raw.link_url),
                media_url: media_url.clone(),
                media_type: copy_text(&raw.media_type),
                podcast_id: podcast.id,
                published_at: seconds,
                title: title.clone(),
            },
        ),
    )
}

/// Validates the items of a feed, in order.
///
/// The valid items become the episodes to write; the others are passed
/// over and listed with their reasons. Every item is in one list or the
/// other. A date that cannot be read fails the whole feed.
pub fn validate_episodes(raws: Vec<EpisodeRaw>, podcast: &Podcast) -> (outcome: Result<
    ValidatedEpisodes,
    Error,
>)
    ensures
        match episodes_verdict(episode_views(raws@), podcast.id) {
            Ok(expected) => outcome matches Ok(validated) && validated@ == expected
                && validated@.episodes.len() + validated@.skipped.len() == raws@.len(),
            Err(expected) => outcome matches Err(Error::DateParse { input }) && input@ == expected,
        },
{
    let mut validated = ValidatedEpisodes { episodes: Vec::new(), skipped: Vec::new() };
    let mut i: usize = 0;
    assert(validated@.episodes =~= Seq::empty());
    assert(validated@.skipped =~= Seq::empty());
    assert(episode_views(raws@).subrange(0, 0) =~= Seq::empty());
    while i < raws.len()
        invariant
            i <= raws.len(),
            episodes_verdict(episode_views(raws@).subrange(0, i as int), podcast.id) == Ok::<
                ValidatedEpisodesView,
                Seq<char>,
            >(validated@),
            validated@.episodes.len() + validated@.skipped.len() == i,
        decreases raws.len() - i,
    {
        let ghost views = episode_views(raws@);
        let ghost before = validated@;
        proof {
            let prefix = views.subrange(0, i + 1);
            assert(prefix.drop_last() =~= views.subrange(0, i as int));
            assert(prefix.last() == raws@[i as int]@);
            lemma_verdict_fails_on(views, i + 1, podcast.id);
        }
        match validate_episode(&raws[i], podcast) {
            Ok(EpisodeInsOrInvalid::Valid(episode)) => {
                validated.episodes.push(episode);
                assert(validated@.episodes =~= before.episodes.push(episode@));
                assert(validated@.skipped =~= before.skipped);
            },
            Ok(EpisodeInsOrInvalid::Invalid { message, guid }) => {
                let skipped = SkippedEpisode { message, guid };
                validated.skipped.push(skipped);
                assert(validated@.skipped =~= before.skipped.push(skipped@));
                assert(validated@.episodes =~= before.episodes);
            },
            Err(e) => {
                return Err(e);
            },
        }
        i = i + 1;
    }
    assert(episode_views(raws@).subrange(0, i as int) =~= episode_views(raws@));
    Ok(validated)
}

/// Once a prefix of the items fails on a date, the whole list fails on the
/// same date.
pub proof fn lemma_verdict_fails_on(raws: Seq<EpisodeRawView>, n: int, podcast_id: i64)
    requires
        0 <= n <= raws.len(),
    ensures
        episodes_verdict(raws.subrange(0, n), podcast_id) is Err ==> episodes_verdict(
            raws,
            podcast_id,
        ) == episodes_verdict(raws.subrange(0, n), podcast_id),
    decreases raws.len() - n,
{
    if n < raws.len() {
        let longer = raws.subrange(0, n + 1);
        assert(longer.drop_last() =~= raws.subrange(0, n));
        lemma_verdict_fails_on(raws, n + 1, podcast_id);
    } else {
        assert(raws.subrange(0, n) =~= raws);
    }
}

/// What an ingestion persisted: the podcast and the episodes that were
/// written for it.
#[derive(Debug)]
pub struct RunResult {
    pub episodes: Vec<Episode>,
    pub podcast: Podcast,
}

/// Where an ingestion stands. Each step but the first and the last waits
/// for the outcome of the work that the step before asked for.
#[derive(Debug)]
pub enum UpdateStep {
    /// Nothing has been asked for yet.
    Start,
    /// The feed is being fetched.
    Fetching,
    /// The podcast is being written. The rest is kept for the steps to
    /// come.
    SavingPodcast { body: Vec<u8>, sha256_hash: String, retrieved_at: i64, items: Vec<EpisodeRaw> },
    /// The snapshot of the feed body is being written.
    InsertingContent { podcast: Podcast, items: Vec<EpisodeRaw> },
    /// The episodes are being written.
    InsertingEpisodes { podcast: Podcast },
    /// The directory entry is being marked as ingested.
    Saving { podcast: Podcast, episodes: Vec<Episode> },
    /// The ingestion has ended, in one way or another.
    Done,
}

/// The outcome of a piece of work that a step asked for.
#[derive(Debug)]
pub enum UpdateEvent {
    /// The ingestion may start.
    Begin,
    /// The feed was fetched at `now`. `stored_hash` is the fingerprint of
    /// the snapshot stored last for this podcast, if one is stored.
    Fetched { body: Vec<u8>, stored_hash: Option<String>, now: i64 },
    /// The podcast was written, and this is its row.
    PodcastSaved(Podcast),
    /// The snapshot was written.
    ContentInserted,
    /// The episodes were written, and these are their rows.
    EpisodesInserted(Vec<Episode>),
    /// The directory entry was saved.
    DirectoryPodcastSaved,
}

/// What a step asks its caller to do. All writes of one ingestion belong
/// to one transaction: on [`UpdateAction::Finish`] it is committed, on
/// [`UpdateAction::Abort`] rolled back, and on [`UpdateAction::UpToDate`]
/// nothing was written at all.
#[derive(Debug)]
pub enum UpdateAction {
    Fetch { url: String },
    /// Write the podcast: over the row `id` where the podcast is known
    /// already, as a new row where it is not.
    SavePodcast { id: Option<i64>, podcast: insertable::Podcast },
    InsertContent(insertable::PodcastFeedContent),
    /// Write `episodes`. `skipped` lists the items that were passed over,
    /// to be reported.
    InsertEpisodes { episodes: Vec<insertable::Episode>, skipped: Vec<SkippedEpisode> },
    SaveDirectoryPodcast,
    /// The stored snapshot is the feed that was fetched: there is nothing
    /// to do.
    UpToDate,
    Finish(RunResult),
    Abort(Error),
}

/// Whether a feed that was fetched can be passed over: the shortcut is not
/// disabled, and the body has the fingerprint of the snapshot stored last.
pub open spec fn shortcut_applies(
    disable_shortcut: bool,
    stored_hash: Option<Seq<char>>,
    body: Seq<u8>,
) -> bool {
    !disable_shortcut && stored_hash == Some(sha256_hex(body))
}

/// What a feed body gives that is not passed over: the podcast to write
/// and the items as read, or the reason for which the feed is rejected.
pub open spec fn feed_outcome(body: Seq<u8>, now: i64) -> Result<
    (insertable::PodcastView, Seq<EpisodeRawView>),
    Error,
> {
    if !valid_utf8(body) {
        Err(Error::InvalidEncoding)
    } else {
        match parse_feed_events(document_events(decode_utf8(body))) {
            Err(e) => Err(e),
            Ok((podcast, episodes)) => if podcast_is_valid(podcast) {
                Ok((podcast_ins_of(podcast, now), episodes))
            } else {
                Err(Error::InvalidFeed { message: "Missing title from podcast feed" })
            },
        }
    }
}

/// The first transition: ask for the feed at the entry's URL.
pub open spec fn begin_post(dir_podcast: DirectoryPodcast, next: UpdateStep, action: UpdateAction) -> bool {
    match dir_podcast.feed_url {
        Some(feed_url) => next is Fetching && (action matches UpdateAction::Fetch { url } && url@
            == feed_url@),
        None => next is Done && action matches UpdateAction::Abort(Error::NoFeedUrl),
    }
}

/// The transition on a fetched feed: pass it over, reject it, or ask for
/// its podcast to be written, over the row `podcast_id` if there is one.
pub open spec fn fetched_post(
    disable_shortcut: bool,
    body: Seq<u8>,
    podcast_id: Option<i64>,
    stored_hash: Option<Seq<char>>,
    now: i64,
    next: UpdateStep,
    action: UpdateAction,
) -> bool {
    if shortcut_applies(disable_shortcut, stored_hash, body) {
        next is Done && action is UpToDate
    } else {
        match feed_outcome(body, now) {
            Err(e) => next is Done && (action matches UpdateAction::Abort(error) && error@ == e@),
            Ok((podcast, items)) => {
                &&& action matches UpdateAction::SavePodcast { id, podcast: ins } && id
                    == podcast_id && ins@ == podcast
                &&& next matches UpdateStep::SavingPodcast {
                    body: kept,
                    sha256_hash,
                    retrieved_at,
                    items: kept_items,
                } && kept@ == body && sha256_hash@ == sha256_hex(body) && retrieved_at == now
                    && episode_views(kept_items@) == items
            },
        }
    }
}

/// The transition on a written podcast: ask for the snapshot of the body to
/// be written for it, with its fingerprint and the time of the fetch.
pub open spec fn podcast_saved_post(
    body: Seq<u8>,
    sha256_hash: Seq<char>,
    retrieved_at: i64,
    items: Seq<EpisodeRaw>,
    podcast: Podcast,
    next: UpdateStep,
    action: UpdateAction,
) -> bool {
    &&& action matches UpdateAction::InsertContent(content) && content.content@ == body
        && content.podcast_id == podcast.id && content.retrieved_at == retrieved_at
        && content.sha256_hash@ == sha256_hash
    &&& next matches UpdateStep::InsertingContent { podcast: kept, items: kept_items } && kept
        == podcast && kept_items@ == items
}

/// The transition on a written snapshot: validate the items and ask for
/// the valid ones to be written, or fail on a date that cannot be read.
pub open spec fn content_inserted_post(
    podcast: Podcast,
    items: Seq<EpisodeRaw>,
    next: UpdateStep,
    action: UpdateAction,
) -> bool {
    match episodes_verdict(episode_views(items), podcast.id) {
        Ok(expected) => {
            &&& action matches UpdateAction::InsertEpisodes { episodes, skipped }
                && episodes@.map_values(|e: insertable::Episode| e@) == expected.episodes
                && skipped@.map_values(|s: SkippedEpisode| s@) == expected.skipped
            &&& next matches UpdateStep::InsertingEpisodes { podcast: kept } && kept == podcast
        },
        Err(expected) => next is Done && (action matches UpdateAction::Abort(
            Error::DateParse { input },
        ) && input@ == expected),
    }
}

/// The shortcut: whether a feed that was fetched can be passed over.
pub fn is_up_to_date(disable_shortcut: bool, stored_hash: &Option<String>, sha256_hash: &String) -> (skip: bool)
    ensures
        skip == (!disable_shortcut && text_of(*stored_hash) == Some(sha256_hash@)),
{
    match stored_hash {
        Some(stored) => !disable_shortcut && *stored == *sha256_hash,
        None => false,
    }
}

/// One ingestion of the feed of a directory entry.
#[derive(Debug)]
pub struct DirectoryPodcastUpdater {
    pub dir_podcast: DirectoryPodcast,
    /// Whether a feed is processed even if its body is the one stored
    /// last. Replaying stored feeds sets this.
    pub disable_shortcut: bool,
    pub step: UpdateStep,
}

impl DirectoryPodcastUpdater {
    /// An ingestion that has not started.
    pub fn new(dir_podcast: DirectoryPodcast, disable_shortcut: bool) -> (updater: Self)
        ensures
            updater.dir_podcast == dir_podcast,
            updater.disable_shortcut == disable_shortcut,
            updater.step is Start,
    {
        DirectoryPodcastUpdater { dir_podcast, disable_shortcut, step: UpdateStep::Start }
    }

    /// What `self` and `action` must be after `before` has taken `event`.
    pub open spec fn step_post(
        before: Self,
        event: UpdateEvent,
        after: Self,
        action: UpdateAction,
    ) -> bool {
        &&& after.disable_shortcut == before.disable_shortcut
        &&& match (before.step, event) {
            (UpdateStep::Start, UpdateEvent::Begin) => after.dir_podcast == before.dir_podcast
                && begin_post(before.dir_podcast, after.step, action),
            (UpdateStep::Fetching, UpdateEvent::Fetched { body, stored_hash, now }) =>
                after.dir_podcast == before.dir_podcast && fetched_post(
                    before.disable_shortcut,
                    body@,
                    before.dir_podcast.podcast_id,
                    text_of(stored_hash),
                    now,
                    after.step,
                    action,
                ),
            (
                UpdateStep::SavingPodcast { body, sha256_hash, retrieved_at, items },
                UpdateEvent::PodcastSaved(podcast),
            ) => after.dir_podcast == before.dir_podcast && podcast_saved_post(
                body@,
                sha256_hash@,
                retrieved_at,
                items@,
                podcast,
                after.step,
                action,
            ),
            (UpdateStep::InsertingContent { podcast, items }, UpdateEvent::ContentInserted) =>
                after.dir_podcast == before.dir_podcast && content_inserted_post(
                    podcast,
                    items@,
                    after.step,
                    action,
                ),
            (UpdateStep::InsertingEpisodes { podcast }, UpdateEvent::EpisodesInserted(episodes)) => {
                &&& action is SaveDirectoryPodcast
                &&& after.dir_podcast == (DirectoryPodcast {
                    feed_url: None,
                    podcast_id: Some(podcast.id),
                    ..before.dir_podcast
                })
                &&& after.step == (UpdateStep::Saving { podcast, episodes })
            },
            (UpdateStep::Saving { podcast, episodes }, UpdateEvent::DirectoryPodcastSaved) => {
                &&& action == UpdateAction::Finish(RunResult { episodes, podcast })
                &&& after.dir_podcast == before.dir_podcast
                &&& after.step is Done
            },
            _ => after.dir_podcast == before.dir_podcast && after.step is Done
                && action matches UpdateAction::Abort(Error::Protocol),
        }
    }

    /// Starts the ingestion: asks for the feed to be fetched.
    pub fn run(self) -> (next: (Self, UpdateAction))
        ensures
            Self::step_post(self, UpdateEvent::Begin, next.0, next.1),
    {
        self.step(UpdateEvent::Begin)
    }

    /// Takes the outcome of the work asked for last and says what to do
    /// next.
    ///
    /// In order: fetch the feed; unless the shortcut applies, read and
    /// validate it and write the podcast, over the row that the directory
    /// entry points to if it points to one; write the snapshot of the
    /// body; validate the items and write the valid ones; clear the feed
    /// URL of the directory entry, point it to the podcast, and save it;
    /// finish with the rows written. A
    /// feed that is rejected, or a date that cannot be read, aborts the
    /// ingestion, and so does an event that the step does not wait for.
    pub fn step(self, event: UpdateEvent) -> (next: (Self, UpdateAction))
        ensures
            Self::step_post(self, event, next.0, next.1),
    {
        let DirectoryPodcastUpdater { dir_podcast, disable_shortcut, step } = self;
        match (step, event) {
            (UpdateStep::Start, UpdateEvent::Begin) => {
                let (step, action) = match &dir_podcast.feed_url {
                    Some(url) => (UpdateStep::Fetching, UpdateAction::Fetch { url: url.clone() }),
                    None => (UpdateStep::Done, UpdateAction::Abort(Error::NoFeedUrl)),
                };
                (DirectoryPodcastUpdater { dir_podcast, disable_shortcut, step }, action)
            },
            (UpdateStep::Fetching, UpdateEvent::Fetched { body, stored_hash, now }) => {
                let (step, action) = feed_fetched(
                    disable_shortcut,
                    body,
                    dir_podcast.podcast_id,
                    &stored_hash,
                    now,
                );
                (DirectoryPodcastUpdater { dir_podcast, disable_shortcut, step }, action)
            },
            (
                UpdateStep::SavingPodcast { body, sha256_hash, retrieved_at, items },
                UpdateEvent::PodcastSaved(podcast),
            ) => {
                let content = insertable::PodcastFeedContent {
                    content: body,
                    podcast_id: podcast.id,
                    retrieved_at,
                    sha256_hash,
                };
                (
                    DirectoryPodcastUpdater {
                        dir_podcast,
                        disable_shortcut,
                        step: UpdateStep::InsertingContent { podcast, items },
                    },
                    UpdateAction::InsertContent(content),
                )
            },
            (UpdateStep::InsertingContent { podcast, items }, UpdateEvent::ContentInserted) => {
                let (step, action) = match validate_episodes(items, &podcast) {
                    Ok(validated) => (
                        UpdateStep::InsertingEpisodes { podcast },
                        UpdateAction::InsertEpisodes {
                            episodes: validated.episodes,
                            skipped: validated.skipped,
                        },
                    ),
                    Err(e) => (UpdateStep::Done, UpdateAction::Abort(e)),
                };
                (DirectoryPodcastUpdater { dir_podcast, disable_shortcut, step }, action)
            },
            (UpdateStep::InsertingEpisodes { podcast }, UpdateEvent::EpisodesInserted(episodes)) => {
                let saved = DirectoryPodcast {
                    feed_url: None,
                    podcast_id: Some(podcast.id),
                    ..dir_podcast
                };
                (
                    DirectoryPodcastUpdater {
                        dir_podcast: saved,
                        disable_shortcut,
                        step: UpdateStep::Saving { podcast, episodes },
                    },
                    UpdateAction::SaveDirectoryPodcast,
                )
            },
            (UpdateStep::Saving { podcast, episodes }, UpdateEvent::DirectoryPodcastSaved) => (
                DirectoryPodcastUpdater { dir_podcast, disable_shortcut, step: UpdateStep::Done },
                UpdateAction::Finish(RunResult { episodes, podcast }),
            ),
            _ => (
                DirectoryPodcastUpdater { dir_podcast, disable_shortcut, step: UpdateStep::Done },
                UpdateAction::Abort(Error::Protocol),
            ),
        }
    }
}

/// Decides what becomes of a feed that was fetched at `now`.
///
/// With the shortcut enabled, a body with the fingerprint of the snapshot
/// stored last is passed over: nothing is read and nothing is to be
/// written. Any other body is read and its channel validated; the feed is
/// rejected if it is not text, has no `rss` or `channel` element, or has
/// no title.
pub fn feed_fetched(
    disable_shortcut: bool,
    body: Vec<u8>,
    podcast_id: Option<i64>,
    stored_hash: &Option<String>,
    now: i64,
) -> (next: (UpdateStep, UpdateAction))
    ensures
        fetched_post(
            disable_shortcut,
            body@,
            podcast_id,
            text_of(*stored_hash),
            now,
            next.0,
            next.1,
        ),
{
    let sha256_hash = content_hash(&body);
    if is_up_to_date(disable_shortcut, stored_hash, &sha256_hash) {
        return (UpdateStep::Done, UpdateAction::UpToDate);
    }
    let parsed = match utf8_text(&body) {
        Some(text) => parse_feed(text),
        None => {
            return (UpdateStep::Done, UpdateAction::Abort(Error::InvalidEncoding));
        },
    };
    match parsed {
        Err(e) => (UpdateStep::Done, UpdateAction::Abort(e)),
        Ok((podcast_raw, episodes)) => match validate_podcast(&podcast_raw, now) {
            PodcastInsOrInvalid::Valid(podcast) => (
                UpdateStep::SavingPodcast { body, sha256_hash, retrieved_at: now, items: episodes },
                UpdateAction::SavePodcast { id: podcast_id, podcast },
            ),
            PodcastInsOrInvalid::Invalid { message } => (
                UpdateStep::Done,
                UpdateAction::Abort(Error::InvalidFeed { message }),
            ),
        },
    }
}

impl UpdateAction {
    /// Whether the action asks for something to be written.
    pub open spec fn is_write(self) -> bool {
        self is SavePodcast || self is InsertContent || self is InsertEpisodes
            || self is SaveDirectoryPodcast
    }
}

/// Ingesting the same bytes twice, with the shortcut enabled, writes
/// nothing the second time.
///
/// The first ingestion of `body` gets as far as asking for the snapshot
/// `content` to be written. If that snapshot is the one stored last when
/// the same `body` is fetched again, the second ingestion ends at once,
/// asking for nothing to be written.
pub proof fn lemma_same_feed_twice(
    body: Seq<u8>,
    podcast_id: Option<i64>,
    stored_before: Option<Seq<char>>,
    first_now: i64,
    fetched: (UpdateStep, UpdateAction),
    podcast: Podcast,
    inserted: (UpdateStep, UpdateAction),
    second_now: i64,
    again: (UpdateStep, UpdateAction),
)
    requires
        fetched_post(false, body, podcast_id, stored_before, first_now, fetched.0, fetched.1),
        fetched.0 matches UpdateStep::SavingPodcast {
            body: kept,
            sha256_hash,
            retrieved_at,
            items,
        } && podcast_saved_post(
            kept@,
            sha256_hash@,
            retrieved_at,
            items@,
            podcast,
            inserted.0,
            inserted.1,
        ),
        inserted.1 matches UpdateAction::InsertContent(content) && fetched_post(
            false,
            body,
            Some(podcast.id),
            Some(content.sha256_hash@),
            second_now,
            again.0,
            again.1,
        ),
    ensures
        again.0 is Done,
        again.1 is UpToDate,
        !again.1.is_write(),
{
}

/// With the shortcut disabled, a feed is read and validated whatever is
/// stored: the outcome is that of a first ingestion.
pub proof fn lemma_replay_reads_again(
    body: Seq<u8>,
    podcast_id: Option<i64>,
    stored_hash: Option<Seq<char>>,
    now: i64,
    next: UpdateStep,
    action: UpdateAction,
)
    requires
        fetched_post(true, body, podcast_id, stored_hash, now, next, action),
    ensures
        !(action is UpToDate),
        fetched_post(true, body, podcast_id, None, now, next, action),
        feed_outcome(body, now) is Ok ==> action is SavePodcast,
        feed_outcome(body, now) is Err ==> action is Abort && next is Done,
{
}

/// An ingestion that fails part of the way through asks for no further
/// write: when the items cannot be validated, the answer is to abort, and
/// an ingestion that has ended takes no event but to say so again. What
/// was written before belongs to the transaction that the abort rolls
/// back.
pub proof fn lemma_failure_ends_the_writes(
    before: DirectoryPodcastUpdater,
    event: UpdateEvent,
    after: DirectoryPodcastUpdater,
    action: UpdateAction,
    later: UpdateEvent,
    last: DirectoryPodcastUpdater,
    last_action: UpdateAction,
)
    requires
        DirectoryPodcastUpdater::step_post(before, event, after, action),
        DirectoryPodcastUpdater::step_post(after, later, last, last_action),
        action is Abort || action is UpToDate || action is Finish,
    ensures
        after.step is Done,
        last.step is Done,
        last_action matches UpdateAction::Abort(Error::Protocol),
        !last_action.is_write(),
{
}

} // verus!
