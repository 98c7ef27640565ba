use podcore::errors::Error;
use podcore::mediators::directory_podcast_updater::{
    channel_field, feed_fetched, is_up_to_date, item_field, parse_date_time, parse_events,
    parse_feed, parse_item, safe_unescape_and_decode, validate_episode, validate_episodes,
    validate_podcast, ChannelField, DirectoryPodcastUpdater, EpisodeInsOrInvalid, EpisodeRaw,
    ItemField, PodcastInsOrInvalid, PodcastRaw, UpdateAction, UpdateEvent, UpdateStep,
};
use podcore::model::{DirectoryPodcast, Podcast};
use podcore::xml::{attribute_text, name_is, EventList, XmlAttribute, XmlEvent};

fn podcast(id: i64) -> Podcast {
    Podcast {
        id,
        image_url: None,
        language: None,
        last_retrieved_at: 0,
        link_url: None,
        title: "Title".to_owned(),
    }
}

fn raw_episode() -> EpisodeRaw {
    EpisodeRaw {
        description: Some("About".to_owned()),
        explicit: Some(false),
        guid: Some("guid-1".to_owned()),
        link_url: Some("https://example.com/1".to_owned()),
        media_type: Some("audio/mpeg".to_owned()),
        media_url: Some("https://example.com/1.mp3".to_owned()),
        published_at: Some("Sun, 24 Dec 2017 21:37:32 +0000".to_owned()),
        title: Some("One".to_owned()),
    }
}

fn start(name: &str) -> XmlEvent {
    XmlEvent::Start { name: name.as_bytes().to_vec(), raw: name.as_bytes().to_vec() }
}

fn end(name: &str) -> XmlEvent {
    XmlEvent::End { name: name.as_bytes().to_vec() }
}

fn text(content: &str) -> XmlEvent {
    XmlEvent::Text { escaped: content.as_bytes().to_vec() }
}

#[test]
fn test_parse_no_rss() {
    assert!(matches!(parse_feed("<html><body/></html>"), Err(Error::NoRssTag)));
    assert!(matches!(parse_feed(""), Err(Error::NoRssTag)));
}

#[test]
fn test_parse_no_channel() {
    assert!(matches!(parse_feed("<rss><title>T</title></rss>"), Err(Error::NoChannelTag)));
}

#[test]
fn test_parse_missing_title_fails_validation() {
    let (podcast_raw, episodes) = parse_feed(
        "<rss><channel><item><guid>1</guid></item></channel></rss>",
    )
    .unwrap();
    assert_eq!(None, podcast_raw.title);
    assert_eq!(1, episodes.len());
    match validate_podcast(&podcast_raw, 5) {
        PodcastInsOrInvalid::Invalid { message } => {
            assert_eq!("Missing title from podcast feed", message)
        }
        other => panic!("unexpected outcome {:?}", other),
    }
    // Through the whole ingestion the feed is rejected.
    let (step, action) = feed_fetched(false, b"<rss><channel><item><guid>1</guid></item></channel></rss>".to_vec(), None, &None,
        5,
    );
    assert!(matches!(step, UpdateStep::Done));
    match action {
        UpdateAction::Abort(Error::InvalidFeed { message }) => {
            assert_eq!("Missing title from podcast feed", message)
        }
        other => panic!("unexpected action {:?}", other),
    }
}

#[test]
fn test_item_missing_guid_is_skipped() {
    let feed = "<rss><channel><title>Title</title><item>\
                <media:content url=\"https://example.com/item-1\"/>\
                <pubDate>Sun, 24 Dec 2017 21:37:32 +0000</pubDate>\
                <title>Item 1 Title</title></item></channel></rss>";
    let (podcast_raw, episodes) = parse_feed(feed).unwrap();
    assert!(matches!(validate_podcast(&podcast_raw, 0), PodcastInsOrInvalid::Valid(_)));
    let validated = validate_episodes(episodes, &podcast(1)).unwrap();
    assert_eq!(0, validated.num_valid());
    assert_eq!(1, validated.num_invalid());
    assert_eq!("Missing GUID from feed item", validated.skipped[0].message);
    assert_eq!(None, validated.skipped[0].guid);
}

#[test]
fn test_parse_several_items_in_order() {
    let feed = "<rss><channel><title>T</title>\
                <item><guid>a</guid><title>A</title></item>\
                <item><guid>b</guid><itunes:explicit>no</itunes:explicit></item>\
                <item><guid>c</guid><link>https://example.com/c</link></item>\
                <language>en</language>\
                </channel></rss>";
    let (podcast_raw, episodes) = parse_feed(feed).unwrap();
    assert_eq!(Some("T".to_owned()), podcast_raw.title);
    assert_eq!(Some("en".to_owned()), podcast_raw.language);
    assert_eq!(3, episodes.len());
    assert_eq!(Some("a".to_owned()), episodes[0].guid);
    assert_eq!(Some("A".to_owned()), episodes[0].title);
    assert_eq!(Some("b".to_owned()), episodes[1].guid);
    assert_eq!(None, episodes[1].title);
    assert_eq!(Some(false), episodes[1].explicit);
    assert_eq!(Some("c".to_owned()), episodes[2].guid);
    assert_eq!(Some("https://example.com/c".to_owned()), episodes[2].link_url);
}

#[test]
fn test_parse_tolerates() {
    // An unescaped ampersand, unknown elements, a duplicate, an element
    // without text, and a value that cannot be unescaped.
    let feed = "<rss><channel><unknown>x</unknown><title>First</title>\
                <title>Tom & Jerry</title><link></link>\
                <item><guid>1 &amp; 2</guid><description/>\
                <enclosure url=\"https://example.com/a?x=1&y=2\" type=\"audio/mpeg\"/>\
                </item></channel></rss>";
    let (podcast_raw, episodes) = parse_feed(feed).unwrap();
    assert_eq!(Some("Tom & Jerry".to_owned()), podcast_raw.title);
    assert_eq!(None, podcast_raw.link_url);
    assert_eq!(1, episodes.len());
    assert_eq!(Some("1 & 2".to_owned()), episodes[0].guid);
    assert_eq!(None, episodes[0].description);
    assert_eq!(Some("https://example.com/a?x=1&y=2".to_owned()), episodes[0].media_url);
    assert_eq!(Some("audio/mpeg".to_owned()), episodes[0].media_type);
}

#[test]
fn test_safe_unescape_and_decode() {
    assert_eq!("a < b", safe_unescape_and_decode(&b"a &lt; b".to_vec()));
    assert_eq!("caf\u{e9} &#233", safe_unescape_and_decode(&"caf\u{e9} &#233".as_bytes().to_vec()));
    assert_eq!("\u{e9}", safe_unescape_and_decode(&b"&#233;".to_vec()));
    assert_eq!("a & b", safe_unescape_and_decode(&b"a & b".to_vec()));
    assert_eq!("&unknown;", safe_unescape_and_decode(&b"&unknown;".to_vec()));
    assert_eq!("x\u{fffd}", safe_unescape_and_decode(&vec![b'x', 0xff]));
    assert_eq!("", safe_unescape_and_decode(&Vec::new()));
}

#[test]
fn test_events_by_hand() {
    let events = vec![
        XmlEvent::Other,
        start("rss"),
        start("channel"),
        start("title"),
        text("Title"),
        end("title"),
        start("item"),
        start("guid"),
        text("1"),
        end("guid"),
        start("itunes:explicit"),
        text("yes"),
        end("itunes:explicit"),
        start("title"),
        end("title"),
        end("item"),
        start("link"),
        start("nested"),
        end("channel"),
        XmlEvent::Eof,
        start("title"),
        text("after the end"),
    ];
    let mut list = EventList::new(events);
    let (podcast_raw, episodes) = parse_events(&mut list).unwrap();
    assert_eq!(Some("Title".to_owned()), podcast_raw.title);
    // The event after `link` is no text: the element has none.
    assert_eq!(None, podcast_raw.link_url);
    assert_eq!(1, episodes.len());
    assert_eq!(Some("1".to_owned()), episodes[0].guid);
    assert_eq!(Some(true), episodes[0].explicit);
    assert_eq!(None, episodes[0].title);
    assert_eq!(19, list.position);
}

#[test]
fn test_parse_item_stops_at_its_end() {
    let mut list = EventList::new(vec![
        start("guid"),
        text("1"),
        end("guid"),
        end("item"),
        start("guid"),
        text("2"),
    ]);
    let episode = parse_item(&mut list);
    assert_eq!(Some("1".to_owned()), episode.guid);
    assert_eq!(4, list.position);
}

#[test]
fn test_fields() {
    assert_eq!(ItemField::Media, item_field(&b"enclosure".to_vec()));
    assert_eq!(ItemField::Media, item_field(&b"media:content".to_vec()));
    assert_eq!(ItemField::PubDate, item_field(&b"pubDate".to_vec()));
    assert_eq!(ItemField::Unknown, item_field(&b"pubdate".to_vec()));
    assert_eq!(ItemField::Unknown, item_field(&b"item".to_vec()));
    assert_eq!(ChannelField::Item, channel_field(&b"item".to_vec()));
    assert_eq!(ChannelField::Thumbnail, channel_field(&b"media:thumbnail".to_vec()));
    assert_eq!(ChannelField::Unknown, channel_field(&b"guid".to_vec()));
    assert!(name_is(&b"rss".to_vec(), "rss"));
    assert!(!name_is(&b"rs".to_vec(), "rss"));
    assert!(!name_is(&b"rsx".to_vec(), "rss"));
}

#[test]
fn test_attribute_text() {
    let attr = |k: &str, v: &str| {
        Some(XmlAttribute { key: k.as_bytes().to_vec(), value: v.as_bytes().to_vec() })
    };
    let attributes = vec![attr("url", "first"), attr("type", "a&amp;b"), None, attr("url", "last")];
    assert_eq!(Some("last".to_owned()), attribute_text(&attributes, "url"));
    assert_eq!(Some("a&b".to_owned()), attribute_text(&attributes, "type"));
    assert_eq!(None, attribute_text(&attributes, "length"));
    assert_eq!(None, attribute_text(&Vec::new(), "url"));
}

#[test]
fn test_parse_date_time_failure() {
    match parse_date_time("not a date -0000") {
        Err(Error::DateParse { input }) => assert_eq!("not a date +0000", input),
        other => panic!("unexpected outcome {:?}", other),
    }
    match parse_date_time("Sun, 24 Dec 2017 9:61:00 +0000") {
        Err(Error::DateParse { input }) => assert_eq!("Sun, 24 Dec 2017 09:61:00 +0000", input),
        other => panic!("unexpected outcome {:?}", other),
    }
    assert!(matches!(parse_date_time(""), Err(Error::DateParse { .. })));
}

#[test]
fn test_parse_date_time_repairs() {
    // Both repairs at once.
    assert_eq!(1_490_607_720, parse_date_time("Mon, 27 Mar 2017 9:42:00 -0000").ok().unwrap());
    assert_eq!(1_490_607_720, parse_date_time("Mon, 27 Mar 2017 09:42:00 +0000").ok().unwrap());
    assert_eq!(1_490_625_720, parse_date_time("Mon, 27 Mar 2017 9:42:00 EST").ok().unwrap());
}

#[test]
fn test_validate_podcast() {
    let raw = PodcastRaw {
        image_url: Some("https://example.com/i.jpg".to_owned()),
        language: None,
        link_url: Some("https://example.com".to_owned()),
        title: Some("Title".to_owned()),
    };
    match validate_podcast(&raw, 77) {
        PodcastInsOrInvalid::Valid(p) => {
            assert_eq!("Title", p.title);
            assert_eq!(Some("https://example.com/i.jpg".to_owned()), p.image_url);
            assert_eq!(None, p.language);
            assert_eq!(Some("https://example.com".to_owned()), p.link_url);
            assert_eq!(77, p.last_retrieved_at);
        }
        other => panic!("unexpected outcome {:?}", other),
    }
    let empty = PodcastRaw { title: Some(String::new()), ..PodcastRaw::new() };
    assert!(matches!(validate_podcast(&empty, 0), PodcastInsOrInvalid::Invalid { .. }));
    assert!(matches!(validate_podcast(&PodcastRaw::new(), 0), PodcastInsOrInvalid::Invalid { .. }));
}

#[test]
fn test_validate_episode() {
    match validate_episode(&raw_episode(), &podcast(9)).unwrap() {
        EpisodeInsOrInvalid::Valid(e) => {
            assert_eq!("guid-1", e.guid);
            assert_eq!("https://example.com/1.mp3", e.media_url);
            assert_eq!("One", e.title);
            assert_eq!(9, e.podcast_id);
            assert_eq!(1_514_151_452, e.published_at);
            assert_eq!(Some("About".to_owned()), e.description);
            assert_eq!(Some(false), e.explicit);
            assert_eq!(Some("audio/mpeg".to_owned()), e.media_type);
            assert_eq!(Some("https://example.com/1".to_owned()), e.link_url);
        }
        other => panic!("unexpected outcome {:?}", other),
    }
    let expect_skip = |raw: EpisodeRaw, message: &str, guid: Option<&str>| match validate_episode(
        &raw,
        &podcast(9),
    )
    .unwrap()
    {
        EpisodeInsOrInvalid::Invalid { message: m, guid: g } => {
            assert_eq!(message, m);
            assert_eq!(guid.map(|s| s.to_owned()), g);
        }
        other => panic!("unexpected outcome {:?}", other),
    };
    expect_skip(EpisodeRaw { guid: None, ..raw_episode() }, "Missing GUID from feed item", None);
    expect_skip(
        EpisodeRaw { guid: None, media_url: None, title: None, ..raw_episode() },
        "Missing GUID from feed item",
        None,
    );
    expect_skip(
        EpisodeRaw { media_url: None, published_at: None, ..raw_episode() },
        "Missing media URL from feed item",
        Some("guid-1"),
    );
    expect_skip(
        EpisodeRaw { published_at: None, title: None, ..raw_episode() },
        "Missing publishing date from feed item",
        Some("guid-1"),
    );
    expect_skip(
        EpisodeRaw { title: None, ..raw_episode() },
        "Missing title from feed item",
        Some("guid-1"),
    );
    // A date that cannot be read is an error, but only once nothing is missing.
    let bad_date = EpisodeRaw { published_at: Some("yesterday".to_owned()), ..raw_episode() };
    assert!(matches!(
        validate_episode(&bad_date, &podcast(9)),
        Err(Error::DateParse { .. })
    ));
    expect_skip(
        EpisodeRaw { title: None, published_at: Some("yesterday".to_owned()), ..raw_episode() },
        "Missing title from feed item",
        Some("guid-1"),
    );
}

#[test]
fn test_validate_episodes() {
    let raws = vec![
        raw_episode(),
        EpisodeRaw { title: None, guid: Some("guid-2".to_owned()), ..raw_episode() },
        EpisodeRaw { guid: Some("guid-3".to_owned()), ..raw_episode() },
        EpisodeRaw { guid: None, ..raw_episode() },
    ];
    let validated = validate_episodes(raws, &podcast(3)).unwrap();
    assert_eq!(2, validated.num_valid());
    assert_eq!(2, validated.num_invalid());
    assert_eq!("guid-1", validated.episodes[0].guid);
    assert_eq!("guid-3", validated.episodes[1].guid);
    assert_eq!(Some("guid-2".to_owned()), validated.skipped[0].guid);
    assert_eq!("Missing title from feed item", validated.skipped[0].message);
    assert_eq!(None, validated.skipped[1].guid);

    let failing = vec![
        raw_episode(),
        EpisodeRaw { published_at: Some("first bad".to_owned()), ..raw_episode() },
        EpisodeRaw { published_at: Some("second bad".to_owned()), ..raw_episode() },
    ];
    match validate_episodes(failing, &podcast(3)) {
        Err(Error::DateParse { input }) => assert_eq!("first bad", input),
        other => panic!("unexpected outcome {:?}", other),
    }
    let none = validate_episodes(Vec::new(), &podcast(3)).unwrap();
    assert_eq!(0, none.num_valid() + none.num_invalid());
}

const FEED: &[u8] = b"<rss><channel><title>Title</title><item><guid>1</guid>\
    <enclosure url=\"https://example.com/1.mp3\"/>\
    <pubDate>Sun, 24 Dec 2017 21:37:32 +0000</pubDate><title>One</title></item>\
    </channel></rss>";

fn stored_hash_of(body: &[u8]) -> String {
    let (step, _) = feed_fetched(false, body.to_vec(), None, &None, 0);
    match step {
        UpdateStep::SavingPodcast { sha256_hash, .. } => sha256_hash,
        other => panic!("unexpected step {:?}", other),
    }
}

#[test]
fn test_content_hash() {
    assert_eq!(
        "e3b0c44298fc1c149afbf4c8996fb92427ae41e4649b934ca495991b7852b855",
        {
            // The empty body is no feed, but its fingerprint is taken first.
            let (_, action) = feed_fetched(false, Vec::new(), None, &Some("e3b0c44298fc1c149afbf4c8996fb92427ae41e4649b934ca495991b7852b855".to_owned()),
                0,
            );
            assert!(matches!(action, UpdateAction::UpToDate));
            "e3b0c44298fc1c149afbf4c8996fb92427ae41e4649b934ca495991b7852b855"
        }
    );
    let hash = stored_hash_of(FEED);
    assert_eq!(64, hash.len());
    assert!(hash.bytes().all(|b| b.is_ascii_hexdigit()));
    assert_ne!(hash.as_bytes(), FEED);
    let mut other = FEED.to_vec();
    other.push(b' ');
    assert_ne!(hash, stored_hash_of(&other));
}

#[test]
fn test_same_feed_twice() {
    let hash = stored_hash_of(FEED);
    // The second time, with the shortcut enabled, nothing is to be written.
    let (step, action) = feed_fetched(false, FEED.to_vec(), None, &Some(hash.clone()), 10);
    assert!(matches!(step, UpdateStep::Done));
    assert!(matches!(action, UpdateAction::UpToDate));
    // With the shortcut disabled the feed is read again.
    let (step, action) = feed_fetched(true, FEED.to_vec(), None, &Some(hash.clone()), 10);
    assert!(matches!(step, UpdateStep::SavingPodcast { .. }));
    assert!(matches!(action, UpdateAction::SavePodcast { .. }));
    // Another body is read even with the shortcut enabled.
    let mut other = FEED.to_vec();
    other.push(b'\n');
    let (_, action) = feed_fetched(false, other, None, &Some(hash.clone()), 10);
    assert!(matches!(action, UpdateAction::SavePodcast { .. }));

    assert!(is_up_to_date(false, &Some(hash.clone()), &hash));
    assert!(!is_up_to_date(true, &Some(hash.clone()), &hash));
    assert!(!is_up_to_date(false, &None, &hash));
    assert!(!is_up_to_date(false, &Some("other".to_owned()), &hash));
}

#[test]
fn test_invalid_encoding() {
    let (step, action) = feed_fetched(false, vec![b'<', 0xff, b'>'], None, &None, 0);
    assert!(matches!(step, UpdateStep::Done));
    assert!(matches!(action, UpdateAction::Abort(Error::InvalidEncoding)));
}

fn dir_podcast(feed_url: Option<&str>) -> DirectoryPodcast {
    DirectoryPodcast {
        id: 1,
        directory_id: 1,
        feed_url: feed_url.map(|s| s.to_owned()),
        podcast_id: None,
        title: "Title".to_owned(),
        vendor_id: "471418144".to_owned(),
    }
}

#[test]
fn test_failure_midway_aborts() {
    let body = b"<rss><channel><title>Title</title><item><guid>1</guid>\
        <enclosure url=\"https://example.com/1.mp3\"/>\
        <pubDate>no date at all</pubDate><title>One</title></item>\
        </channel></rss>";
    let updater = DirectoryPodcastUpdater::new(dir_podcast(Some("https://example.com/f")), true);
    let (updater, _) = updater.run();
    let (updater, action) = updater.step(UpdateEvent::Fetched {
        body: body.to_vec(),
        stored_hash: None,
        now: 1,
    });
    assert!(matches!(action, UpdateAction::SavePodcast { .. }));
    let (updater, action) = updater.step(UpdateEvent::PodcastSaved(podcast(4)));
    assert!(matches!(action, UpdateAction::InsertContent(_)));
    let (updater, action) = updater.step(UpdateEvent::ContentInserted);
    match action {
        UpdateAction::Abort(Error::DateParse { input }) => assert_eq!("no date at all", input),
        other => panic!("unexpected action {:?}", other),
    }
    assert!(matches!(updater.step, UpdateStep::Done));
    // The entry still waits to be ingested.
    assert_eq!(Some("https://example.com/f".to_owned()), updater.dir_podcast.feed_url);
    // Nothing is asked for after the end.
    let (updater, action) = updater.step(UpdateEvent::EpisodesInserted(Vec::new()));
    assert!(matches!(action, UpdateAction::Abort(Error::Protocol)));
    assert!(matches!(updater.step, UpdateStep::Done));
}

#[test]
fn test_no_feed_url_and_out_of_turn() {
    let (updater, action) = DirectoryPodcastUpdater::new(dir_podcast(None), false).run();
    assert!(matches!(action, UpdateAction::Abort(Error::NoFeedUrl)));
    assert!(matches!(updater.step, UpdateStep::Done));

    let updater = DirectoryPodcastUpdater::new(dir_podcast(Some("u")), false);
    let (updater, action) = updater.step(UpdateEvent::ContentInserted);
    assert!(matches!(action, UpdateAction::Abort(Error::Protocol)));
    assert!(matches!(updater.step, UpdateStep::Done));
}

#[test]
fn test_error_descriptions() {
    assert_eq!("No rss tag found", Error::NoRssTag.description());
    assert_eq!("No channel tag found", Error::NoChannelTag.description());
    assert_eq!("x", Error::InvalidFeed { message: "x" }.description());
    assert_eq!(
        "Job not covered!",
        Error::UnsupportedJob { name: "n".to_owned() }.description()
    );
    assert_eq!("Unexpected event", Error::Protocol.description());
    assert_eq!("A worker thread panicked", Error::WorkerPanicked.description());
    assert_eq!("Directory podcast has no feed URL", Error::NoFeedUrl.description());
    assert_eq!("Feed body is not valid UTF-8", Error::InvalidEncoding.description());
    assert_eq!(
        "Error parsing publishing date from feed item",
        Error::DateParse { input: String::new() }.description()
    );
    assert_eq!(
        "Connection pool too small for the number of workers",
        Error::PoolTooSmall { num_workers: 1, pool_size: 1 }.description()
    );
    assert_eq!("Error working job", Error::JobHandler { cause: String::new() }.description());
}
