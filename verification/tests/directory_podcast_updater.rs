use chrono::{FixedOffset, TimeZone, Utc};
use podcore::errors::Error;
use podcore::mediators::directory_podcast_updater::{
    parse_date_time, DirectoryPodcastUpdater, RunResult, UpdateAction, UpdateEvent, UpdateStep,
};
use podcore::model::insertable;
use podcore::model::{DirectoryPodcast, Episode, Podcast};

const IDEAL_FEED: &str = r#"
<?xml version="1.0" encoding="UTF-8"?>
<rss>
  <channel>
    <language>en-US</language>
    <link>https://example.com/podcast</link>
    <media:thumbnail url="https://example.com/podcast-image-url.jpg"/>
    <title>Title</title>
    <item>
      <description><![CDATA[Item 1 description]]></description>
      <guid>1</guid>
      <itunes:explicit>yes</itunes:explicit>
      <media:content url="https://example.com/item-1" type="audio/mpeg"/>
      <pubDate>Sun, 24 Dec 2017 21:37:32 +0000</pubDate>
      <title>Item 1 Title</title>
    </item>
  </channel>
</rss>"#;

const MINIMAL_FEED: &str = r#"
<?xml version="1.0" encoding="UTF-8"?>
<rss>
  <channel>
    <title>Title</title>
    <item>
      <guid>1</guid>
      <media:content url="https://example.com/item-1" type="audio/mpeg"/>
      <pubDate>Sun, 24 Dec 2017 21:37:32 +0000</pubDate>
      <title>Item 1 Title</title>
    </item>
  </channel>
</rss>"#;

const NOW: i64 = 1_514_200_000;

fn dir_podcast() -> DirectoryPodcast {
    DirectoryPodcast {
        id: 7,
        directory_id: 1,
        feed_url: Some("https://example.com/feed.xml".to_owned()),
        podcast_id: None,
        title: "Title".to_owned(),
        vendor_id: "471418144".to_owned(),
    }
}

fn stored_podcast(ins: insertable::Podcast, id: i64) -> Podcast {
    Podcast {
        id,
        image_url: ins.image_url,
        language: ins.language,
        last_retrieved_at: ins.last_retrieved_at,
        link_url: ins.link_url,
        title: ins.title,
    }
}

fn stored_episode(ins: insertable::Episode, id: i64) -> Episode {
    Episode {
        id,
        description: ins.description,
        explicit: ins.explicit,
        guid: ins.guid,
        link_url: ins.link_url,
        media_type: ins.media_type,
        media_url: ins.media_url,
        podcast_id: ins.podcast_id,
        published_at: ins.published_at,
        title: ins.title,
    }
}

// Drives one ingestion as a program with a database would, giving the rows
// identifiers from 1 on.
fn run(data: &[u8]) -> Result<RunResult, Error> {
    let updater = DirectoryPodcastUpdater::new(dir_podcast(), false);
    let (updater, action) = updater.run();
    match action {
        UpdateAction::Fetch { url } => assert_eq!("https://example.com/feed.xml", url),
        _ => panic!("expected a fetch"),
    }
    let (updater, action) = updater.step(UpdateEvent::Fetched {
        body: data.to_vec(),
        stored_hash: None,
        now: NOW,
    });
    let podcast = match action {
        UpdateAction::SavePodcast { id, podcast } => {
            assert_eq!(None, id);
            stored_podcast(podcast, 1)
        }
        UpdateAction::Abort(e) => return Err(e),
        _ => panic!("expected the podcast"),
    };
    let (updater, action) = updater.step(UpdateEvent::PodcastSaved(podcast));
    match action {
        UpdateAction::InsertContent(content) => {
            assert_eq!(data, content.content.as_slice());
            assert_eq!(1, content.podcast_id);
            assert_eq!(NOW, content.retrieved_at);
            assert_eq!(64, content.sha256_hash.len());
        }
        _ => panic!("expected the content"),
    }
    let (updater, action) = updater.step(UpdateEvent::ContentInserted);
    let episodes = match action {
        UpdateAction::InsertEpisodes { episodes, .. } => {
            let mut rows = Vec::new();
            for (i, ins) in episodes.into_iter().enumerate() {
                rows.push(stored_episode(ins, i as i64 + 1));
            }
            rows
        }
        UpdateAction::Abort(e) => return Err(e),
        _ => panic!("expected the episodes"),
    };
    let (updater, action) = updater.step(UpdateEvent::EpisodesInserted(episodes));
    assert!(matches!(action, UpdateAction::SaveDirectoryPodcast));
    assert_eq!(None, updater.dir_podcast.feed_url);
    assert_eq!(Some(1), updater.dir_podcast.podcast_id);
    let (updater, action) = updater.step(UpdateEvent::DirectoryPodcastSaved);
    assert!(matches!(updater.step, UpdateStep::Done));
    match action {
        UpdateAction::Finish(res) => Ok(res),
        _ => panic!("expected the end"),
    }
}

#[test]
fn test_ideal_feed() {
    let res = run(IDEAL_FEED.as_bytes()).unwrap();

    assert_ne!(0, res.podcast.id);
    assert_eq!(
        Some("https://example.com/podcast-image-url.jpg".to_owned()),
        res.podcast.image_url
    );
    assert_eq!(Some("en-US".to_owned()), res.podcast.language);
    assert_eq!(
        Some("https://example.com/podcast".to_owned()),
        res.podcast.link_url
    );
    assert_eq!("Title", res.podcast.title);

    assert_eq!(1, res.episodes.len());

    let episode = &res.episodes[0];
    assert_ne!(0, episode.id);
    assert_eq!(Some("Item 1 description".to_owned()), episode.description);
    assert_eq!(Some(true), episode.explicit);
    assert_eq!("1", episode.guid);
    assert_eq!(Some("audio/mpeg".to_owned()), episode.media_type);
    assert_eq!("https://example.com/item-1", episode.media_url);
    assert_eq!(res.podcast.id, episode.podcast_id);
    assert_eq!(
        Utc.with_ymd_and_hms(2017, 12, 24, 21, 37, 32).unwrap().timestamp(),
        episode.published_at
    );
}

#[test]
fn test_minimal_feed() {
    let res = run(MINIMAL_FEED.as_bytes()).unwrap();

    assert_eq!("Title", res.podcast.title);

    assert_eq!(1, res.episodes.len());

    let episode = &res.episodes[0];
    assert_eq!("1", episode.guid);
    assert_eq!("https://example.com/item-1", episode.media_url);
    assert_eq!(
        Utc.with_ymd_and_hms(2017, 12, 24, 21, 37, 32).unwrap().timestamp(),
        episode.published_at
    );
}

#[test]
fn test_parse_date_time() {
    // Valid RFC 2822
    assert_eq!(
        Utc.with_ymd_and_hms(2017, 12, 24, 21, 37, 32).unwrap().timestamp(),
        parse_date_time("Sun, 24 Dec 2017 21:37:32 +0000").ok().unwrap()
    );

    // Also valid -- check use of named timezones
    assert_eq!(
        FixedOffset::west_opt(5 * 3600)
            .unwrap()
            .with_ymd_and_hms(2017, 12, 24, 21, 37, 32)
            .unwrap()
            .with_timezone(&Utc)
            .timestamp(),
        parse_date_time("Sun, 24 Dec 2017 21:37:32 EST").ok().unwrap()
    );

    // A "-0000" is not valid to a strict reader; the repair handles it.
    assert_eq!(
        Utc.with_ymd_and_hms(2017, 12, 24, 21, 37, 32).unwrap().timestamp(),
        parse_date_time("Sun, 24 Dec 2017 21:37:32 -0000").ok().unwrap()
    );

    // Notice the truncated "0:"
    assert_eq!(
        FixedOffset::west_opt(5 * 3600)
            .unwrap()
            .with_ymd_and_hms(2017, 12, 24, 0, 37, 32)
            .unwrap()
            .with_timezone(&Utc)
            .timestamp(),
        parse_date_time("Sun, 24 Dec 2017 0:37:32 EST").ok().unwrap()
    );
}
