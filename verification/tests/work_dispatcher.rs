use podcore::errors::Error;
use podcore::mediators::podcast_reingester::{work, PodcastReingester, PodcastTuple, NUM_THREADS};
use podcore::mediators::directory_podcast_updater::{UpdateAction, UpdateStep};
use podcore::mediators::work_dispatcher::{
    check_pool_size, DispatchAction, DispatchConfig, DispatchEvent, DispatchPhase, WorkDispatcher,
};

const MINIMAL_FEED: &str = r#"
<?xml version="1.0" encoding="UTF-8"?>
<rss>
  <channel>
    <title>Title</title>
    <item>
      <guid>1</guid>
      <media:content url="https://example.com/item-1" type="audio/mpeg"/>
      <pubDate>Sun, 24 Dec 2017 21:37:32 +0000</pubDate>
      <title>Item 1 Title</title>
    </item>
  </channel>
</rss>"#;

#[test]
fn test_check_pool_size() {
    assert!(check_pool_size(49, 50).is_ok());
    assert!(check_pool_size(0, 1).is_ok());
    assert!(matches!(
        check_pool_size(50, 50),
        Err(Error::PoolTooSmall { num_workers: 50, pool_size: 50 })
    ));
    assert!(matches!(check_pool_size(u32::MAX, u32::MAX), Err(Error::PoolTooSmall { .. })));
    assert!(matches!(check_pool_size(0, 0), Err(Error::PoolTooSmall { .. })));
}

#[test]
fn test_dispatcher_counts_receives() {
    let config = DispatchConfig { num_workers: 3, batch_cap: 100, sleep_seconds: 60, run_forever: false };
    let mut d = WorkDispatcher::new(config);
    assert!(matches!(d.step(DispatchEvent::Started), DispatchAction::Select { limit: 100 }));
    assert!(matches!(d.step(DispatchEvent::Selected { len: 5 }), DispatchAction::Send { count: 5 }));
    assert!(matches!(d.step(DispatchEvent::Sent), DispatchAction::Receive));
    let mut receives = 1;
    loop {
        match d.step(DispatchEvent::Received) {
            DispatchAction::Receive => receives += 1,
            DispatchAction::Report => break,
            other => panic!("unexpected action {:?}", other),
        }
    }
    assert_eq!(5, receives);
    assert_eq!(DispatchPhase::Reporting, d.phase);
    match d.step(DispatchEvent::Reported) {
        DispatchAction::Shutdown { num_workers, total } => {
            assert_eq!(3, num_workers);
            assert_eq!(5, total);
        }
        other => panic!("unexpected action {:?}", other),
    }
    assert_eq!(DispatchPhase::Finished, d.phase);
}

#[test]
fn test_dispatcher_out_of_turn() {
    let config = DispatchConfig { num_workers: 1, batch_cap: 10, sleep_seconds: 1, run_forever: true };
    let mut d = WorkDispatcher::new(config);
    assert!(matches!(d.step(DispatchEvent::Received), DispatchAction::Fail(Error::Protocol)));
    assert_eq!(DispatchPhase::Finished, d.phase);
    assert!(matches!(d.step(DispatchEvent::Started), DispatchAction::Fail(Error::Protocol)));
}

#[test]
fn test_dispatcher_total_saturates() {
    let config = DispatchConfig { num_workers: 1, batch_cap: 10, sleep_seconds: 1, run_forever: true };
    let mut d = WorkDispatcher { config, phase: DispatchPhase::Selecting, total: u64::MAX - 1 };
    assert!(matches!(d.step(DispatchEvent::Selected { len: 7 }), DispatchAction::Send { count: 7 }));
    assert_eq!(u64::MAX, d.total);
}

#[test]
fn test_basic() {
    // Replays a podcast for every worker slot five times over, as a run of
    // the reingester would hand them out.
    let mut reingester = PodcastReingester::new();
    assert!(matches!(
        reingester.run(DispatchEvent::Started),
        DispatchAction::Select { .. }
    ));
    let n = NUM_THREADS as usize * 5;
    assert!(matches!(
        reingester.run(DispatchEvent::Selected { len: n }),
        DispatchAction::Send { .. }
    ));
    assert!(matches!(reingester.run(DispatchEvent::Sent), DispatchAction::Receive));
    for i in 0..n {
        let tuple = PodcastTuple {
            id: i as i64,
            content: MINIMAL_FEED.to_owned(),
            feed_url: format!("https://example.com/feed-{}.xml", i),
        };
        let (step, action) = work(&tuple, &None, 0);
        assert!(matches!(step, UpdateStep::SavingPodcast { .. }));
        match action {
            UpdateAction::SavePodcast { id, .. } => assert_eq!(Some(i as i64), id),
            other => panic!("unexpected action {:?}", other),
        }
        let next = reingester.run(DispatchEvent::Received);
        if i + 1 < n {
            assert!(matches!(next, DispatchAction::Receive));
        } else {
            assert!(matches!(next, DispatchAction::Report));
        }
    }
    match reingester.run(DispatchEvent::Reported) {
        DispatchAction::Shutdown { num_workers, total } => {
            assert_eq!(100, num_workers);
            assert_eq!(500, total);
        }
        other => panic!("unexpected action {:?}", other),
    }
}

#[test]
fn test_replay_ignores_the_shortcut() {
    let tuple = PodcastTuple {
        id: 1,
        content: MINIMAL_FEED.to_owned(),
        feed_url: "https://example.com/feed.xml".to_owned(),
    };
    // The stored fingerprint is that of the content itself.
    let (_, first) = work(&tuple, &None, 0);
    assert!(matches!(first, UpdateAction::SavePodcast { .. }));
    let hash = "f6ab4eb6fd9bbb4a63e0ef0d2a5a4b913ed8bb3b0eedf0cf4fbc8fdc9c2c1f1b".to_owned();
    let (_, again) = work(&tuple, &Some(hash), 0);
    assert!(matches!(again, UpdateAction::SavePodcast { .. }));
}
