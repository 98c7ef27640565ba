//! Replaying stored feeds: every podcast's feed as stored last is put
//! through ingestion once more, so that a change to the parser or to
//! validation reaches what was ingested before.

use vstd::prelude::*;
use crate::mediators::directory_podcast_updater::{
    feed_fetched, fetched_post, UpdateAction, UpdateStep,
};
use crate::mediators::work_dispatcher::{
    DispatchAction, DispatchConfig, DispatchEvent, DispatchPhase, WorkDispatcher,
};
use crate::model::text_of;

verus! {

/// The upper bound on the number of worker threads, so that the database
/// is not overrun with connections.
pub const NUM_THREADS: u32 = 100;

/// The number of podcasts that are on the work channel at once, at
/// most.
pub const WORK_CAPACITY: usize = 100;

/// What a run of the reingester did.
#[derive(Clone, Copy, Debug, PartialEq, Eq, Structural)]
pub struct RunResult {}

/// A podcast to replay: its feed body as stored last, and the URL at
/// which its feed was found last.
#[derive(Clone, Debug)]
pub struct PodcastTuple {
    pub id: i64,
    pub content: String,
    pub feed_url: String,
}

/// The reingester, seen from its control thread.
#[derive(Debug)]
pub struct PodcastReingester {
    pub control: WorkDispatcher,
}

impl PodcastReingester {
    /// A reingester that has not started. It runs once: every podcast
    /// that is selected is replayed, and then the workers are told to
    /// stop.
    pub fn new() -> (reingester: PodcastReingester)
        ensures
            reingester.control.config == (DispatchConfig {
                num_workers: NUM_THREADS,
                batch_cap: usize::MAX,
                sleep_seconds: 0,
                run_forever: false,
            }),
            reingester.control.phase == DispatchPhase::Idle,
            reingester.control.total == 0,
            reingester.control.wf(),
    {
        PodcastReingester {
            control: WorkDispatcher::new(
                DispatchConfig {
                    num_workers: NUM_THREADS,
                    batch_cap: usize::MAX,
                    sleep_seconds: 0,
                    run_forever: false,
                },
            ),
        }
    }

    /// Takes what the program reports and says what to do next: select
    /// the podcasts, send them all to the workers, wait for as many
    /// results, and tell the workers to stop.
    pub fn run(&mut self, event: DispatchEvent) -> (action: DispatchAction)
        ensures
            old(self).control.wf() ==> final(self).control.wf(),
            final(self).control.config == old(self).control.config,
            final(self).control.phase == old(self).control.next(event).0,
            action@ == old(self).control.next(event).1@,
            final(self).control.total == old(self).control.next_total(event),
    {
        self.control.step(event)
    }
}

/// A worker's part: replays one podcast at `now`.
///
/// The stored body takes the place of a fetch, and the shortcut is
/// disabled: the point is to do past work again, so the feed is read and
/// validated even though its fingerprint is the one stored last. What it
/// gives is written over the podcast's row.
pub fn work(podcast_tuple: &PodcastTuple, stored_hash: &Option<String>, now: i64) -> (next: (
    UpdateStep,
    UpdateAction,
))
    ensures
        fetched_post(
            true,
            vstd::utf8::encode_utf8(podcast_tuple.content@),
            Some(podcast_tuple.id),
            text_of(*stored_hash),
            now,
            next.0,
            next.1,
        ),
        !(next.1 is UpToDate),
{
    let content = podcast_tuple.content.as_str().as_bytes_vec();
    feed_fetched(true, content, Some(podcast_tuple.id), stored_hash, now)
}

} // verus!
