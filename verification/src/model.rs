//! The rows that the library reads and the rows that it asks to have
//! written.
//!
//! Rows that were read carry the identifier that the database gave them. The
//! rows to write, which have none yet, are in [`insertable`]. Points in time
//! are whole seconds since the Unix epoch, in UTC.

use vstd::prelude::*;

pub mod insertable;

verus! {

/// The view of an optional text: the characters it holds, if any.
pub open spec fn text_of(value: Option<String>) -> Option<Seq<char>> {
    match value {
        Some(s) => Some(s@),
        None => None,
    }
}

/// Someone who uses the service, known or not.
#[derive(Clone, Debug)]
pub struct Account {
    pub id: i64,
    pub created_at: i64,
    pub email: Option<String>,
    pub ephemeral: bool,
    pub last_ip: String,
    pub last_seen_at: i64,
}

/// A subscription of an account to a podcast.
#[derive(Clone, Debug)]
pub struct AccountPodcast {
    pub id: i64,
    pub account_id: i64,
    pub podcast_id: i64,
    pub subscribed_at: i64,
    pub unsubscribed_at: Option<i64>,
}

/// How far an account has listened to an episode.
#[derive(Clone, Debug)]
pub struct AccountPodcastEpisode {
    pub id: i64,
    pub account_podcast_id: i64,
    pub episode_id: i64,
    pub listened_seconds: Option<i64>,
    pub played: bool,
}

/// An outside directory of podcasts.
#[derive(Clone, Debug)]
pub struct Directory {
    pub id: i64,
    pub name: String,
}

/// An entry of an outside directory of podcasts. `feed_url` is present while
/// the entry still waits to be ingested and is cleared once it has been.
#[derive(Clone, Debug)]
pub struct DirectoryPodcast {
    pub id: i64,
    pub directory_id: i64,
    pub feed_url: Option<String>,
    pub podcast_id: Option<i64>,
    pub title: String,
    pub vendor_id: String,
}

/// What went wrong when a directory entry was last ingested.
#[derive(Clone, Debug)]
pub struct DirectoryPodcastException {
    pub id: i64,
    pub directory_podcast_id: i64,
    pub errors: Vec<String>,
    pub occurred_at: i64,
}

/// The place of a directory entry in the results of a search.
#[derive(Clone, Debug)]
pub struct DirectoryPodcastDirectorySearch {
    pub id: i64,
    pub directory_podcast_id: i64,
    pub directory_search_id: i64,
    pub position: i32,
}

/// A search that was run against a directory.
#[derive(Clone, Debug)]
pub struct DirectorySearch {
    pub id: i64,
    pub directory_id: i64,
    pub query: String,
    pub retrieved_at: i64,
}

/// One episode of a podcast.
#[derive(Clone, Debug)]
pub struct Episode {
    pub id: i64,
    pub description: Option<String>,
    pub explicit: Option<bool>,
    pub guid: String,
    pub link_url: Option<String>,
    pub media_type: Option<String>,
    pub media_url: String,
    pub podcast_id: i64,
    pub published_at: i64,
    pub title: String,
}

/// A unit of work in the durable queue. `args` is a payload whose shape
/// `name` decides; the library carries it without looking inside.
#[derive(Clone, Debug)]
pub struct Job {
    pub id: i64,
    pub args: String,
    pub live: bool,
    pub name: String,
    pub num_errors: i32,
    pub try_at: i64,
}

/// A secret by which an account is known.
#[derive(Clone, Debug)]
pub struct Key {
    pub id: i64,
    pub account_id: i64,
    pub created_at: i64,
    pub expire_at: Option<i64>,
    pub secret: String,
}

/// A podcast. The title is never empty.
#[derive(Clone, Debug)]
pub struct Podcast {
    pub id: i64,
    pub image_url: Option<String>,
    pub language: Option<String>,
    pub last_retrieved_at: i64,
    pub link_url: Option<String>,
    pub title: String,
}

/// What went wrong when a podcast was last ingested.
#[derive(Clone, Debug)]
pub struct PodcastException {
    pub id: i64,
    pub podcast_id: i64,
    pub errors: Vec<String>,
    pub occurred_at: i64,
}

/// One stored snapshot of a feed's body.
#[derive(Clone, Debug)]
pub struct PodcastFeedContent {
    pub id: i64,
    pub podcast_id: i64,
    pub retrieved_at: i64,
    pub sha256_hash: String,
    pub content: Vec<u8>,
}

/// A URL at which a podcast's feed has been found.
#[derive(Clone, Debug)]
pub struct PodcastFeedLocation {
    pub id: i64,
    pub first_retrieved_at: i64,
    pub feed_url: String,
    pub last_retrieved_at: i64,
    pub podcast_id: i64,
}

} // verus!
