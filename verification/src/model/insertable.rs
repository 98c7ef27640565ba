//! Rows to write: the rows of [`super`] without the identifier that the
//! database assigns.

use vstd::prelude::*;
use crate::model::text_of;

verus! {

#[derive(Clone, Debug)]
pub struct Account {
    pub email: Option<String>,
    pub ephemeral: bool,
    pub last_ip: String,
}

#[derive(Clone, Debug)]
pub struct AccountPodcast {
    pub account_id: i64,
    pub podcast_id: i64,
    pub subscribed_at: i64,
    pub unsubscribed_at: Option<i64>,
}

#[derive(Clone, Debug)]
pub struct AccountPodcastEpisode {
    pub account_podcast_id: i64,
    pub episode_id: i64,
    pub listened_seconds: Option<i64>,
    pub played: bool,
}

#[derive(Clone, Debug)]
pub struct DirectoryPodcast {
    pub directory_id: i64,
    pub feed_url: Option<String>,
    pub podcast_id: Option<i64>,
    pub title: String,
    pub vendor_id: String,
}

#[derive(Clone, Debug)]
pub struct DirectoryPodcastException {
    pub directory_podcast_id: i64,
    pub errors: Vec<String>,
    pub occurred_at: i64,
}

#[derive(Clone, Debug)]
pub struct DirectoryPodcastDirectorySearch {
    pub directory_podcast_id: i64,
    pub directory_search_id: i64,
    pub position: i32,
}

#[derive(Clone, Debug)]
pub struct DirectorySearch {
    pub directory_id: i64,
    pub query: String,
    pub retrieved_at: i64,
}

#[derive(Clone, Debug)]
pub struct Episode {
    pub description: Option<String>,
    pub explicit: Option<bool>,
    pub guid: String,
    pub link_url: Option<String>,
    pub media_type: Option<String>,
    pub media_url: String,
    pub podcast_id: i64,
    pub published_at: i64,
    pub title: String,
}

#[derive(Clone, Debug)]
pub struct Job {
    pub args: String,
    pub name: String,
    pub try_at: i64,
}

#[derive(Clone, Debug)]
pub struct Key {
    pub account_id: i64,
    pub expire_at: Option<i64>,
    pub secret: String,
}

#[derive(Clone, Debug)]
pub struct Podcast {
    pub image_url: Option<String>,
    pub language: Option<String>,
    pub last_retrieved_at: i64,
    pub link_url: Option<String>,
    pub title: String,
}

#[derive(Clone, Debug)]
pub struct PodcastException {
    pub podcast_id: i64,
    pub errors: Vec<String>,
    pub occurred_at: i64,
}

#[derive(Clone, Debug)]
pub struct PodcastFeedContent {
    pub content: Vec<u8>,
    pub podcast_id: i64,
    pub retrieved_at: i64,
    pub sha256_hash: String,
}

#[derive(Clone, Debug)]
pub struct PodcastFeedLocation {
    pub first_retrieved_at: i64,
    pub feed_url: String,
    pub last_retrieved_at: i64,
    pub podcast_id: i64,
}

/// What an [`Episode`] to write holds, as mathematical values.
pub struct EpisodeView {
    pub description: Option<Seq<char>>,
    pub explicit: Option<bool>,
    pub guid: Seq<char>,
    pub link_url: Option<Seq<char>>,
    pub media_type: Option<Seq<char>>,
    pub media_url: Seq<char>,
    pub podcast_id: i64,
    pub published_at: i64,
    pub title: Seq<char>,
}

impl View for Episode {
    type V = EpisodeView;

    open spec fn view(&self) -> EpisodeView {
        EpisodeView {
            description: text_of(self.description),
            explicit: self.explicit,
            guid: self.guid@,
            link_url: text_of(self.link_url),
            media_type: text_of(self.media_type),
            media_url: self.media_url@,
            podcast_id: self.podcast_id,
            published_at: self.published_at,
            title: self.title@,
        }
    }
}

/// What a [`Podcast`] to write holds, as mathematical values.
pub struct PodcastView {
    pub image_url: Option<Seq<char>>,
    pub language: Option<Seq<char>>,
    pub last_retrieved_at: i64,
    pub link_url: Option<Seq<char>>,
    pub title: Seq<char>,
}

impl View for Podcast {
    type V = PodcastView;

    open spec fn view(&self) -> PodcastView {
        PodcastView {
            image_url: text_of(self.image_url),
            language: text_of(self.language),
            last_retrieved_at: self.last_retrieved_at,
            link_url: text_of(self.link_url),
            title: self.title@,
        }
    }
}

} // verus!
