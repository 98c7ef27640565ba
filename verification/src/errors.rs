//! The errors of the library.

use vstd::prelude::*;

verus! {

/// What can go wrong while a feed is ingested or a job is worked.
#[derive(Debug)]
pub enum Error {
    /// The directory entry has no feed URL left to fetch.
    NoFeedUrl,
    /// The feed body is not valid UTF-8 text.
    InvalidEncoding,
    /// The document holds no `rss` element.
    NoRssTag,
    /// The `rss` element holds no `channel` element.
    NoChannelTag,
    /// The feed as a whole was rejected, with the reason.
    InvalidFeed { message: &'static str },
    /// The publishing date of an item could not be read, even after repair.
    /// `input` is the date as it stood after the repairs.
    DateParse { input: String },
    /// The connection pool cannot serve the workers and the control thread.
    PoolTooSmall { num_workers: u32, pool_size: u32 },
    /// A job names a handler that this library does not have.
    UnsupportedJob { name: String },
    /// A handler failed on a job.
    JobHandler { cause: String },
    /// A worker thread panicked.
    WorkerPanicked,
    /// A step was handed an event that its state does not expect.
    Protocol,
}

/// What an [`Error`] holds, as mathematical values.
pub enum ErrorView {
    NoFeedUrl,
    InvalidEncoding,
    NoRssTag,
    NoChannelTag,
    InvalidFeed { message: Seq<char> },
    DateParse { input: Seq<char> },
    PoolTooSmall { num_workers: u32, pool_size: u32 },
    UnsupportedJob { name: Seq<char> },
    JobHandler { cause: Seq<char> },
    WorkerPanicked,
    Protocol,
}

impl View for Error {
    type V = ErrorView;

    open spec fn view(&self) -> ErrorView {
        match *self {
            Error::NoFeedUrl => ErrorView::NoFeedUrl,
            Error::InvalidEncoding => ErrorView::InvalidEncoding,
            Error::NoRssTag => ErrorView::NoRssTag,
            Error::NoChannelTag => ErrorView::NoChannelTag,
            Error::InvalidFeed { message } => ErrorView::InvalidFeed { message: message@ },
            Error::DateParse { input } => ErrorView::DateParse { input: input@ },
            Error::PoolTooSmall { num_workers, pool_size } => ErrorView::PoolTooSmall {
                num_workers,
                pool_size,
            },
            Error::UnsupportedJob { name } => ErrorView::UnsupportedJob { name: name@ },
            Error::JobHandler { cause } => ErrorView::JobHandler { cause: cause@ },
            Error::WorkerPanicked => ErrorView::WorkerPanicked,
            Error::Protocol => ErrorView::Protocol,
        }
    }
}

impl Error {
    /// A fixed description of the kind of error.
    pub open spec fn spec_description(self) -> Seq<char> {
        match self {
            Error::NoFeedUrl => "Directory podcast has no feed URL"@,
            Error::InvalidEncoding => "Feed body is not valid UTF-8"@,
            Error::NoRssTag => "No rss tag found"@,
            Error::NoChannelTag => "No channel tag found"@,
            Error::InvalidFeed { message } => message@,
            Error::DateParse { .. } => "Error parsing publishing date from feed item"@,
            Error::PoolTooSmall { .. } => "Connection pool too small for the number of workers"@,
            Error::UnsupportedJob { .. } => "Job not covered!"@,
            Error::JobHandler { .. } => "Error working job"@,
            Error::WorkerPanicked => "A worker thread panicked"@,
            Error::Protocol => "Unexpected event"@,
        }
    }

    /// A fixed description of the kind of error.
    pub fn description(&self) -> (text: &'static str)
        ensures
            text@ == self.spec_description(),
    {
        match self {
            Error::NoFeedUrl => "Directory podcast has no feed URL",
            Error::InvalidEncoding => "Feed body is not valid UTF-8",
            Error::NoRssTag => "No rss tag found",
            Error::NoChannelTag => "No channel tag found",
            Error::InvalidFeed { message } => message,
            Error::DateParse { .. } => "Error parsing publishing date from feed item",
            Error::PoolTooSmall { .. } => "Connection pool too small for the number of workers",
            Error::UnsupportedJob { .. } => "Job not covered!",
            Error::JobHandler { .. } => "Error working job",
            Error::WorkerPanicked => "A worker thread panicked",
            Error::Protocol => "Unexpected event",
        }
    }
}

} // verus!
