//! The units of work: ingesting a feed, working the job queue, replaying
//! stored feeds, and cleaning up old snapshots.

pub mod directory_podcast_updater;
pub mod work_dispatcher;
pub mod job_worker;
pub mod cleaner;
pub mod podcast_reingester;
