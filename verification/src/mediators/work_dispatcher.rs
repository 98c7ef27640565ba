//! The control side of a pool of workers.
//!
//! A pool has a fixed number of worker threads, a bounded channel on which
//! the control thread sends them units of work, and a bounded channel on
//! which they send back one result per unit. This module is the control
//! thread's protocol, as a state machine: the program around it selects,
//! sends, receives and sleeps as it is told, and reports back what happened.

use vstd::prelude::*;
use crate::errors::Error;

verus! {

/// How a pool is run.
#[derive(Clone, Copy, Debug)]
pub struct DispatchConfig {
    /// The number of worker threads.
    pub num_workers: u32,
    /// The largest batch that is selected at once.
    pub batch_cap: usize,
    /// How long to sleep, in seconds, after a select that found nothing.
    pub sleep_seconds: u64,
    /// Whether to poll again after a batch, or after finding nothing,
    /// rather than to stop.
    pub run_forever: bool,
}

/// Where the control thread stands.
#[derive(Clone, Copy, Debug, PartialEq, Eq, Structural)]
pub enum DispatchPhase {
    /// The workers have not been started.
    Idle,
    /// A batch is being selected.
    Selecting,
    /// A batch of `count` units is being sent to the workers.
    Sending { count: usize },
    /// Results are being received: `received` of `sent` have come in.
    Collecting { sent: usize, received: usize },
    /// The results of a batch are being persisted.
    Reporting,
    /// The control thread sleeps after a select that found nothing.
    Sleeping,
    /// The pool has been told to stop, or has failed.
    Finished,
}

/// What the program reports back to the control protocol.
#[derive(Clone, Copy, Debug, PartialEq, Eq, Structural)]
pub enum DispatchEvent {
    /// The workers are running.
    Started,
    /// A batch of `len` units was selected.
    Selected { len: usize },
    /// The whole batch is on the work channel.
    Sent,
    /// One result came in.
    Received,
    /// The results of the batch were persisted.
    Reported,
    /// The sleep is over.
    Slept,
    /// A worker thread was found to have panicked.
    WorkerPanicked,
}

/// What the control protocol asks the program to do next.
#[derive(Debug)]
pub enum DispatchAction {
    /// Select a batch of at most `limit` units.
    Select { limit: usize },
    /// Put the `count` units of the batch on the work channel.
    Send { count: usize },
    /// Wait for one result.
    Receive,
    /// Persist what the results of the batch call for.
    Report,
    /// Sleep, then say so.
    Sleep { seconds: u64 },
    /// Tell every worker to stop and wait for them. `total` units were
    /// sent in all.
    Shutdown { num_workers: u32, total: u64 },
    /// Give up with this error.
    Fail(Error),
}

/// The control protocol of one run of a pool.
#[derive(Debug)]
pub struct WorkDispatcher {
    pub config: DispatchConfig,
    pub phase: DispatchPhase,
    /// The number of units sent so far, at most `u64::MAX`.
    pub total: u64,
}

/// The sum of a running total and the size of one more batch, held at the
/// largest value that the total can take.
pub open spec fn total_after(total: u64, len: usize) -> u64 {
    if total + len <= u64::MAX {
        (total + len) as u64
    } else {
        u64::MAX
    }
}

/// Whether a pool of connections can serve `num_workers` workers, each
/// holding one connection for as long as it lives, and the control thread.
pub open spec fn pool_suffices(num_workers: u32, pool_size: u32) -> bool {
    pool_size >= num_workers + 1
}

/// Checks, before anything is started, that the connection pool is large
/// enough: one connection for each worker and one for the control thread.
pub fn check_pool_size(num_workers: u32, pool_size: u32) -> (checked: Result<(), Error>)
    ensures
        pool_suffices(num_workers, pool_size) ==> checked is Ok,
        !pool_suffices(num_workers, pool_size) ==> (checked matches Err(
            Error::PoolTooSmall { num_workers: workers, pool_size: size },
        ) && workers == num_workers && size == pool_size),
{
    if pool_size > num_workers {
        Ok(())
    } else {
        Err(Error::PoolTooSmall { num_workers, pool_size })
    }
}

impl WorkDispatcher {
    /// The phases in which the numbers of a batch make sense: while
    /// results are being received, at least one is still missing.
    pub open spec fn wf(self) -> bool {
        match self.phase {
            DispatchPhase::Sending { count } => count > 0,
            DispatchPhase::Collecting { sent, received } => received < sent,
            _ => true,
        }
    }

    /// The number of results that the control thread has yet to wait for
    /// before the batch at hand is complete.
    pub open spec fn outstanding(self) -> nat {
        match self.phase {
            DispatchPhase::Sending { count } => count as nat,
            DispatchPhase::Collecting { sent, received } => (sent - received) as nat,
            _ => 0,
        }
    }

    /// A control protocol that has not started.
    pub fn new(config: DispatchConfig) -> (dispatcher: WorkDispatcher)
        ensures
            dispatcher.config == config,
            dispatcher.phase == DispatchPhase::Idle,
            dispatcher.total == 0,
            dispatcher.wf(),
    {
        WorkDispatcher { config, phase: DispatchPhase::Idle, total: 0 }
    }

    /// What to do once nothing is left of a batch, or nothing was found:
    /// go on, in one case after a sleep, or stop.
    pub open spec fn after_batch(self, found: bool) -> (DispatchPhase, DispatchAction) {
        if !self.config.run_forever {
            (
                DispatchPhase::Finished,
                DispatchAction::Shutdown { num_workers: self.config.num_workers, total: self.total },
            )
        } else if found {
            (DispatchPhase::Selecting, DispatchAction::Select { limit: self.config.batch_cap })
        } else {
            (DispatchPhase::Sleeping, DispatchAction::Sleep { seconds: self.config.sleep_seconds })
        }
    }

    /// The phase and the action that follow `event` in the state `self`.
    pub open spec fn next(self, event: DispatchEvent) -> (DispatchPhase, DispatchAction) {
        match (self.phase, event) {
            (_, DispatchEvent::WorkerPanicked) => (
                DispatchPhase::Finished,
                DispatchAction::Fail(Error::WorkerPanicked),
            ),
            (DispatchPhase::Idle, DispatchEvent::Started) => (
                DispatchPhase::Selecting,
                DispatchAction::Select { limit: self.config.batch_cap },
            ),
            (DispatchPhase::Selecting, DispatchEvent::Selected { len }) => if len == 0 {
                self.after_batch(false)
            } else {
                (DispatchPhase::Sending { count: len }, DispatchAction::Send { count: len })
            },
            (DispatchPhase::Sending { count }, DispatchEvent::Sent) => (
                DispatchPhase::Collecting { sent: count, received: 0 },
                DispatchAction::Receive,
            ),
            (DispatchPhase::Collecting { sent, received }, DispatchEvent::Received) => if received
                + 1 < sent {
                (
                    DispatchPhase::Collecting { sent, received: (received + 1) as usize },
                    DispatchAction::Receive,
                )
            } else {
                (DispatchPhase::Reporting, DispatchAction::Report)
            },
            (DispatchPhase::Reporting, DispatchEvent::Reported) => self.after_batch(true),
            (DispatchPhase::Sleeping, DispatchEvent::Slept) => (
                DispatchPhase::Selecting,
                DispatchAction::Select { limit: self.config.batch_cap },
            ),
            _ => (DispatchPhase::Finished, DispatchAction::Fail(Error::Protocol)),
        }
    }

    /// The running total after `event` in the state `self`: a batch counts
    /// when it is selected.
    pub open spec fn next_total(self, event: DispatchEvent) -> u64 {
        match (self.phase, event) {
            (DispatchPhase::Selecting, DispatchEvent::Selected { len }) => total_after(
                self.total,
                len,
            ),
            _ => self.total,
        }
    }

    /// Takes what the program reports and says what to do next.
    ///
    /// A batch that was selected is sent whole; then exactly as many
    /// results are waited for as units were sent; then the results are
    /// persisted. After that, or after a select that found nothing, a pool
    /// that runs once stops. One that runs forever selects again, after a
    /// sleep if nothing was found. A worker that panicked, or an event out
    /// of turn, ends the run with an error.
    pub fn step(&mut self, event: DispatchEvent) -> (action: DispatchAction)
        ensures
            old(self).wf() ==> final(self).wf(),
            final(self).config == old(self).config,
            final(self).phase == old(self).next(event).0,
            action@ == old(self).next(event).1@,
            final(self).total == old(self).next_total(event),
            event == DispatchEvent::Received && old(self).phase is Collecting && old(self).wf() ==> {
                &&& final(self).outstanding() == old(self).outstanding() - 1
                &&& action is Report <==> final(self).outstanding() == 0
            },
    {
        let (phase, action) = match (self.phase, event) {
            (_, DispatchEvent::WorkerPanicked) => (
                DispatchPhase::Finished,
                DispatchAction::Fail(Error::WorkerPanicked),
            ),
            (DispatchPhase::Idle, DispatchEvent::Started) => (
                DispatchPhase::Selecting,
                DispatchAction::Select { limit: self.config.batch_cap },
            ),
            (DispatchPhase::Selecting, DispatchEvent::Selected { len }) => {
                if len == 0 {
                    self.after(false)
                } else {
                    self.total = if len as u64 <= u64::MAX - self.total {
                        self.total + len as u64
                    } else {
                        u64::MAX
                    };
                    (DispatchPhase::Sending { count: len }, DispatchAction::Send { count: len })
                }
            },
            (DispatchPhase::Sending { count }, DispatchEvent::Sent) => (
                DispatchPhase::Collecting { sent: count, received: 0 },
                DispatchAction::Receive,
            ),
            (DispatchPhase::Collecting { sent, received }, DispatchEvent::Received) => {
                if received < sent && sent - received > 1 {
                    (
                        DispatchPhase::Collecting { sent, received: received + 1 },
                        DispatchAction::Receive,
                    )
                } else {
                    (DispatchPhase::Reporting, DispatchAction::Report)
                }
            },
            (DispatchPhase::Reporting, DispatchEvent::Reported) => self.after(true),
            (DispatchPhase::Sleeping, DispatchEvent::Slept) => (
                DispatchPhase::Selecting,
                DispatchAction::Select { limit: self.config.batch_cap },
            ),
            _ => (DispatchPhase::Finished, DispatchAction::Fail(Error::Protocol)),
        };
        self.phase = phase;
        action
    }

    /// What to do once nothing is left of a batch (`found`), or nothing
    /// was found.
    fn after(&self, found: bool) -> (next: (DispatchPhase, DispatchAction))
        ensures
            next.0 == self.after_batch(found).0,
            next.1@ == self.after_batch(found).1@,
    {
        if !self.config.run_forever {
            (
                DispatchPhase::Finished,
                DispatchAction::Shutdown { num_workers: self.config.num_workers, total: self.total },
            )
        } else if found {
            (DispatchPhase::Selecting, DispatchAction::Select { limit: self.config.batch_cap })
        } else {
            (DispatchPhase::Sleeping, DispatchAction::Sleep { seconds: self.config.sleep_seconds })
        }
    }
}

/// What a [`DispatchAction`] holds, as mathematical values.
pub enum DispatchActionView {
    Select { limit: usize },
    Send { count: usize },
    Receive,
    Report,
    Sleep { seconds: u64 },
    Shutdown { num_workers: u32, total: u64 },
    Fail(crate::errors::ErrorView),
}

impl View for DispatchAction {
    type V = DispatchActionView;

    open spec fn view(&self) -> DispatchActionView {
        match *self {
            DispatchAction::Select { limit } => DispatchActionView::Select { limit },
            DispatchAction::Send { count } => DispatchActionView::Send { count },
            DispatchAction::Receive => DispatchActionView::Receive,
            DispatchAction::Report => DispatchActionView::Report,
            DispatchAction::Sleep { seconds } => DispatchActionView::Sleep { seconds },
            DispatchAction::Shutdown { num_workers, total } => DispatchActionView::Shutdown {
                num_workers,
                total,
            },
            DispatchAction::Fail(e) => DispatchActionView::Fail(e@),
        }
    }
}

} // verus!
