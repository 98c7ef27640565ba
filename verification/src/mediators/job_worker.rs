//! The durable job queue: which jobs are due, what becomes of a job that
//! was worked, and the control protocol of the pool that works them.
//!
//! A job that succeeded is deleted: that a row is gone is the only sign
//! that its job is done. A job that failed stays live and is tried again
//! later, the later the more often it has failed.

use vstd::prelude::*;
use crate::errors::Error;
use crate::jobs::verification_mailer;
use crate::mediators::work_dispatcher::{
    DispatchAction, DispatchConfig, DispatchEvent, DispatchPhase, WorkDispatcher,
};
use crate::model::Job;

verus! {

/// The maximum number of jobs to select in one batch.
pub const MAX_JOBS: usize = 100;

/// Number of seconds to sleep after finding no jobs to work.
pub const SLEEP_SECONDS: u64 = 60;

/// What a run of the job worker did.
#[derive(Debug)]
pub struct RunResult {
    pub num_jobs: u64,
}

/// What became of one job: `e` is the error if it failed, and
/// `num_errors` is then the number of times that it has failed so far.
#[derive(Debug)]
pub struct JobResult {
    pub id: i64,
    pub e: Option<Error>,
    pub num_errors: i32,
}

/// What working a job came to.
#[derive(Debug)]
pub enum JobOutcome {
    Succeeded,
    /// The handler failed. The job is tried again later.
    Failed(Error),
    /// No handler goes by the job's name. This is a fault of the
    /// configuration: trying again cannot help.
    Unsupported(Error),
}

/// A job to try again: at `try_at`, with `num_errors` failures on record.
#[derive(Clone, Copy, Debug, PartialEq, Eq, Structural)]
pub struct JobRetry {
    pub id: i64,
    pub num_errors: i32,
    pub try_at: i64,
}

/// What to persist for a batch: the jobs to delete, and the jobs to try
/// again.
#[derive(Debug)]
pub struct BatchReport {
    pub succeeded_ids: Vec<i64>,
    pub retries: Vec<JobRetry>,
}

/// The delay in seconds before a job that has failed `num_errors` times
/// is tried again: the fourth power of the number, and three.
pub open spec fn backoff_seconds(num_errors: int) -> int {
    num_errors * num_errors * num_errors * num_errors + 3
}

/// The delay as a machine integer: [`backoff_seconds`], held at the
/// largest value where that does not fit.
pub open spec fn next_retry_seconds(num_errors: i32) -> i64 {
    if backoff_seconds(num_errors as int) <= i64::MAX {
        backoff_seconds(num_errors as int) as i64
    } else {
        i64::MAX
    }
}

/// The time at which a job that failed at `now`, for the `num_errors`th
/// time, is tried again: `now` and the delay, held at the largest value
/// where that does not fit.
pub open spec fn retry_at(now: i64, num_errors: i32) -> i64 {
    if now + next_retry_seconds(num_errors) > i64::MAX {
        i64::MAX
    } else {
        (now + next_retry_seconds(num_errors)) as i64
    }
}

/// The number of failures on record after one more: one more than
/// before, held at the largest value.
pub open spec fn errors_after(num_errors: i32) -> i32 {
    if num_errors < i32::MAX {
        (num_errors + 1) as i32
    } else {
        i32::MAX
    }
}

/// Gets the time in seconds that should elapse before the next time a job
/// is tried: 4 after the first failure, then 19, 84, 259, 628 and so on.
pub fn next_retry(num_errors: i32) -> (seconds: i64)
    ensures
        seconds == next_retry_seconds(num_errors),
        seconds >= 3,
{
    let n: i128 = num_errors as i128;
    assert(0 <= n * n <= 0x4000_0000_0000_0000) by (nonlinear_arith)
        requires
            -0x8000_0000 <= n <= 0x7fff_ffff,
    ;
    let square: i128 = n * n;
    assert(0 <= square * square <= 0x1000_0000_0000_0000_0000_0000_0000_0000) by (nonlinear_arith)
        requires
            0 <= square <= 0x4000_0000_0000_0000,
    ;
    let fourth: i128 = square * square;
    assert(fourth == n * n * n * n) by (nonlinear_arith)
        requires
            fourth == square * square,
            square == n * n,
    ;
    let delay: i128 = fourth + 3;
    if delay <= i64::MAX as i128 {
        delay as i64
    } else {
        i64::MAX
    }
}

/// The result to send back for a job that was worked, given the number of
/// failures that it had on record.
pub fn job_result(job_id: i64, job_num_errors: i32, outcome: Result<(), Error>) -> (result:
    JobResult)
    ensures
        result.id == job_id,
        outcome is Ok ==> result.e is None && result.num_errors == 0,
        outcome matches Err(e) ==> result.e == Some(e) && result.num_errors == errors_after(
            job_num_errors,
        ),
{
    match outcome {
        Ok(()) => JobResult { id: job_id, num_errors: 0, e: None },
        Err(e) => JobResult {
            id: job_id,
            num_errors: if job_num_errors < i32::MAX {
                job_num_errors + 1
            } else {
                i32::MAX
            },
            e: Some(e),
        },
    }
}

/// Works a single job, whose payload the caller has decoded as far as it
/// could: `args` is `None` where the payload does not have the shape that
/// the handler expects.
///
/// A job whose name is not that of a handler is unsupported. A job with
/// a payload of the wrong shape has failed. Any other job is handed to
/// its handler.
pub fn work_job(job: &Job, args: Option<verification_mailer::Args>) -> (outcome: JobOutcome)
    ensures
        job.name@ != verification_mailer::NAME@ ==> (outcome matches JobOutcome::Unsupported(
            Error::UnsupportedJob { name },
        ) && name@ == job.name@),
        job.name@ == verification_mailer::NAME@ && args is None ==> (outcome
            matches JobOutcome::Failed(Error::JobHandler { cause }) && cause@
            == "Error decoding job arguments"@),
        job.name@ == verification_mailer::NAME@ && args is Some ==> outcome is Succeeded,
{
    if job.name != verification_mailer::NAME.to_owned() {
        return JobOutcome::Unsupported(Error::UnsupportedJob { name: job.name.clone() });
    }
    match args {
        None => JobOutcome::Failed(
            Error::JobHandler { cause: "Error decoding job arguments".to_owned() },
        ),
        Some(args) => {
            let handler = verification_mailer::Job { args };
            match handler.run() {
                Ok(()) => JobOutcome::Succeeded,
                Err(e) => JobOutcome::Failed(e),
            }
        },
    }
}

impl BatchReport {
    /// The report of a batch of which no result has come in.
    pub fn new() -> (report: BatchReport)
        ensures
            report.succeeded_ids@ == Seq::<i64>::empty(),
            report.retries@ == Seq::<JobRetry>::empty(),
    {
        BatchReport { succeeded_ids: Vec::new(), retries: Vec::new() }
    }

    /// The jobs to delete after one more result, which came in at `now`.
    pub open spec fn succeeded_after(self, result: JobResult) -> Seq<i64> {
        if result.e is None {
            self.succeeded_ids@.push(result.id)
        } else {
            self.succeeded_ids@
        }
    }

    /// The jobs to try again after one more result, which came in at
    /// `now`.
    pub open spec fn retries_after(self, result: JobResult, now: i64) -> Seq<JobRetry> {
        if result.e is None {
            self.retries@
        } else {
            self.retries@.push(
                JobRetry {
                    id: result.id,
                    num_errors: result.num_errors,
                    try_at: retry_at(now, result.num_errors),
                },
            )
        }
    }

    /// Takes in one result, which came in at `now`: a job that succeeded
    /// is to be deleted, a job that failed is to be tried again after its
    /// delay.
    pub fn record(&mut self, result: JobResult, now: i64)
        ensures
            final(self).succeeded_ids@ == old(self).succeeded_after(result),
            final(self).retries@ == old(self).retries_after(result, now),
    {
        match result.e {
            None => {
                self.succeeded_ids.push(result.id);
            },
            Some(_) => {
                let delay = next_retry(result.num_errors);
                let try_at = if now <= i64::MAX - delay {
                    now + delay
                } else {
                    i64::MAX
                };
                self.retries.push(JobRetry { id: result.id, num_errors: result.num_errors, try_at });
            },
        }
    }
}

/// What the program reports back to the control thread of the job
/// worker.
#[derive(Debug)]
pub enum QueueEvent {
    /// The workers are running.
    Started,
    /// A batch of `len` jobs was selected.
    Selected { len: usize },
    /// The whole batch is on the work channel.
    Sent,
    /// One result came in, at `now`.
    Received { result: JobResult, now: i64 },
    /// The report was persisted.
    Reported,
    /// The sleep is over.
    Slept,
    /// A worker thread was found to have panicked.
    WorkerPanicked,
}

/// What the control thread of the job worker is to do next.
#[derive(Debug)]
pub enum QueueAction {
    /// Select at most `limit` jobs that are live and due.
    Select { limit: usize },
    /// Put the `count` jobs of the batch on the work channel.
    Send { count: usize },
    /// Wait for one result.
    Receive,
    /// In one transaction, delete the jobs that succeeded and reschedule
    /// those that failed.
    Report(BatchReport),
    /// Sleep, then say so.
    Sleep { seconds: u64 },
    /// Let the workers run out and wait for them; then return this.
    Finish(RunResult),
    /// Give up with this error.
    Fail(Error),
}

impl QueueEvent {
    /// The event as the control protocol of the pool sees it.
    pub open spec fn dispatch_event(self) -> DispatchEvent {
        match self {
            QueueEvent::Started => DispatchEvent::Started,
            QueueEvent::Selected { len } => DispatchEvent::Selected { len },
            QueueEvent::Sent => DispatchEvent::Sent,
            QueueEvent::Received { .. } => DispatchEvent::Received,
            QueueEvent::Reported => DispatchEvent::Reported,
            QueueEvent::Slept => DispatchEvent::Slept,
            QueueEvent::WorkerPanicked => DispatchEvent::WorkerPanicked,
        }
    }
}

/// The job worker: a pool of workers on the job queue, seen from its
/// control thread.
#[derive(Debug)]
pub struct Mediator {
    /// Number of workers to use.
    pub num_workers: u32,
    /// Tells the worker to run forever rather than fall through after
    /// fetching one batch of jobs.
    pub run_forever: bool,
    pub control: WorkDispatcher,
    /// The results of the batch at hand, as far as they have come in.
    pub report: BatchReport,
}

impl Mediator {
    /// A job worker that has not started.
    pub fn new(num_workers: u32, run_forever: bool) -> (mediator: Mediator)
        ensures
            mediator.num_workers == num_workers,
            mediator.run_forever == run_forever,
            mediator.control.config == (DispatchConfig {
                num_workers,
                batch_cap: MAX_JOBS,
                sleep_seconds: SLEEP_SECONDS,
                run_forever,
            }),
            mediator.control.phase == DispatchPhase::Idle,
            mediator.control.total == 0,
            mediator.report.succeeded_ids@.len() == 0,
            mediator.report.retries@.len() == 0,
    {
        let config = DispatchConfig {
            num_workers,
            batch_cap: MAX_JOBS,
            sleep_seconds: SLEEP_SECONDS,
            run_forever,
        };
        Mediator {
            num_workers,
            run_forever,
            control: WorkDispatcher::new(config),
            report: BatchReport::new(),
        }
    }

    /// Starts the run, once the workers are running: asks for the first
    /// batch to be selected.
    pub fn run(&mut self) -> (action: QueueAction)
        ensures
            Self::step_post(*old(self), QueueEvent::Started, *final(self), action),
            old(self).control.wf() ==> final(self).control.wf(),
    {
        self.queue_and_report_jobs(QueueEvent::Started)
    }

    /// Whether `event` is a result that belongs to the batch at hand.
    pub open spec fn takes_result(self, event: QueueEvent) -> bool {
        event is Received && self.control.phase is Collecting
    }

    /// The jobs to delete as on record once `event` is taken in.
    pub open spec fn succeeded_with(self, event: QueueEvent) -> Seq<i64> {
        match event {
            QueueEvent::Received { result, now } if self.control.phase is Collecting =>
                self.report.succeeded_after(result),
            _ => self.report.succeeded_ids@,
        }
    }

    /// The jobs to try again as on record once `event` is taken in.
    pub open spec fn retries_with(self, event: QueueEvent) -> Seq<JobRetry> {
        match event {
            QueueEvent::Received { result, now } if self.control.phase is Collecting =>
                self.report.retries_after(result, now),
            _ => self.report.retries@,
        }
    }

    /// What `after` and `action` must be once `before` has taken `event`.
    ///
    /// The control protocol of the pool decides the phase and the kind of
    /// action. A result that belongs to the batch at hand goes on
    /// record. When the last one is in, everything on record is handed
    /// out to be persisted and the record starts afresh.
    pub open spec fn step_post(
        before: Mediator,
        event: QueueEvent,
        after: Mediator,
        action: QueueAction,
    ) -> bool {
        let (phase, expected) = before.control.next(event.dispatch_event());
        &&& after.num_workers == before.num_workers
        &&& after.run_forever == before.run_forever
        &&& after.control.config == before.control.config
        &&& after.control.phase == phase
        &&& after.control.total == before.control.next_total(event.dispatch_event())
        &&& match expected {
            DispatchAction::Select { limit } => action matches QueueAction::Select { limit: l }
                && l == limit,
            DispatchAction::Send { count } => action matches QueueAction::Send { count: c } && c
                == count,
            DispatchAction::Receive => action is Receive,
            DispatchAction::Sleep { seconds } => action matches QueueAction::Sleep { seconds: s }
                && s == seconds,
            DispatchAction::Shutdown { num_workers, total } => action matches QueueAction::Finish(
                res,
            ) && res.num_jobs == total,
            DispatchAction::Fail(e) => action matches QueueAction::Fail(error) && error@ == e@,
            DispatchAction::Report => action matches QueueAction::Report(report)
                && report.succeeded_ids@ == before.succeeded_with(event) && report.retries@
                == before.retries_with(event),
        }
        &&& if expected is Report {
            after.report.succeeded_ids@.len() == 0 && after.report.retries@.len() == 0
        } else {
            after.report.succeeded_ids@ == before.succeeded_with(event) && after.report.retries@
                == before.retries_with(event)
        }
    }

    /// The control thread's part of working the queue: takes what the
    /// program reports and says what to do next.
    ///
    /// Jobs are selected in batches of at most [`MAX_JOBS`]. Every job of
    /// a batch is sent to the workers, and one result is waited for per
    /// job. The jobs that succeeded are then deleted and those that failed
    /// rescheduled. If no job is found, a worker that runs forever sleeps
    /// [`SLEEP_SECONDS`] and selects again; one that does not is done.
    pub fn queue_and_report_jobs(&mut self, event: QueueEvent) -> (action: QueueAction)
        ensures
            Self::step_post(*old(self), event, *final(self), action),
            old(self).control.wf() ==> final(self).control.wf(),
    {
        let collecting = match self.control.phase {
            DispatchPhase::Collecting { .. } => true,
            _ => false,
        };
        let dispatch_event = match event {
            QueueEvent::Started => DispatchEvent::Started,
            QueueEvent::Selected { len } => DispatchEvent::Selected { len },
            QueueEvent::Sent => DispatchEvent::Sent,
            QueueEvent::Received { result, now } => {
                if collecting {
                    self.report.record(result, now);
                }
                DispatchEvent::Received
            },
            QueueEvent::Reported => DispatchEvent::Reported,
            QueueEvent::Slept => DispatchEvent::Slept,
            QueueEvent::WorkerPanicked => DispatchEvent::WorkerPanicked,
        };
        match self.control.step(dispatch_event) {
            DispatchAction::Select { limit } => QueueAction::Select { limit },
            DispatchAction::Send { count } => QueueAction::Send { count },
            DispatchAction::Receive => QueueAction::Receive,
            DispatchAction::Sleep { seconds } => QueueAction::Sleep { seconds },
            DispatchAction::Shutdown { num_workers, total } => QueueAction::Finish(
                RunResult { num_jobs: total },
            ),
            DispatchAction::Fail(e) => QueueAction::Fail(e),
            DispatchAction::Report => {
                let mut report = BatchReport::new();
                std::mem::swap(&mut report, &mut self.report);
                QueueAction::Report(report)
            },
        }
    }
}

/// Whether a job may be selected at `now`: it is live and its time has
/// come.
pub open spec fn is_due(job: Job, now: i64) -> bool {
    job.live && job.try_at <= now
}

/// The batch drawn from `rows` at `now`: the jobs that are due, in the
/// order of the rows, up to `limit` of them.
pub open spec fn due_jobs(rows: Seq<Job>, now: i64, limit: nat) -> Seq<Job> {
    let due = rows.filter(|job: Job| is_due(job, now));
    if due.len() <= limit {
        due
    } else {
        due.take(limit as int)
    }
}

/// The first entry for the job `id` among `retries`, if there is one.
pub open spec fn retry_for(retries: Seq<JobRetry>, id: i64) -> Option<JobRetry>
    decreases retries.len(),
{
    if retries.len() == 0 {
        None
    } else if retries[0].id == id {
        Some(retries[0])
    } else {
        retry_for(retries.subrange(1, retries.len() as int), id)
    }
}

/// What becomes of one row when a report is persisted: it is deleted if
/// its job succeeded, rescheduled if its job failed, and left as it is
/// otherwise.
pub open spec fn job_after(job: Job, succeeded: Seq<i64>, retries: Seq<JobRetry>) -> Option<Job> {
    if succeeded.contains(job.id) {
        None
    } else {
        match retry_for(retries, job.id) {
            Some(retry) => Some(Job { num_errors: retry.num_errors, try_at: retry.try_at, ..job }),
            None => Some(job),
        }
    }
}

/// The rows that are left of `rows`, in order, when a report is
/// persisted.
pub open spec fn jobs_after(rows: Seq<Job>, succeeded: Seq<i64>, retries: Seq<JobRetry>) -> Seq<Job>
    decreases rows.len(),
{
    if rows.len() == 0 {
        Seq::empty()
    } else {
        let before = jobs_after(rows.drop_last(), succeeded, retries);
        match job_after(rows.last(), succeeded, retries) {
            Some(job) => before.push(job),
            None => before,
        }
    }
}

/// A copy of `job`.
pub fn copy_job(job: &Job) -> (copy: Job)
    ensures
        copy == *job,
{
    Job {
        id: job.id,
        args: job.args.clone(),
        live: job.live,
        name: job.name.clone(),
        num_errors: job.num_errors,
        try_at: job.try_at,
    }
}

/// Selects a batch from the rows of the queue as they stand at `now`:
/// the jobs that are live and due, in the order of the rows, and no more
/// than `limit` of them.
pub fn select_jobs(rows: &Vec<Job>, now: i64, limit: usize) -> (batch: Vec<Job>)
    ensures
        batch@ == due_jobs(rows@, now, limit as nat),
        batch@.len() <= limit,
{
    let ghost due = |job: Job| is_due(job, now);
    let mut batch: Vec<Job> = Vec::new();
    let mut i: usize = 0;
    assert(rows@.subrange(0, 0) =~= Seq::empty());
    while i < rows.len() && batch.len() < limit
        invariant
            i <= rows.len(),
            batch@.len() <= limit,
            batch@ == rows@.subrange(0, i as int).filter(due),
            due == |job: Job| is_due(job, now),
        decreases rows.len() - i,
    {
        proof {
            let prefix = rows@.subrange(0, i + 1);
            assert(prefix.drop_last() =~= rows@.subrange(0, i as int));
            assert(prefix.last() == rows@[i as int]);
            reveal(Seq::filter);
        }
        if rows[i].live && rows[i].try_at <= now {
            batch.push(copy_job(&rows[i]));
        }
        i = i + 1;
    }
    proof {
        let head = rows@.subrange(0, i as int);
        let tail = rows@.subrange(i as int, rows@.len() as int);
        assert(rows@ =~= head + tail);
        Seq::filter_distributes_over_add(head, tail, due);
        if i < rows.len() {
            assert((head.filter(due) + tail.filter(due)).take(limit as int) =~= head.filter(due));
        } else {
            assert(tail =~= Seq::empty());
            assert(head.filter(due) + tail.filter(due) =~= head.filter(due));
        }
    }
    batch
}

/// Whether `id` is among `ids`.
pub fn contains_id(ids: &Vec<i64>, id: i64) -> (found: bool)
    ensures
        found == ids@.contains(id),
{
    let mut i: usize = 0;
    while i < ids.len()
        invariant
            i <= ids.len(),
            forall|j: int| 0 <= j < i ==> ids@[j] != id,
        decreases ids.len() - i,
    {
        if ids[i] == id {
            return true;
        }
        i = i + 1;
    }
    false
}

/// The first entry for the job `id` among `retries`, if there is one.
pub fn find_retry(retries: &Vec<JobRetry>, id: i64) -> (found: Option<JobRetry>)
    ensures
        found == retry_for(retries@, id),
{
    let mut i: usize = 0;
    assert(retries@.subrange(0, retries@.len() as int) =~= retries@);
    while i < retries.len()
        invariant
            i <= retries.len(),
            retry_for(retries@, id) == retry_for(
                retries@.subrange(i as int, retries@.len() as int),
                id,
            ),
        decreases retries.len() - i,
    {
        let ghost tail = retries@.subrange(i as int, retries@.len() as int);
        assert(tail[0] == retries@[i as int]);
        assert(tail.subrange(1, tail.len() as int) =~= retries@.subrange(
            i + 1,
            retries@.len() as int,
        ));
        if retries[i].id == id {
            return Some(retries[i]);
        }
        i = i + 1;
    }
    None
}

/// Persists a report on rows held in memory: what a database does for
/// [`QueueAction::Report`]. The jobs that succeeded are deleted; the jobs
/// that failed get their new time and number of failures; every other row
/// stays as it is, and the order of the rows is kept.
pub fn report_jobs(rows: &Vec<Job>, report: &BatchReport) -> (left: Vec<Job>)
    ensures
        left@ == jobs_after(rows@, report.succeeded_ids@, report.retries@),
{
    let mut left: Vec<Job> = Vec::new();
    let mut i: usize = 0;
    assert(rows@.subrange(0, 0) =~= Seq::empty());
    while i < rows.len()
        invariant
            i <= rows.len(),
            left@ == jobs_after(
                rows@.subrange(0, i as int),
                report.succeeded_ids@,
                report.retries@,
            ),
        decreases rows.len() - i,
    {
        proof {
            let prefix = rows@.subrange(0, i + 1);
            assert(prefix.drop_last() =~= rows@.subrange(0, i as int));
            assert(prefix.last() == rows@[i as int]);
        }
        if !contains_id(&report.succeeded_ids, rows[i].id) {
            let job = copy_job(&rows[i]);
            match find_retry(&report.retries, job.id) {
                Some(retry) => {
                    left.push(Job { num_errors: retry.num_errors, try_at: retry.try_at, ..job });
                },
                None => {
                    left.push(job);
                },
            }
        }
        i = i + 1;
    }
    assert(rows@.subrange(0, i as int) =~= rows@);
    left
}

/// The row that stands for `job` once its failure is on record: the same
/// job, still live, with the new time and number of failures.
pub open spec fn rescheduled(job: Job, retry: JobRetry) -> Job {
    Job { num_errors: retry.num_errors, try_at: retry.try_at, ..job }
}

/// What the results of a batch put on record when they come in one after
/// the other at `now`: the jobs to delete and the jobs to try again.
pub open spec fn report_of(results: Seq<JobResult>, now: i64) -> (Seq<i64>, Seq<JobRetry>)
    decreases results.len(),
{
    if results.len() == 0 {
        (Seq::empty(), Seq::empty())
    } else {
        let before = report_of(results.drop_last(), now);
        let result = results.last();
        if result.e is None {
            (before.0.push(result.id), before.1)
        } else {
            (
                before.0,
                before.1.push(
                    JobRetry {
                        id: result.id,
                        num_errors: result.num_errors,
                        try_at: retry_at(now, result.num_errors),
                    },
                ),
            )
        }
    }
}

/// No two results are for the same job.
pub open spec fn one_result_per_job(results: Seq<JobResult>) -> bool {
    forall|j: int, k: int|
        0 <= j < results.len() && 0 <= k < results.len() && j != k ==> results[j].id
            != results[k].id
}

/// What is on record for a job says what its result was: the job is to
/// be deleted exactly if a result says that it succeeded, and to be tried
/// again, at the time that its number of failures calls for, exactly if a
/// result says that it failed.
pub proof fn lemma_report_of(results: Seq<JobResult>, now: i64, id: i64)
    requires
        one_result_per_job(results),
    ensures
        report_of(results, now).0.contains(id) <==> exists|k: int|
            0 <= k < results.len() && results[k].id == id && results[k].e is None,
        retry_for(report_of(results, now).1, id) is Some <==> exists|k: int|
            0 <= k < results.len() && results[k].id == id && results[k].e is Some,
        forall|k: int|
            0 <= k < results.len() && results[k].id == id && results[k].e is Some ==> retry_for(
                report_of(results, now).1,
                id,
            ) == Some(
                JobRetry {
                    id,
                    num_errors: results[k].num_errors,
                    try_at: retry_at(now, results[k].num_errors),
                },
            ),
    decreases results.len(),
{
    if results.len() > 0 {
        let front = results.drop_last();
        let last = results.last();
        let before = report_of(front, now);
        assert(one_result_per_job(front)) by {
            assert forall|j: int, k: int|
                0 <= j < front.len() && 0 <= k < front.len() && j != k implies front[j].id
                != front[k].id by {
                assert(front[j] == results[j] && front[k] == results[k]);
            }
        }
        lemma_report_of(front, now, id);
        assert forall|k: int| 0 <= k < front.len() implies front[k] == results[k] by {}
        if last.e is None {
            assert(report_of(results, now).0 == before.0.push(last.id));
            if before.0.contains(id) {
                let k = choose|k: int|
                    0 <= k < front.len() && front[k].id == id && front[k].e is None;
                assert(results[k].id == id && results[k].e is None);
            }
            if last.id == id {
                assert(before.0.push(last.id)[before.0.len() as int] == id);
                assert(results[results.len() - 1].id == id);
            }
            if report_of(results, now).0.contains(id) && last.id != id {
                let i = choose|i: int|
                    0 <= i < before.0.len() + 1 && before.0.push(last.id)[i] == id;
                assert(before.0[i] == id);
            }
            if exists|k: int| 0 <= k < results.len() && results[k].id == id && results[k].e is None {
                let k = choose|k: int|
                    0 <= k < results.len() && results[k].id == id && results[k].e is None;
                if k < front.len() {
                    assert(front[k].id == id && front[k].e is None);
                    let i = choose|i: int| 0 <= i < before.0.len() && before.0[i] == id;
                    assert(before.0.push(last.id)[i] == id);
                }
            }
            if exists|k: int| 0 <= k < results.len() && results[k].id == id && results[k].e is Some {
                let k = choose|k: int|
                    0 <= k < results.len() && results[k].id == id && results[k].e is Some;
                assert(front[k].id == id && front[k].e is Some);
            }
            if retry_for(before.1, id) is Some {
                let k = choose|k: int|
                    0 <= k < front.len() && front[k].id == id && front[k].e is Some;
                assert(results[k].id == id && results[k].e is Some);
            }
        } else {
            let retry = JobRetry {
                id: last.id,
                num_errors: last.num_errors,
                try_at: retry_at(now, last.num_errors),
            };
            assert(report_of(results, now).1 == before.1.push(retry));
            lemma_retry_for_push(before.1, retry, id);
            if retry_for(before.1, id) is Some {
                let k = choose|k: int|
                    0 <= k < front.len() && front[k].id == id && front[k].e is Some;
                assert(results[k].id == id && results[k].e is Some);
                assert(last.id != id);
            }
            if exists|k: int| 0 <= k < results.len() && results[k].id == id && results[k].e is Some {
                let k = choose|k: int|
                    0 <= k < results.len() && results[k].id == id && results[k].e is Some;
                if k < front.len() {
                    assert(front[k].id == id && front[k].e is Some);
                }
            }
            if exists|k: int| 0 <= k < results.len() && results[k].id == id && results[k].e is None {
                let k = choose|k: int|
                    0 <= k < results.len() && results[k].id == id && results[k].e is None;
                assert(front[k].id == id && front[k].e is None);
            }
            if before.0.contains(id) {
                let k = choose|k: int|
                    0 <= k < front.len() && front[k].id == id && front[k].e is None;
                assert(results[k].id == id && results[k].e is None);
            }
            assert forall|k: int|
                0 <= k < results.len() && results[k].id == id && results[k].e is Some implies retry_for(
                report_of(results, now).1,
                id,
            ) == Some(
                JobRetry {
                    id,
                    num_errors: results[k].num_errors,
                    try_at: retry_at(now, results[k].num_errors),
                },
            ) by {
                if k < front.len() {
                    assert(front[k].id == id && front[k].e is Some);
                }
            }
        }
    }
}

/// The first entry for a job among retries with one more at the end: the
/// one found before, or else the new one if it is for that job.
pub proof fn lemma_retry_for_push(retries: Seq<JobRetry>, retry: JobRetry, id: i64)
    ensures
        retry_for(retries.push(retry), id) == match retry_for(retries, id) {
            Some(found) => Some(found),
            None => if retry.id == id {
                Some(retry)
            } else {
                None
            },
        },
    decreases retries.len(),
{
    let longer = retries.push(retry);
    if retries.len() == 0 {
        assert(longer[0] == retry);
        assert(longer.subrange(1, longer.len() as int).len() == 0);
        assert(retry_for(longer.subrange(1, longer.len() as int), id) is None);
    } else {
        assert(longer[0] == retries[0]);
        assert(longer.subrange(1, longer.len() as int) =~= retries.subrange(
            1,
            retries.len() as int,
        ).push(retry));
        lemma_retry_for_push(retries.subrange(1, retries.len() as int), retry, id);
    }
}

/// What is left of the rows when a report is persisted.
///
/// No row is left of a job that is to be deleted. Every other row is
/// left, in its old place among those that are left: changed as the
/// report says if its job is to be tried again, and exactly as it was if
/// the report does not speak of it.
pub proof fn lemma_jobs_after(rows: Seq<Job>, succeeded: Seq<i64>, retries: Seq<JobRetry>)
    ensures
        forall|k: int|
            0 <= k < jobs_after(rows, succeeded, retries).len() ==> !succeeded.contains(
                (#[trigger] jobs_after(rows, succeeded, retries)[k]).id,
            ),
        forall|k: int|
            0 <= k < jobs_after(rows, succeeded, retries).len() ==> exists|i: int|
                0 <= i < rows.len() && job_after(rows[i], succeeded, retries) == Some(
                    #[trigger] jobs_after(rows, succeeded, retries)[k],
                ),
        forall|i: int|
            0 <= i < rows.len() && !succeeded.contains((#[trigger] rows[i]).id) ==> jobs_after(
                rows,
                succeeded,
                retries,
            ).contains(job_after(rows[i], succeeded, retries)->0),
    decreases rows.len(),
{
    let after = jobs_after(rows, succeeded, retries);
    if rows.len() > 0 {
        let front = rows.drop_last();
        let before = jobs_after(front, succeeded, retries);
        lemma_jobs_after(front, succeeded, retries);
        assert forall|k: int| 0 <= k < after.len() implies !succeeded.contains(
            (#[trigger] after[k]).id,
        ) by {
            if k < before.len() {
                assert(after[k] == before[k]);
            }
        }
        assert forall|k: int| 0 <= k < after.len() implies exists|i: int|
            0 <= i < rows.len() && job_after(rows[i], succeeded, retries) == Some(
                #[trigger] after[k],
            ) by {
            if k < before.len() {
                assert(after[k] == before[k]);
                let i = choose|i: int|
                    0 <= i < front.len() && job_after(front[i], succeeded, retries) == Some(
                        before[k],
                    );
                assert(rows[i] == front[i]);
            } else {
                assert(job_after(rows[rows.len() - 1], succeeded, retries) == Some(after[k]));
            }
        }
        assert forall|i: int|
            0 <= i < rows.len() && !succeeded.contains((#[trigger] rows[i]).id) implies after.contains(
            job_after(rows[i], succeeded, retries)->0,
        ) by {
            let kept = job_after(rows[i], succeeded, retries)->0;
            if i < front.len() {
                assert(front[i] == rows[i]);
                assert(before.contains(kept));
                let k = choose|k: int| 0 <= k < before.len() && before[k] == kept;
                assert(after[k] == kept);
            } else {
                assert(after[after.len() - 1] == kept);
            }
        }
    }
}

/// One cycle of the queue, from the rows' point of view.
///
/// `rows` are the rows of the queue when the report of a batch is
/// persisted: the jobs of the batch and whatever else is there, such as
/// jobs that arrived after the batch was drawn. `results` are the results
/// of the batch, one per job, which came in at `now`. Then:
///
/// - no row is left of a job that succeeded;
/// - a row whose job failed is left, still live, with the number of
///   failures of its result and the time to try again that this number
///   calls for;
/// - a row of which the batch has no result is left exactly as it was;
/// - nothing else is left.
pub proof fn lemma_dispatch_cycle(rows: Seq<Job>, results: Seq<JobResult>, now: i64)
    requires
        one_result_per_job(results),
    ensures
        ({
            let report = report_of(results, now);
            let after = jobs_after(rows, report.0, report.1);
            &&& forall|k: int, r: int|
                0 <= k < after.len() && 0 <= r < results.len() && results[r].e is None
                    ==> (#[trigger] after[k]).id != (#[trigger] results[r]).id
            &&& forall|i: int, r: int|
                0 <= i < rows.len() && 0 <= r < results.len() && results[r].e is Some
                    && results[r].id == rows[i].id ==> after.contains(
                    rescheduled(
                        #[trigger] rows[i],
                        JobRetry {
                            id: rows[i].id,
                            num_errors: (#[trigger] results[r]).num_errors,
                            try_at: retry_at(now, results[r].num_errors),
                        },
                    ),
                )
            &&& forall|i: int|
                0 <= i < rows.len() && (forall|r: int|
                    0 <= r < results.len() ==> results[r].id != rows[i].id) ==> after.contains(
                    #[trigger] rows[i],
                )
            &&& forall|k: int|
                0 <= k < after.len() ==> exists|i: int|
                    0 <= i < rows.len() && job_after(rows[i], report.0, report.1) == Some(
                        #[trigger] after[k],
                    )
        }),
{
    let report = report_of(results, now);
    let after = jobs_after(rows, report.0, report.1);
    lemma_jobs_after(rows, report.0, report.1);
    assert forall|k: int, r: int|
        0 <= k < after.len() && 0 <= r < results.len() && results[r].e is None implies (
    #[trigger] after[k]).id != (#[trigger] results[r]).id by {
        lemma_report_of(results, now, results[r].id);
    }
    assert forall|i: int, r: int|
        0 <= i < rows.len() && 0 <= r < results.len() && results[r].e is Some && results[r].id
            == rows[i].id implies after.contains(
        rescheduled(
            #[trigger] rows[i],
            JobRetry {
                id: rows[i].id,
                num_errors: (#[trigger] results[r]).num_errors,
                try_at: retry_at(now, results[r].num_errors),
            },
        ),
    ) by {
        lemma_report_of(results, now, rows[i].id);
        if report.0.contains(rows[i].id) {
            let s = choose|s: int|
                0 <= s < results.len() && results[s].id == rows[i].id && results[s].e is None;
            assert(s != r);
        }
    }
    assert forall|i: int|
        0 <= i < rows.len() && (forall|r: int|
            0 <= r < results.len() ==> results[r].id != rows[i].id) implies after.contains(
        #[trigger] rows[i],
    ) by {
        lemma_report_of(results, now, rows[i].id);
    }
}

/// A job that is drawn and fails is tried again later than it was due,
/// with one more failure on record: its row stays live, its time to try
/// again lies after `now`, and so after the time for which it was due.
pub proof fn lemma_failed_job_advances(job: Job, drawn_at: i64, now: i64)
    requires
        is_due(job, drawn_at),
        drawn_at <= now < i64::MAX,
        job.num_errors < i32::MAX,
    ensures
        ({
            let num_errors = errors_after(job.num_errors);
            let after = rescheduled(
                job,
                JobRetry { id: job.id, num_errors, try_at: retry_at(now, num_errors) },
            );
            &&& after.live
            &&& after.id == job.id
            &&& after.num_errors == job.num_errors + 1
            &&& after.try_at > now
            &&& after.try_at > job.try_at
            &&& !is_due(after, now)
        }),
{
    let n = errors_after(job.num_errors) as int;
    assert(n * n * n * n >= 0) by (nonlinear_arith);
}

} // verus!
