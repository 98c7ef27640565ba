use podcore::errors::Error;
use podcore::jobs::{no_op, verification_mailer};
use podcore::mediators::job_worker::{
    job_result, next_retry, report_jobs, select_jobs, work_job, BatchReport, JobOutcome,
    JobResult, JobRetry, Mediator, QueueAction, QueueEvent, MAX_JOBS, SLEEP_SECONDS,
};
use podcore::model::Job;

fn job(id: i64, live: bool, try_at: i64, num_errors: i32) -> Job {
    Job {
        id,
        args: format!("{{\"to\":\"foo@example.com\",\"verification_code_id\":{}}}", id),
        live,
        name: verification_mailer::NAME.to_owned(),
        num_errors,
        try_at,
    }
}

fn failure() -> Error {
    Error::JobHandler { cause: "boom".to_owned() }
}

#[test]
fn test_job_worker_next_retry() {
    assert_eq!(4, next_retry(1));
    assert_eq!(19, next_retry(2));
    assert_eq!(84, next_retry(3));
    assert_eq!(259, next_retry(4));
    assert_eq!(628, next_retry(5));
}

#[test]
fn test_next_retry_edges() {
    assert_eq!(3, next_retry(0));
    assert_eq!(4, next_retry(-1));
    // 55108^4 + 3 still fits; 55109^4 does not.
    assert_eq!(9_222_710_978_872_688_899, next_retry(55108));
    assert_eq!(i64::MAX, next_retry(55109));
    assert_eq!(i64::MAX, next_retry(i32::MAX));
    assert_eq!(i64::MAX, next_retry(i32::MIN));
}

#[test]
fn test_job_no_op_run() {
    no_op::Job {
        args: no_op::Args {
            message: "Hello, world".to_owned(),
        },
    }
    .run()
    .unwrap();
}

#[test]
fn test_job_verification_mailer_run() {
    verification_mailer::Job {
        args: verification_mailer::Args {
            to: "foo@example.com".to_owned(),
            verification_code_id: 0,
        },
    }
    .run()
    .unwrap();
}

#[test]
fn test_enqueue() {
    let row = verification_mailer::enqueue("{\"to\":\"a\"}".to_owned(), 1234);
    assert_eq!("{\"to\":\"a\"}", row.args);
    assert_eq!("verification_mailer", row.name);
    assert_eq!(1234, row.try_at);
}

#[test]
fn test_job_result() {
    let ok = job_result(7, 3, Ok(()));
    assert_eq!(7, ok.id);
    assert!(ok.e.is_none());
    assert_eq!(0, ok.num_errors);

    let failed = job_result(8, 3, Err(failure()));
    assert_eq!(8, failed.id);
    assert!(matches!(failed.e, Some(Error::JobHandler { .. })));
    assert_eq!(4, failed.num_errors);

    let saturated = job_result(9, i32::MAX, Err(failure()));
    assert_eq!(i32::MAX, saturated.num_errors);
}

#[test]
fn test_work_job() {
    let args = verification_mailer::Args {
        to: "foo@example.com".to_owned(),
        verification_code_id: 1,
    };
    assert!(matches!(
        work_job(&job(1, true, 0, 0), Some(args.clone())),
        JobOutcome::Succeeded
    ));
    assert!(matches!(
        work_job(&job(1, true, 0, 0), None),
        JobOutcome::Failed(Error::JobHandler { .. })
    ));
    let mut unknown = job(2, true, 0, 0);
    unknown.name = "no_such_job".to_owned();
    match work_job(&unknown, Some(args)) {
        JobOutcome::Unsupported(Error::UnsupportedJob { name }) => {
            assert_eq!("no_such_job", name)
        }
        other => panic!("unexpected outcome: {:?}", other),
    }
}

#[test]
fn test_select_jobs() {
    let rows = vec![
        job(1, true, 100, 0),
        job(2, false, 50, 0),
        job(3, true, 101, 0),
        job(4, true, 99, 2),
        job(5, true, 100, 1),
    ];
    let ids = |batch: Vec<Job>| batch.iter().map(|j| j.id).collect::<Vec<_>>();
    assert_eq!(vec![1, 4, 5], ids(select_jobs(&rows, 100, MAX_JOBS)));
    assert_eq!(vec![1, 4], ids(select_jobs(&rows, 100, 2)));
    assert_eq!(Vec::<i64>::new(), ids(select_jobs(&rows, 100, 0)));
    assert_eq!(Vec::<i64>::new(), ids(select_jobs(&rows, 98, MAX_JOBS)));
}

#[test]
fn test_batch_report_record() {
    let mut report = BatchReport::new();
    report.record(JobResult { id: 1, e: None, num_errors: 0 }, 1000);
    report.record(JobResult { id: 2, e: Some(failure()), num_errors: 1 }, 1000);
    report.record(JobResult { id: 3, e: Some(failure()), num_errors: 5 }, 2000);
    report.record(JobResult { id: 4, e: Some(failure()), num_errors: 2 }, i64::MAX - 5);
    assert_eq!(vec![1], report.succeeded_ids);
    assert_eq!(
        vec![
            JobRetry { id: 2, num_errors: 1, try_at: 1004 },
            JobRetry { id: 3, num_errors: 5, try_at: 2628 },
            JobRetry { id: 4, num_errors: 2, try_at: i64::MAX },
        ],
        report.retries
    );
}

// One cycle: the rows that survive are those that failed, rescheduled, and
// those that were not part of the batch; no row of a job that succeeded
// remains.
#[test]
fn test_dispatch_cycle_survivors() {
    let drawn_at = 1000;
    let mut rows = vec![
        job(1, true, 900, 0),
        job(2, true, 950, 1),
        job(3, true, 5000, 0),
        job(4, true, 1000, 0),
    ];
    let batch = select_jobs(&rows, drawn_at, MAX_JOBS);
    assert_eq!(3, batch.len());
    // A job arrives after the batch was drawn.
    rows.push(job(5, true, 1001, 0));

    let now = 1010;
    let mut report = BatchReport::new();
    for j in &batch {
        let outcome = if j.id == 2 { Err(failure()) } else { Ok(()) };
        report.record(job_result(j.id, j.num_errors, outcome), now);
    }
    let left = report_jobs(&rows, &report);
    assert_eq!(vec![2, 3, 5], left.iter().map(|j| j.id).collect::<Vec<_>>());
    let failed = &left[0];
    assert!(failed.live);
    assert_eq!(2, failed.num_errors);
    assert_eq!(now + 19, failed.try_at);
    assert_eq!(rows[1].args, failed.args);
    assert_eq!(5000, left[1].try_at);
    assert_eq!(0, left[1].num_errors);
    assert_eq!(1001, left[2].try_at);
    // What was rescheduled is not due at once.
    assert!(select_jobs(&left, now, MAX_JOBS).iter().all(|j| j.id != 2));
}

fn expect_select(action: QueueAction) {
    match action {
        QueueAction::Select { limit } => assert_eq!(100, limit),
        other => panic!("expected a select, got {:?}", other),
    }
}

#[test]
fn test_queue_one_shot() {
    let mut mediator = Mediator::new(4, false);
    expect_select(mediator.run());
    match mediator.queue_and_report_jobs(QueueEvent::Selected { len: 3 }) {
        QueueAction::Send { count } => assert_eq!(3, count),
        other => panic!("expected a send, got {:?}", other),
    }
    assert!(matches!(
        mediator.queue_and_report_jobs(QueueEvent::Sent),
        QueueAction::Receive
    ));
    // Exactly as many receives as jobs were sent.
    let received = |id: i64, e: Option<Error>, num_errors: i32| QueueEvent::Received {
        result: JobResult { id, e, num_errors },
        now: 50,
    };
    assert!(matches!(
        mediator.queue_and_report_jobs(received(1, None, 0)),
        QueueAction::Receive
    ));
    assert!(matches!(
        mediator.queue_and_report_jobs(received(2, Some(failure()), 1)),
        QueueAction::Receive
    ));
    match mediator.queue_and_report_jobs(received(3, None, 0)) {
        QueueAction::Report(report) => {
            assert_eq!(vec![1, 3], report.succeeded_ids);
            assert_eq!(vec![JobRetry { id: 2, num_errors: 1, try_at: 54 }], report.retries);
        }
        other => panic!("expected a report, got {:?}", other),
    }
    assert!(mediator.report.succeeded_ids.is_empty());
    match mediator.queue_and_report_jobs(QueueEvent::Reported) {
        QueueAction::Finish(res) => assert_eq!(3, res.num_jobs),
        other => panic!("expected the end, got {:?}", other),
    }
    // Nothing more is expected.
    assert!(matches!(
        mediator.queue_and_report_jobs(QueueEvent::Reported),
        QueueAction::Fail(Error::Protocol)
    ));
}

#[test]
fn test_queue_empty_batch() {
    let mut once = Mediator::new(1, false);
    expect_select(once.run());
    match once.queue_and_report_jobs(QueueEvent::Selected { len: 0 }) {
        QueueAction::Finish(res) => assert_eq!(0, res.num_jobs),
        other => panic!("expected the end, got {:?}", other),
    }

    let mut forever = Mediator::new(1, true);
    expect_select(forever.run());
    match forever.queue_and_report_jobs(QueueEvent::Selected { len: 0 }) {
        QueueAction::Sleep { seconds } => {
            assert_eq!(60, seconds);
            assert_eq!(SLEEP_SECONDS, seconds);
        }
        other => panic!("expected a sleep, got {:?}", other),
    }
    expect_select(forever.queue_and_report_jobs(QueueEvent::Slept));
    match forever.queue_and_report_jobs(QueueEvent::Selected { len: 1 }) {
        QueueAction::Send { count } => assert_eq!(1, count),
        other => panic!("expected a send, got {:?}", other),
    }
    assert!(matches!(
        forever.queue_and_report_jobs(QueueEvent::Sent),
        QueueAction::Receive
    ));
    assert!(matches!(
        forever.queue_and_report_jobs(QueueEvent::Received {
            result: JobResult { id: 1, e: None, num_errors: 0 },
            now: 0
        }),
        QueueAction::Report(_)
    ));
    expect_select(forever.queue_and_report_jobs(QueueEvent::Reported));
    assert_eq!(1, forever.control.total);
}

#[test]
fn test_queue_worker_panic() {
    let mut mediator = Mediator::new(2, true);
    expect_select(mediator.run());
    assert!(matches!(
        mediator.queue_and_report_jobs(QueueEvent::Selected { len: 2 }),
        QueueAction::Send { count: 2 }
    ));
    assert!(matches!(
        mediator.queue_and_report_jobs(QueueEvent::WorkerPanicked),
        QueueAction::Fail(Error::WorkerPanicked)
    ));
}
