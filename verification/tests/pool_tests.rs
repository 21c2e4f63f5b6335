use rustify::pool::{PoolError, ReportEntry, TaskOutcome, TaskSpec, ThreadPool, WorkerStep};

fn task(id: u64) -> TaskSpec {
    TaskSpec { id, panics: false }
}

fn panicking_task(id: u64) -> TaskSpec {
    TaskSpec { id, panics: true }
}

fn completed(id: u64) -> ReportEntry {
    ReportEntry { id, outcome: TaskOutcome::Completed }
}

#[test]
fn zero_sized_pool_is_rejected_before_spawning() {
    let r = ThreadPool::build(0);
    assert!(matches!(r, Err(PoolError::ZeroSize)));
}

#[test]
fn positive_pool_builds_open_and_empty() {
    let p = ThreadPool::build(4).unwrap();
    assert_eq!(p.size, 4);
    assert!(p.open);
    assert!(p.pending.is_empty());
    assert!(p.report.is_empty());
    assert_eq!(p.joined, 0);
}

#[test]
fn all_tasks_run_exactly_once_and_teardown_joins_all() {
    let mut p = ThreadPool::build(2).unwrap();
    for id in 10..15 {
        p.execute(task(id));
    }
    p.shutdown();
    let expected: Vec<ReportEntry> = (10..15).map(completed).collect();
    assert_eq!(p.report, expected);
    assert!(p.pending.is_empty());
    assert!(!p.open);
    assert_eq!(p.joined, 2);
}

#[test]
fn empty_pool_shutdown_still_joins_every_worker() {
    let mut p = ThreadPool::build(3).unwrap();
    p.shutdown();
    assert!(p.report.is_empty());
    assert_eq!(p.joined, 3);
}

#[test]
fn workers_drain_the_queue_in_submission_order() {
    let mut p = ThreadPool::build(1).unwrap();
    p.execute(task(7));
    p.execute(task(8));
    assert_eq!(p.worker_step(), WorkerStep::Ran(completed(7)));
    assert_eq!(p.worker_step(), WorkerStep::Ran(completed(8)));
    assert_eq!(p.worker_step(), WorkerStep::Parked);
    p.close();
    assert_eq!(p.worker_step(), WorkerStep::Disconnected);
}

#[test]
fn a_panicking_task_is_reported_and_later_tasks_still_complete() {
    let mut p = ThreadPool::build(2).unwrap();
    p.execute(task(1));
    p.execute(panicking_task(2));
    p.execute(task(3));
    p.shutdown();
    assert_eq!(
        p.report,
        vec![
            completed(1),
            ReportEntry { id: 2, outcome: TaskOutcome::Panicked },
            completed(3),
        ]
    );
    assert_eq!(p.joined, 2);
}
