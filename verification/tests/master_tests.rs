use rustify::master::{
    classify_wait_status, fork_branch, reap_decision, worker_count_from_probe, ExitKind,
    ForkBranch, ReapReport, Supervisor, WorkerProcessRecord,
};

#[test]
fn a_clear_low_byte_is_a_normal_exit_with_the_second_byte_code() {
    assert_eq!(classify_wait_status(0), ExitKind::Exited { code: 0 });
    assert_eq!(classify_wait_status(23 << 8), ExitKind::Exited { code: 23 });
    assert_eq!(classify_wait_status(1 << 8), ExitKind::Exited { code: 1 });
}

#[test]
fn low_bits_neither_clear_nor_full_are_the_terminating_signal() {
    assert_eq!(classify_wait_status(9), ExitKind::Signaled { signal: 9 });
    assert_eq!(classify_wait_status(15), ExitKind::Signaled { signal: 15 });
    assert_eq!(classify_wait_status(6 | (1 << 7)), ExitKind::Signaled { signal: 6 });
}

#[test]
fn a_stopped_child_status_is_neither_exit_nor_signal() {
    assert_eq!(classify_wait_status(0x7f), ExitKind::Other);
    assert_eq!(classify_wait_status((19 << 8) | 0x7f), ExitKind::Other);
}

#[test]
fn a_positive_reap_yields_exactly_one_report_for_that_pid() {
    assert_eq!(
        reap_decision(42, 9),
        Some(ReapReport { pid: 42, kind: ExitKind::Signaled { signal: 9 } })
    );
    assert_eq!(
        reap_decision(7, 3 << 8),
        Some(ReapReport { pid: 7, kind: ExitKind::Exited { code: 3 } })
    );
}

#[test]
fn transient_reap_probes_yield_nothing() {
    assert_eq!(reap_decision(0, 0), None);
    assert_eq!(reap_decision(-1, 0), None);
}

#[test]
fn fork_results_pick_the_right_branch() {
    assert_eq!(fork_branch(3, 0), ForkBranch::RunWorker { ordinal: 3 });
    assert_eq!(fork_branch(3, 1234), ForkBranch::RecordChild { ordinal: 3, pid: 1234 });
    assert_eq!(fork_branch(3, -1), ForkBranch::AbortStartup);
}

#[test]
fn worker_count_uses_the_probe_or_falls_back() {
    assert_eq!(worker_count_from_probe(8, 4), 8);
    assert_eq!(worker_count_from_probe(1, 4), 1);
    assert_eq!(worker_count_from_probe(0, 4), 4);
    assert_eq!(worker_count_from_probe(-1, 4), 4);
}

#[test]
fn a_reap_updates_exactly_the_matching_record() {
    let mut s = Supervisor::new();
    s.record_fork(0, 100);
    s.record_fork(1, 101);
    s.record_fork(2, 102);

    let known = s.record_reap(101, 9);
    assert!(known);
    assert_eq!(
        s.workers,
        vec![
            WorkerProcessRecord { ordinal: 0, pid: 100, exit: None },
            WorkerProcessRecord {
                ordinal: 1,
                pid: 101,
                exit: Some(ExitKind::Signaled { signal: 9 }),
            },
            WorkerProcessRecord { ordinal: 2, pid: 102, exit: None },
        ]
    );
}

#[test]
fn a_reap_of_an_unknown_pid_changes_nothing() {
    let mut s = Supervisor::new();
    s.record_fork(0, 100);
    let known = s.record_reap(999, 9);
    assert!(!known);
    assert_eq!(s.workers, vec![WorkerProcessRecord { ordinal: 0, pid: 100, exit: None }]);
}

#[test]
fn the_live_set_only_shrinks_under_reaps() {
    let mut s = Supervisor::new();
    s.record_fork(0, 100);
    s.record_fork(1, 101);
    let live_before = s.workers.iter().filter(|w| w.exit.is_none()).count();
    s.record_reap(100, 15 << 8);
    let live_after = s.workers.iter().filter(|w| w.exit.is_none()).count();
    assert!(live_after <= live_before);
    assert_eq!(live_after, 1);
}
