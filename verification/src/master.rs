//! The master process supervisor, as verified decision logic.
//!
//! The master forks a fixed set of workers at startup, records each child's
//! process id, then loops forever reaping exited children and classifying
//! each exit. The unverified shell makes the fork and wait system calls;
//! every decision about their results — which branch runs where, how a raw
//! wait status decodes, which record a reap updates — is made here.

use vstd::prelude::*;

verus! {

/// How a reaped child ended.
#[derive(Clone, Copy, Debug, PartialEq, Eq, Structural)]
pub enum ExitKind {
    /// A normal exit, with the code the child passed out.
    Exited { code: i32 },
    /// A termination by signal, with the signal number.
    Signaled { signal: i32 },
    /// Neither (a stopped or continued child): nothing is logged for it.
    Other,
}

/// The low seven bits of a raw wait status, which decide its class.
pub open spec fn spec_status_low(status: i32) -> i32 {
    status & 0x7f
}

/// A status reports a normal exit when its low seven bits are clear.
pub open spec fn spec_is_exited(status: i32) -> bool {
    status & 0x7f == 0
}

/// The exit code of a normally exited status: its second byte.
pub open spec fn spec_exit_code(status: i32) -> i32 {
    (status >> 8) & 0xff
}

/// A status reports a termination by signal when its low seven bits are
/// neither all clear (a normal exit) nor all set (a stopped child).
pub open spec fn spec_is_signaled(status: i32) -> bool {
    status & 0x7f != 0 && status & 0x7f != 0x7f
}

/// The terminating signal's number: the low seven bits themselves.
pub open spec fn spec_term_signal(status: i32) -> i32 {
    status & 0x7f
}

/// The classification of a raw wait status.
pub open spec fn spec_classify(status: i32) -> ExitKind {
    if spec_is_exited(status) {
        ExitKind::Exited { code: spec_exit_code(status) }
    } else if spec_is_signaled(status) {
        ExitKind::Signaled { signal: spec_term_signal(status) }
    } else {
        ExitKind::Other
    }
}

/// Decodes the raw status word a wait call reported, exactly as the
/// conventional encoding has it: a clear low byte is a normal exit whose
/// code sits in the second byte; low bits that are neither all clear nor
/// all set are the terminating signal.
pub fn classify_wait_status(status: i32) -> (r: ExitKind)
    ensures
        r == spec_classify(status),
{
    let low = status & 0x7f;
    if low == 0 {
        ExitKind::Exited { code: (status >> 8) & 0xff }
    } else if low != 0x7f {
        ExitKind::Signaled { signal: low }
    } else {
        ExitKind::Other
    }
}

/// One reap worth logging: which child, and how it ended.
#[derive(Clone, Copy, Debug, PartialEq, Eq, Structural)]
pub struct ReapReport {
    pub pid: i32,
    pub kind: ExitKind,
}

/// Decides what one non-blocking reap probe means. A positive result is the
/// reaped child's process id and yields exactly one report for it; zero
/// (no child changed state) and negative (no child to wait for) results are
/// expected transient conditions and yield nothing.
pub fn reap_decision(pid: i32, status: i32) -> (r: Option<ReapReport>)
    ensures
        pid > 0 ==> r == Some(ReapReport { pid, kind: spec_classify(status) }),
        pid <= 0 ==> r is None,
{
    if pid > 0 {
        Some(ReapReport { pid, kind: classify_wait_status(status) })
    } else {
        None
    }
}

/// What the program does right after one fork attempt.
#[derive(Clone, Copy, Debug, PartialEq, Eq, Structural)]
pub enum ForkBranch {
    /// In the child: run the worker process loop under this ordinal, and
    /// never return to the caller.
    RunWorker { ordinal: usize },
    /// In the parent: record the child's process id and fork the next one.
    RecordChild { ordinal: usize, pid: i32 },
    /// The fork failed: fatal to the master, startup aborts before any
    /// supervision begins.
    AbortStartup,
}

/// Decides which branch of a fork the caller is on. A zero result is the
/// child; a positive result is the parent holding the child's process id;
/// a negative result is a failed fork, fatal to startup.
pub fn fork_branch(ordinal: usize, fork_result: i32) -> (b: ForkBranch)
    ensures
        fork_result == 0 ==> b == (ForkBranch::RunWorker { ordinal }),
        fork_result > 0 ==> b == (ForkBranch::RecordChild { ordinal, pid: fork_result }),
        fork_result < 0 ==> b == ForkBranch::AbortStartup,
{
    if fork_result == 0 {
        ForkBranch::RunWorker { ordinal }
    } else if fork_result > 0 {
        ForkBranch::RecordChild { ordinal, pid: fork_result }
    } else {
        ForkBranch::AbortStartup
    }
}

/// The worker-process count: the probed logical CPU count when the probe
/// succeeded (a positive value), or the given fallback otherwise.
pub fn worker_count_from_probe(probed: i64, fallback: usize) -> (n: usize)
    ensures
        probed > 0 ==> n == probed as usize,
        probed <= 0 ==> n == fallback,
{
    if probed > 0 {
        probed as usize
    } else {
        fallback
    }
}

/// The master's record of one forked worker: its ordinal, its process id,
/// and the classification of its exit once it has been reaped.
#[derive(Clone, Copy, Debug, PartialEq, Eq, Structural)]
pub struct WorkerProcessRecord {
    pub ordinal: usize,
    pub pid: i32,
    pub exit: Option<ExitKind>,
}

/// No two records name the same process id.
pub open spec fn distinct_pids(ws: Seq<WorkerProcessRecord>) -> bool {
    forall|i: int, j: int|
        0 <= i < j < ws.len() ==> #[trigger] ws[i].pid != #[trigger] ws[j].pid
}

/// What recording one reap does to the records: the record holding the
/// reaped process id takes the exit classification, every other record is
/// untouched.
pub open spec fn spec_record_reap(
    ws: Seq<WorkerProcessRecord>,
    pid: i32,
    status: i32,
) -> Seq<WorkerProcessRecord> {
    ws.map(
        |i: int, w: WorkerProcessRecord|
            if w.pid == pid {
                WorkerProcessRecord { ordinal: w.ordinal, pid: w.pid, exit: Some(spec_classify(status)) }
            } else {
                w
            },
    )
}

/// The master-side supervision state: one record per forked worker.
pub struct Supervisor {
    pub workers: Vec<WorkerProcessRecord>,
}

impl Supervisor {
    /// Every recorded process id is positive and no two records share one.
    pub open spec fn wf(self) -> bool {
        &&& distinct_pids(self.workers@)
        &&& forall|i: int| 0 <= i < self.workers@.len() ==> #[trigger] self.workers@[i].pid > 0
    }

    /// A supervisor starts with no children recorded.
    pub fn new() -> (s: Supervisor)
        ensures
            s.wf(),
            s.workers@.len() == 0,
    {
        Supervisor { workers: Vec::new() }
    }

    /// Records one freshly forked child. Its process id is positive and new:
    /// the kernel never hands out a live child's id twice.
    pub fn record_fork(&mut self, ordinal: usize, pid: i32)
        requires
            old(self).wf(),
            pid > 0,
            forall|i: int|
                0 <= i < old(self).workers@.len() ==> #[trigger] old(self).workers@[i].pid != pid,
        ensures
            final(self).wf(),
            final(self).workers@ == old(self).workers@.push(
                WorkerProcessRecord { ordinal, pid, exit: None },
            ),
    {
        self.workers.push(WorkerProcessRecord { ordinal, pid, exit: None });
    }

    /// Records one reaped child: the record with its process id takes the
    /// exit classification, all others stay as they were. Returns whether
    /// the process id belonged to a recorded worker.
    pub fn record_reap(&mut self, pid: i32, status: i32) -> (known: bool)
        requires
            old(self).wf(),
        ensures
            final(self).wf(),
            final(self).workers@ == spec_record_reap(old(self).workers@, pid, status),
            known <==> exists|i: int|
                0 <= i < old(self).workers@.len() && #[trigger] old(self).workers@[i].pid == pid,
    {
        let ghost pre = self.workers@;
        let mut found: bool = false;
        let mut idx: usize = 0;
        let kind = classify_wait_status(status);
        while idx < self.workers.len()
            invariant
                idx <= self.workers@.len(),
                self.workers@.len() == pre.len(),
                kind == spec_classify(status),
                forall|i: int|
                    idx <= i < pre.len() ==> #[trigger] self.workers@[i] == pre[i],
                forall|i: int|
                    0 <= i < idx ==> #[trigger] self.workers@[i] == spec_record_reap(
                        pre,
                        pid,
                        status,
                    )[i],
                found <==> exists|i: int| 0 <= i < idx && #[trigger] pre[i].pid == pid,
            decreases self.workers@.len() - idx,
        {
            let w = self.workers[idx];
            if w.pid == pid {
                self.workers[idx] = WorkerProcessRecord {
                    ordinal: w.ordinal,
                    pid: w.pid,
                    exit: Some(kind),
                };
                found = true;
            }
            idx = idx + 1;
        }
        proof {
            assert(self.workers@ =~= spec_record_reap(pre, pid, status));
        }
        found
    }
}

/// Law: with distinct process ids, one reap is attributed to exactly one
/// worker — the record holding the reaped id takes the classification, and
/// every other record is left exactly as it was.
pub proof fn lemma_reap_attributed_once(
    ws: Seq<WorkerProcessRecord>,
    pid: i32,
    status: i32,
    i: int,
)
    requires
        distinct_pids(ws),
        0 <= i < ws.len(),
        ws[i].pid == pid,
    ensures
        ({
            let post = spec_record_reap(ws, pid, status);
            &&& post.len() == ws.len()
            &&& post[i] == (WorkerProcessRecord {
                ordinal: ws[i].ordinal,
                pid,
                exit: Some(spec_classify(status)),
            })
            &&& forall|j: int| 0 <= j < ws.len() && j != i ==> #[trigger] post[j] == ws[j]
        }),
{
    let post = spec_record_reap(ws, pid, status);
    assert forall|j: int| 0 <= j < ws.len() && j != i implies #[trigger] post[j] == ws[j] by {
        if j < i {
            assert(ws[j].pid != ws[i].pid);
        } else {
            assert(ws[i].pid != ws[j].pid);
        }
    }
}

/// Law: the live worker set only shrinks. A worker still unreaped after a
/// reap was recorded was already unreaped before it: no reap ever returns a
/// worker to the live set, and none is ever restarted in its place.
pub proof fn lemma_live_set_only_shrinks(
    ws: Seq<WorkerProcessRecord>,
    pid: i32,
    status: i32,
    j: int,
)
    requires
        0 <= j < ws.len(),
        spec_record_reap(ws, pid, status)[j].exit is None,
    ensures
        ws[j].exit is None,
{
}

} // verus!
