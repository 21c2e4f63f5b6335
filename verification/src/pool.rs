//! The worker thread pool, as a verified state model.
//!
//! The running pool is a fixed set of threads draining one shared FIFO task
//! queue; exactly one thread dequeues a given task, and teardown joins every
//! thread before it returns. Those decisions — what a dequeue yields, what
//! submission does to the queue, what shutdown must drain and join — are
//! verified here over a sequential model of the queue. The unverified shell
//! holds the real channel and threads and performs exactly the transitions
//! these methods prescribe; the queue's mutual exclusion on the consuming
//! end is what makes the concurrent pool behave as this sequential model.

use vstd::prelude::*;

verus! {

/// How running one task ended: normally, or by a panic that unwound out of it.
#[derive(Clone, Copy, Debug, PartialEq, Eq, Structural)]
pub enum TaskOutcome {
    Completed,
    Panicked,
}

/// A one-shot unit of work. `id` identifies the task (in the running server,
/// one accepted connection); `panics` says whether executing it unwinds.
#[derive(Clone, Copy, Debug, PartialEq, Eq, Structural)]
pub struct TaskSpec {
    pub id: u64,
    pub panics: bool,
}

/// The record a pool keeps of one executed task.
#[derive(Clone, Copy, Debug, PartialEq, Eq, Structural)]
pub struct ReportEntry {
    pub id: u64,
    pub outcome: TaskOutcome,
}

/// Why a pool could not be built.
#[derive(Clone, Copy, Debug, PartialEq, Eq, Structural)]
pub enum PoolError {
    /// A zero-sized pool is rejected before any thread would be spawned.
    ZeroSize,
}

/// What one worker thread observes when it goes back to the queue.
#[derive(Clone, Copy, Debug, PartialEq, Eq, Structural)]
pub enum WorkerStep {
    /// It dequeued the front task and ran it to completion or panic.
    Ran(ReportEntry),
    /// The queue is empty but still open: the thread blocks.
    Parked,
    /// The queue is closed and drained: the thread exits its loop.
    Disconnected,
}

/// The record produced by running one task.
pub open spec fn spec_outcome(t: TaskSpec) -> ReportEntry {
    ReportEntry {
        id: t.id,
        outcome: if t.panics {
            TaskOutcome::Panicked
        } else {
            TaskOutcome::Completed
        },
    }
}

/// The abstract state of a pool: its size, whether the producing end is
/// still open, the queued tasks in order, the executed tasks in order, and
/// how many worker threads have been joined.
#[verifier::ext_equal]
pub struct PoolView {
    pub size: nat,
    pub open: bool,
    pub pending: Seq<TaskSpec>,
    pub report: Seq<ReportEntry>,
    pub joined: nat,
}

/// The state `build` establishes: an open, empty pool of the given size.
pub open spec fn spec_build(size: nat) -> PoolView {
    PoolView { size, open: true, pending: Seq::empty(), report: Seq::empty(), joined: 0 }
}

/// What submitting one task does: it is appended to the queue, nothing else
/// moves.
pub open spec fn spec_execute(p: PoolView, t: TaskSpec) -> PoolView {
    PoolView {
        size: p.size,
        open: p.open,
        pending: p.pending.push(t),
        report: p.report,
        joined: p.joined,
    }
}

/// Submitting a sequence of tasks, first to last.
pub open spec fn spec_submit_all(p: PoolView, ts: Seq<TaskSpec>) -> PoolView
    decreases ts.len(),
{
    if ts.len() == 0 {
        p
    } else {
        spec_submit_all(spec_execute(p, ts[0]), ts.drop_first())
    }
}

/// What teardown does: the queue closes, every still-queued task is drained
/// and executed in order, and every worker thread is joined.
pub open spec fn spec_shutdown(p: PoolView) -> PoolView {
    PoolView {
        size: p.size,
        open: false,
        pending: Seq::empty(),
        report: p.report + p.pending.map_values(|t: TaskSpec| spec_outcome(t)),
        joined: p.size,
    }
}

/// The worker thread pool model: one shared FIFO queue, a fixed thread
/// count, and the execution report.
pub struct ThreadPool {
    pub size: usize,
    pub open: bool,
    pub pending: Vec<TaskSpec>,
    pub report: Vec<ReportEntry>,
    pub joined: usize,
}

impl View for ThreadPool {
    type V = PoolView;

    open spec fn view(&self) -> PoolView {
        PoolView {
            size: self.size as nat,
            open: self.open,
            pending: self.pending@,
            report: self.report@,
            joined: self.joined as nat,
        }
    }
}

impl ThreadPool {
    /// A pool is well formed when it has at least one worker, has joined no
    /// more threads than it owns, and joins only after the queue closed.
    pub open spec fn wf(self) -> bool {
        &&& self@.size >= 1
        &&& self@.joined <= self@.size
        &&& (self@.open ==> self@.joined == 0)
    }

    /// Builds a pool of `size` worker threads over one shared queue.
    ///
    /// A size of zero is rejected before any thread would exist; every
    /// positive size yields a well-formed, open, empty pool.
    pub fn build(size: usize) -> (r: Result<ThreadPool, PoolError>)
        ensures
            size == 0 <==> r is Err,
            r matches Err(e) ==> e == PoolError::ZeroSize,
            r matches Ok(p) ==> p.wf() && p@ == spec_build(size as nat),
    {
        if size == 0 {
            return Err(PoolError::ZeroSize);
        }
        let p = ThreadPool {
            size,
            open: true,
            pending: Vec::new(),
            report: Vec::new(),
            joined: 0,
        };
        proof {
            assert(p@ =~= spec_build(size as nat));
        }
        Ok(p)
    }

    /// Submits one task: it is appended to the shared queue unconditionally
    /// and the submitter never blocks. The producing end must still be open.
    pub fn execute(&mut self, t: TaskSpec)
        requires
            old(self).wf(),
            old(self)@.open,
        ensures
            final(self).wf(),
            final(self)@ == spec_execute(old(self)@, t),
    {
        self.pending.push(t);
        proof {
            assert(self@ =~= spec_execute(old(self)@, t));
        }
    }

    /// One turn of a worker thread's loop: take the queue's consuming end
    /// exclusively and ask for a task.
    ///
    /// With a task queued, the front task is dequeued and run — by exactly
    /// this thread, exactly once — and its outcome recorded. With an empty,
    /// open queue the thread blocks. With an empty, closed queue the thread
    /// observes disconnection and exits its loop.
    pub fn worker_step(&mut self) -> (r: WorkerStep)
        requires
            old(self).wf(),
        ensures
            final(self).wf(),
            old(self)@.pending.len() > 0 ==> {
                &&& r == WorkerStep::Ran(spec_outcome(old(self)@.pending[0]))
                &&& final(self)@.pending == old(self)@.pending.drop_first()
                &&& final(self)@.report == old(self)@.report.push(spec_outcome(old(self)@.pending[0]))
                &&& final(self)@.size == old(self)@.size
                &&& final(self)@.open == old(self)@.open
                &&& final(self)@.joined == old(self)@.joined
            },
            old(self)@.pending.len() == 0 ==> *final(self) == *old(self) && r == (
            if old(self)@.open {
                WorkerStep::Parked
            } else {
                WorkerStep::Disconnected
            }),
    {
        if self.pending.len() > 0 {
            let t = self.pending.remove(0);
            let entry = ReportEntry {
                id: t.id,
                outcome: if t.panics {
                    TaskOutcome::Panicked
                } else {
                    TaskOutcome::Completed
                },
            };
            self.report.push(entry);
            WorkerStep::Ran(entry)
        } else if self.open {
            WorkerStep::Parked
        } else {
            WorkerStep::Disconnected
        }
    }

    /// Closes the producing end of the queue: no further task can be
    /// submitted, and blocked workers will observe disconnection once the
    /// queue drains.
    pub fn close(&mut self)
        requires
            old(self).wf(),
        ensures
            final(self).wf(),
            !final(self)@.open,
            final(self)@.size == old(self)@.size,
            final(self)@.pending == old(self)@.pending,
            final(self)@.report == old(self)@.report,
            final(self)@.joined == old(self)@.joined,
    {
        self.open = false;
    }

    /// Tears the pool down: close the queue, let the workers drain every
    /// task still queued, then join every worker thread. It returns only
    /// once all `size` threads are joined and no task is mid-execution.
    pub fn shutdown(&mut self)
        requires
            old(self).wf(),
        ensures
            final(self).wf(),
            final(self)@ == spec_shutdown(old(self)@),
    {
        self.open = false;
        let ghost goal = old(self)@.report + old(self)@.pending.map_values(
            |t: TaskSpec| spec_outcome(t),
        );
        while self.pending.len() > 0
            invariant
                self.size == old(self).size,
                self.size >= 1,
                !self.open,
                self.joined == old(self).joined,
                self.joined <= self.size,
                self.report@ + self.pending@.map_values(|t: TaskSpec| spec_outcome(t)) == goal,
            decreases self.pending.len(),
        {
            let ghost before = self.pending@;
            let ghost recorded = self.report@;
            let t = self.pending.remove(0);
            self.report.push(
                ReportEntry {
                    id: t.id,
                    outcome: if t.panics {
                        TaskOutcome::Panicked
                    } else {
                        TaskOutcome::Completed
                    },
                },
            );
            proof {
                assert(before.map_values(|x: TaskSpec| spec_outcome(x)) =~= seq![
                    spec_outcome(before[0]),
                ] + before.drop_first().map_values(|x: TaskSpec| spec_outcome(x)));
                assert(self.report@ + self.pending@.map_values(|x: TaskSpec| spec_outcome(x))
                    =~= recorded + before.map_values(|x: TaskSpec| spec_outcome(x)));
            }
        }
        while self.joined < self.size
            invariant
                self.size == old(self).size,
                self.size >= 1,
                !self.open,
                self.joined <= self.size,
                self.pending@.len() == 0,
                self.report@ == goal,
            decreases self.size - self.joined,
        {
            self.joined = self.joined + 1;
        }
        proof {
            assert(self@ =~= spec_shutdown(old(self)@));
        }
    }
}

/// No two tasks of the sequence are the same task.
pub open spec fn distinct_ids(ts: Seq<TaskSpec>) -> bool {
    forall|i: int, j: int|
        0 <= i < j < ts.len() ==> #[trigger] ts[i].id != #[trigger] ts[j].id
}

/// Submitting tasks one by one appends them, in order, to the queue and
/// touches nothing else.
pub proof fn lemma_submit_all(p: PoolView, ts: Seq<TaskSpec>)
    ensures
        spec_submit_all(p, ts).pending == p.pending + ts,
        spec_submit_all(p, ts).report == p.report,
        spec_submit_all(p, ts).size == p.size,
        spec_submit_all(p, ts).open == p.open,
        spec_submit_all(p, ts).joined == p.joined,
    decreases ts.len(),
{
    if ts.len() == 0 {
        assert(p.pending + ts =~= p.pending);
    } else {
        lemma_submit_all(spec_execute(p, ts[0]), ts.drop_first());
        assert(p.pending.push(ts[0]) + ts.drop_first() =~= p.pending + ts);
    }
}

/// Law: a pool of size `k >= 1`, given any `n >= 0` submitted tasks, runs
/// every task exactly once — the final report is exactly the submitted
/// sequence, in order, and no task appears under two indices — and teardown
/// completes only with the queue empty and every one of the `k` worker
/// threads joined.
pub proof fn lemma_pool_runs_each_task_once(k: nat, tasks: Seq<TaskSpec>)
    requires
        k >= 1,
        distinct_ids(tasks),
    ensures
        ({
            let end = spec_shutdown(spec_submit_all(spec_build(k), tasks));
            &&& end.report == tasks.map_values(|t: TaskSpec| spec_outcome(t))
            &&& forall|i: int, j: int|
                0 <= i < end.report.len() && 0 <= j < end.report.len() && #[trigger] end.report[i].id
                    == #[trigger] end.report[j].id ==> i == j
            &&& end.pending.len() == 0
            &&& end.joined == k
        }),
{
    lemma_submit_all(spec_build(k), tasks);
    let end = spec_shutdown(spec_submit_all(spec_build(k), tasks));
    assert(end.report =~= tasks.map_values(|t: TaskSpec| spec_outcome(t)));
    assert forall|i: int, j: int|
        0 <= i < end.report.len() && 0 <= j < end.report.len() && #[trigger] end.report[i].id
            == #[trigger] end.report[j].id implies i == j by {
        if i < j {
            assert(tasks[i].id != tasks[j].id);
        } else if j < i {
            assert(tasks[j].id != tasks[i].id);
        }
    }
}

/// Law: a task that panics is caught and reported as panicked at shutdown,
/// and it does not prevent any other queued task from completing: every
/// non-panicking task still appears in the final report as completed.
pub proof fn lemma_panic_confined(k: nat, tasks: Seq<TaskSpec>, i: int)
    requires
        k >= 1,
        0 <= i < tasks.len(),
        tasks[i].panics,
    ensures
        ({
            let end = spec_shutdown(spec_submit_all(spec_build(k), tasks));
            &&& end.report.len() == tasks.len()
            &&& end.report[i] == (ReportEntry { id: tasks[i].id, outcome: TaskOutcome::Panicked })
            &&& forall|j: int|
                0 <= j < tasks.len() && !tasks[j].panics ==> #[trigger] end.report[j] == (
                ReportEntry { id: tasks[j].id, outcome: TaskOutcome::Completed })
        }),
{
    lemma_submit_all(spec_build(k), tasks);
    let end = spec_shutdown(spec_submit_all(spec_build(k), tasks));
    assert(end.report =~= tasks.map_values(|t: TaskSpec| spec_outcome(t)));
}

} // verus!
