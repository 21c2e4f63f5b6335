//! The worker process loop, as verified decision logic.
//!
//! A worker process builds its own listener, multiplexer and thread pool,
//! then loops: wait for readiness, drain every pending connection with a
//! non-blocking accept, and dispatch each accepted connection as one task.
//! The loop never exits voluntarily. The shell blocks in the wait and makes
//! the accept and write calls; every decision — what initialization asks
//! for, what each accept outcome means for the drain, what each connection
//! is sent — is made and verified here.

use vstd::prelude::*;

use crate::config::ServerConfig;
use crate::config::spec_standard_config;

verus! {

/// Everything a worker process needs at start: its ordinal, its parent's
/// process id (informational only), and the configuration it builds its
/// listener, multiplexer and pool from.
#[derive(Clone, Copy, Debug, PartialEq, Eq, Structural)]
pub struct WorkerInit {
    pub ordinal: usize,
    pub parent_pid: i32,
    pub config: ServerConfig,
}

/// Starts one worker process: resolves what it must build. The returned
/// plan carries the worker's identity and the standard configuration — one
/// reusable listener on the shared address, one multiplexer with the
/// listener registered, one pool of `config.pool_size` threads.
pub fn start_worker_process(id: usize, parent_pid: i32) -> (w: WorkerInit)
    ensures
        w == (WorkerInit { ordinal: id, parent_pid, config: spec_standard_config() }),
        w.config.wf(),
{
    WorkerInit { ordinal: id, parent_pid, config: ServerConfig::standard() }
}

/// A worker process exits with status 0 on an orderly end of its loop and
/// non-zero when initialization failed with an unrecoverable error.
pub fn worker_exit_status(init_succeeded: bool) -> (code: i32)
    ensures
        init_succeeded ==> code == 0,
        !init_succeeded ==> code == 1,
{
    if init_succeeded {
        0
    } else {
        1
    }
}

/// The initialization stage a worker process is at. The stages run in this
/// order, each building on the last: the listener, its non-blocking mode,
/// the multiplexer, the listener's registration, the thread pool.
#[derive(Clone, Copy, Debug, PartialEq, Eq, Structural)]
pub enum InitStage {
    BuildingListener,
    SettingNonblocking,
    CreatingMultiplexer,
    RegisteringListener,
    BuildingPool,
}

/// What the worker does after one initialization stage reported its outcome.
#[derive(Clone, Copy, Debug, PartialEq, Eq, Structural)]
pub enum InitStep {
    /// Move on to the next stage.
    Proceed { next: InitStage },
    /// Initialization is complete: enter the wait-and-drain loop.
    EnterLoop,
    /// The stage failed: an unrecoverable error, fatal to this worker
    /// process, which exits with a non-zero status before the loop begins.
    Abort,
}

/// The initialization transition table: each stage leads to the next on
/// success, the last enters the loop, and every failure aborts the worker.
pub open spec fn spec_init_step(s: InitStage, succeeded: bool) -> InitStep {
    if !succeeded {
        InitStep::Abort
    } else {
        match s {
            InitStage::BuildingListener => InitStep::Proceed { next: InitStage::SettingNonblocking },
            InitStage::SettingNonblocking => InitStep::Proceed {
                next: InitStage::CreatingMultiplexer,
            },
            InitStage::CreatingMultiplexer => InitStep::Proceed {
                next: InitStage::RegisteringListener,
            },
            InitStage::RegisteringListener => InitStep::Proceed { next: InitStage::BuildingPool },
            InitStage::BuildingPool => InitStep::EnterLoop,
        }
    }
}

/// Decides the next initialization action from the stage just performed
/// and whether it succeeded.
pub fn worker_init_step(s: InitStage, succeeded: bool) -> (r: InitStep)
    ensures
        r == spec_init_step(s, succeeded),
{
    if !succeeded {
        InitStep::Abort
    } else {
        match s {
            InitStage::BuildingListener => InitStep::Proceed { next: InitStage::SettingNonblocking },
            InitStage::SettingNonblocking => InitStep::Proceed {
                next: InitStage::CreatingMultiplexer,
            },
            InitStage::CreatingMultiplexer => InitStep::Proceed {
                next: InitStage::RegisteringListener,
            },
            InitStage::RegisteringListener => InitStep::Proceed { next: InitStage::BuildingPool },
            InitStage::BuildingPool => InitStep::EnterLoop,
        }
    }
}

/// Law: every initialization failure is fatal. No failed stage proceeds or
/// enters the loop, and the loop is entered only from the last stage with
/// every stage before it succeeded — `Abort` is the one action a failure
/// can yield, at every stage.
pub proof fn lemma_init_failure_is_fatal(s: InitStage)
    ensures
        spec_init_step(s, false) == InitStep::Abort,
        spec_init_step(s, true) != InitStep::Abort,
        spec_init_step(s, true) == InitStep::EnterLoop <==> s == InitStage::BuildingPool,
{
}

/// What one non-blocking accept reported.
#[derive(Clone, Copy, Debug, PartialEq, Eq, Structural)]
pub enum AcceptOutcome {
    /// A connection was accepted; `conn_id` stands for it.
    Accepted { conn_id: u64 },
    /// The accept queue is empty: the expected end of a drain pass.
    WouldBlock,
    /// Any other accept error.
    Failed,
}

/// What the drain loop does next.
#[derive(Clone, Copy, Debug, PartialEq, Eq, Structural)]
pub enum DrainAction {
    /// Submit one connection-handling task for the accepted connection,
    /// then accept again.
    Dispatch { conn_id: u64 },
    /// Stop draining this descriptor; not an error, nothing is logged.
    FinishBatch,
    /// Log the error and stop draining; the worker process itself carries
    /// on with the next event rather than aborting.
    ReportErrorAndStop,
}

/// Decides one drain step from one accept outcome: a connection becomes
/// exactly one dispatched task; would-block ends the pass silently; any
/// other error is reported and isolated to this pass.
pub fn drain_decision(outcome: &AcceptOutcome) -> (a: DrainAction)
    ensures
        *outcome matches AcceptOutcome::Accepted { conn_id } ==> a == (DrainAction::Dispatch {
            conn_id,
        }),
        *outcome is WouldBlock ==> a == DrainAction::FinishBatch,
        *outcome is Failed ==> a == DrainAction::ReportErrorAndStop,
{
    match outcome {
        AcceptOutcome::Accepted { conn_id } => DrainAction::Dispatch { conn_id: *conn_id },
        AcceptOutcome::WouldBlock => DrainAction::FinishBatch,
        AcceptOutcome::Failed => DrainAction::ReportErrorAndStop,
    }
}

/// The worker's dispatch bookkeeping: connections dispatched over its whole
/// life and within the current drain pass.
#[derive(Clone, Copy, Debug, PartialEq, Eq, Structural)]
pub struct DrainCounters {
    pub total: u64,
    pub batch: u64,
}

impl DrainCounters {
    /// A worker starts with nothing dispatched.
    pub fn new() -> (c: DrainCounters)
        ensures
            c == (DrainCounters { total: 0u64, batch: 0u64 }),
    {
        DrainCounters { total: 0, batch: 0 }
    }

    /// A new drain pass begins: the batch count restarts, the lifetime
    /// total is kept.
    pub fn start_batch(&mut self)
        ensures
            final(self).batch == 0,
            final(self).total == old(self).total,
    {
        self.batch = 0;
    }

    /// One connection was dispatched: both counts grow by one.
    pub fn record_dispatch(&mut self)
        requires
            old(self).total < u64::MAX,
            old(self).batch < u64::MAX,
        ensures
            final(self).total == old(self).total + 1,
            final(self).batch == old(self).batch + 1,
    {
        self.total = self.total + 1;
        self.batch = self.batch + 1;
    }

    /// A finished pass is reported exactly when it dispatched anything.
    pub fn batch_worth_reporting(&self) -> (r: bool)
        ensures
            r <==> self.batch > 0,
    {
        self.batch > 0
    }
}

/// The reply's status line: `HTTP/1.1 200 OK` and its line end.
pub open spec fn spec_status_line() -> Seq<u8> {
    seq![72u8, 84, 84, 80, 47, 49, 46, 49, 32, 50, 48, 48, 32, 79, 75, 13, 10]
}

/// The reply's one header: `Content-Length: 5` and its line end.
pub open spec fn spec_length_header() -> Seq<u8> {
    seq![67u8, 111, 110, 116, 101, 110, 116, 45, 76, 101, 110, 103, 116, 104, 58, 32, 53, 13, 10]
}

/// The blank line separating headers from the body.
pub open spec fn spec_blank_line() -> Seq<u8> {
    seq![13u8, 10]
}

/// The reply's body: `Hello`.
pub open spec fn spec_body() -> Seq<u8> {
    seq![72u8, 101, 108, 108, 111]
}

/// The full fixed reply, byte for byte: every accepted connection receives
/// exactly this, regardless of any bytes the client sends.
pub open spec fn spec_response() -> Seq<u8> {
    spec_status_line() + spec_length_header() + spec_blank_line() + spec_body()
}

/// Law: the fixed reply is internally consistent. It is the status line,
/// the length header, a blank line, then the body; the body is exactly the
/// five bytes of `Hello`; and the length the header declares — the digit
/// before its line end — is the body's length.
pub proof fn lemma_response_shape()
    ensures
        spec_response() == spec_status_line() + spec_length_header() + spec_blank_line()
            + spec_body(),
        spec_body().len() == 5,
        spec_length_header()[16] == 48 + spec_body().len(),
        spec_response().len() == 43,
{
}

/// Builds the fixed reply the placeholder handler writes.
pub fn canned_response() -> (v: Vec<u8>)
    ensures
        v@ == spec_response(),
{
    let mut v: Vec<u8> = Vec::new();
    v.push(72);
    v.push(84);
    v.push(84);
    v.push(80);
    v.push(47);
    v.push(49);
    v.push(46);
    v.push(49);
    v.push(32);
    v.push(50);
    v.push(48);
    v.push(48);
    v.push(32);
    v.push(79);
    v.push(75);
    v.push(13);
    v.push(10);
    v.push(67);
    v.push(111);
    v.push(110);
    v.push(116);
    v.push(101);
    v.push(110);
    v.push(116);
    v.push(45);
    v.push(76);
    v.push(101);
    v.push(110);
    v.push(103);
    v.push(116);
    v.push(104);
    v.push(58);
    v.push(32);
    v.push(53);
    v.push(13);
    v.push(10);
    v.push(13);
    v.push(10);
    v.push(72);
    v.push(101);
    v.push(108);
    v.push(108);
    v.push(111);
    proof {
        assert(v@ =~= spec_response());
    }
    v
}

/// What handling one accepted connection does: bound the write with the
/// configured timeout, write the fixed reply, flush, and let the connection
/// close when the task ends. No request bytes are ever read.
pub struct ConnectionPlan {
    pub write_timeout_secs: u64,
    pub response: Vec<u8>,
}

/// Plans the handling of one accepted connection under the given
/// configuration: the configured write timeout and the exact reply bytes.
pub fn handle_connection(config: &ServerConfig) -> (p: ConnectionPlan)
    ensures
        p.write_timeout_secs == config.write_timeout_secs,
        p.response@ == spec_response(),
{
    ConnectionPlan { write_timeout_secs: config.write_timeout_secs, response: canned_response() }
}

} // verus!
