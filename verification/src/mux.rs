//! The readiness multiplexer, as a verified state machine.
//!
//! One kernel notification object per worker process, with the capability
//! set create / register / wait. Registration is permanent and read-interest
//! only; wait blocks with no timeout until at least one event is available.
//! Both kernel backends the shell may sit on must satisfy this one state
//! machine: *Created → Registered → Waiting ⇄ Ready*, terminating at
//! *Closed* exactly once. The shell makes the system calls; this model pins
//! which transitions are legal, that a descriptor is registered at most
//! once, and how a delivered event correlates back to its descriptor.

use vstd::prelude::*;

verus! {

/// Where the multiplexer handle stands in its lifecycle.
#[derive(Clone, Copy, Debug, PartialEq, Eq, Structural)]
pub enum MuxPhase {
    /// The kernel object exists; nothing is registered yet.
    Created,
    /// At least one descriptor is registered; ready to wait.
    Registered,
    /// A thread is blocked in the wait call.
    Waiting,
    /// The wait returned events that are still being drained.
    Ready,
    /// The kernel object has been released.
    Closed,
}

/// The operations the handle can undergo.
#[derive(Clone, Copy, Debug, PartialEq, Eq, Structural)]
pub enum MuxOp {
    /// Add read-interest for one descriptor.
    Register,
    /// Block in the wait call.
    BeginWait,
    /// The kernel wakes the wait with one or more events.
    EventsArrive,
    /// Every delivered event has been handled.
    DrainDone,
    /// Release the kernel object.
    Release,
}

/// The one legal transition for each phase and operation; `None` where the
/// operation is not legal in that phase. `Closed` has no successor at all,
/// so releasing the kernel object twice is structurally impossible.
pub open spec fn spec_mux_next(p: MuxPhase, op: MuxOp) -> Option<MuxPhase> {
    match (p, op) {
        (MuxPhase::Created, MuxOp::Register) => Some(MuxPhase::Registered),
        (MuxPhase::Registered, MuxOp::Register) => Some(MuxPhase::Registered),
        (MuxPhase::Registered, MuxOp::BeginWait) => Some(MuxPhase::Waiting),
        (MuxPhase::Waiting, MuxOp::EventsArrive) => Some(MuxPhase::Ready),
        (MuxPhase::Ready, MuxOp::DrainDone) => Some(MuxPhase::Registered),
        (MuxPhase::Created, MuxOp::Release) => Some(MuxPhase::Closed),
        (MuxPhase::Registered, MuxOp::Release) => Some(MuxPhase::Closed),
        (MuxPhase::Ready, MuxOp::Release) => Some(MuxPhase::Closed),
        _ => None,
    }
}

/// Law: the closed handle is terminal. No operation leads anywhere from
/// `Closed`, so a second release of the kernel object cannot be expressed,
/// let alone performed.
pub proof fn lemma_closed_is_terminal(op: MuxOp)
    ensures
        spec_mux_next(MuxPhase::Closed, op) is None,
{
}

/// Why a registration was refused by the model.
#[derive(Clone, Copy, Debug, PartialEq, Eq, Structural)]
pub enum MuxError {
    /// The descriptor is already registered; a descriptor is registered
    /// with its multiplexer exactly once for its lifetime.
    AlreadyRegistered,
}

/// An opaque correlation token carried by one readiness event. The backends
/// store the registered descriptor in it, so an event maps back to the
/// descriptor it reports as readable.
#[derive(Clone, Copy, Debug, PartialEq, Eq, Structural)]
pub struct ReadinessEvent {
    pub token: u64,
}

/// Whether an event carries the token of one of the registered descriptors;
/// the kernel delivers no others.
pub open spec fn spec_event_registered(registered: Seq<i32>, e: ReadinessEvent) -> bool {
    exists|i: int| 0 <= i < registered.len() && #[trigger] registered[i] as u64 == e.token
}

/// The multiplexer handle's model: its lifecycle phase and the descriptors
/// it has registered, in registration order.
pub struct Multiplexer {
    pub phase: MuxPhase,
    pub registered: Vec<i32>,
}

impl Multiplexer {
    /// Descriptors are valid and no descriptor is registered twice; once
    /// anything is registered or being waited on, the registration set is
    /// non-empty.
    pub open spec fn wf(self) -> bool {
        &&& self.registered@.no_duplicates()
        &&& forall|i: int| 0 <= i < self.registered@.len() ==> #[trigger] self.registered@[i] >= 0
        &&& (self.phase == MuxPhase::Created ==> self.registered@.len() == 0)
        &&& ((self.phase == MuxPhase::Registered || self.phase == MuxPhase::Waiting || self.phase
            == MuxPhase::Ready) ==> self.registered@.len() >= 1)
    }

    /// A freshly created handle: kernel object allocated, nothing
    /// registered. (An allocation failure never yields a handle at all.)
    pub fn new() -> (m: Multiplexer)
        ensures
            m.wf(),
            m.phase == MuxPhase::Created,
            m.registered@.len() == 0,
    {
        Multiplexer { phase: MuxPhase::Created, registered: Vec::new() }
    }

    /// Registers read-interest for one descriptor. Registration is
    /// permanent — there is no remove or modify — and a descriptor already
    /// registered is refused, keeping the exactly-once invariant. A fresh
    /// descriptor moves the handle along the `Register` transition.
    pub fn add(&mut self, fd: i32) -> (r: Result<(), MuxError>)
        requires
            old(self).wf(),
            fd >= 0,
            old(self).phase == MuxPhase::Created || old(self).phase == MuxPhase::Registered,
        ensures
            final(self).wf(),
            old(self).registered@.contains(fd) ==> {
                &&& r == Err::<(), MuxError>(MuxError::AlreadyRegistered)
                &&& *final(self) == *old(self)
            },
            !old(self).registered@.contains(fd) ==> {
                &&& r == Ok::<(), MuxError>(())
                &&& final(self).registered@ == old(self).registered@.push(fd)
                &&& Some(final(self).phase) == spec_mux_next(old(self).phase, MuxOp::Register)
            },
    {
        let mut i: usize = 0;
        while i < self.registered.len()
            invariant
                *self == *old(self),
                old(self).wf(),
                i <= self.registered@.len(),
                forall|j: int| 0 <= j < i ==> #[trigger] self.registered@[j] != fd,
            decreases self.registered@.len() - i,
        {
            if self.registered[i] == fd {
                return Err(MuxError::AlreadyRegistered);
            }
            i = i + 1;
        }
        self.registered.push(fd);
        self.phase = MuxPhase::Registered;
        Ok(())
    }

    /// Blocks in the wait call: legal only with a registration in place.
    pub fn begin_wait(&mut self)
        requires
            old(self).wf(),
            old(self).phase == MuxPhase::Registered,
        ensures
            final(self).wf(),
            Some(final(self).phase) == spec_mux_next(old(self).phase, MuxOp::BeginWait),
            final(self).registered@ == old(self).registered@,
    {
        self.phase = MuxPhase::Waiting;
    }

    /// The kernel woke the wait: it wrote `count` events into the caller's
    /// buffer of capacity `capacity`. A wait returns only with at least one
    /// event and never more than the buffer holds — excess simultaneous
    /// events are reported by later waits, not dropped.
    pub fn events_arrive(&mut self, count: usize, capacity: usize)
        requires
            old(self).wf(),
            old(self).phase == MuxPhase::Waiting,
            1 <= count <= capacity,
        ensures
            final(self).wf(),
            Some(final(self).phase) == spec_mux_next(old(self).phase, MuxOp::EventsArrive),
            final(self).registered@ == old(self).registered@,
    {
        self.phase = MuxPhase::Ready;
    }

    /// Every delivered event has been drained: back to waiting-ready state.
    /// Registration is level-triggered and persistent, so the same
    /// descriptor fires again on the next wait while its condition holds.
    pub fn drain_done(&mut self)
        requires
            old(self).wf(),
            old(self).phase == MuxPhase::Ready,
        ensures
            final(self).wf(),
            Some(final(self).phase) == spec_mux_next(old(self).phase, MuxOp::DrainDone),
            final(self).registered@ == old(self).registered@,
    {
        self.phase = MuxPhase::Registered;
    }

    /// Releases the kernel object, exactly once: no method accepts a closed
    /// handle, and `spec_mux_next` gives `Closed` no successor.
    pub fn release(&mut self)
        requires
            old(self).wf(),
            old(self).phase == MuxPhase::Created || old(self).phase == MuxPhase::Registered || old(
                self,
            ).phase == MuxPhase::Ready,
        ensures
            final(self).wf(),
            Some(final(self).phase) == spec_mux_next(old(self).phase, MuxOp::Release),
            final(self).registered@ == old(self).registered@,
    {
        self.phase = MuxPhase::Closed;
    }
}

/// What a registration asks the kernel for: read-interest only — there is
/// no write-readiness and no edge or one-shot tracking in this design —
/// persistent and level-triggered, with the descriptor itself as the
/// correlation token of every event it fires.
#[derive(Clone, Copy, Debug, PartialEq, Eq, Structural)]
pub struct RegistrationRequest {
    pub read_interest: bool,
    pub write_interest: bool,
    pub token: u64,
}

/// Builds the registration request for one descriptor: read-interest only,
/// correlated by the descriptor itself.
pub fn registration_request(fd: i32) -> (r: RegistrationRequest)
    requires
        fd >= 0,
    ensures
        r == (RegistrationRequest { read_interest: true, write_interest: false, token: fd as u64 }),
{
    RegistrationRequest { read_interest: true, write_interest: false, token: fd as u64 }
}

/// Why a wait call failed.
#[derive(Clone, Copy, Debug, PartialEq, Eq, Structural)]
pub enum WaitError {
    /// The kernel reported an operating-system error.
    Os,
}

/// Decodes a wait call's raw return value: a negative value is an
/// operating-system error; any other value is the number of events the
/// kernel wrote into the caller's buffer.
pub fn wait_result(raw: i32) -> (r: Result<usize, WaitError>)
    ensures
        raw < 0 ==> r == Err::<usize, WaitError>(WaitError::Os),
        raw >= 0 ==> r == Ok::<usize, WaitError>(raw as usize),
{
    if raw < 0 {
        Err(WaitError::Os)
    } else {
        Ok(raw as usize)
    }
}

/// Whether one delivered event is correlated to the given descriptor.
pub fn event_is_for(e: &ReadinessEvent, fd: i32) -> (r: bool)
    requires
        fd >= 0,
    ensures
        r <==> e.token == fd as u64,
{
    e.token == fd as u64
}

/// Law: with a single registered descriptor, every event the kernel can
/// deliver — it delivers only events of registered descriptors — is
/// correlated to that descriptor.
pub proof fn lemma_single_registration_correlates(
    registered: Seq<i32>,
    e: ReadinessEvent,
    fd: i32,
)
    requires
        registered == seq![fd],
        spec_event_registered(registered, e),
    ensures
        e.token == fd as u64,
{
}

} // verus!
