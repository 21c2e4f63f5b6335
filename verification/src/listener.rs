//! The reusable listener factory, as a verified plan.
//!
//! Each worker process builds its own listening socket: a stream socket with
//! address-reuse and port-reuse enabled, bound to the shared IPv4 address,
//! listening with a large fixed backlog, switched to non-blocking mode. The
//! shell makes the socket, set-option, bind and listen calls; this module
//! decides what is asked of them — the full plan for a given address, IPv6
//! rejected outright — and what happens when one of them fails, such that no
//! descriptor ever leaks on a failure path.

use vstd::prelude::*;

use crate::config::BindAddress;

verus! {

/// The numeric IPv4 address family, the only one a listener may bind.
pub const AF_INET_FAMILY: u16 = 2;

/// Why no listener could be planned.
#[derive(Clone, Copy, Debug, PartialEq, Eq, Structural)]
pub enum ListenerError {
    /// Only IPv4 is supported; an IPv6 address is a fatal error.
    Ipv6Unsupported,
}

/// Everything the shell needs in order to bring the listening socket up:
/// the numeric address family, the address bytes in their on-wire order,
/// the port, both reuse options, the backlog, and non-blocking mode.
#[derive(Clone, Copy, Debug, PartialEq, Eq, Structural)]
pub struct ListenerPlan {
    /// Address family: always the IPv4 family, numerically 2.
    pub family: u16,
    /// The four address octets, most significant first (network order).
    pub addr0: u8,
    pub addr1: u8,
    pub addr2: u8,
    pub addr3: u8,
    /// The port, in host order; the shell converts it to network order.
    pub port: u16,
    /// Allow rebinding the address while old sockets linger.
    pub reuse_addr: bool,
    /// Allow several processes to bind the same address and port, so the
    /// kernel load-balances inbound connections across them.
    pub reuse_port: bool,
    /// How many not-yet-accepted connections the kernel may queue.
    pub backlog: i32,
    /// The accept loop drains without blocking.
    pub nonblocking: bool,
}

/// The plan for one IPv4 address and backlog.
pub open spec fn spec_listener_plan(a: u8, b: u8, c: u8, d: u8, port: u16, backlog: i32) -> ListenerPlan {
    ListenerPlan {
        family: AF_INET_FAMILY,
        addr0: a,
        addr1: b,
        addr2: c,
        addr3: d,
        port,
        reuse_addr: true,
        reuse_port: true,
        backlog,
        nonblocking: true,
    }
}

/// Plans one reusable listener for the given address.
///
/// An IPv4 address always yields the full plan — family 2, both reuse
/// options on, the given backlog, non-blocking — and the plan is a function
/// of the address alone, so two independently built listeners for the same
/// address ask the kernel for exactly the same reusable socket. An IPv6
/// address is rejected.
pub fn create_reusable_listener(addr: &BindAddress, backlog: i32) -> (r: Result<
    ListenerPlan,
    ListenerError,
>)
    ensures
        *addr matches BindAddress::V4 { a, b, c, d, port } ==> r == Ok::<
            ListenerPlan,
            ListenerError,
        >(spec_listener_plan(a, b, c, d, port, backlog)),
        *addr is V6 ==> r == Err::<ListenerPlan, ListenerError>(ListenerError::Ipv6Unsupported),
{
    match addr {
        BindAddress::V4 { a, b, c, d, port } => Ok(
            ListenerPlan {
                family: AF_INET_FAMILY,
                addr0: *a,
                addr1: *b,
                addr2: *c,
                addr3: *d,
                port: *port,
                reuse_addr: true,
                reuse_port: true,
                backlog,
                nonblocking: true,
            },
        ),
        BindAddress::V6 { .. } => Err(ListenerError::Ipv6Unsupported),
    }
}

/// Law: planning is deterministic in the address — two listeners planned
/// independently for the same address and port carry identical requests,
/// both with port-reuse on, which is what lets both bind and accept.
pub proof fn lemma_plans_for_same_address_agree(addr: BindAddress, backlog: i32)
    requires
        addr is V4,
    ensures
        ({
            let first = spec_plan_of(addr, backlog);
            let second = spec_plan_of(addr, backlog);
            &&& first == second
            &&& first.reuse_port
            &&& first.reuse_addr
        }),
{
}

/// The plan an IPv4 address maps to, as a function of the address value.
pub open spec fn spec_plan_of(addr: BindAddress, backlog: i32) -> ListenerPlan
    recommends
        addr is V4,
{
    match addr {
        BindAddress::V4 { a, b, c, d, port } => spec_listener_plan(a, b, c, d, port, backlog),
        BindAddress::V6 { .. } => spec_listener_plan(0, 0, 0, 0, 0, backlog),
    }
}

/// The port split into its two network-order bytes, most significant
/// first: exactly what the wire representation of the socket address
/// carries, stated without reference to the machine's own byte order.
pub fn port_octets(port: u16) -> (r: (u8, u8))
    ensures
        r.0 == (port >> 8) as u8,
        r.1 == (port & 0xff) as u8,
        (r.0 as u16) * 256 + (r.1 as u16) == port,
{
    proof {
        assert(((port >> 8) as u8) as u16 * 256 + ((port & 0xff) as u8) as u16 == port)
            by (bit_vector);
    }
    ((port >> 8) as u8, (port & 0xff) as u8)
}

/// The system call the bring-up is at. Option failures are swallowed, so
/// the two set-option steps never branch on their outcome.
#[derive(Clone, Copy, Debug, PartialEq, Eq, Structural)]
pub enum BuildPhase {
    /// Asking the kernel for the stream socket; no descriptor exists yet.
    CreatingSocket,
    /// Enabling address-reuse on the new descriptor.
    EnablingReuseAddr,
    /// Enabling port-reuse on the new descriptor.
    EnablingReusePort,
    /// Binding the descriptor to the planned address.
    Binding,
    /// Asking the kernel to start listening.
    StartingListen,
}

/// What the shell does after one bring-up step reported its outcome.
#[derive(Clone, Copy, Debug, PartialEq, Eq, Structural)]
pub enum BuildStep {
    /// Move on to the next step.
    Proceed { next: BuildPhase },
    /// The socket listens: wrap the descriptor as the owned listener.
    Finish,
    /// Bring-up failed: report the operating-system error, closing the
    /// descriptor first when one exists.
    Fail { close_descriptor: bool },
}

/// A descriptor exists in every phase after the socket call.
pub open spec fn spec_descriptor_open(p: BuildPhase) -> bool {
    p != BuildPhase::CreatingSocket
}

/// The bring-up transition table. A failed socket call fails with nothing
/// to close; failed set-option calls are swallowed and bring-up proceeds;
/// a failed bind or listen closes the descriptor and fails.
pub open spec fn spec_build_step(p: BuildPhase, succeeded: bool) -> BuildStep {
    match p {
        BuildPhase::CreatingSocket => if succeeded {
            BuildStep::Proceed { next: BuildPhase::EnablingReuseAddr }
        } else {
            BuildStep::Fail { close_descriptor: false }
        },
        BuildPhase::EnablingReuseAddr => BuildStep::Proceed { next: BuildPhase::EnablingReusePort },
        BuildPhase::EnablingReusePort => BuildStep::Proceed { next: BuildPhase::Binding },
        BuildPhase::Binding => if succeeded {
            BuildStep::Proceed { next: BuildPhase::StartingListen }
        } else {
            BuildStep::Fail { close_descriptor: true }
        },
        BuildPhase::StartingListen => if succeeded {
            BuildStep::Finish
        } else {
            BuildStep::Fail { close_descriptor: true }
        },
    }
}

/// Decides the next bring-up action from the phase just performed and
/// whether the kernel accepted it.
pub fn listener_build_step(p: BuildPhase, succeeded: bool) -> (r: BuildStep)
    ensures
        r == spec_build_step(p, succeeded),
{
    match p {
        BuildPhase::CreatingSocket => {
            if succeeded {
                BuildStep::Proceed { next: BuildPhase::EnablingReuseAddr }
            } else {
                BuildStep::Fail { close_descriptor: false }
            }
        },
        BuildPhase::EnablingReuseAddr => BuildStep::Proceed { next: BuildPhase::EnablingReusePort },
        BuildPhase::EnablingReusePort => BuildStep::Proceed { next: BuildPhase::Binding },
        BuildPhase::Binding => {
            if succeeded {
                BuildStep::Proceed { next: BuildPhase::StartingListen }
            } else {
                BuildStep::Fail { close_descriptor: true }
            }
        },
        BuildPhase::StartingListen => {
            if succeeded {
                BuildStep::Finish
            } else {
                BuildStep::Fail { close_descriptor: true }
            }
        },
    }
}

/// Law: no descriptor leaks on any failure path. Whenever bring-up fails,
/// the prescribed action closes the descriptor exactly when one exists —
/// after the socket call succeeded — and never touches one that does not.
pub proof fn lemma_no_descriptor_leak(p: BuildPhase, succeeded: bool)
    ensures
        spec_build_step(p, succeeded) matches BuildStep::Fail { close_descriptor } ==> (
        close_descriptor <==> spec_descriptor_open(p)),
{
}

} // verus!
