//! The compiled-in server configuration, made explicit.
//!
//! Every tunable the server bakes in — listening address, backlog, pool and
//! buffer sizes, timeouts — is gathered in one structure built once at
//! startup and passed down, instead of being read as ambient global state.

use vstd::prelude::*;

verus! {

/// An address a listener may be asked to bind. Only IPv4 is supported; an
/// IPv6 address is carried only so that it can be rejected explicitly.
#[derive(Clone, Copy, Debug, PartialEq, Eq, Structural)]
pub enum BindAddress {
    V4 { a: u8, b: u8, c: u8, d: u8, port: u16 },
    V6 { port: u16 },
}

/// The fixed configuration of the whole server.
#[derive(Clone, Copy, Debug, PartialEq, Eq, Structural)]
pub struct ServerConfig {
    /// The address every worker's listener binds (shared through port-reuse).
    pub address: BindAddress,
    /// Listen backlog handed to the kernel.
    pub backlog: i32,
    /// Threads in each worker process's pool.
    pub pool_size: usize,
    /// Capacity of the readiness-event buffer handed to each wait call.
    pub event_capacity: usize,
    /// Worker-process count used when the logical CPU count cannot be probed.
    pub fallback_workers: usize,
    /// Seconds the master sleeps between child-reap probes.
    pub reap_poll_secs: u64,
    /// Write timeout, in seconds, set on each accepted connection.
    pub write_timeout_secs: u64,
}

/// The one configuration this server ships with.
pub open spec fn spec_standard_config() -> ServerConfig {
    ServerConfig {
        address: BindAddress::V4 { a: 127, b: 0, c: 0, d: 1, port: 7878 },
        backlog: 15000,
        pool_size: 100,
        event_capacity: 128,
        fallback_workers: 4,
        reap_poll_secs: 1,
        write_timeout_secs: 5,
    }
}

impl ServerConfig {
    /// A configuration is usable only with a strictly positive pool and a
    /// non-empty event buffer.
    pub open spec fn wf(self) -> bool {
        &&& self.pool_size >= 1
        &&& self.event_capacity >= 1
        &&& self.backlog >= 0
    }

    /// Builds the standard compiled-in configuration.
    pub fn standard() -> (c: ServerConfig)
        ensures
            c == spec_standard_config(),
            c.wf(),
    {
        ServerConfig {
            address: BindAddress::V4 { a: 127, b: 0, c: 0, d: 1, port: 7878 },
            backlog: 15000,
            pool_size: 100,
            event_capacity: 128,
            fallback_workers: 4,
            reap_poll_secs: 1,
            write_timeout_secs: 5,
        }
    }
}

} // verus!
