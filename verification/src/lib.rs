//! A pre-fork, event-driven TCP acceptor, modelled and verified.
//!
//! A master process forks a fixed set of worker processes. Each worker owns
//! one reusable listening socket, one kernel readiness multiplexer and one
//! in-process thread pool; it drains ready connections and dispatches each as
//! a one-shot task. The decision logic of every component lives here with
//! full contracts; the thin unverified shell performs the actual system
//! calls and thread operations these decisions prescribe.

pub mod config;
pub mod listener;
pub mod master;
pub mod mux;
pub mod pool;
pub mod worker;
