//! A protocol-level tarpit for the SSH transport handshake.
//!
//! The verified core models the three pieces of runtime logic: the shared
//! decoy buffer that every connection reads, the per-connection handler's
//! state machine, and the accept loop's event decisions. Network I/O, timers
//! and signal handling live outside the library.

use vstd::prelude::*;

pub mod buffer;
pub mod handler;
pub mod server;

verus! {

/// The fixed period, in seconds, governing both the decoy buffer's refresh
/// cadence and each handler's send cadence.
pub const KEEPALIVE_SECS: u64 = 10;

} // verus!
