//! The accept loop's decisions. The runtime races a pending accept against
//! the shutdown signal and hands the winning event to `accept_decision`,
//! which says whether to spawn a handler, keep accepting, or exit.

use vstd::prelude::*;

verus! {

/// What the accept loop's event race observed.
#[derive(Clone, Copy, Debug, PartialEq, Eq, Structural)]
pub enum AcceptEvent {
    /// A new inbound connection was accepted.
    Accepted,
    /// An individual accept call failed; such failures are non-fatal.
    AcceptFailed,
    /// The single-fire shutdown signal arrived.
    ShutdownRequested,
}

/// What the accept loop does next.
#[derive(Clone, Copy, Debug, PartialEq, Eq, Structural)]
pub enum AcceptAction {
    /// Spawn a detached handler for the new connection, then resume
    /// accepting at once, without waiting for the handler.
    SpawnHandler,
    /// Skip the failed accept and resume accepting.
    ContinueAccepting,
    /// Terminate the process immediately with the given exit code, without
    /// draining in-flight connections.
    Exit(i32),
}

/// The accept loop's decision for each event: spawn on a connection, carry
/// on past a failed accept, and exit with code 0 on shutdown.
pub open spec fn spec_accept_decision(e: AcceptEvent) -> AcceptAction {
    match e {
        AcceptEvent::Accepted => AcceptAction::SpawnHandler,
        AcceptEvent::AcceptFailed => AcceptAction::ContinueAccepting,
        AcceptEvent::ShutdownRequested => AcceptAction::Exit(0),
    }
}

/// Decide what the accept loop does with one observed event.
pub fn accept_decision(e: AcceptEvent) -> (r: AcceptAction)
    ensures
        r == spec_accept_decision(e),
{
    match e {
        AcceptEvent::Accepted => AcceptAction::SpawnHandler,
        AcceptEvent::AcceptFailed => AcceptAction::ContinueAccepting,
        AcceptEvent::ShutdownRequested => AcceptAction::Exit(0),
    }
}

/// Shutdown always exits with code 0, and no other event ever exits: an
/// accept failure never terminates the loop.
pub proof fn lemma_shutdown_exits_cleanly(e: AcceptEvent)
    ensures
        spec_accept_decision(AcceptEvent::ShutdownRequested) == AcceptAction::Exit(0),
        e != AcceptEvent::ShutdownRequested ==> spec_accept_decision(e) != AcceptAction::Exit(
            0,
        ) && !(spec_accept_decision(e) matches AcceptAction::Exit(_)),
{
}

} // verus!
