//! The connection handler's control logic as a state machine. The runtime
//! performs the I/O and timer work (the initial line read, the probe read,
//! the socket write, the keepalive sleep) and feeds each outcome back as an
//! event; `step` decides what happens next.

use vstd::prelude::*;

verus! {

/// The phase a handler is in between two suspension points.
#[derive(Clone, Copy, Debug, PartialEq, Eq, Structural)]
pub enum HandlerState {
    /// Waiting for the one-line read of the peer's identification string,
    /// performed before any decoy traffic is sent.
    AwaitingIdent,
    /// About to probe the connection for end-of-stream.
    Probing,
    /// About to write the current decoy snapshot to the peer.
    Writing,
    /// Waiting out the keepalive interval before the next probe.
    Sleeping,
    /// The handler has returned; it never acts again.
    Finished,
}

/// What the runtime observed at the handler's last suspension point.
#[derive(Clone, Copy, Debug, PartialEq, Eq, Structural)]
pub enum HandlerEvent {
    /// The initial line read completed. The line may be empty: a peer that
    /// half-closes without sending anything still completes the read, and
    /// the handler proceeds all the same.
    IdentRead,
    /// The initial line read failed with an I/O error.
    IdentFailed,
    /// The probe read reported end-of-stream: the peer is gone.
    ProbeEof,
    /// The probe read found the connection still open, or was inconclusive.
    ProbeOpen,
    /// The decoy snapshot was written out in full.
    WriteDone,
    /// The write failed (broken pipe, reset, and the like).
    WriteFailed,
    /// The keepalive sleep elapsed.
    SleepElapsed,
}

/// What the runtime must do next on the handler's behalf.
#[derive(Clone, Copy, Debug, PartialEq, Eq, Structural)]
pub enum HandlerAction {
    /// Probe the connection for end-of-stream.
    ProbeConnection,
    /// Copy the shared buffer out and write the copy to the peer.
    SendSnapshot,
    /// Sleep for the keepalive interval.
    Sleep,
    /// Return: the task ends and nothing more is sent.
    Stop,
}

/// The handler's transition relation. An event that does not belong to the
/// current phase stops the handler: it never closes a healthy connection on
/// its own initiative, but it acts only on outcomes it asked for.
pub open spec fn spec_step(s: HandlerState, e: HandlerEvent) -> (HandlerState, HandlerAction) {
    match (s, e) {
        (HandlerState::AwaitingIdent, HandlerEvent::IdentRead) => (
            HandlerState::Probing,
            HandlerAction::ProbeConnection,
        ),
        (HandlerState::AwaitingIdent, HandlerEvent::IdentFailed) => (
            HandlerState::Finished,
            HandlerAction::Stop,
        ),
        (HandlerState::Probing, HandlerEvent::ProbeEof) => (
            HandlerState::Finished,
            HandlerAction::Stop,
        ),
        (HandlerState::Probing, HandlerEvent::ProbeOpen) => (
            HandlerState::Writing,
            HandlerAction::SendSnapshot,
        ),
        (HandlerState::Writing, HandlerEvent::WriteDone) => (
            HandlerState::Sleeping,
            HandlerAction::Sleep,
        ),
        (HandlerState::Writing, HandlerEvent::WriteFailed) => (
            HandlerState::Finished,
            HandlerAction::Stop,
        ),
        (HandlerState::Sleeping, HandlerEvent::SleepElapsed) => (
            HandlerState::Probing,
            HandlerAction::ProbeConnection,
        ),
        _ => (HandlerState::Finished, HandlerAction::Stop),
    }
}

/// The state a handler starts in when its connection is accepted.
pub fn initial_state() -> (r: HandlerState)
    ensures
        r == HandlerState::AwaitingIdent,
{
    HandlerState::AwaitingIdent
}

/// Advance the handler by one observed event.
pub fn step(s: HandlerState, e: HandlerEvent) -> (r: (HandlerState, HandlerAction))
    ensures
        r == spec_step(s, e),
{
    match (s, e) {
        (HandlerState::AwaitingIdent, HandlerEvent::IdentRead) => (
            HandlerState::Probing,
            HandlerAction::ProbeConnection,
        ),
        (HandlerState::AwaitingIdent, HandlerEvent::IdentFailed) => (
            HandlerState::Finished,
            HandlerAction::Stop,
        ),
        (HandlerState::Probing, HandlerEvent::ProbeEof) => (
            HandlerState::Finished,
            HandlerAction::Stop,
        ),
        (HandlerState::Probing, HandlerEvent::ProbeOpen) => (
            HandlerState::Writing,
            HandlerAction::SendSnapshot,
        ),
        (HandlerState::Writing, HandlerEvent::WriteDone) => (
            HandlerState::Sleeping,
            HandlerAction::Sleep,
        ),
        (HandlerState::Writing, HandlerEvent::WriteFailed) => (
            HandlerState::Finished,
            HandlerAction::Stop,
        ),
        (HandlerState::Sleeping, HandlerEvent::SleepElapsed) => (
            HandlerState::Probing,
            HandlerAction::ProbeConnection,
        ),
        _ => (HandlerState::Finished, HandlerAction::Stop),
    }
}

/// End-of-stream on the probe read terminates the handler, and a finished
/// handler never sends any further data: no event ever takes it out of
/// `Finished` or makes it send a snapshot again.
pub proof fn lemma_eof_terminates(e: HandlerEvent)
    ensures
        spec_step(HandlerState::Probing, HandlerEvent::ProbeEof) == (
            HandlerState::Finished,
            HandlerAction::Stop,
        ),
        spec_step(HandlerState::Finished, e).0 == HandlerState::Finished,
        spec_step(HandlerState::Finished, e).1 == HandlerAction::Stop,
{
}

/// A handler sends a snapshot only from a probe that found the connection
/// open: every send is preceded by a live probe, so nothing is sent past
/// end-of-stream.
pub proof fn lemma_send_needs_live_probe(s: HandlerState, e: HandlerEvent)
    ensures
        spec_step(s, e).1 == HandlerAction::SendSnapshot ==> s == HandlerState::Probing
            && e == HandlerEvent::ProbeOpen,
{
}

} // verus!
