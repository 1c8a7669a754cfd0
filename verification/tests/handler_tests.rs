use ssh_tarpit::handler::{initial_state, step, HandlerAction, HandlerEvent, HandlerState};

const ALL_EVENTS: [HandlerEvent; 7] = [
    HandlerEvent::IdentRead,
    HandlerEvent::IdentFailed,
    HandlerEvent::ProbeEof,
    HandlerEvent::ProbeOpen,
    HandlerEvent::WriteDone,
    HandlerEvent::WriteFailed,
    HandlerEvent::SleepElapsed,
];

#[test]
fn handler_starts_awaiting_ident() {
    assert_eq!(initial_state(), HandlerState::AwaitingIdent);
}

#[test]
fn ident_read_leads_to_probe() {
    let (s, a) = step(HandlerState::AwaitingIdent, HandlerEvent::IdentRead);
    assert_eq!(s, HandlerState::Probing);
    assert_eq!(a, HandlerAction::ProbeConnection);
}

#[test]
fn empty_ident_line_still_proceeds() {
    // A peer that half-closes without sending anything completes the line
    // read with an empty line; the event is the same IdentRead, so the
    // handler goes on to send decoy lines all the same.
    let (s, a) = step(initial_state(), HandlerEvent::IdentRead);
    assert_eq!(s, HandlerState::Probing);
    assert_eq!(a, HandlerAction::ProbeConnection);
}

#[test]
fn ident_failure_stops_the_handler() {
    let (s, a) = step(HandlerState::AwaitingIdent, HandlerEvent::IdentFailed);
    assert_eq!(s, HandlerState::Finished);
    assert_eq!(a, HandlerAction::Stop);
}

#[test]
fn eof_terminates_without_any_further_send() {
    let (s, a) = step(HandlerState::Probing, HandlerEvent::ProbeEof);
    assert_eq!(s, HandlerState::Finished);
    assert_eq!(a, HandlerAction::Stop);
    for e in ALL_EVENTS {
        let (s2, a2) = step(HandlerState::Finished, e);
        assert_eq!(s2, HandlerState::Finished);
        assert_eq!(a2, HandlerAction::Stop);
    }
}

#[test]
fn live_probe_cycles_through_send_and_sleep() {
    let (s, a) = step(HandlerState::Probing, HandlerEvent::ProbeOpen);
    assert_eq!(s, HandlerState::Writing);
    assert_eq!(a, HandlerAction::SendSnapshot);
    let (s, a) = step(s, HandlerEvent::WriteDone);
    assert_eq!(s, HandlerState::Sleeping);
    assert_eq!(a, HandlerAction::Sleep);
    let (s, a) = step(s, HandlerEvent::SleepElapsed);
    assert_eq!(s, HandlerState::Probing);
    assert_eq!(a, HandlerAction::ProbeConnection);
}

#[test]
fn write_failure_stops_the_handler() {
    let (s, a) = step(HandlerState::Writing, HandlerEvent::WriteFailed);
    assert_eq!(s, HandlerState::Finished);
    assert_eq!(a, HandlerAction::Stop);
}

#[test]
fn snapshots_are_sent_only_after_a_live_probe() {
    let states = [
        HandlerState::AwaitingIdent,
        HandlerState::Probing,
        HandlerState::Writing,
        HandlerState::Sleeping,
        HandlerState::Finished,
    ];
    for s in states {
        for e in ALL_EVENTS {
            let (_, a) = step(s, e);
            if a == HandlerAction::SendSnapshot {
                assert_eq!(s, HandlerState::Probing);
                assert_eq!(e, HandlerEvent::ProbeOpen);
            }
        }
    }
}
