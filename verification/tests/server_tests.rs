use ssh_tarpit::server::{accept_decision, AcceptAction, AcceptEvent};

#[test]
fn accepted_connection_spawns_a_handler() {
    assert_eq!(accept_decision(AcceptEvent::Accepted), AcceptAction::SpawnHandler);
}

#[test]
fn failed_accept_is_non_fatal() {
    assert_eq!(accept_decision(AcceptEvent::AcceptFailed), AcceptAction::ContinueAccepting);
}

#[test]
fn shutdown_exits_with_code_zero() {
    assert_eq!(accept_decision(AcceptEvent::ShutdownRequested), AcceptAction::Exit(0));
}

#[test]
fn only_shutdown_ever_exits() {
    for e in [AcceptEvent::Accepted, AcceptEvent::AcceptFailed] {
        assert!(!matches!(accept_decision(e), AcceptAction::Exit(_)));
    }
}
