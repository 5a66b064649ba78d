use buzzd::request::{Request, RequestKind, NO_OVERRIDE};
use buzzd::transport::{after_attempt, on_gap, Attempt, Gap, RECONNECT_INTERVAL_MS};

#[test]
fn a_gap_while_connected_stops_the_loop() {
    assert_eq!(on_gap(true), Gap::Stop);
}

#[test]
fn a_gap_while_disconnected_reconnects() {
    assert_eq!(on_gap(false), Gap::Reconnect { wait_ms: 3000 });
}

#[test]
fn a_failed_attempt_is_tried_again_after_three_seconds() {
    assert_eq!(RECONNECT_INTERVAL_MS, 3000);
    assert_eq!(after_attempt(false), Attempt::Retry { wait_ms: 3000 });
}

#[test]
fn a_restored_connection_resumes() {
    assert_eq!(after_attempt(true), Attempt::Resume);
}

#[test]
fn the_idle_request_names_nothing() {
    let idle = Request::idle();
    assert_eq!(idle.kind, RequestKind::Idle);
    assert_eq!(idle.pattern, "");
    assert_eq!(idle.repeat_override, -1);
    assert_eq!(NO_OVERRIDE, -1);
}

#[test]
fn the_shutdown_request_terminates() {
    let terminate = Request::terminate();
    assert_eq!(terminate.kind, RequestKind::Terminate);
    assert_eq!(terminate.pattern, "");
    assert_eq!(terminate.repeat_override, -1);
}

#[test]
fn a_request_is_copied_as_a_value() {
    let request = Request { kind: RequestKind::Play, pattern: String::from("beep"), repeat_override: 3 };
    let copy = request.clone();
    assert_eq!(copy, request);
}
