//! The WebSocket connection loop's keep-alive decisions and greetings.

use avix_core::atp::AtpEventKind;
use avix_core::connection::{
    connection_step, session_ready_event, token_expiring_event, ConnAction, ConnEvent, PING_INTERVAL_MS,
    PONG_TIMEOUT_MS,
};

#[test]
fn frames_are_handled_and_close_stops() {
    assert_eq!(connection_step(0, 5, ConnEvent::Text), (0, ConnAction::HandleText));
    assert_eq!(connection_step(0, 5, ConnEvent::Other), (0, ConnAction::Continue));
    assert_eq!(connection_step(0, 5, ConnEvent::Closed), (0, ConnAction::Close));
}

#[test]
fn pong_renews() {
    assert_eq!(connection_step(1_000, 7_000, ConnEvent::Pong), (7_000, ConnAction::Continue));
}

#[test]
fn tick_pings_until_silence_exceeds_timeout() {
    assert_eq!(PING_INTERVAL_MS, 30_000);
    assert_eq!(PONG_TIMEOUT_MS, 40_000);
    assert_eq!(connection_step(0, 30_000, ConnEvent::Tick), (30_000, ConnAction::SendPing));
    assert_eq!(connection_step(0, 40_000, ConnEvent::Tick), (40_000, ConnAction::SendPing));
    assert_eq!(connection_step(0, 40_001, ConnEvent::Tick), (0, ConnAction::Close));
    // a clock reading before the last sign of life is not silence
    assert_eq!(connection_step(50_000, 10, ConnEvent::Tick), (10, ConnAction::SendPing));
}

#[test]
fn greeting_and_expiry_events() {
    let e = session_ready_event("sess-9");
    assert_eq!(e.event, AtpEventKind::SessionReady);
    assert_eq!(e.msg_type, "event");
    assert_eq!(e.session_id, "sess-9");
    assert_eq!(e.body.get_str("sessionId").as_deref(), Some("sess-9"));
    assert!(!e.ts.is_empty());
    let t = token_expiring_event("sess-9");
    assert_eq!(t.event, AtpEventKind::TokenExpiring);
    assert_eq!(t.session_id, "sess-9");
}
