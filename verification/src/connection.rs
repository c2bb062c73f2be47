//! The decisions of a gateway WebSocket connection's loop: the greeting it
//! starts with, and what each thing that happens on the connection (a
//! frame, a pong, the keep-alive tick, the close) leads to. Times are
//! milliseconds of a monotonic clock, handed in by the loop.

use vstd::prelude::*;
use crate::atp::{AtpEvent, AtpEventKind};
use crate::json::{Json, get_str_spec, member_count};

verus! {

/// How often the connection is pinged.
pub const PING_INTERVAL_MS: u64 = 30000;

/// How long without a sign of life before the connection is dropped (the
/// ping interval and a grace of ten seconds).
pub const PONG_TIMEOUT_MS: u64 = 40000;

/// Something that happened on a connection.
#[derive(Clone, Copy, Debug, PartialEq, Eq, Structural)]
pub enum ConnEvent {
    /// A text frame arrived.
    Text,
    /// The peer answered a ping.
    Pong,
    /// The peer closed the connection, or the stream ended.
    Closed,
    /// The keep-alive interval elapsed.
    Tick,
    /// Any other frame (binary, ping): ignored.
    Other,
}

/// What the loop does next.
#[derive(Clone, Copy, Debug, PartialEq, Eq, Structural)]
pub enum ConnAction {
    /// Parse, validate and answer the text frame.
    HandleText,
    /// Nothing to do; keep reading.
    Continue,
    /// Send a ping.
    SendPing,
    /// Stop the connection.
    Close,
}

/// The time of the last sign of life after `ev` at `now`, and what follows:
/// a tick more than the timeout after the last sign of life closes the
/// connection; any other tick sends a ping and counts as a sign of life.
pub open spec fn connection_step_spec(last_alive_ms: u64, now_ms: u64, ev: ConnEvent) -> (u64, ConnAction) {
    match ev {
        ConnEvent::Text => (last_alive_ms, ConnAction::HandleText),
        ConnEvent::Pong => (now_ms, ConnAction::Continue),
        ConnEvent::Closed => (last_alive_ms, ConnAction::Close),
        ConnEvent::Tick => if now_ms > last_alive_ms && now_ms - last_alive_ms > PONG_TIMEOUT_MS {
            (last_alive_ms, ConnAction::Close)
        } else {
            (now_ms, ConnAction::SendPing)
        },
        ConnEvent::Other => (last_alive_ms, ConnAction::Continue),
    }
}

/// One step of the connection loop.
pub fn connection_step(last_alive_ms: u64, now_ms: u64, ev: ConnEvent) -> (r: (u64, ConnAction))
    ensures
        r == connection_step_spec(last_alive_ms, now_ms, ev),
{
    match ev {
        ConnEvent::Text => (last_alive_ms, ConnAction::HandleText),
        ConnEvent::Pong => (now_ms, ConnAction::Continue),
        ConnEvent::Closed => (last_alive_ms, ConnAction::Close),
        ConnEvent::Tick => {
            if now_ms > last_alive_ms && now_ms - last_alive_ms > PONG_TIMEOUT_MS {
                (last_alive_ms, ConnAction::Close)
            } else {
                (now_ms, ConnAction::SendPing)
            }
        },
        ConnEvent::Other => (last_alive_ms, ConnAction::Continue),
    }
}

/// A connection is only dropped when the peer closes it or a keep-alive
/// tick finds it silent for longer than the timeout.
pub proof fn law_close_only_on_close_or_silence(last_alive_ms: u64, now_ms: u64, ev: ConnEvent)
    requires
        connection_step_spec(last_alive_ms, now_ms, ev).1 == ConnAction::Close,
    ensures
        ev == ConnEvent::Closed || (ev == ConnEvent::Tick && now_ms - last_alive_ms > PONG_TIMEOUT_MS),
{
}

/// A pong, or a tick that pings, renews the connection: a tick right
/// after it never closes the connection.
pub proof fn law_renewed_connection_survives_next_tick(last_alive_ms: u64, t1: u64, t2: u64, ev: ConnEvent)
    requires
        ev == ConnEvent::Pong || ev == ConnEvent::Tick,
        connection_step_spec(last_alive_ms, t1, ev).1 != ConnAction::Close,
        t1 <= t2,
        t2 - t1 <= PONG_TIMEOUT_MS,
    ensures
        connection_step_spec(connection_step_spec(last_alive_ms, t1, ev).0, t2, ConnEvent::Tick).1 == ConnAction::SendPing,
{
}

/// The `session.ready` event a connection starts with: `{ sessionId }`,
/// addressed to the connection's session.
pub fn session_ready_event(session_id: &str) -> (e: AtpEvent)
    ensures
        e.event == AtpEventKind::SessionReady,
        e.session_id@ == session_id@,
        e.msg_type@ == "event"@,
        e.body is Object && get_str_spec(e.body, "sessionId"@) == Some(session_id@) && member_count(e.body) == 1,
{
    let mut body = Json::empty_object();
    body.set("sessionId", Json::string(session_id));
    AtpEvent::new(AtpEventKind::SessionReady, session_id, body)
}

/// The `token.expiring` event sent before answering a command whose token
/// expires soon: an empty body, addressed to the connection's session.
pub fn token_expiring_event(session_id: &str) -> (e: AtpEvent)
    ensures
        e.event == AtpEventKind::TokenExpiring,
        e.session_id@ == session_id@,
        e.body is Object && e.body->Object_0@.len() == 0,
{
    AtpEvent::new(AtpEventKind::TokenExpiring, session_id, Json::empty_object())
}

} // verus!
