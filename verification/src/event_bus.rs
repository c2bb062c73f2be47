//! Event scoping: which role an event needs, whether it belongs to one
//! session, and the per-connection filter that decides delivery. Also the
//! builders of the events the gateway publishes.

use vstd::prelude::*;
use crate::atp::{AtpEvent, AtpEventKind, event_wire_name};
use crate::json::{Json, JsonNumber, get_str_spec, json_get, object, member_count};
use crate::types::{Role, role_at_least};
use crate::text::{owned, str_eq, decimal, u64_to_decimal};

verus! {

/// Maximum buffered events per bus before the oldest are dropped.
pub const BUS_CAPACITY: usize = 1024;

/// An event plus the metadata needed for scoping.
#[derive(Debug)]
pub struct BusEvent {
    pub event: AtpEvent,
    /// The session that owns this event (`None` = system-wide).
    pub owner_session: Option<String>,
    /// Minimum role required to receive this event.
    pub min_role: Role,
}

/// Minimum role and owner-scoping of each event kind.
pub open spec fn event_scope_spec(kind: AtpEventKind) -> (Role, bool) {
    match kind {
        AtpEventKind::SessionReady => (Role::Guest, true),
        AtpEventKind::SessionClosing => (Role::Guest, true),
        AtpEventKind::TokenExpiring => (Role::Guest, true),
        AtpEventKind::ToolChanged => (Role::Guest, false),
        AtpEventKind::SysService => (Role::Admin, false),
        AtpEventKind::SysAlert => (Role::Operator, false),
        _ => (Role::User, true),
    }
}

/// The minimum role and owner-scoping rule for an event kind.
pub fn event_scope(kind: &AtpEventKind) -> (r: (Role, bool))
    ensures
        r == event_scope_spec(*kind),
{
    match kind {
        AtpEventKind::SessionReady => (Role::Guest, true),
        AtpEventKind::SessionClosing => (Role::Guest, true),
        AtpEventKind::SessionAgentAttached => (Role::User, true),
        AtpEventKind::SessionAgentDetached => (Role::User, true),
        AtpEventKind::SessionStatusChanged => (Role::User, true),
        AtpEventKind::TokenExpiring => (Role::Guest, true),
        AtpEventKind::AgentOutput => (Role::User, true),
        AtpEventKind::AgentStatus => (Role::User, true),
        AtpEventKind::AgentToolCall => (Role::User, true),
        AtpEventKind::AgentToolResult => (Role::User, true),
        AtpEventKind::AgentExit => (Role::User, true),
        AtpEventKind::ProcStart => (Role::User, true),
        AtpEventKind::ProcOutput => (Role::User, true),
        AtpEventKind::ProcExit => (Role::User, true),
        AtpEventKind::ProcSignal => (Role::User, true),
        AtpEventKind::HilRequest => (Role::User, true),
        AtpEventKind::HilResolved => (Role::User, true),
        AtpEventKind::FsChanged => (Role::User, true),
        AtpEventKind::ToolChanged => (Role::Guest, false),
        AtpEventKind::CronFired => (Role::User, true),
        AtpEventKind::SysService => (Role::Admin, false),
        AtpEventKind::SysAlert => (Role::Operator, false),
        AtpEventKind::AgentSpawned => (Role::User, true),
        AtpEventKind::AgentOutputChunk => (Role::User, true),
    }
}

/// Some entry of `v` reads `s`.
pub open spec fn strings_contain(v: Seq<String>, s: Seq<char>) -> bool {
    exists|i: int| 0 <= i < v.len() && #[trigger] v[i]@ == s
}

/// Does `v` hold an entry equal to `s`?
pub fn vec_contains_str(v: &Vec<String>, s: &str) -> (b: bool)
    ensures
        b == strings_contain(v@, s@),
{
    let mut i: usize = 0;
    while i < v.len()
        invariant
            i <= v@.len(),
            forall|j: int| 0 <= j < i ==> v@[j]@ != s@,
        decreases v@.len() - i,
    {
        if str_eq(v[i].as_str(), s) {
            return true;
        }
        i += 1;
    }
    false
}

/// Per-connection filter: decides whether a bus event reaches this
/// connection.
#[derive(Debug)]
pub struct EventFilter {
    pub session_id: String,
    pub role: Role,
    /// Subscribed event names. Empty = nothing delivered; `"*"` = every
    /// permitted event.
    pub subscribed: Vec<String>,
}

/// Delivery rule: the role gate, then the ownership gate (owned events go
/// to the owning session or to `Operator` and up), then the subscription
/// gate.
pub open spec fn should_receive_spec(f: EventFilter, ev: BusEvent) -> bool {
    &&& role_at_least(f.role, ev.min_role)
    &&& (ev.owner_session matches Some(o) ==> (o@ == f.session_id@ || role_at_least(f.role, Role::Operator)))
    &&& f.subscribed@.len() > 0
    &&& (strings_contain(f.subscribed@, "*"@) || strings_contain(f.subscribed@, event_wire_name(ev.event.event)))
}

impl EventFilter {
    /// A filter for a fresh connection: subscribed to nothing.
    pub fn new(session_id: String, role: Role) -> (f: EventFilter)
        ensures
            f.session_id == session_id,
            f.role == role,
            f.subscribed@.len() == 0,
    {
        EventFilter { session_id, role, subscribed: Vec::new() }
    }

    /// Replace the subscription list.
    pub fn set_subscriptions(&mut self, events: Vec<String>)
        ensures
            final(self).subscribed == events,
            final(self).session_id == old(self).session_id,
            final(self).role == old(self).role,
    {
        self.subscribed = events;
    }

    /// Whether this connection should receive the event.
    pub fn should_receive(&self, ev: &BusEvent) -> (b: bool)
        ensures
            b == should_receive_spec(*self, *ev),
    {
        if !self.role.at_least(ev.min_role) {
            return false;
        }
        match &ev.owner_session {
            Some(owner) => {
                if !str_eq(owner.as_str(), self.session_id.as_str()) && !self.role.at_least(Role::Operator) {
                    return false;
                }
            },
            None => {},
        }
        if self.subscribed.len() == 0 {
            return false;
        }
        if vec_contains_str(&self.subscribed, "*") {
            return true;
        }
        let name = ev.event.event.wire_name();
        vec_contains_str(&self.subscribed, name.as_str())
    }
}

/// A fresh filter delivers no event until subscriptions are set.
pub proof fn law_fresh_filter_blocks_all(f: EventFilter, ev: BusEvent)
    requires
        f.subscribed@.len() == 0,
    ensures
        !should_receive_spec(f, ev),
{
}

/// A connection below an event's minimum role never receives it, whatever
/// it subscribed to.
pub proof fn law_role_gate(f: EventFilter, ev: BusEvent)
    requires
        !role_at_least(f.role, ev.min_role),
    ensures
        !should_receive_spec(f, ev),
{
}

/// An owned event reaches a connection below `Operator` only when the
/// connection belongs to the owning session.
pub proof fn law_owner_gate(f: EventFilter, ev: BusEvent)
    requires
        should_receive_spec(f, ev),
        !role_at_least(f.role, Role::Operator),
        ev.owner_session is Some,
    ensures
        ev.owner_session->0@ == f.session_id@,
{
}

/// With the wildcard subscription, every event that passes the role and
/// ownership gates is delivered.
pub proof fn law_wildcard_delivers_permitted(f: EventFilter, ev: BusEvent)
    requires
        strings_contain(f.subscribed@, "*"@),
        role_at_least(f.role, ev.min_role),
        ev.owner_session is None || ev.owner_session->0@ == f.session_id@,
    ensures
        should_receive_spec(f, ev),
{
    let i = choose|i: int| 0 <= i < f.subscribed@.len() && #[trigger] f.subscribed@[i]@ == "*"@;
    assert(f.subscribed@.len() > 0);
}

/// A subscribed event is delivered wherever its name stands in the
/// subscription list: once the role and ownership gates pass, any entry
/// equal to the event's wire name lets it through.
pub proof fn law_subscribed_name_delivered(f: EventFilter, ev: BusEvent, i: int)
    requires
        role_at_least(f.role, ev.min_role),
        ev.owner_session is None || ev.owner_session->0@ == f.session_id@,
        0 <= i < f.subscribed@.len(),
        f.subscribed@[i]@ == event_wire_name(ev.event.event),
    ensures
        should_receive_spec(f, ev),
{
    assert(strings_contain(f.subscribed@, event_wire_name(ev.event.event)));
}

/// Only subscribed events are delivered: a delivered event's wire name,
/// or the wildcard, stands somewhere in the subscription list.
pub proof fn law_delivered_only_if_subscribed(f: EventFilter, ev: BusEvent)
    requires
        should_receive_spec(f, ev),
    ensures
        exists|i: int| 0 <= i < f.subscribed@.len()
            && (#[trigger] f.subscribed@[i]@ == event_wire_name(ev.event.event) || f.subscribed@[i]@ == "*"@),
{
    if strings_contain(f.subscribed@, "*"@) {
        let i = choose|i: int| 0 <= i < f.subscribed@.len() && #[trigger] f.subscribed@[i]@ == "*"@;
        assert(f.subscribed@[i]@ == "*"@);
    } else {
        let i = choose|i: int| 0 <= i < f.subscribed@.len() && #[trigger] f.subscribed@[i]@ == event_wire_name(ev.event.event);
        assert(f.subscribed@[i]@ == event_wire_name(ev.event.event));
    }
}

/// A bus event with the scope of its kind: owned by `atp_session_id` when
/// the kind is owner-scoped, system-wide otherwise.
pub fn scoped_event(kind: AtpEventKind, atp_session_id: &str, body: Json) -> (ev: BusEvent)
    ensures
        ev.event.event == kind,
        ev.event.session_id@ == atp_session_id@,
        ev.event.body == body,
        ev.min_role == event_scope_spec(kind).0,
        event_scope_spec(kind).1 ==> (ev.owner_session matches Some(o) && o@ == atp_session_id@),
        !event_scope_spec(kind).1 ==> ev.owner_session is None,
{
    let (min_role, owner_scoped) = event_scope(&kind);
    let owner = if owner_scoped { Some(owned(atp_session_id)) } else { None };
    BusEvent { event: AtpEvent::new(kind, atp_session_id, body), owner_session: owner, min_role }
}

/// An event that belongs to no session: empty session id, no owner.
pub fn system_event(kind: AtpEventKind, body: Json) -> (ev: BusEvent)
    ensures
        ev.event.event == kind,
        ev.event.session_id@.len() == 0,
        ev.event.body == body,
        ev.min_role == event_scope_spec(kind).0,
        ev.owner_session is None,
{
    let (min_role, _owner_scoped) = event_scope(&kind);
    let ev = AtpEvent::new(kind, "", body);
    proof { reveal_strlit("");  assert(""@.len() == 0); }
    BusEvent { event: ev, owner_session: None, min_role }
}

pub(crate) fn member(key: &str, val: Json) -> (e: (String, Json))
    ensures
        e.0@ == key@,
        e.1 == val,
{
    (owned(key), val)
}

pub(crate) fn str_member(key: &str, val: &str) -> (e: (String, Json))
    ensures
        e.0@ == key@,
        e.1 is Str && e.1->Str_0@ == val@,
{
    (owned(key), Json::string(val))
}

/// `j` is a string value reading `s`.
pub open spec fn is_str_of(j: Json, s: Seq<char>) -> bool {
    j is Str && j->Str_0@ == s
}

/// The JSON number for an integer.
pub open spec fn int_json(n: int) -> Json {
    if n >= 0 {
        Json::Number(JsonNumber::PosInt(n as u64))
    } else {
        Json::Number(JsonNumber::NegInt(n as i64))
    }
}

/// A JSON number holding `n`.
pub fn int_value(n: i64) -> (j: Json)
    ensures
        j == int_json(n as int),
{
    if n >= 0 {
        Json::Number(JsonNumber::PosInt(n as u64))
    } else {
        Json::Number(JsonNumber::NegInt(n))
    }
}

/// `agent.output`: `{ pid: "<pid>", text }`, owned by the session.
pub fn agent_output_event(atp_session_id: &str, pid: u64, text: &str) -> (ev: BusEvent)
    ensures
        member_count(ev.event.body) == 2,
        ev.event.event == AtpEventKind::AgentOutput,
        ev.event.session_id@ == atp_session_id@,
        ev.owner_session matches Some(o) && o@ == atp_session_id@,
        ev.min_role == Role::User,
        get_str_spec(ev.event.body, "pid"@) == Some(decimal(pid as nat)),
        get_str_spec(ev.event.body, "text"@) == Some(text@),
{
    let es = vec![member("pid", Json::Str(u64_to_decimal(pid))), str_member("text", text)];
    proof { reveal_strlit("pid"); reveal_strlit("text");  assert("pid"@.len() == 3); assert("text"@.len() == 4); }
    let body = object(es);
    proof { assert(json_get(body, es@[0].0@) == Some(es@[0].1)); assert(json_get(body, es@[1].0@) == Some(es@[1].1)); }
    scoped_event(AtpEventKind::AgentOutput, atp_session_id, body)
}

/// `agent.spawned`: `{ pid: "<pid>", name, goal, sessionId }`, owned by
/// the ATP session; `sessionId` is the agent's conversation id.
pub fn agent_spawned_event(atp_session_id: &str, pid: u64, name: &str, goal: &str, agent_session_id: &str) -> (ev: BusEvent)
    ensures
        member_count(ev.event.body) == 4,
        ev.event.event == AtpEventKind::AgentSpawned,
        ev.event.session_id@ == atp_session_id@,
        ev.owner_session matches Some(o) && o@ == atp_session_id@,
        ev.min_role == Role::User,
        get_str_spec(ev.event.body, "pid"@) == Some(decimal(pid as nat)),
        get_str_spec(ev.event.body, "name"@) == Some(name@),
        get_str_spec(ev.event.body, "goal"@) == Some(goal@),
        get_str_spec(ev.event.body, "sessionId"@) == Some(agent_session_id@),
{
    let es = vec![
        member("pid", Json::Str(u64_to_decimal(pid))),
        str_member("name", name),
        str_member("goal", goal),
        str_member("sessionId", agent_session_id),
    ];
    proof { reveal_strlit("pid"); reveal_strlit("name"); reveal_strlit("goal"); reveal_strlit("sessionId");  assert("pid"@.len() == 3); assert("name"@.len() == 4); assert("goal"@.len() == 4); assert("sessionId"@.len() == 9); assert("name"@[0] != "goal"@[0]); assert("name"@ != "goal"@); }
    let body = object(es);
    proof {
        assert(json_get(body, es@[0].0@) == Some(es@[0].1));
        assert(json_get(body, es@[1].0@) == Some(es@[1].1));
        assert(json_get(body, es@[2].0@) == Some(es@[2].1));
        assert(json_get(body, es@[3].0@) == Some(es@[3].1));
    }
    scoped_event(AtpEventKind::AgentSpawned, atp_session_id, body)
}

/// `agent.output_chunk`: `{ pid: "<pid>", turn_id, text_delta, seq, is_final }`,
/// owned by the session.
pub fn agent_output_chunk_event(
    atp_session_id: &str,
    pid: u64,
    turn_id: &str,
    text_delta: &str,
    seq: u64,
    is_final: bool,
) -> (ev: BusEvent)
    ensures
        member_count(ev.event.body) == 5,
        ev.event.event == AtpEventKind::AgentOutputChunk,
        ev.event.session_id@ == atp_session_id@,
        ev.owner_session matches Some(o) && o@ == atp_session_id@,
        ev.min_role == Role::User,
        get_str_spec(ev.event.body, "pid"@) == Some(decimal(pid as nat)),
        get_str_spec(ev.event.body, "turn_id"@) == Some(turn_id@),
        get_str_spec(ev.event.body, "text_delta"@) == Some(text_delta@),
        json_get(ev.event.body, "seq"@) == Some(Json::Number(JsonNumber::PosInt(seq))),
        json_get(ev.event.body, "is_final"@) == Some(Json::Bool(is_final)),
{
    let es = vec![
        member("pid", Json::Str(u64_to_decimal(pid))),
        str_member("turn_id", turn_id),
        str_member("text_delta", text_delta),
        member("seq", Json::uint(seq)),
        member("is_final", Json::Bool(is_final)),
    ];
    proof {
        reveal_strlit("pid"); reveal_strlit("turn_id"); reveal_strlit("text_delta");
        reveal_strlit("seq"); reveal_strlit("is_final");
     assert("pid"@.len() == 3); assert("turn_id"@.len() == 7); assert("text_delta"@.len() == 10); assert("seq"@.len() == 3); assert("is_final"@.len() == 8); assert("pid"@[0] != "seq"@[0]); assert("pid"@ != "seq"@); }
    let body = object(es);
    proof {
        assert(json_get(body, es@[0].0@) == Some(es@[0].1));
        assert(json_get(body, es@[1].0@) == Some(es@[1].1));
        assert(json_get(body, es@[2].0@) == Some(es@[2].1));
        assert(json_get(body, es@[3].0@) == Some(es@[3].1));
        assert(json_get(body, es@[4].0@) == Some(es@[4].1));
    }
    scoped_event(AtpEventKind::AgentOutputChunk, atp_session_id, body)
}

/// `agent.exit`: `{ pid: "<pid>", exitCode }`, owned by the session.
pub fn agent_exit_event(atp_session_id: &str, pid: u64, exit_code: i32) -> (ev: BusEvent)
    ensures
        member_count(ev.event.body) == 2,
        ev.event.event == AtpEventKind::AgentExit,
        ev.event.session_id@ == atp_session_id@,
        ev.owner_session matches Some(o) && o@ == atp_session_id@,
        ev.min_role == Role::User,
        get_str_spec(ev.event.body, "pid"@) == Some(decimal(pid as nat)),
        json_get(ev.event.body, "exitCode"@) == Some(int_json(exit_code as int)),
{
    let es = vec![member("pid", Json::Str(u64_to_decimal(pid))), member("exitCode", int_value(exit_code as i64))];
    proof { reveal_strlit("pid"); reveal_strlit("exitCode");  assert("pid"@.len() == 3); assert("exitCode"@.len() == 8); }
    let body = object(es);
    proof { assert(json_get(body, es@[0].0@) == Some(es@[0].1)); assert(json_get(body, es@[1].0@) == Some(es@[1].1)); }
    scoped_event(AtpEventKind::AgentExit, atp_session_id, body)
}

/// A two-member string object `{ k1: v1, k2: v2 }`.
fn pair_object(k1: &str, v1: &str, k2: &str, v2: &str) -> (j: Json)
    requires
        k1@ != k2@,
    ensures
        get_str_spec(j, k1@) == Some(v1@),
        get_str_spec(j, k2@) == Some(v2@),
        member_count(j) == 2,
{
    let es = vec![str_member(k1, v1), str_member(k2, v2)];
    let j = object(es);
    proof { assert(json_get(j, es@[0].0@) == Some(es@[0].1)); assert(json_get(j, es@[1].0@) == Some(es@[1].1)); }
    j
}

/// `agent.status`: `{ pid: "<pid>", status }`, owned by the session.
pub fn agent_status_event(atp_session_id: &str, pid: u64, status: &str) -> (ev: BusEvent)
    ensures
        member_count(ev.event.body) == 2,
        ev.event.event == AtpEventKind::AgentStatus,
        ev.event.session_id@ == atp_session_id@,
        ev.owner_session matches Some(o) && o@ == atp_session_id@,
        ev.min_role == Role::User,
        get_str_spec(ev.event.body, "pid"@) == Some(decimal(pid as nat)),
        get_str_spec(ev.event.body, "status"@) == Some(status@),
{
    let p = u64_to_decimal(pid);
    proof { reveal_strlit("pid"); reveal_strlit("status");  assert("pid"@.len() == 3); assert("status"@.len() == 6); }
    let body = pair_object("pid", p.as_str(), "status", status);
    scoped_event(AtpEventKind::AgentStatus, atp_session_id, body)
}

/// `agent.tool_call`: `{ pid: "<pid>", callId, tool, args }`, owned by the session.
pub fn agent_tool_call_event(atp_session_id: &str, pid: u64, call_id: &str, tool_name: &str, args: Json) -> (ev: BusEvent)
    ensures
        member_count(ev.event.body) == 4,
        ev.event.event == AtpEventKind::AgentToolCall,
        ev.event.session_id@ == atp_session_id@,
        ev.owner_session matches Some(o) && o@ == atp_session_id@,
        ev.min_role == Role::User,
        get_str_spec(ev.event.body, "pid"@) == Some(decimal(pid as nat)),
        get_str_spec(ev.event.body, "callId"@) == Some(call_id@),
        get_str_spec(ev.event.body, "tool"@) == Some(tool_name@),
        json_get(ev.event.body, "args"@) == Some(args),
{
    let es = vec![
        member("pid", Json::Str(u64_to_decimal(pid))),
        str_member("callId", call_id),
        str_member("tool", tool_name),
        member("args", args),
    ];
    proof { reveal_strlit("pid"); reveal_strlit("callId"); reveal_strlit("tool"); reveal_strlit("args");  assert("pid"@.len() == 3); assert("callId"@.len() == 6); assert("tool"@.len() == 4); assert("args"@.len() == 4); assert("tool"@[0] != "args"@[0]); assert("tool"@ != "args"@); }
    let body = object(es);
    proof {
        assert(json_get(body, es@[0].0@) == Some(es@[0].1));
        assert(json_get(body, es@[1].0@) == Some(es@[1].1));
        assert(json_get(body, es@[2].0@) == Some(es@[2].1));
        assert(json_get(body, es@[3].0@) == Some(es@[3].1));
    }
    scoped_event(AtpEventKind::AgentToolCall, atp_session_id, body)
}

/// `agent.tool_result`: `{ pid: "<pid>", callId, tool, result }`, owned by the session.
pub fn agent_tool_result_event(atp_session_id: &str, pid: u64, call_id: &str, tool_name: &str, result: &str) -> (ev: BusEvent)
    ensures
        member_count(ev.event.body) == 4,
        ev.event.event == AtpEventKind::AgentToolResult,
        ev.event.session_id@ == atp_session_id@,
        ev.owner_session matches Some(o) && o@ == atp_session_id@,
        ev.min_role == Role::User,
        get_str_spec(ev.event.body, "pid"@) == Some(decimal(pid as nat)),
        get_str_spec(ev.event.body, "callId"@) == Some(call_id@),
        get_str_spec(ev.event.body, "tool"@) == Some(tool_name@),
        get_str_spec(ev.event.body, "result"@) == Some(result@),
{
    let es = vec![
        member("pid", Json::Str(u64_to_decimal(pid))),
        str_member("callId", call_id),
        str_member("tool", tool_name),
        str_member("result", result),
    ];
    proof { reveal_strlit("pid"); reveal_strlit("callId"); reveal_strlit("tool"); reveal_strlit("result");  assert("pid"@.len() == 3); assert("callId"@.len() == 6); assert("tool"@.len() == 4); assert("result"@.len() == 6); assert("callId"@[0] != "result"@[0]); assert("callId"@ != "result"@); }
    let body = object(es);
    proof {
        assert(json_get(body, es@[0].0@) == Some(es@[0].1));
        assert(json_get(body, es@[1].0@) == Some(es@[1].1));
        assert(json_get(body, es@[2].0@) == Some(es@[2].1));
        assert(json_get(body, es@[3].0@) == Some(es@[3].1));
    }
    scoped_event(AtpEventKind::AgentToolResult, atp_session_id, body)
}

/// `tool.changed`: `{ tool, change }`, system-wide, open to guests.
pub fn tool_changed_event(tool_name: &str, change: &str) -> (ev: BusEvent)
    ensures
        member_count(ev.event.body) == 2,
        ev.event.event == AtpEventKind::ToolChanged,
        ev.owner_session is None,
        ev.min_role == Role::Guest,
        get_str_spec(ev.event.body, "tool"@) == Some(tool_name@),
        get_str_spec(ev.event.body, "change"@) == Some(change@),
{
    proof { reveal_strlit("tool"); reveal_strlit("change");  assert("tool"@.len() == 4); assert("change"@.len() == 6); }
    system_event(AtpEventKind::ToolChanged, pair_object("tool", tool_name, "change", change))
}

/// `sys.service`: `{ service, status }`, system-wide, admins only.
pub fn sys_service_event(service: &str, status: &str) -> (ev: BusEvent)
    ensures
        member_count(ev.event.body) == 2,
        ev.event.event == AtpEventKind::SysService,
        ev.owner_session is None,
        ev.min_role == Role::Admin,
        get_str_spec(ev.event.body, "service"@) == Some(service@),
        get_str_spec(ev.event.body, "status"@) == Some(status@),
{
    proof { reveal_strlit("service"); reveal_strlit("status");  assert("service"@.len() == 7); assert("status"@.len() == 6); }
    system_event(AtpEventKind::SysService, pair_object("service", service, "status", status))
}

/// `sys.alert`: `{ message }`, system-wide, operators and up.
pub fn sys_alert_event(message: &str) -> (ev: BusEvent)
    ensures
        member_count(ev.event.body) == 1,
        ev.event.event == AtpEventKind::SysAlert,
        ev.owner_session is None,
        ev.min_role == Role::Operator,
        get_str_spec(ev.event.body, "message"@) == Some(message@),
{
    let es = vec![str_member("message", message)];
    let body = object(es);
    proof { assert(json_get(body, es@[0].0@) == Some(es@[0].1)); }
    system_event(AtpEventKind::SysAlert, body)
}

/// `fs.changed`: `{ path }`, owned by the session.
pub fn fs_changed_event(atp_session_id: &str, path: &str) -> (ev: BusEvent)
    ensures
        member_count(ev.event.body) == 1,
        ev.event.event == AtpEventKind::FsChanged,
        ev.event.session_id@ == atp_session_id@,
        ev.owner_session matches Some(o) && o@ == atp_session_id@,
        ev.min_role == Role::User,
        get_str_spec(ev.event.body, "path"@) == Some(path@),
{
    let es = vec![str_member("path", path)];
    let body = object(es);
    proof { assert(json_get(body, es@[0].0@) == Some(es@[0].1)); }
    scoped_event(AtpEventKind::FsChanged, atp_session_id, body)
}

/// `hil.request`: `{ hilId, kind }`, owned by the session.
pub fn hil_request_event(atp_session_id: &str, hil_id: &str, kind: &str) -> (ev: BusEvent)
    ensures
        member_count(ev.event.body) == 2,
        ev.event.event == AtpEventKind::HilRequest,
        ev.event.session_id@ == atp_session_id@,
        ev.owner_session matches Some(o) && o@ == atp_session_id@,
        ev.min_role == Role::User,
        get_str_spec(ev.event.body, "hilId"@) == Some(hil_id@),
        get_str_spec(ev.event.body, "kind"@) == Some(kind@),
{
    proof { reveal_strlit("hilId"); reveal_strlit("kind");  assert("hilId"@.len() == 5); assert("kind"@.len() == 4); }
    scoped_event(AtpEventKind::HilRequest, atp_session_id, pair_object("hilId", hil_id, "kind", kind))
}

/// `hil.resolved`: `{ hilId, outcome }`, owned by the session.
pub fn hil_resolved_event(atp_session_id: &str, hil_id: &str, outcome: &str) -> (ev: BusEvent)
    ensures
        member_count(ev.event.body) == 2,
        ev.event.event == AtpEventKind::HilResolved,
        ev.event.session_id@ == atp_session_id@,
        ev.owner_session matches Some(o) && o@ == atp_session_id@,
        ev.min_role == Role::User,
        get_str_spec(ev.event.body, "hilId"@) == Some(hil_id@),
        get_str_spec(ev.event.body, "outcome"@) == Some(outcome@),
{
    proof { reveal_strlit("hilId"); reveal_strlit("outcome");  assert("hilId"@.len() == 5); assert("outcome"@.len() == 7); }
    scoped_event(AtpEventKind::HilResolved, atp_session_id, pair_object("hilId", hil_id, "outcome", outcome))
}

/// The `fs.changed` event a watched path produces, owned by the session
/// that registered the watch.
pub fn on_vfs_change(path: &str, session_id: &str) -> (ev: BusEvent)
    ensures
        member_count(ev.event.body) == 1,
        ev.event.event == AtpEventKind::FsChanged,
        ev.event.session_id@ == session_id@,
        ev.owner_session matches Some(o) && o@ == session_id@,
        ev.min_role == Role::User,
        get_str_spec(ev.event.body, "path"@) == Some(path@),
{
    fs_changed_event(session_id, path)
}

} // verus!
