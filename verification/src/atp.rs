//! The Avix Terminal Protocol: domains, event kinds, error codes and the
//! frames exchanged between clients and the gateway.

use vstd::prelude::*;
use crate::json::Json;
use crate::text::{owned, str_eq};

verus! {

/// The command domains of the protocol.
#[derive(Clone, Copy, Debug, PartialEq, Eq, Structural, Hash)]
pub enum AtpDomain {
    Auth,
    Proc,
    Signal,
    Fs,
    Snap,
    Cron,
    Users,
    Crews,
    Cap,
    Sys,
    Pipe,
    Session,
}

/// The name a domain is printed under in messages (its variant name).
pub open spec fn domain_label(d: AtpDomain) -> Seq<char> {
    match d {
        AtpDomain::Auth => "Auth"@,
        AtpDomain::Proc => "Proc"@,
        AtpDomain::Signal => "Signal"@,
        AtpDomain::Fs => "Fs"@,
        AtpDomain::Snap => "Snap"@,
        AtpDomain::Cron => "Cron"@,
        AtpDomain::Users => "Users"@,
        AtpDomain::Crews => "Crews"@,
        AtpDomain::Cap => "Cap"@,
        AtpDomain::Sys => "Sys"@,
        AtpDomain::Pipe => "Pipe"@,
        AtpDomain::Session => "Session"@,
    }
}

impl AtpDomain {
    /// The variant name, as used in error messages.
    pub fn label(&self) -> (s: String)
        ensures
            s@ == domain_label(*self),
    {
        match self {
            AtpDomain::Auth => owned("Auth"),
            AtpDomain::Proc => owned("Proc"),
            AtpDomain::Signal => owned("Signal"),
            AtpDomain::Fs => owned("Fs"),
            AtpDomain::Snap => owned("Snap"),
            AtpDomain::Cron => owned("Cron"),
            AtpDomain::Users => owned("Users"),
            AtpDomain::Crews => owned("Crews"),
            AtpDomain::Cap => owned("Cap"),
            AtpDomain::Sys => owned("Sys"),
            AtpDomain::Pipe => owned("Pipe"),
            AtpDomain::Session => owned("Session"),
        }
    }
}

/// Server-push event kinds.
#[derive(Clone, Copy, Debug, PartialEq, Eq, Structural, Hash)]
pub enum AtpEventKind {
    SessionReady,
    SessionClosing,
    SessionAgentAttached,
    SessionAgentDetached,
    SessionStatusChanged,
    TokenExpiring,
    AgentOutput,
    AgentStatus,
    AgentToolCall,
    AgentToolResult,
    AgentExit,
    AgentSpawned,
    AgentOutputChunk,
    ProcStart,
    ProcOutput,
    ProcExit,
    ProcSignal,
    HilRequest,
    HilResolved,
    FsChanged,
    ToolChanged,
    CronFired,
    SysService,
    SysAlert,
}

/// The dotted wire name of an event kind, e.g. `agent.output`.
pub open spec fn event_wire_name(k: AtpEventKind) -> Seq<char> {
    match k {
        AtpEventKind::SessionReady => "session.ready"@,
        AtpEventKind::SessionClosing => "session.closing"@,
        AtpEventKind::SessionAgentAttached => "session.agent_attached"@,
        AtpEventKind::SessionAgentDetached => "session.agent_detached"@,
        AtpEventKind::SessionStatusChanged => "session.status_changed"@,
        AtpEventKind::TokenExpiring => "token.expiring"@,
        AtpEventKind::AgentOutput => "agent.output"@,
        AtpEventKind::AgentStatus => "agent.status"@,
        AtpEventKind::AgentToolCall => "agent.tool_call"@,
        AtpEventKind::AgentToolResult => "agent.tool_result"@,
        AtpEventKind::AgentExit => "agent.exit"@,
        AtpEventKind::AgentSpawned => "agent.spawned"@,
        AtpEventKind::AgentOutputChunk => "agent.output_chunk"@,
        AtpEventKind::ProcStart => "proc.start"@,
        AtpEventKind::ProcOutput => "proc.output"@,
        AtpEventKind::ProcExit => "proc.exit"@,
        AtpEventKind::ProcSignal => "proc.signal"@,
        AtpEventKind::HilRequest => "hil.request"@,
        AtpEventKind::HilResolved => "hil.resolved"@,
        AtpEventKind::FsChanged => "fs.changed"@,
        AtpEventKind::ToolChanged => "tool.changed"@,
        AtpEventKind::CronFired => "cron.fired"@,
        AtpEventKind::SysService => "sys.service"@,
        AtpEventKind::SysAlert => "sys.alert"@,
    }
}

impl AtpEventKind {
    /// The dotted wire name of this event kind.
    pub fn wire_name(&self) -> (s: String)
        ensures
            s@ == event_wire_name(*self),
    {
        match self {
            AtpEventKind::SessionReady => owned("session.ready"),
            AtpEventKind::SessionClosing => owned("session.closing"),
            AtpEventKind::SessionAgentAttached => owned("session.agent_attached"),
            AtpEventKind::SessionAgentDetached => owned("session.agent_detached"),
            AtpEventKind::SessionStatusChanged => owned("session.status_changed"),
            AtpEventKind::TokenExpiring => owned("token.expiring"),
            AtpEventKind::AgentOutput => owned("agent.output"),
            AtpEventKind::AgentStatus => owned("agent.status"),
            AtpEventKind::AgentToolCall => owned("agent.tool_call"),
            AtpEventKind::AgentToolResult => owned("agent.tool_result"),
            AtpEventKind::AgentExit => owned("agent.exit"),
            AtpEventKind::AgentSpawned => owned("agent.spawned"),
            AtpEventKind::AgentOutputChunk => owned("agent.output_chunk"),
            AtpEventKind::ProcStart => owned("proc.start"),
            AtpEventKind::ProcOutput => owned("proc.output"),
            AtpEventKind::ProcExit => owned("proc.exit"),
            AtpEventKind::ProcSignal => owned("proc.signal"),
            AtpEventKind::HilRequest => owned("hil.request"),
            AtpEventKind::HilResolved => owned("hil.resolved"),
            AtpEventKind::FsChanged => owned("fs.changed"),
            AtpEventKind::ToolChanged => owned("tool.changed"),
            AtpEventKind::CronFired => owned("cron.fired"),
            AtpEventKind::SysService => owned("sys.service"),
            AtpEventKind::SysAlert => owned("sys.alert"),
        }
    }
}

/// Protocol error codes.
#[derive(Clone, Copy, Debug, PartialEq, Eq, Structural, Hash)]
pub enum AtpErrorCode {
    /// invalid or missing token
    Eauth,
    /// token expired
    Eexpired,
    /// session id mismatch
    Esession,
    /// insufficient role
    Eperm,
    /// target does not exist
    Enotfound,
    /// operation conflicts with current state
    Econflict,
    /// approval token already consumed
    Eused,
    /// quota exceeded
    Elimit,
    /// malformed message
    Eparse,
    /// kernel-side error
    Einternal,
    /// target service not running
    Eunavail,
}

/// Structured error body carried in a reply when `ok` is false.
#[derive(Debug)]
pub struct AtpError {
    pub code: AtpErrorCode,
    pub message: String,
    pub detail: Option<Json>,
}

impl AtpError {
    pub fn new(code: AtpErrorCode, message: &str) -> (e: AtpError)
        ensures
            e.code == code,
            e.message@ == message@,
            e.detail is None,
    {
        AtpError { code, message: owned(message), detail: None }
    }

    /// Attach a detail document.
    pub fn with_detail(self, detail: Json) -> (e: AtpError)
        ensures
            e.code == self.code,
            e.message == self.message,
            e.detail == Some(detail),
    {
        AtpError { code: self.code, message: self.message, detail: Some(detail) }
    }
}

/// Why an inbound frame could not be read.
#[derive(Debug)]
pub enum AtpFrameError {
    /// malformed frame
    Parse(String),
    /// unknown message type
    UnknownType(String),
}

/// Legacy command set.
#[derive(Debug)]
pub enum ATPCommand {
    AgentSpawn { name: String, goal: String },
    AgentKill { pid: String },
    AgentList,
    AgentStatus { pid: String },
    FsRead { path: String },
    FsWrite { path: String, content: String },
    LlmStatus,
    SysInfo,
    SysReboot { confirm: bool },
}

/// Legacy response envelope.
#[derive(Debug)]
pub struct ATPResponse {
    pub id: String,
    pub ok: bool,
    pub result: Option<Json>,
    pub error: Option<String>,
}

impl ATPResponse {
    pub fn ok(id: &str, result: Json) -> (r: ATPResponse)
        ensures
            r.id@ == id@,
            r.ok,
            r.result == Some(result),
            r.error is None,
    {
        ATPResponse { id: owned(id), ok: true, result: Some(result), error: None }
    }

    pub fn err(id: &str, msg: &str) -> (r: ATPResponse)
        ensures
            r.id@ == id@,
            !r.ok,
            r.result is None,
            r.error matches Some(m) && m@ == msg@,
    {
        ATPResponse { id: owned(id), ok: false, result: None, error: Some(owned(msg)) }
    }
}

/// A command sent from client to gateway.
#[derive(Debug)]
pub struct AtpCmd {
    pub msg_type: String,
    pub id: String,
    pub token: String,
    pub domain: AtpDomain,
    pub op: String,
    pub body: Json,
}

/// A reply from gateway to client, correlated by `id`.
#[derive(Debug)]
pub struct AtpReply {
    pub msg_type: String,
    pub id: String,
    pub ok: bool,
    pub body: Option<Json>,
    pub error: Option<AtpError>,
}

impl AtpReply {
    pub fn ok(id: &str, body: Json) -> (r: AtpReply)
        ensures
            r.msg_type@ == "reply"@,
            r.id@ == id@,
            r.ok,
            r.body == Some(body),
            r.error is None,
    {
        AtpReply { msg_type: owned("reply"), id: owned(id), ok: true, body: Some(body), error: None }
    }

    pub fn err(id: &str, error: AtpError) -> (r: AtpReply)
        ensures
            r.msg_type@ == "reply"@,
            r.id@ == id@,
            !r.ok,
            r.body is None,
            r.error == Some(error),
    {
        AtpReply { msg_type: owned("reply"), id: owned(id), ok: false, body: None, error: Some(error) }
    }
}

/// The current time, `chrono::Utc::now()`, written as chrono's serde
/// writes a `DateTime<Utc>`: RFC 3339 with as many fraction digits as
/// needed and a `Z` suffix (chrono's `write_rfc3339` writes `Z` for the
/// zero offset when asked to). Of its shape only that is claimed: at
/// least a date, `T`, a time and the `Z` (20 characters), ending in `Z`.
/// Nothing is claimed of its value.
#[verifier::external_body]
pub(crate) fn now_rfc3339() -> (t: String)
    ensures
        t@.len() >= 20,
        t@.last() == 'Z',
{
    chrono::Utc::now().to_rfc3339_opts(chrono::SecondsFormat::AutoSi, true)
}

/// A server-push event.
#[derive(Debug)]
pub struct AtpEvent {
    pub msg_type: String,
    pub event: AtpEventKind,
    pub session_id: String,
    /// Creation time, RFC 3339 text.
    pub ts: String,
    pub body: Json,
}

impl AtpEvent {
    /// A new event stamped with the current time.
    pub fn new(event: AtpEventKind, session_id: &str, body: Json) -> (e: AtpEvent)
        ensures
            e.msg_type@ == "event"@,
            e.event == event,
            e.session_id@ == session_id@,
            e.body == body,
            e.ts@.len() >= 20 && e.ts@.last() == 'Z',
    {
        AtpEvent { msg_type: owned("event"), event, session_id: owned(session_id), ts: now_rfc3339(), body }
    }
}

/// A subscription request sent from client to gateway.
#[derive(Debug)]
pub struct AtpSubscribe {
    pub msg_type: String,
    pub id: String,
    pub token: String,
    /// Event names to subscribe to, or `["*"]` for all permitted events.
    pub events: Vec<String>,
}

/// Top-level inbound frame.
#[derive(Debug)]
pub enum AtpFrame {
    Cmd(AtpCmd),
    Subscribe(AtpSubscribe),
}

/// Which kind of frame a `type` field announces.
#[derive(Clone, Copy, Debug, PartialEq, Eq, Structural)]
pub enum FrameType {
    Cmd,
    Subscribe,
}

/// Decide the frame kind from its `type` field (`None` when the field is
/// missing or not a string).
pub fn classify_frame(type_field: Option<&str>) -> (r: Result<FrameType, AtpFrameError>)
    ensures
        match type_field {
            None => r matches Err(AtpFrameError::Parse(m)) && m@ == "missing 'type' field"@,
            Some(t) => if t@ == "cmd"@ {
                r == Ok::<FrameType, AtpFrameError>(FrameType::Cmd)
            } else if t@ == "subscribe"@ {
                r == Ok::<FrameType, AtpFrameError>(FrameType::Subscribe)
            } else {
                r matches Err(AtpFrameError::UnknownType(m)) && m@ == t@
            },
        },
{
    match type_field {
        None => Err(AtpFrameError::Parse(owned("missing 'type' field"))),
        Some(t) => {
            if str_eq(t, "cmd") {
                Ok(FrameType::Cmd)
            } else if str_eq(t, "subscribe") {
                Ok(FrameType::Subscribe)
            } else {
                Err(AtpFrameError::UnknownType(owned(t)))
            }
        },
    }
}

} // verus!
