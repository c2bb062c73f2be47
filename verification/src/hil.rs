//! Human-in-the-loop requests: an agent asks a human to approve a tool
//! call, a capability upgrade or an escalation. The manager keeps the open
//! requests, checks the single-use approval token of an answer, and says
//! what each answer or timeout announces.

use vstd::prelude::*;
use crate::approvals::{ApprovalTokenStore, consume_outcome};
use crate::atp::{AtpEvent, AtpEventKind, now_rfc3339};
use crate::error::AvixError;
use crate::event_bus::BusEvent;
use crate::json::{Json, json_get, get_str_spec, json_same, member_count};
use crate::keyed::KeyedTable;
use crate::text::{owned, str_eq, concat2, concat3, decimal, u64_to_decimal};
use crate::types::{Pid, Role};

verus! {

/// What a request asks for.
#[derive(Clone, Copy, Debug, PartialEq, Eq, Structural)]
pub enum HilType {
    ToolCallApproval,
    CapabilityUpgrade,
    Escalation,
}

/// Where a request stands.
#[derive(Clone, Copy, Debug, PartialEq, Eq, Structural)]
pub enum HilState {
    Pending,
    Approved,
    Denied,
    Timeout,
}

/// How soon an answer is wanted.
#[derive(Clone, Copy, Debug, PartialEq, Eq, Structural)]
pub enum HilUrgency {
    Low,
    Normal,
    High,
}

/// A choice offered to the human.
#[derive(Debug)]
pub struct HilOption {
    pub id: String,
    pub label: String,
}

/// One request; times are RFC 3339 text.
#[derive(Debug)]
pub struct HilRequest {
    pub api_version: String,
    pub kind: String,
    pub hil_id: String,
    pub pid: Pid,
    pub agent_name: String,
    pub hil_type: HilType,
    pub tool: Option<String>,
    pub args: Option<Json>,
    pub reason: Option<String>,
    pub context: Option<String>,
    pub options: Option<Vec<HilOption>>,
    pub urgency: HilUrgency,
    pub approval_token: String,
    pub created_at: String,
    pub expires_at: String,
    pub state: HilState,
    /// The gateway session the request's events are routed to.
    pub atp_session_id: String,
}

/// Where a request's file lives: `/proc/<pid>/hil-queue/<hil-id>.yaml`.
pub open spec fn hil_vfs_path(pid: u64, hil_id: Seq<char>) -> Seq<char> {
    "/proc/"@ + decimal(pid as nat) + "/hil-queue/"@ + hil_id + ".yaml"@
}

impl HilRequest {
    /// The path of this request's file.
    pub fn vfs_path(&self) -> (p: String)
        ensures
            p@ == hil_vfs_path(self.pid.0, self.hil_id@),
    {
        let head = concat3("/proc/", u64_to_decimal(self.pid.0).as_str(), "/hil-queue/");
        concat3(head.as_str(), self.hil_id.as_str(), ".yaml")
    }

    /// This request with its state replaced.
    pub fn with_state(self, state: HilState) -> (r: HilRequest)
        ensures
            r == (HilRequest { state, ..self }),
    {
        HilRequest { state, ..self }
    }
}

/// `ev` is the `hil.resolved` event for `hil_id`, addressed to `owner`,
/// carrying `note` (a copy of it).
pub open spec fn resolved_event(ev: BusEvent, hil_id: Seq<char>, outcome: Seq<char>, resolved_by: Seq<char>,
    owner: Seq<char>, note: Json) -> bool {
    let b = ev.event.body;
    &&& ev.event.event == AtpEventKind::HilResolved
    &&& ev.event.session_id@ == owner
    &&& (ev.owner_session matches Some(o) && o@ == owner)
    &&& ev.min_role == Role::User
    &&& get_str_spec(b, "hilId"@) == Some(hil_id)
    &&& get_str_spec(b, "outcome"@) == Some(outcome)
    &&& get_str_spec(b, "resolvedBy"@) == Some(resolved_by)
    &&& get_str_spec(b, "resolvedAt"@) is Some
    &&& json_get(b, "note"@) matches Some(n) && json_same(note, n)
    &&& member_count(b) == 5
}

fn resolved(hil_id: &str, outcome: &str, resolved_by: &str, owner: &str, note: Json, ghost_note: Ghost<Json>) -> (ev: BusEvent)
    requires
        json_same(ghost_note@, note),
    ensures
        resolved_event(ev, hil_id@, outcome@, resolved_by@, owner@, ghost_note@),
{
    proof {
        reveal_strlit("hilId"); reveal_strlit("outcome"); reveal_strlit("resolvedBy"); reveal_strlit("resolvedAt");
        reveal_strlit("note");
        assert("hilId"@.len() == 5); assert("outcome"@.len() == 7); assert("resolvedBy"@.len() == 10);
        assert("resolvedAt"@.len() == 10); assert("note"@.len() == 4); assert("resolvedBy"@[8] != "resolvedAt"@[8]);
    }
    let mut b = Json::empty_object();
    b.set("hilId", Json::string(hil_id));
    b.set("outcome", Json::string(outcome));
    b.set("resolvedBy", Json::string(resolved_by));
    b.set("resolvedAt", Json::Str(now_rfc3339()));
    b.set("note", note);
    BusEvent { event: AtpEvent::new(AtpEventKind::HilResolved, owner, b), owner_session: Some(owned(owner)), min_role: Role::User }
}

/// What an accepted answer leads to.
#[derive(Debug)]
pub struct HilAnswered {
    /// The request as it now stands (approved or denied), to be written
    /// back to its file; none when the request was no longer open.
    pub updated: Option<HilRequest>,
    /// The `hil.resolved` announcement.
    pub event: BusEvent,
}

/// What a timeout leads to.
#[derive(Debug)]
pub struct HilTimedOut {
    /// The request, now timed out, to be written back to its file.
    pub updated: HilRequest,
    /// The agent to resume with `{ decision: "timeout" }`.
    pub resume_pid: Pid,
    /// The payload of that resume signal.
    pub resume_payload: Json,
    /// The `hil.resolved` announcement.
    pub event: BusEvent,
}

/// The open requests and the approval tokens that answer them.
#[derive(Debug)]
pub struct HilManager {
    pending: KeyedTable<HilRequest>,
    approvals: ApprovalTokenStore,
    timeout_secs: u64,
}

/// The state an answer with `decision` puts a request in.
pub open spec fn decided_state(decision: Seq<char>) -> HilState {
    if decision == "approved"@ { HilState::Approved } else { HilState::Denied }
}

/// The note an answer carries: `payload.note`, or `null`.
pub open spec fn note_of(payload: Json) -> Json {
    match json_get(payload, "note"@) {
        Some(n) => n,
        None => Json::Null,
    }
}

/// What answering request `hil_id` with `decision` and `token` did.
pub open spec fn resolve_outcome(before: HilManager, after: HilManager, hil_id: Seq<char>, token: Seq<char>,
    decision: Seq<char>, resolved_by: Seq<char>, payload: Json, r: Result<HilAnswered, AvixError>) -> bool {
    &&& consume_outcome(before.approvals(), after.approvals(), token, match r { Ok(_) => Ok(()), Err(e) => Err(e) })
    &&& after.timeout() == before.timeout()
    &&& match r {
        Err(_) => after.pending() == before.pending(),
        Ok(a) => {
            let was = before.pending().lookup(hil_id);
            let owner = match was { Some(q) => q.agent_name@, None => ""@ };
            &&& after.pending().lookup(hil_id) is None
            &&& forall|k: Seq<char>| k != hil_id ==> after.pending().lookup(k) == before.pending().lookup(k)
            &&& match was {
                Some(q) => a.updated == Some(HilRequest { state: decided_state(decision), ..q }),
                None => a.updated is None,
            }
            &&& resolved_event(a.event, hil_id, decision, resolved_by, owner, note_of(payload))
        },
    }
}

/// What timing out request `hil_id` of agent `pid` did.
pub open spec fn timeout_outcome(before: HilManager, after: HilManager, hil_id: Seq<char>, pid: Pid, r: Option<HilTimedOut>) -> bool {
    &&& after.approvals() == before.approvals()
    &&& after.timeout() == before.timeout()
    &&& match before.pending().lookup(hil_id) {
        None => r is None && after.pending() == before.pending(),
        Some(q) => r matches Some(t)
            && t.updated == (HilRequest { state: HilState::Timeout, ..q })
            && t.resume_pid == pid
            && get_str_spec(t.resume_payload, "decision"@) == Some("timeout"@) && member_count(t.resume_payload) == 1
            && resolved_event(t.event, hil_id, "timeout"@, "kernel"@, q.agent_name@, Json::Null)
            && after.pending().lookup(hil_id) is None
            && forall|k: Seq<char>| k != hil_id ==> after.pending().lookup(k) == before.pending().lookup(k),
    }
}

impl HilManager {
    /// The open requests, by id.
    pub closed spec fn pending(&self) -> KeyedTable<HilRequest> {
        self.pending
    }

    /// The approval tokens.
    pub closed spec fn approvals(&self) -> ApprovalTokenStore {
        self.approvals
    }

    /// How long a request stays open, in seconds.
    pub closed spec fn timeout(&self) -> u64 {
        self.timeout_secs
    }

    /// A manager with no open requests, answering with `approvals`; requests
    /// time out after `timeout_secs`.
    pub fn new(approvals: ApprovalTokenStore, timeout_secs: u64) -> (m: HilManager)
        ensures
            forall|k: Seq<char>| m.pending().lookup(k) is None,
            m.approvals() == approvals,
            m.timeout() == timeout_secs,
    {
        HilManager { pending: KeyedTable::new(), approvals, timeout_secs }
    }

    /// How long a request stays open, in seconds.
    pub fn timeout_secs(&self) -> (t: u64)
        ensures
            t == self.timeout(),
    {
        self.timeout_secs
    }

    /// Open `req`: keep it under its id and register its approval token (a
    /// token handed out before keeps its state).
    pub fn open(&mut self, req: HilRequest)
        ensures
            final(self).pending().lookup(req.hil_id@) == Some(req),
            forall|k: Seq<char>| k != req.hil_id@ ==> final(self).pending().lookup(k) == old(self).pending().lookup(k),
            old(self).approvals().state(req.approval_token@) is None
                ==> final(self).approvals().state(req.approval_token@) == Some(false),
            old(self).approvals().state(req.approval_token@) is Some
                ==> final(self).approvals().state(req.approval_token@) == old(self).approvals().state(req.approval_token@),
            forall|t: Seq<char>| t != req.approval_token@ ==> final(self).approvals().state(t) == old(self).approvals().state(t),
            final(self).timeout() == old(self).timeout(),
    {
        self.approvals.register(req.approval_token.as_str());
        let id = req.hil_id.clone();
        self.pending.insert(id, req);
    }

    /// Answer request `hil_id` with `decision`, presenting
    /// `approval_token`. A refused token is the error and changes nothing
    /// else; otherwise the request leaves the open set and `hil.resolved`
    /// is announced to its agent (empty when the request was no longer open).
    pub fn resolve(&mut self, hil_id: &str, approval_token: &str, decision: &str, resolved_by: &str, payload: &Json)
        -> (r: Result<HilAnswered, AvixError>)
        ensures
            resolve_outcome(*old(self), *final(self), hil_id@, approval_token@, decision@, resolved_by@, *payload, r),
    {
        match self.approvals.consume(approval_token) {
            Err(e) => Err(e),
            Ok(()) => {
                let taken = self.pending.remove(hil_id);
                let state = if str_eq(decision, "approved") { HilState::Approved } else { HilState::Denied };
                let (updated, owner) = match taken {
                    Some(q) => {
                        let owner = q.agent_name.clone();
                        (Some(q.with_state(state)), owner)
                    },
                    None => (None, owned("")),
                };
                proof { reveal_strlit(""); }
                let note = match payload.get("note") {
                    Some(n) => n.deep_clone(),
                    None => Json::Null,
                };
                let event = resolved(hil_id, decision, resolved_by, owner.as_str(), note, Ghost(note_of(*payload)));
                Ok(HilAnswered { updated, event })
            },
        }
    }
    /// Time out request `hil_id` of agent `pid`: when still open, it leaves
    /// the open set as timed out, the agent is resumed with
    /// `{ decision: "timeout" }`, and `hil.resolved` announces the outcome
    /// `timeout`, resolved by `kernel`. A request already answered is left
    /// alone.
    pub fn timeout_hil(&mut self, hil_id: &str, pid: Pid) -> (r: Option<HilTimedOut>)
        ensures
            timeout_outcome(*old(self), *final(self), hil_id@, pid, r),
    {
        match self.pending.remove(hil_id) {
            None => None,
            Some(q) => {
                let owner = q.agent_name.clone();
                let updated = q.with_state(HilState::Timeout);
                let mut payload = Json::empty_object();
                payload.set("decision", Json::string("timeout"));
                let event = resolved(hil_id, "timeout", "kernel", owner.as_str(), Json::Null, Ghost(Json::Null));
                Some(HilTimedOut { updated, resume_pid: pid, resume_payload: payload, event })
            },
        }
    }
}

/// An answered request cannot also time out: once an answer is accepted,
/// the timeout of the same request finds nothing open and changes nothing.
pub proof fn law_answered_request_does_not_time_out(
    m0: HilManager, m1: HilManager, m2: HilManager,
    hil_id: Seq<char>, token: Seq<char>, decision: Seq<char>, resolved_by: Seq<char>, payload: Json,
    r1: Result<HilAnswered, AvixError>, pid: Pid, r2: Option<HilTimedOut>,
)
    requires
        resolve_outcome(m0, m1, hil_id, token, decision, resolved_by, payload, r1),
        r1 is Ok,
        timeout_outcome(m1, m2, hil_id, pid, r2),
    ensures
        r2 is None,
        m2.pending() == m1.pending(),
{
}

/// A request is answered once: a second answer presenting the same
/// approval token is refused as already used, and nothing changes.
pub proof fn law_second_answer_refused(
    m0: HilManager, m1: HilManager, m2: HilManager,
    id1: Seq<char>, id2: Seq<char>, token: Seq<char>, d1: Seq<char>, d2: Seq<char>,
    by1: Seq<char>, by2: Seq<char>, p1: Json, p2: Json,
    r1: Result<HilAnswered, AvixError>, r2: Result<HilAnswered, AvixError>,
)
    requires
        resolve_outcome(m0, m1, id1, token, d1, by1, p1, r1),
        r1 is Ok,
        resolve_outcome(m1, m2, id2, token, d2, by2, p2, r2),
    ensures
        r2 matches Err(AvixError::CapabilityDenied(m)) && m@ == "EUSED: token already used"@,
        m2.pending() == m1.pending(),
{
}

} // verus!
