//! Invocation records: one per agent run, from spawn to exit. How a record
//! is created and updated, which records a listing selects, when a run may
//! be snapshotted, and where its conversation is kept.

use vstd::prelude::*;
use crate::atp::now_rfc3339;
use crate::error::AvixError;
use crate::json::Json;
use crate::seqs::{filtered, lemma_filtered_twice};
use crate::text::{owned, str_eq, concat2, concat3, decimal, u64_to_decimal, chars_of, string_of};

verus! {

/// Where one invocation stands.
#[derive(Clone, Copy, Debug, PartialEq, Eq, Structural)]
pub enum InvocationStatus {
    Running,
    Idle,
    /// Waiting for a human or paused by `SIGPAUSE`; can resume.
    Paused,
    Completed,
    Failed,
    Killed,
}

/// The run has not ended: `Running`, `Idle` or `Paused`.
pub open spec fn status_is_live(s: InvocationStatus) -> bool {
    s is Running || s is Idle || s is Paused
}

/// The status's wire name.
pub open spec fn status_wire_name(s: InvocationStatus) -> Seq<char> {
    match s {
        InvocationStatus::Running => "running"@,
        InvocationStatus::Idle => "idle"@,
        InvocationStatus::Paused => "paused"@,
        InvocationStatus::Completed => "completed"@,
        InvocationStatus::Failed => "failed"@,
        InvocationStatus::Killed => "killed"@,
    }
}

impl InvocationStatus {
    /// The run has not ended.
    pub fn is_live(&self) -> (b: bool)
        ensures
            b == status_is_live(*self),
    {
        match self {
            InvocationStatus::Running | InvocationStatus::Idle | InvocationStatus::Paused => true,
            _ => false,
        }
    }

    /// The status's wire name.
    pub fn wire_name(&self) -> (s: String)
        ensures
            s@ == status_wire_name(*self),
    {
        match self {
            InvocationStatus::Running => owned("running"),
            InvocationStatus::Idle => owned("idle"),
            InvocationStatus::Paused => owned("paused"),
            InvocationStatus::Completed => owned("completed"),
            InvocationStatus::Failed => owned("failed"),
            InvocationStatus::Killed => owned("killed"),
        }
    }
}

/// The lasting record of one agent run; times are RFC 3339 text.
#[derive(Debug)]
pub struct InvocationRecord {
    /// Permanent identifier, independent of the recycled pid.
    pub id: String,
    pub agent_name: String,
    pub username: String,
    /// The pid at spawn time (informational).
    pub pid: u64,
    pub goal: String,
    pub session_id: String,
    pub spawned_at: String,
    pub ended_at: Option<String>,
    pub status: InvocationStatus,
    pub tokens_consumed: u64,
    pub tool_calls_total: u32,
    pub exit_reason: Option<String>,
}

fn copy_text(s: &Option<String>) -> (r: Option<String>)
    ensures
        r == *s,
{
    match s {
        Some(t) => Some(t.clone()),
        None => None,
    }
}

impl InvocationRecord {
    /// A record for a run that starts now: `Running`, nothing consumed yet.
    pub fn new(id: String, agent_name: String, username: String, pid: u64, goal: String, session_id: String) -> (r: InvocationRecord)
        ensures
            r.id == id && r.agent_name == agent_name && r.username == username && r.pid == pid
                && r.goal == goal && r.session_id == session_id,
            r.ended_at is None,
            r.status == InvocationStatus::Running,
            r.tokens_consumed == 0 && r.tool_calls_total == 0,
            r.exit_reason is None,
    {
        InvocationRecord {
            id,
            agent_name,
            username,
            pid,
            goal,
            session_id,
            spawned_at: now_rfc3339(),
            ended_at: None,
            status: InvocationStatus::Running,
            tokens_consumed: 0,
            tool_calls_total: 0,
            exit_reason: None,
        }
    }

    /// A copy of this record.
    pub fn duplicate(&self) -> (r: InvocationRecord)
        ensures
            r == *self,
    {
        InvocationRecord {
            id: self.id.clone(),
            agent_name: self.agent_name.clone(),
            username: self.username.clone(),
            pid: self.pid,
            goal: self.goal.clone(),
            session_id: self.session_id.clone(),
            spawned_at: self.spawned_at.clone(),
            ended_at: copy_text(&self.ended_at),
            status: self.status,
            tokens_consumed: self.tokens_consumed,
            tool_calls_total: self.tool_calls_total,
            exit_reason: copy_text(&self.exit_reason),
        }
    }

    /// The record of a run that ended at `ended_at` with `status`.
    pub fn finalized(self, status: InvocationStatus, ended_at: String, tokens_consumed: u64, tool_calls_total: u32,
        exit_reason: Option<String>) -> (r: InvocationRecord)
        ensures
            r == (InvocationRecord { status, ended_at: Some(ended_at), tokens_consumed, tool_calls_total, exit_reason, ..self }),
    {
        InvocationRecord { status, ended_at: Some(ended_at), tokens_consumed, tool_calls_total, exit_reason, ..self }
    }

    /// The record with its status replaced.
    pub fn with_status(self, status: InvocationStatus) -> (r: InvocationRecord)
        ensures
            r == (InvocationRecord { status, ..self }),
    {
        InvocationRecord { status, ..self }
    }

    /// The record with its goal replaced (a new command for an idle run).
    pub fn with_goal(self, goal: &str) -> (r: InvocationRecord)
        ensures
            r.goal@ == goal@,
            r == (InvocationRecord { goal: r.goal, ..self }),
    {
        InvocationRecord { goal: owned(goal), ..self }
    }

    /// The record with its running counters replaced (an interim snapshot).
    pub fn with_counters(self, tokens_consumed: u64, tool_calls_total: u32) -> (r: InvocationRecord)
        ensures
            r == (InvocationRecord { tokens_consumed, tool_calls_total, ..self }),
    {
        InvocationRecord { tokens_consumed, tool_calls_total, ..self }
    }
}

/// Which records a listing keeps.
#[derive(Debug)]
pub enum Selector {
    /// Those of this user.
    User(String),
    /// Those of this user's agent.
    Agent { username: String, agent_name: String },
    /// Those of this session.
    Session(String),
    /// Those whose run has ended.
    Finished,
}

/// `sel` keeps `r`.
pub open spec fn selects(sel: Selector, r: InvocationRecord) -> bool {
    match sel {
        Selector::User(u) => r.username@ == u@,
        Selector::Agent { username, agent_name } => r.username@ == username@ && r.agent_name@ == agent_name@,
        Selector::Session(s) => r.session_id@ == s@,
        Selector::Finished => !status_is_live(r.status),
    }
}

fn keeps(sel: &Selector, r: &InvocationRecord) -> (b: bool)
    ensures
        b == selects(*sel, *r),
{
    match sel {
        Selector::User(u) => str_eq(r.username.as_str(), u.as_str()),
        Selector::Agent { username, agent_name } =>
            str_eq(r.username.as_str(), username.as_str()) && str_eq(r.agent_name.as_str(), agent_name.as_str()),
        Selector::Session(s) => str_eq(r.session_id.as_str(), s.as_str()),
        Selector::Finished => !r.status.is_live(),
    }
}

/// The records of `records` that `sel` keeps, in order.
pub fn select(records: &Vec<InvocationRecord>, sel: &Selector) -> (out: Vec<InvocationRecord>)
    ensures
        out@ == filtered(records@, |r: InvocationRecord| selects(*sel, r)),
{
    let ghost p = |r: InvocationRecord| selects(*sel, r);
    let mut out: Vec<InvocationRecord> = Vec::new();
    let mut i: usize = 0;
    while i < records.len()
        invariant
            i <= records@.len(),
            p == (|r: InvocationRecord| selects(*sel, r)),
            out@ == filtered(records@.take(i as int), p),
        decreases records@.len() - i,
    {
        assert(records@.take(i + 1).drop_last() =~= records@.take(i as int));
        assert(records@.take(i + 1).last() == records@[i as int]);
        if keeps(sel, &records[i]) {
            out.push(records[i].duplicate());
        }
        i += 1;
    }
    assert(records@.take(records@.len() as int) =~= records@);
    out
}

/// The error when the invocation store is not configured.
pub fn store_missing() -> (e: AvixError)
    ensures
        e matches AvixError::NotFound(m) && m@ == "invocation store not configured"@,
{
    AvixError::NotFound(owned("invocation store not configured"))
}

/// `r` belongs to `username` (and to the agent `agent`, when given).
pub open spec fn owned_by(r: InvocationRecord, username: Seq<char>, agent: Option<Seq<char>>) -> bool {
    r.username@ == username && match agent {
        Some(a) => r.agent_name@ == a,
        None => true,
    }
}

/// The view of an optional name.
pub open spec fn opt_view(a: Option<&str>) -> Option<Seq<char>> {
    match a {
        Some(x) => Some(x@),
        None => None,
    }
}

/// `username`'s invocations (of `agent_name` only, when given) among
/// `all`, in order; unless `live`, only the runs that have ended.
pub fn list_invocations(all: &Vec<InvocationRecord>, username: &str, agent_name: Option<&str>, live: bool) -> (out: Vec<InvocationRecord>)
    ensures
        out@ == filtered(all@, |r: InvocationRecord| owned_by(r, username@, opt_view(agent_name))
            && (live || !status_is_live(r.status))),
{
    let ghost own = |r: InvocationRecord| owned_by(r, username@, opt_view(agent_name));
    let by_owner = match agent_name {
        Some(a) => {
            let sel = Selector::Agent { username: owned(username), agent_name: owned(a) };
            let v = select(all, &sel);
            assert((|r: InvocationRecord| selects(sel, r)) =~= own);
            v
        },
        None => {
            let sel = Selector::User(owned(username));
            let v = select(all, &sel);
            assert((|r: InvocationRecord| selects(sel, r)) =~= own);
            v
        },
    };
    assert(by_owner@ == filtered(all@, own));
    let ghost want = |r: InvocationRecord| owned_by(r, username@, opt_view(agent_name)) && (live || !status_is_live(r.status));
    if live {
        assert(want =~= own);
        assert(by_owner@ == filtered(all@, want));
        by_owner
    } else {
        let fin = Selector::Finished;
        let out = select(&by_owner, &fin);
        proof {
            let finp = |r: InvocationRecord| selects(fin, r);
            assert(out@ == filtered(by_owner@, finp));
            assert(out@ == filtered(filtered(all@, own), finp));
            lemma_filtered_twice(all@, own, finp);
            assert((|r: InvocationRecord| own(r) && finp(r)) =~= want);
            assert(out@ == filtered(all@, want));
        }
        out
    }
}

/// Whether invocation `id` (found as `record`) may be snapshotted: it must
/// exist and its run must not have ended.
pub fn snapshot_check(id: &str, record: Option<&InvocationRecord>) -> (r: Result<(), AvixError>)
    ensures
        match record {
            None => r matches Err(AvixError::NotFound(m)) && m@ == "invocation "@ + id@ + " not found"@,
            Some(rec) => if status_is_live(rec.status) {
                r is Ok
            } else {
                r matches Err(AvixError::InvalidInput(m)) && m@ == "cannot snapshot a finalized invocation"@
            },
        },
{
    match record {
        None => Err(AvixError::NotFound(concat3("invocation ", id, " not found"))),
        Some(rec) => {
            if rec.status.is_live() {
                Ok(())
            } else {
                Err(AvixError::InvalidInput(owned("cannot snapshot a finalized invocation")))
            }
        },
    }
}

/// Where a run's conversation is kept, under the users' data root:
/// `<username>/.sessions/<session_id>/<pid>.jsonl`.
pub open spec fn conversation_path_spec(username: Seq<char>, session_id: Seq<char>, pid: u64) -> Seq<char> {
    username + "/.sessions/"@ + session_id + "/"@ + decimal(pid as nat) + ".jsonl"@
}

/// Where a run's conversation is kept.
pub fn conversation_path(username: &str, session_id: &str, pid: u64) -> (p: String)
    ensures
        p@ == conversation_path_spec(username@, session_id@, pid),
{
    let head = concat3(username, "/.sessions/", session_id);
    let mid = concat3(head.as_str(), "/", u64_to_decimal(pid).as_str());
    concat2(mid.as_str(), ".jsonl")
}

} // verus!
