//! Spawning an agent: which pid it gets, which session it joins or
//! creates, its process-table entry, its invocation record, its persisted
//! agent-list record and its capability token. The process table, the
//! stores and the executor that carry a plan out live outside the library.

use vstd::prelude::*;
use std::collections::HashMap;
use crate::agents::{AgentRecord, allocate_pid, max_or_one};
use crate::atp::now_rfc3339;
use crate::error::AvixError;
use crate::ids::new_uuid_v4;
use crate::invocation::{InvocationRecord, InvocationStatus};
use crate::kernel_ipc::{ProcessStatus, uuid_parses, uuid_text, uuid_hyphenated};
use crate::text::{owned, str_eq, concat2};
use crate::token::{CapabilityToken, IssuedTo, signed_by};

verus! {

broadcast use vstd::std_specs::hash::group_hash_axioms;

/// How long a spawned agent's token lives, in seconds.
pub const SPAWN_TOKEN_TTL_SECS: i64 = 3600;

/// A new process-table entry.
#[derive(Debug)]
pub struct ProcEntry {
    pub pid: u64,
    pub name: String,
    pub goal: String,
    pub status: ProcessStatus,
    pub parent: Option<u64>,
    pub spawned_by: String,
}

/// What a spawn records in the session store.
#[derive(Clone, Copy, Debug, PartialEq, Eq, Structural)]
pub enum SessionStep {
    /// No session store is configured: nothing is recorded.
    Detached,
    /// The agent joins an existing session: it is added as a participant,
    /// and its pid and invocation are recorded on the session (when the
    /// store holds it).
    Join,
    /// A new session owned by the agent is created, under the plan's
    /// session id, with the caller, the agent's name as title and agent,
    /// and the goal; the pid and invocation are recorded on it.
    Create,
}

/// How `AgentManager::spawn` carries out a spawn.
#[derive(Debug)]
pub struct AgentSpawnPlan {
    pub pid: u64,
    /// The session the agent runs in.
    pub session_id: String,
    pub session: SessionStep,
    /// Inserted into the process table as `Pending`; marked `Running` once
    /// the executor is launched (or at once when there is none).
    pub entry: ProcEntry,
    /// Created in the invocation store, when there is one.
    pub invocation: InvocationRecord,
    pub token: CapabilityToken,
}

/// The session a spawn names before any is created: the parent's active
/// session when the parent is in one, else `session_id` when it is not
/// empty, else none (a new one is created).
pub open spec fn named_session(parent_pid: Option<u64>, active: Map<u64, String>, session_id: Seq<char>) -> Option<Seq<char>> {
    match parent_pid {
        Some(p) if active.contains_key(p) => Some(active[p]@),
        _ => if session_id.len() > 0 { Some(session_id) } else { None },
    }
}

/// The error for a session id that is not a UUID.
pub open spec fn invalid_session_message(s: Seq<char>) -> Seq<char> {
    "invalid session id: "@ + s
}

/// `e` is the entry for `pid`, named `name` with `goal`, spawned by
/// `spawned_by` under `parent`, still pending.
pub open spec fn pending_entry(e: ProcEntry, pid: u64, name: Seq<char>, goal: Seq<char>, parent: Option<u64>, spawned_by: Seq<char>) -> bool {
    &&& e.pid == pid
    &&& e.name@ == name
    &&& e.goal@ == goal
    &&& e.status == ProcessStatus::Pending
    &&& e.parent == parent
    &&& e.spawned_by@ == spawned_by
}

/// `r` is a fresh running invocation record for `pid` running `name` for
/// `caller` with `goal` in `session`, under a new UUID.
pub open spec fn fresh_invocation(r: InvocationRecord, pid: u64, name: Seq<char>, caller: Seq<char>, goal: Seq<char>, session: Seq<char>) -> bool {
    &&& uuid_hyphenated(r.id@)
    &&& r.agent_name@ == name
    &&& r.username@ == caller
    &&& r.pid == pid
    &&& r.goal@ == goal
    &&& r.session_id@ == session
    &&& r.status == InvocationStatus::Running
    &&& r.ended_at is None && r.exit_reason is None
    &&& r.tokens_consumed == 0 && r.tool_calls_total == 0
}

/// `t` grants `tools` to agent `pid` (`name`, spawned by `caller`) for an
/// hour from its issue time, signed by `sign` under `key`.
pub open spec fn spawn_token<S: Fn(&Vec<u8>, &CapabilityToken) -> String>(t: CapabilityToken, tools: Seq<String>,
    pid: u64, name: Seq<char>, caller: Seq<char>, key: Vec<u8>, sign: S) -> bool {
    &&& t.granted_tools@ == tools
    &&& t.issued_to matches Some(it) && it.pid == pid && it.agent_name@ == name && it.spawned_by@ == caller
    &&& t.expires_at == t.issued_at + SPAWN_TOKEN_TTL_SECS
    &&& signed_by(sign, key, t)
}

fn issued_to(pid: u64, name: &str, caller: &str) -> (it: IssuedTo)
    ensures
        it.pid == pid && it.agent_name@ == name@ && it.spawned_by@ == caller@,
{
    IssuedTo { pid, agent_name: owned(name), spawned_by: owned(caller) }
}

/// Plan the spawn of agent `name` (pid `pid`, allocated by the caller)
/// with `goal` for `caller`, as a child of `parent_pid` if given.
///
/// The agent runs in the parent's active session when the parent has one,
/// else in `session_id` when it is not empty, else in a new session under
/// a fresh UUID. With a session store (`has_session_store`) a named session
/// must be a UUID, or the spawn fails and nothing changes; the agent joins
/// it, or creates the new one. The agent's session and a fresh invocation
/// id are recorded under its pid in `active_sessions` and
/// `active_invocations`, and its token grants `tools` for an hour.
pub fn plan_agent_spawn<S: Fn(&Vec<u8>, &CapabilityToken) -> String>(
    pid: u64,
    name: &str,
    goal: &str,
    session_id: &str,
    caller: &str,
    parent_pid: Option<u64>,
    has_session_store: bool,
    active_sessions: &mut HashMap<u64, String>,
    active_invocations: &mut HashMap<u64, String>,
    tools: Vec<String>,
    key: &Vec<u8>,
    sign: &S,
) -> (r: Result<AgentSpawnPlan, AvixError>)
    requires
        forall|k: &Vec<u8>, u: &CapabilityToken| sign.requires((k, u)),
    ensures
        ({
            let named = named_session(parent_pid, old(active_sessions)@, session_id@);
            match r {
                Err(e) => has_session_store && (named matches Some(s) && !uuid_text(s)
                    && (e matches AvixError::InvalidInput(m) && m@ == invalid_session_message(s)))
                    && final(active_sessions)@ == old(active_sessions)@
                    && final(active_invocations)@ == old(active_invocations)@,
                Ok(p) => !(has_session_store && (named matches Some(s) && !uuid_text(s)))
                    && p.pid == pid
                    && match named {
                        Some(s) => p.session_id@ == s
                            && p.session == (if has_session_store { SessionStep::Join } else { SessionStep::Detached }),
                        None => uuid_hyphenated(p.session_id@)
                            && p.session == (if has_session_store { SessionStep::Create } else { SessionStep::Detached }),
                    }
                    && pending_entry(p.entry, pid, name@, goal@, parent_pid, caller@)
                    && fresh_invocation(p.invocation, pid, name@, caller@, goal@, p.session_id@)
                    && spawn_token(p.token, tools@, pid, name@, caller@, *key, *sign)
                    && final(active_sessions)@ == old(active_sessions)@.insert(pid, p.session_id)
                    && final(active_invocations)@ == old(active_invocations)@.insert(pid, p.invocation.id),
            }
        }),
{
    let ghost named = named_session(parent_pid, active_sessions@, session_id@);
    let inherited: Option<String> = match parent_pid {
        Some(pp) => match active_sessions.get(&pp) {
            Some(s) => Some(s.clone()),
            None => None,
        },
        None => None,
    };
    let chosen: Option<String> = match inherited {
        Some(s) => Some(s),
        None => if !str_eq(session_id, "") { Some(owned(session_id)) } else { None },
    };
    proof {
        reveal_strlit("");
        if session_id@.len() == 0 { assert(session_id@ =~= ""@); }
        assert(match parent_pid {
            Some(pp) => if active_sessions@.contains_key(pp) { inherited == Some(active_sessions@[pp]) } else { inherited is None },
            None => inherited is None,
        });
    }
    proof {
        assert(match chosen { Some(c) => named == Some(c@), None => named is None });
    }
    let (sid, step) = match chosen {
        Some(c) => {
            if has_session_store && !uuid_parses(c.as_str()) {
                return Err(AvixError::InvalidInput(concat2("invalid session id: ", c.as_str())));
            }
            (c, if has_session_store { SessionStep::Join } else { SessionStep::Detached })
        },
        None => (new_uuid_v4(), if has_session_store { SessionStep::Create } else { SessionStep::Detached }),
    };
    let entry = ProcEntry {
        pid,
        name: owned(name),
        goal: owned(goal),
        status: ProcessStatus::Pending,
        parent: parent_pid,
        spawned_by: owned(caller),
    };
    active_sessions.insert(pid, sid.clone());
    let invocation = InvocationRecord::new(new_uuid_v4(), owned(name), owned(caller), pid, owned(goal), sid.clone());
    active_invocations.insert(pid, invocation.id.clone());
    let token = CapabilityToken::mint(tools, Some(issued_to(pid, name, caller)), SPAWN_TOKEN_TTL_SECS, key, sign);
    Ok(AgentSpawnPlan { pid, session_id: sid, session: step, entry, invocation, token })
}

/// How `ProcHandler::spawn` carries out a spawn.
#[derive(Debug)]
pub struct ProcSpawnPlan {
    pub pid: u32,
    /// Inserted into the process table as `Pending`; marked `Running` once
    /// the executor is launched (or at once when there is none).
    pub entry: ProcEntry,
    /// Added to (or replacing the same pid in) the persisted agent list.
    pub record: AgentRecord,
    /// Created in the invocation store, when there is one.
    pub invocation: InvocationRecord,
    pub token: CapabilityToken,
}

/// The tools a kernel-spawned agent is granted.
pub open spec fn kernel_spawn_tools(t: Seq<String>) -> bool {
    &&& t.len() == 4
    &&& t[0]@ == "fs/read"@
    &&& t[1]@ == "fs/write"@
    &&& t[2]@ == "agent/spawn"@
    &&& t[3]@ == "llm/complete"@
}

/// Plan the kernel's spawn of agent `name` with `goal` in `session_id` for
/// `caller`, where `pids` are the pids in use: the agent gets one past the
/// largest pid (2 when there is none), a pending entry spawned by the
/// kernel, a record in the persisted agent list, a fresh invocation
/// (recorded under its pid in `active_invocations`) and a token granting
/// the four basic tools for an hour.
pub fn plan_proc_spawn<S: Fn(&Vec<u8>, &CapabilityToken) -> String>(
    pids: &Vec<u32>,
    name: &str,
    goal: &str,
    session_id: &str,
    caller: &str,
    active_invocations: &mut HashMap<u64, String>,
    key: &Vec<u8>,
    sign: &S,
) -> (p: ProcSpawnPlan)
    requires
        forall|i: int| 0 <= i < pids@.len() ==> pids@[i] < u32::MAX,
        forall|k: &Vec<u8>, u: &CapabilityToken| sign.requires((k, u)),
    ensures
        p.pid == max_or_one(pids@) + 1,
        pending_entry(p.entry, p.pid as u64, name@, goal@, None, "kernel"@),
        p.record.pid == p.pid && p.record.name@ == name@ && p.record.goal@ == goal@
            && p.record.session_id@ == session_id@,
        fresh_invocation(p.invocation, p.pid as u64, name@, caller@, goal@, session_id@),
        final(active_invocations)@ == old(active_invocations)@.insert(p.pid as u64, p.invocation.id),
        kernel_spawn_tools(p.token.granted_tools@),
        spawn_token(p.token, p.token.granted_tools@, p.pid as u64, name@, caller@, *key, *sign),
{
    let pid = allocate_pid(pids);
    let pid64: u64 = pid as u64;
    let entry = ProcEntry {
        pid: pid64,
        name: owned(name),
        goal: owned(goal),
        status: ProcessStatus::Pending,
        parent: None,
        spawned_by: owned("kernel"),
    };
    let record = AgentRecord {
        pid,
        name: owned(name),
        goal: owned(goal),
        session_id: owned(session_id),
        spawned_at: now_rfc3339(),
    };
    let invocation = InvocationRecord::new(new_uuid_v4(), owned(name), owned(caller), pid64, owned(goal), owned(session_id));
    active_invocations.insert(pid64, invocation.id.clone());
    let tools = vec![owned("fs/read"), owned("fs/write"), owned("agent/spawn"), owned("llm/complete")];
    let token = CapabilityToken::mint(tools, Some(issued_to(pid64, name, caller)), SPAWN_TOKEN_TTL_SECS, key, sign);
    ProcSpawnPlan { pid, entry, record, invocation, token }
}

} // verus!
