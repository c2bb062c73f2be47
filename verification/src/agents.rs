//! The process handler's bookkeeping decisions: the persisted agent list,
//! pid allocation, which session a new agent joins, what an exit does to
//! its session, when a session can be resumed, which tools a new agent is
//! granted, and the service and tool listings.

use vstd::prelude::*;
use std::collections::HashMap;
use crate::capability::{CapabilityResolver, always_present, granted, holds, strictly_sorted};
use crate::error::AvixError;
use crate::invocation::InvocationStatus;
use crate::json::Json;
use crate::seqs::{filtered, lemma_filtered_take_step};
use crate::text::{owned, str_eq, concat2, concat3};

verus! {

broadcast use vstd::std_specs::hash::group_hash_axioms;

/// An agent as the persisted agent list records it; `spawned_at` is RFC
/// 3339 text.
#[derive(Debug)]
pub struct AgentRecord {
    pub pid: u32,
    pub name: String,
    pub goal: String,
    pub session_id: String,
    pub spawned_at: String,
}

/// The persisted agent list.
#[derive(Debug)]
pub struct AgentsYaml {
    pub agents: Vec<AgentRecord>,
}

/// Position of the first agent with `pid`, if any.
pub open spec fn first_with_pid(s: Seq<AgentRecord>, pid: u32) -> Option<int> {
    if exists|i: int| 0 <= i < s.len() && s[i].pid == pid {
        Some(choose|i: int| 0 <= i < s.len() && s[i].pid == pid
            && forall|j: int| 0 <= j < i ==> s[j].pid != pid)
    } else {
        None
    }
}

impl AgentsYaml {
    /// An empty list.
    pub fn empty() -> (a: AgentsYaml)
        ensures
            a.agents@.len() == 0,
    {
        AgentsYaml { agents: Vec::new() }
    }

    /// Record `record`: it replaces the first agent with the same pid, or
    /// is added at the end.
    pub fn upsert(&mut self, record: AgentRecord)
        ensures
            ({
                let s = old(self).agents@;
                match first_with_pid(s, record.pid) {
                    Some(i) => final(self).agents@ == s.update(i, record),
                    None => final(self).agents@ == s.push(record),
                }
            }),
    {
        let ghost s = self.agents@;
        let mut i: usize = 0;
        while i < self.agents.len()
            invariant
                self.agents@ == s,
                i <= s.len(),
                forall|j: int| 0 <= j < i ==> s[j].pid != record.pid,
            ensures
                self.agents@ == s,
                i <= s.len(),
                forall|j: int| 0 <= j < i ==> s[j].pid != record.pid,
                i < s.len() ==> s[i as int].pid == record.pid,
            decreases s.len() - i,
        {
            if self.agents[i].pid == record.pid {
                break;
            }
            i += 1;
        }
        if i < self.agents.len() {
            proof {
                let w = choose|k: int| 0 <= k < s.len() && s[k].pid == record.pid
                    && forall|j: int| 0 <= j < k ==> s[j].pid != record.pid;
                if w < i {
                    assert(s[w].pid != record.pid);
                } else if w > i {
                    assert(s[i as int].pid != record.pid);
                }
                assert(first_with_pid(s, record.pid) == Some(i as int));
            }
            self.agents.set(i, record);
        } else {
            assert(first_with_pid(s, record.pid) is None);
            self.agents.push(record);
        }
    }

    /// Drop every agent with `pid`.
    pub fn remove_pid(&mut self, pid: u32)
        ensures
            final(self).agents@ == filtered(old(self).agents@, |a: AgentRecord| a.pid != pid),
    {
        let ghost keep = |a: AgentRecord| a.pid != pid;
        let ghost a0 = self.agents@;
        let n = self.agents.len();
        let mut rest: Vec<AgentRecord> = Vec::new();
        std::mem::swap(&mut rest, &mut self.agents);
        let mut kept: Vec<AgentRecord> = Vec::new();
        let mut i: usize = 0;
        while rest.len() > 0
            invariant
                i <= a0.len(),
                a0.len() == n,
                rest@ == a0.skip(i as int),
                keep == (|a: AgentRecord| a.pid != pid),
                kept@ == filtered(a0.take(i as int), keep),
            decreases rest@.len(),
        {
            proof { lemma_filtered_take_step(a0, i as int, keep); }
            let a = rest.remove(0);
            assert(a == a0[i as int]);
            assert(rest@ =~= a0.skip(i + 1));
            if a.pid != pid {
                kept.push(a);
            }
            i += 1;
        }
        assert(a0.take(i as int) =~= a0);
        self.agents = kept;
    }
}

/// The largest of `pids`, or 1 when there are none.
pub open spec fn max_or_one(pids: Seq<u32>) -> u32
    decreases pids.len(),
{
    if pids.len() == 0 {
        1
    } else if pids.len() == 1 {
        pids[0]
    } else {
        let m = max_or_one(pids.drop_last());
        if pids.last() > m { pids.last() } else { m }
    }
}

/// The pid for a new agent: one past the largest pid in use, or 2 when
/// none is (pid 1 belongs to the kernel).
pub fn allocate_pid(pids: &Vec<u32>) -> (pid: u32)
    requires
        forall|i: int| 0 <= i < pids@.len() ==> pids@[i] < u32::MAX,
    ensures
        pid == max_or_one(pids@) + 1,
{
    if pids.len() == 0 {
        return 2;
    }
    let mut m: u32 = pids[0];
    assert(pids@.take(1).len() == 1 && pids@.take(1)[0] == pids@[0]);
    let mut i: usize = 1;
    while i < pids.len()
        invariant
            1 <= i <= pids@.len(),
            m == max_or_one(pids@.take(i as int)),
            m < u32::MAX,
            forall|k: int| 0 <= k < pids@.len() ==> pids@[k] < u32::MAX,
        decreases pids@.len() - i,
    {
        assert(pids@.take(i + 1).drop_last() =~= pids@.take(i as int));
        assert(pids@.take(i + 1).last() == pids@[i as int]);
        if pids[i] > m {
            m = pids[i];
        }
        i += 1;
    }
    assert(pids@.take(pids@.len() as int) =~= pids@);
    m + 1
}

/// The session a new agent joins when its parent `parent_pid` is in one.
pub fn inherited_session(parent_pid: Option<u64>, active_sessions: &HashMap<u64, String>) -> (r: Option<String>)
    ensures
        match parent_pid {
            Some(p) => if active_sessions@.contains_key(p) { r == Some(active_sessions@[p]) } else { r is None },
            None => r is None,
        },
{
    match parent_pid {
        Some(p) => match active_sessions.get(&p) {
            Some(s) => Some(s.clone()),
            None => None,
        },
        None => None,
    }
}

/// Where a session stands.
#[derive(Clone, Copy, Debug, PartialEq, Eq, Structural)]
pub enum SessionStatus {
    Idle,
    Running,
    Paused,
    Completed,
    Failed,
}

/// The status's name as printed in messages.
pub open spec fn session_status_debug(s: SessionStatus) -> Seq<char> {
    match s {
        SessionStatus::Idle => "Idle"@,
        SessionStatus::Running => "Running"@,
        SessionStatus::Paused => "Paused"@,
        SessionStatus::Completed => "Completed"@,
        SessionStatus::Failed => "Failed"@,
    }
}

fn session_status_name(s: SessionStatus) -> (t: String)
    ensures
        t@ == session_status_debug(s),
{
    match s {
        SessionStatus::Idle => owned("Idle"),
        SessionStatus::Running => owned("Running"),
        SessionStatus::Paused => owned("Paused"),
        SessionStatus::Completed => owned("Completed"),
        SessionStatus::Failed => owned("Failed"),
    }
}

/// What an agent's exit does to its session's status.
#[derive(Clone, Copy, Debug, PartialEq, Eq, Structural)]
pub enum SessionMark {
    /// Leave the status as it is.
    Keep,
    Completed,
    Failed,
}

/// The mark an exit with `status` of `pid` puts on a session owned by
/// `owner_pid`: only the owner's exit ends the session, completed or failed.
pub fn session_mark_on_exit(pid: u64, owner_pid: u64, status: InvocationStatus) -> (m: SessionMark)
    ensures
        m == (if pid != owner_pid {
            SessionMark::Keep
        } else {
            match status {
                InvocationStatus::Completed => SessionMark::Completed,
                InvocationStatus::Failed | InvocationStatus::Killed => SessionMark::Failed,
                _ => SessionMark::Keep,
            }
        }),
{
    if pid != owner_pid {
        SessionMark::Keep
    } else {
        match status {
            InvocationStatus::Completed => SessionMark::Completed,
            InvocationStatus::Failed | InvocationStatus::Killed => SessionMark::Failed,
            _ => SessionMark::Keep,
        }
    }
}

/// The goal a resumed session runs with: the new input, else the session's
/// goal. Only an idle, running or paused session can be resumed.
pub fn resume_goal(session_id: &str, status: SessionStatus, goal: &str, input: Option<&str>) -> (r: Result<String, AvixError>)
    ensures
        (status is Idle || status is Running || status is Paused) ==> (r matches Ok(g)
            && g@ == (match input { Some(t) => t@, None => goal@ })),
        !(status is Idle || status is Running || status is Paused) ==> (r matches Err(AvixError::InvalidInput(m))
            && m@ == "session "@ + session_id@ + " is not Idle, Running, or Paused (status: "@
                + session_status_debug(status) + ")"@),
{
    match status {
        SessionStatus::Idle | SessionStatus::Running | SessionStatus::Paused => {
            Ok(match input {
                Some(t) => owned(t),
                None => owned(goal),
            })
        },
        _ => {
            let head = concat3("session ", session_id, " is not Idle, Running, or Paused (status: ");
            let mid = concat2(head.as_str(), session_status_name(status).as_str());
            Err(AvixError::InvalidInput(concat2(mid.as_str(), ")")))
        },
    }
}

/// The error when the session store is not configured.
pub fn session_store_missing() -> (e: AvixError)
    ensures
        e matches AvixError::NotFound(m) && m@ == "session store not configured"@,
{
    AvixError::NotFound(owned("session store not configured"))
}

/// The tools a new agent is granted: what its manifest's capability groups
/// resolve to (no groups when there is no manifest), or only the
/// always-present tools when no tool registry is available.
pub fn granted_tools(requested: Option<Vec<String>>, resolver: Option<&CapabilityResolver>) -> (r: Vec<String>)
    ensures
        match resolver {
            Some(res) => strictly_sorted(r@) && forall|t: Seq<char>| holds(r@, t) <==>
                granted(match requested { Some(c) => c@, None => Seq::empty() }, res.tools(), res.syscalls(), t),
            None => r@.map_values(|s: String| s@) == seq!["cap/request-tool"@, "cap/escalate"@, "cap/list"@, "job/watch"@],
        },
{
    match resolver {
        Some(res) => {
            let caps = match requested {
                Some(c) => c,
                None => Vec::new(),
            };
            res.resolve(&caps)
        },
        None => {
            let mut v: Vec<String> = Vec::new();
            v.push(owned("cap/request-tool"));
            v.push(owned("cap/escalate"));
            v.push(owned("cap/list"));
            v.push(owned("job/watch"));
            assert(v@.map_values(|s: String| s@) =~= seq!["cap/request-tool"@, "cap/escalate"@, "cap/list"@, "job/watch"@]);
            v
        },
    }
}

/// How many of `states` read `wanted`.
pub open spec fn count_of(states: Seq<String>, wanted: Seq<char>) -> nat
    decreases states.len(),
{
    if states.len() == 0 {
        0
    } else {
        count_of(states.drop_last(), wanted) + (if states.last()@ == wanted { 1nat } else { 0nat })
    }
}

fn count_matching(states: &Vec<String>, wanted: &str) -> (n: usize)
    ensures
        n == count_of(states@, wanted@),
        n <= states@.len(),
{
    let mut n: usize = 0;
    let mut i: usize = 0;
    while i < states.len()
        invariant
            i <= states@.len(),
            n == count_of(states@.take(i as int), wanted@),
            n <= i,
        decreases states@.len() - i,
    {
        assert(states@.take(i + 1).drop_last() =~= states@.take(i as int));
        assert(states@.take(i + 1).last() == states@[i as int]);
        if str_eq(states[i].as_str(), wanted) {
            n += 1;
        }
        i += 1;
    }
    assert(states@.take(states@.len() as int) =~= states@);
    n
}

/// The running services and how many are running or starting.
#[derive(Debug)]
pub struct ServiceListResponse {
    pub total: usize,
    pub running: usize,
    pub starting: usize,
    pub services: Vec<Json>,
}

/// The registered tools and how many are available.
#[derive(Debug)]
pub struct ToolListResponse {
    pub total: usize,
    pub available: usize,
    pub unavailable: usize,
    pub tools: Vec<Json>,
}

/// The service listing for `services`, whose statuses are `statuses`.
pub fn service_list(services: Vec<Json>, statuses: &Vec<String>) -> (r: ServiceListResponse)
    requires
        statuses@.len() == services@.len(),
    ensures
        r.total == services@.len(),
        r.running == count_of(statuses@, "running"@),
        r.starting == count_of(statuses@, "starting"@),
        r.services == services,
{
    let total = services.len();
    let running = count_matching(statuses, "running");
    let starting = count_matching(statuses, "starting");
    ServiceListResponse { total, running, starting, services }
}

/// The tool listing for `tools`, whose states are `states`.
pub fn tool_list(tools: Vec<Json>, states: &Vec<String>) -> (r: ToolListResponse)
    requires
        states@.len() == tools@.len(),
    ensures
        r.total == tools@.len(),
        r.available == count_of(states@, "available"@),
        r.unavailable == tools@.len() - count_of(states@, "available"@),
        r.tools == tools,
{
    let total = tools.len();
    let available = count_matching(states, "available");
    ToolListResponse { total, available, unavailable: total - available, tools }
}

} // verus!
