//! An in-memory stand-in for the kernel's process calls, for exercising the
//! gateway without a kernel: it keeps a process table, answers `spawn`,
//! `list`, `kill` and `stat`, and says which events each call publishes.

use std::collections::HashMap;
use vstd::prelude::*;
use vstd::std_specs::iter::IteratorSpec;
use crate::atp::{AtpError, AtpErrorCode, AtpEvent, AtpEventKind};
use crate::event_bus::{BusEvent, member, str_member};
use crate::json::{Json, JsonNumber, json_get, get_str_spec, get_u64_spec, get_bool_spec, object, member_count};
use crate::text::{owned, str_eq, decimal, u64_to_decimal, concat3};
use crate::types::Role;

verus! {

broadcast use vstd::std_specs::hash::group_hash_axioms;

/// One process the stand-in kernel knows.
#[derive(Debug)]
pub struct TestProc {
    pub pid: u64,
    pub name: String,
    pub goal: String,
    pub is_agent: bool,
}

/// The string items of `s`, in order (other items skipped).
pub open spec fn str_items(s: Seq<Json>) -> Seq<Seq<char>>
    decreases s.len(),
{
    if s.len() == 0 {
        Seq::empty()
    } else {
        let r = str_items(s.drop_last());
        match s.last() {
            Json::Str(t) => r.push(t@),
            _ => r,
        }
    }
}

/// `params.agent` is a string: the spawn is of an agent.
pub open spec fn spawn_is_agent(params: Json) -> bool {
    json_get(params, "agent"@) matches Some(Json::Str(_))
}

/// The name a spawned process is listed under.
pub open spec fn spawn_name(params: Json) -> Seq<char> {
    if spawn_is_agent(params) {
        get_str_spec(params, "agent"@)->0
    } else {
        match get_str_spec(params, "name"@) {
            Some(n) => n,
            None => "proc"@,
        }
    }
}

/// The goal a spawned process is listed with.
pub open spec fn spawn_goal(params: Json) -> Seq<char> {
    match get_str_spec(params, "goal"@) {
        Some(g) => g,
        None => ""@,
    }
}

/// The command line of a spawn: `params.cmd` when it is an array.
pub open spec fn cmd_items(params: Json) -> Seq<Json> {
    match json_get(params, "cmd"@) {
        Some(Json::Array(v)) => v@,
        _ => Seq::empty(),
    }
}

/// For a command whose first string is `echo`, the text it prints: its
/// second string, or empty.
pub open spec fn echo_output(params: Json) -> Option<Seq<char>> {
    let ss = str_items(cmd_items(params));
    if ss.len() > 0 && ss[0] == "echo"@ {
        Some(if ss.len() > 1 { ss[1] } else { ""@ })
    } else {
        None
    }
}

/// The pid a `kill` or `stat` names: `params.id`, else `params.pid`, else 0.
pub open spec fn target_pid(params: Json) -> u64 {
    match get_u64_spec(params, "id"@) {
        Some(n) => n,
        None => match get_u64_spec(params, "pid"@) {
            Some(n) => n,
            None => 0,
        },
    }
}

/// An event of `kind` for the fixed test session, with no owner, for users.
pub open spec fn is_test_event(ev: BusEvent, kind: AtpEventKind) -> bool {
    &&& ev.event.event == kind
    &&& ev.event.session_id@ == "test-session"@
    &&& ev.owner_session is None
    &&& ev.min_role == Role::User
}

/// `j` describes process `p` as a listing or `stat` does.
pub open spec fn proc_described(j: Json, p: TestProc) -> bool {
    &&& get_u64_spec(j, "pid"@) == Some(p.pid)
    &&& get_str_spec(j, "name"@) == Some(p.name@)
    &&& get_str_spec(j, "goal"@) == Some(p.goal@)
    &&& get_str_spec(j, "status"@) == Some("running"@)
    &&& member_count(j) == 4
}

/// The reply to a `stat` of an unknown pid.
pub open spec fn proc_not_found_message(pid: u64) -> Seq<char> {
    "proc "@ + decimal(pid as nat) + " not found"@
}

/// The reply to a method the stand-in does not serve.
pub open spec fn no_handler_message(method: Seq<char>) -> Seq<char> {
    "test IPC: no handler for '"@ + method + "'"@
}

/// What one call answers, and the events it publishes.
#[derive(Debug)]
pub struct RouterOutcome {
    pub result: Result<Json, AtpError>,
    pub events: Vec<BusEvent>,
}

/// The stand-in kernel: its process table, keyed by pid.
#[derive(Debug)]
pub struct TestIpcRouter {
    procs: HashMap<u64, TestProc>,
}

/// `spawn` of `params` under `pid` took `before` to `after` and answered `o`.
pub open spec fn spawned(before: TestIpcRouter, after: TestIpcRouter, params: Json, pid: u64, o: RouterOutcome) -> bool {
    &&& after.lookup(pid) matches Some(p) && p.pid == pid && p.name@ == spawn_name(params)
        && p.goal@ == spawn_goal(params) && p.is_agent == spawn_is_agent(params)
    &&& forall|q: u64| q != pid ==> after.lookup(q) == before.lookup(q)
    &&& after.procs().dom().len() == before.procs().dom().len() + (if before.lookup(pid) is Some { 0int } else { 1int })
    &&& o.result matches Ok(j) && get_str_spec(j, "pid"@) == Some(decimal(pid as nat))
        && get_str_spec(j, "status"@) == Some("running"@) && member_count(j) == 2
    &&& o.events@.len() == (if echo_output(params) is Some { 2int } else { 1int })
    &&& spawn_is_agent(params) ==> {
        let b = o.events@[0].event.body;
        &&& is_test_event(o.events@[0], AtpEventKind::AgentSpawned)
        &&& get_str_spec(b, "pid"@) == Some(decimal(pid as nat))
        &&& get_str_spec(b, "name"@) == Some(spawn_name(params))
        &&& get_str_spec(b, "goal"@) == Some(spawn_goal(params))
        &&& member_count(b) == 3
    }
    &&& !spawn_is_agent(params) ==> {
        let b = o.events@[0].event.body;
        &&& is_test_event(o.events@[0], AtpEventKind::ProcStart)
        &&& get_str_spec(b, "pid"@) == Some(decimal(pid as nat))
        &&& (json_get(b, "cmd"@) matches Some(Json::Array(v)) && v@ == cmd_items(params))
        &&& get_str_spec(b, "name"@) == Some(spawn_name(params))
        &&& member_count(b) == 3
    }
    &&& echo_output(params) matches Some(out) ==> {
        let b = o.events@[1].event.body;
        &&& is_test_event(o.events@[1], AtpEventKind::ProcOutput)
        &&& get_str_spec(b, "pid"@) == Some(decimal(pid as nat))
        &&& get_str_spec(b, "text"@) == Some(out)
        &&& member_count(b) == 2
    }
}

/// `kill` of `params` took `before` to `after` and answered `o`.
pub open spec fn killed(before: TestIpcRouter, after: TestIpcRouter, params: Json, o: RouterOutcome) -> bool {
    let pid = target_pid(params);
    let was_agent = before.lookup(pid) matches Some(p) && p.is_agent;
    &&& after.lookup(pid) is None
    &&& forall|q: u64| q != pid ==> after.lookup(q) == before.lookup(q)
    &&& after.procs().dom().len() == before.procs().dom().len() - (if before.lookup(pid) is Some { 1int } else { 0int })
    &&& o.result matches Ok(j) && get_bool_spec(j, "ok"@) == Some(true) && member_count(j) == 1
    &&& o.events@.len() == 1
    &&& is_test_event(o.events@[0], if was_agent { AtpEventKind::AgentExit } else { AtpEventKind::ProcExit })
    &&& get_str_spec(o.events@[0].event.body, "pid"@) == Some(decimal(pid as nat))
    &&& json_get(o.events@[0].event.body, "exitCode"@) == Some(Json::Number(JsonNumber::PosInt(0)))
    &&& member_count(o.events@[0].event.body) == 2
}

/// What a `stat` of `params` answers from `r`.
pub open spec fn stat_answer(r: TestIpcRouter, params: Json, res: Result<Json, AtpError>) -> bool {
    match r.lookup(target_pid(params)) {
        Some(p) => res matches Ok(j) && proc_described(j, p),
        None => res matches Err(e) && e.code == AtpErrorCode::Enotfound
            && e.message@ == proc_not_found_message(target_pid(params)),
    }
}

/// `j` lists every process of `r` once, in the order the table is walked.
pub open spec fn listing(r: TestIpcRouter, j: Json) -> bool {
    j matches Json::Array(v) && v@.len() == r.procs().dom().len()
        && (forall|i: int| 0 <= i < v@.len() ==> (get_u64_spec(#[trigger] v@[i], "pid"@) matches Some(q)
            && r.procs().contains_key(q) && proc_described(v@[i], r.procs()[q])))
        && (forall|q: u64| #[trigger] r.procs().contains_key(q) ==> exists|i: int| 0 <= i < v@.len()
            && proc_described(#[trigger] v@[i], r.procs()[q]))
}

fn test_event(kind: AtpEventKind, body: Json) -> (ev: BusEvent)
    ensures
        is_test_event(ev, kind),
        ev.event.body == body,
{
    let ev = AtpEvent::new(kind, "test-session", body);
    BusEvent { event: ev, owner_session: None, min_role: Role::User }
}

/// The string items of `items`, in order.
fn string_items(items: &Vec<Json>) -> (r: Vec<String>)
    ensures
        r@.map_values(|s: String| s@) == str_items(items@),
{
    let mut out: Vec<String> = Vec::new();
    let mut i: usize = 0;
    while i < items.len()
        invariant
            i <= items@.len(),
            out@.map_values(|s: String| s@) == str_items(items@.take(i as int)),
        decreases items@.len() - i,
    {
        let ghost before = out@;
        assert(items@.take(i + 1).drop_last() =~= items@.take(i as int));
        assert(items@.take(i + 1).last() == items@[i as int]);
        match &items[i] {
            Json::Str(t) => {
                out.push(t.clone());
                assert(out@.map_values(|s: String| s@) =~= before.map_values(|s: String| s@).push(t@));
            },
            _ => {},
        }
        i += 1;
    }
    assert(items@.take(items@.len() as int) =~= items@);
    out
}

fn proc_json(p: &TestProc) -> (j: Json)
    ensures
        proc_described(j, *p),
{
    let es = vec![
        member("pid", Json::uint(p.pid)),
        str_member("name", p.name.as_str()),
        str_member("goal", p.goal.as_str()),
        str_member("status", "running"),
    ];
    proof {
        reveal_strlit("pid"); reveal_strlit("name"); reveal_strlit("goal"); reveal_strlit("status");
        assert("pid"@.len() == 3); assert("name"@.len() == 4); assert("goal"@.len() == 4);
        assert("status"@.len() == 6); assert("name"@[0] != "goal"@[0]);
    }
    let j = object(es);
    proof {
        assert(json_get(j, es@[0].0@) == Some(es@[0].1));
        assert(json_get(j, es@[1].0@) == Some(es@[1].1));
        assert(json_get(j, es@[2].0@) == Some(es@[2].1));
        assert(json_get(j, es@[3].0@) == Some(es@[3].1));
    }
    j
}

fn pid_member(pid: u64) -> (e: (String, Json))
    ensures
        e.0@ == "pid"@,
        e.1 is Str && e.1->Str_0@ == decimal(pid as nat),
{
    member("pid", Json::Str(u64_to_decimal(pid)))
}

impl TestIpcRouter {
    #[verifier::type_invariant]
    spec fn inv(&self) -> bool {
        forall|q: u64| #[trigger] self.procs@.contains_key(q) ==> self.procs@[q].pid == q
    }

    /// The process table, by pid.
    pub closed spec fn procs(&self) -> Map<u64, TestProc> {
        self.procs@
    }

    /// The process under `pid`.
    pub open spec fn lookup(&self, pid: u64) -> Option<TestProc> {
        if self.procs().contains_key(pid) { Some(self.procs()[pid]) } else { None }
    }

    /// A stand-in with no processes.
    pub fn new() -> (r: TestIpcRouter)
        ensures
            r.procs().dom().len() == 0,
            forall|q: u64| r.lookup(q) is None,
    {
        let procs: HashMap<u64, TestProc> = HashMap::new();
        assert(procs@.dom() =~= Set::<u64>::empty());
        TestIpcRouter { procs }
    }

    /// `kernel/proc/spawn`: record the process under the new `pid` (an
    /// agent when `params.agent` is a string) and announce it; a command
    /// starting with `echo` also prints its argument.
    pub fn spawn(&mut self, params: Json, pid: u64) -> (o: RouterOutcome)
        ensures
            spawned(*old(self), *final(self), params, pid, o),
    {
        proof { use_type_invariant(&*self); }
        let ghost p0 = params;
        let is_agent = match params.get("agent") {
            Some(Json::Str(_)) => true,
            _ => false,
        };
        let name = if is_agent {
            match params.get_str("agent") {
                Some(a) => a,
                None => owned("agent"),
            }
        } else {
            match params.get_str("name") {
                Some(n) => n,
                None => owned("proc"),
            }
        };
        let goal = match params.get_str("goal") {
            Some(g) => g,
            None => owned(""),
        };
        proof { reveal_strlit(""); }
        let mut params = params;
        let cmd: Vec<Json> = match params.take("cmd") {
            Some(Json::Array(v)) => v,
            _ => Vec::new(),
        };
        assert(cmd@ == cmd_items(p0));
        let strs = string_items(&cmd);
        proof {
            assert(strs@.len() == str_items(cmd@).len());
            assert(forall|k: int| 0 <= k < strs@.len() ==> strs@[k]@ == str_items(cmd@)[k]);
        }
        let echo: Option<String> = if strs.len() > 0 && str_eq(strs[0].as_str(), "echo") {
            if strs.len() > 1 {
                Some(strs[1].clone())
            } else {
                Some(owned(""))
            }
        } else {
            None
        };
        assert(match echo {
            Some(t) => echo_output(p0) == Some(t@),
            None => echo_output(p0) is None,
        });

        // record the process
        let entry = TestProc { pid, name: name.clone(), goal: goal.clone(), is_agent };
        let ghost m0 = self.procs@;
        let mut procs: HashMap<u64, TestProc> = HashMap::new();
        std::mem::swap(&mut procs, &mut self.procs);
        assert(procs@ == m0);
        procs.insert(pid, entry);
        proof {
            assert(procs@ == m0.insert(pid, entry));
            if m0.contains_key(pid) {
                assert(m0.insert(pid, entry).dom() =~= m0.dom());
            } else {
                assert(m0.insert(pid, entry).dom() =~= m0.dom().insert(pid));
            }
        }
        self.procs = procs;

        // announce it
        let pid_text = u64_to_decimal(pid);
        let mut events: Vec<BusEvent> = Vec::new();
        proof {
            reveal_strlit("pid"); reveal_strlit("name"); reveal_strlit("goal"); reveal_strlit("cmd");
            assert("pid"@.len() == 3); assert("name"@.len() == 4); assert("goal"@.len() == 4);
            assert("cmd"@.len() == 3); assert("name"@[0] != "goal"@[0]); assert("pid"@[0] != "cmd"@[0]);
        }
        if is_agent {
            let es = vec![
                pid_member(pid),
                str_member("name", name.as_str()),
                str_member("goal", goal.as_str()),
            ];
            let body = object(es);
            proof {
                assert(json_get(body, es@[0].0@) == Some(es@[0].1));
                assert(json_get(body, es@[1].0@) == Some(es@[1].1));
                assert(json_get(body, es@[2].0@) == Some(es@[2].1));
            }
            events.push(test_event(AtpEventKind::AgentSpawned, body));
        } else {
            let es = vec![
                pid_member(pid),
                member("cmd", Json::Array(cmd)),
                str_member("name", name.as_str()),
            ];
            let body = object(es);
            proof {
                assert(json_get(body, es@[0].0@) == Some(es@[0].1));
                assert(json_get(body, es@[1].0@) == Some(es@[1].1));
                assert(json_get(body, es@[2].0@) == Some(es@[2].1));
            }
            events.push(test_event(AtpEventKind::ProcStart, body));
        }
        match echo {
            Some(text) => {
                proof { reveal_strlit("text"); assert("text"@.len() == 4); }
                let es = vec![pid_member(pid), member("text", Json::Str(text))];
                let body = object(es);
                proof {
                    assert(json_get(body, es@[0].0@) == Some(es@[0].1));
                    assert(json_get(body, es@[1].0@) == Some(es@[1].1));
                }
                events.push(test_event(AtpEventKind::ProcOutput, body));
            },
            None => {},
        }

        proof { reveal_strlit("status"); reveal_strlit("running"); assert("status"@.len() == 6); }
        let es = vec![member("pid", Json::Str(pid_text)), str_member("status", "running")];
        let reply = object(es);
        proof {
            assert(json_get(reply, es@[0].0@) == Some(es@[0].1));
            assert(json_get(reply, es@[1].0@) == Some(es@[1].1));
        }
        RouterOutcome { result: Ok(reply), events }
    }

    /// `kernel/proc/list`: every process, with status `running`.
    pub fn list(&self) -> (j: Json)
        ensures
            listing(*self, j),
    {
        proof { use_type_invariant(self); }
        let ghost m = self.procs@;
        let ghost all = vstd::std_specs::hash::spec_hash_map_iter(&self.procs).remaining();
        let mut out: Vec<Json> = Vec::new();
        for (_q, p) in it: self.procs.iter()
            invariant
                out@.len() == it.index(),
                it.seq() == all,
                forall|k: int| 0 <= k < it.index() ==> proc_described(#[trigger] out@[k], *all[k].1),
        {
            out.push(proc_json(p));
        }
        proof {
            assert(out@.len() == all.len());
            assert forall|i: int| 0 <= i < out@.len() implies (get_u64_spec(#[trigger] out@[i], "pid"@) matches Some(q)
                && m.contains_key(q) && proc_described(out@[i], m[q])) by {
                let q = *all[i].0;
                assert(m.contains_key(q) && m[q] == *all[i].1);
                assert(m[q].pid == q);
            }
            assert forall|q: u64| #[trigger] m.contains_key(q) implies exists|i: int| 0 <= i < out@.len()
                && proc_described(#[trigger] out@[i], m[q]) by {
                assert(all.contains((&q, &m[q])));
                let i = choose|i: int| 0 <= i < all.len() && all[i] == (&q, &m[q]);
                assert(proc_described(out@[i], m[q]));
            }
        }
        Json::Array(out)
    }

    fn target(params: &Json) -> (pid: u64)
        ensures
            pid == target_pid(*params),
    {
        match params.get_u64("id") {
            Some(n) => n,
            None => match params.get_u64("pid") {
                Some(n) => n,
                None => 0,
            },
        }
    }

    /// `kernel/proc/stat`: the named process, or `ENOTFOUND`.
    pub fn stat(&self, params: &Json) -> (r: Result<Json, AtpError>)
        ensures
            stat_answer(*self, *params, r),
    {
        proof { use_type_invariant(self); }
        let pid = Self::target(params);
        match self.procs.get(&pid) {
            Some(p) => {
                return Ok(proc_json(p));
            },
            None => {},
        }
        let m = concat3("proc ", u64_to_decimal(pid).as_str(), " not found");
        Err(AtpError::new(AtpErrorCode::Enotfound, m.as_str()))
    }

    /// `kernel/proc/kill`: drop the named process (if any) and announce its
    /// exit, as an agent's when it was one.
    pub fn kill(&mut self, params: &Json) -> (o: RouterOutcome)
        ensures
            killed(*old(self), *final(self), *params, o),
    {
        proof { use_type_invariant(&*self); }
        let pid = Self::target(params);
        let ghost m0 = self.procs@;
        let mut procs: HashMap<u64, TestProc> = HashMap::new();
        std::mem::swap(&mut procs, &mut self.procs);
        assert(procs@ == m0);
        let gone = procs.remove(&pid);
        proof {
            assert(procs@ == m0.remove(pid));
            if m0.contains_key(pid) {
                assert(m0.remove(pid).dom() =~= m0.dom().remove(pid));
            } else {
                assert(m0.remove(pid).dom() =~= m0.dom());
            }
        }
        let is_agent = match gone {
            Some(p) => p.is_agent,
            None => false,
        };
        self.procs = procs;

        proof { reveal_strlit("pid"); reveal_strlit("exitCode"); assert("pid"@.len() == 3); assert("exitCode"@.len() == 8); }
        let es = vec![pid_member(pid), member("exitCode", Json::uint(0))];
        let body = object(es);
        proof {
            assert(json_get(body, es@[0].0@) == Some(es@[0].1));
            assert(json_get(body, es@[1].0@) == Some(es@[1].1));
        }
        let kind = if is_agent { AtpEventKind::AgentExit } else { AtpEventKind::ProcExit };
        let mut events: Vec<BusEvent> = Vec::new();
        events.push(test_event(kind, body));
        let es2 = vec![member("ok", Json::Bool(true))];
        let reply = object(es2);
        proof { assert(json_get(reply, es2@[0].0@) == Some(es2@[0].1)); }
        RouterOutcome { result: Ok(reply), events }
    }

    /// Serve one kernel call. `new_pid` is the pid a `spawn` records.
    pub fn call(&mut self, method: &str, params: Json, new_pid: u64) -> (o: RouterOutcome)
        ensures
            method@ == "kernel/proc/spawn"@ ==> spawned(*old(self), *final(self), params, new_pid, o),
            method@ == "kernel/proc/kill"@ ==> killed(*old(self), *final(self), params, o),
            method@ == "kernel/proc/list"@ ==> *final(self) == *old(self) && o.events@.len() == 0
                && (o.result matches Ok(j) && listing(*old(self), j)),
            method@ == "kernel/proc/stat"@ ==> *final(self) == *old(self) && o.events@.len() == 0
                && stat_answer(*old(self), params, o.result),
            !(method@ == "kernel/proc/spawn"@ || method@ == "kernel/proc/kill"@
                || method@ == "kernel/proc/list"@ || method@ == "kernel/proc/stat"@)
                ==> *final(self) == *old(self) && o.events@.len() == 0
                && (o.result matches Err(e) && e.code == AtpErrorCode::Eunavail
                    && e.message@ == no_handler_message(method@)),
    {
        proof {
            reveal_strlit("kernel/proc/spawn"); reveal_strlit("kernel/proc/kill");
            reveal_strlit("kernel/proc/list"); reveal_strlit("kernel/proc/stat");
            assert("kernel/proc/spawn"@.len() == 17);
            assert("kernel/proc/kill"@[12] != "kernel/proc/list"@[12]);
            assert("kernel/proc/kill"@[12] != "kernel/proc/stat"@[12]);
            assert("kernel/proc/list"@[12] != "kernel/proc/stat"@[12]);
        }
        if str_eq(method, "kernel/proc/spawn") {
            self.spawn(params, new_pid)
        } else if str_eq(method, "kernel/proc/list") {
            RouterOutcome { result: Ok(self.list()), events: Vec::new() }
        } else if str_eq(method, "kernel/proc/kill") {
            self.kill(&params)
        } else if str_eq(method, "kernel/proc/stat") {
            RouterOutcome { result: self.stat(&params), events: Vec::new() }
        } else {
            let m = concat3("test IPC: no handler for '", method, "'");
            RouterOutcome { result: Err(AtpError::new(AtpErrorCode::Eunavail, m.as_str())), events: Vec::new() }
        }
    }
}

/// A spawned process can be looked up: `stat` of its pid describes it with
/// the name and goal it was spawned with.
pub proof fn law_spawn_then_stat(
    r0: TestIpcRouter, r1: TestIpcRouter, params: Json, pid: u64, o: RouterOutcome,
    stat_params: Json, res: Result<Json, AtpError>,
)
    requires
        spawned(r0, r1, params, pid, o),
        target_pid(stat_params) == pid,
        stat_answer(r1, stat_params, res),
    ensures
        res matches Ok(j) && get_u64_spec(j, "pid"@) == Some(pid)
            && get_str_spec(j, "name"@) == Some(spawn_name(params))
            && get_str_spec(j, "goal"@) == Some(spawn_goal(params))
            && get_str_spec(j, "status"@) == Some("running"@),
{
}

/// A killed process is gone: `stat` of its pid answers `ENOTFOUND`, and
/// every other process is as it was.
pub proof fn law_kill_then_stat(
    r0: TestIpcRouter, r1: TestIpcRouter, params: Json, o: RouterOutcome,
    stat_params: Json, res: Result<Json, AtpError>,
)
    requires
        killed(r0, r1, params, o),
        target_pid(stat_params) == target_pid(params),
        stat_answer(r1, stat_params, res),
    ensures
        res matches Err(e) && e.code == AtpErrorCode::Enotfound,
        forall|q: u64| q != target_pid(params) ==> r1.lookup(q) == r0.lookup(q),
{
}

} // verus!
