//! Signal delivery decisions: what pausing or resuming a process does to
//! the process table, the invocation records, the process's signal channel
//! and, for a session, its other processes; and how a named signal is
//! routed. The actions are carried out by the caller, in order.

use vstd::prelude::*;
use std::collections::HashMap;
use crate::error::AvixError;
use crate::json::Json;
use crate::invocation::InvocationStatus;
use crate::kernel_ipc::ProcessStatus;
use crate::text::{str_eq, concat2, decimal, u64_to_decimal};

verus! {

broadcast use vstd::std_specs::hash::group_hash_axioms;

/// The signals an agent understands.
#[derive(Clone, Copy, Debug, PartialEq, Eq, Structural)]
pub enum SignalKind {
    Start,
    Pause,
    Resume,
    Kill,
    Stop,
    Save,
    Pipe,
    Escalate,
}

/// One step of carrying out a signal.
#[derive(Debug)]
pub enum SignalAction {
    /// Set a process's status in the process table.
    SetStatus { pid: u64, status: ProcessStatus },
    /// Set an invocation's status in the invocation store.
    UpdateInvocation { invocation_id: String, new_status: InvocationStatus },
    /// Deliver a signal through the process's channel.
    Deliver { pid: u64, kind: SignalKind, payload: Json },
    /// Mark the session paused (or running again) and store it.
    MarkSession { paused: bool },
}

/// The invocation step for `pid`, when the store is kept and `pid` has an
/// active invocation.
pub open spec fn invocation_step(active: Map<u64, String>, store: bool, pid: u64, status: InvocationStatus) -> Seq<SignalAction> {
    if store && active.contains_key(pid) {
        seq![SignalAction::UpdateInvocation { invocation_id: active[pid], new_status: status }]
    } else {
        Seq::empty()
    }
}

/// The first steps of pausing (`pause`) or resuming process `pid`: its
/// status, its invocation's status, then the signal itself.
pub open spec fn own_steps(pid: u64, active: Map<u64, String>, store: bool, pause: bool) -> Seq<SignalAction> {
    let (status, inv, kind) = if pause {
        (ProcessStatus::Paused, InvocationStatus::Paused, SignalKind::Pause)
    } else {
        (ProcessStatus::Running, InvocationStatus::Running, SignalKind::Resume)
    };
    seq![SignalAction::SetStatus { pid, status }]
        + invocation_step(active, store, pid, inv)
        + seq![SignalAction::Deliver { pid, kind, payload: Json::Null }]
}

/// The pids of `pids` other than `pid`, in order.
pub open spec fn others(pids: Seq<u64>, pid: u64) -> Seq<u64>
    decreases pids.len(),
{
    if pids.len() == 0 {
        Seq::empty()
    } else {
        let r = others(pids.drop_last(), pid);
        if pids.last() != pid { r.push(pids.last()) } else { r }
    }
}

/// For each sibling in turn: its status, then its invocation's status.
pub open spec fn sibling_steps(sibs: Seq<u64>, active: Map<u64, String>, store: bool,
    status: ProcessStatus, inv: InvocationStatus) -> Seq<SignalAction>
    decreases sibs.len(),
{
    if sibs.len() == 0 {
        Seq::empty()
    } else {
        sibling_steps(sibs.drop_last(), active, store, status, inv)
            + seq![SignalAction::SetStatus { pid: sibs.last(), status }]
            + invocation_step(active, store, sibs.last(), inv)
    }
}

/// What follows when the session of `pid` cascades: the signal to every
/// other process of the session, then each one's status and invocation,
/// then the session's own mark.
pub open spec fn cascade_steps(pid: u64, session_pids: Seq<u64>, active: Map<u64, String>, store: bool, pause: bool) -> Seq<SignalAction> {
    let sibs = others(session_pids, pid);
    let (status, inv, kind) = if pause {
        (ProcessStatus::Paused, InvocationStatus::Paused, SignalKind::Pause)
    } else {
        (ProcessStatus::Running, InvocationStatus::Running, SignalKind::Resume)
    };
    let signals = Seq::new(sibs.len(), |i: int| SignalAction::Deliver { pid: sibs[i], kind, payload: Json::Null });
    signals + sibling_steps(sibs, active, store, status, inv) + seq![SignalAction::MarkSession { paused: pause }]
}

fn invocation_of(active: &HashMap<u64, String>, pid: u64) -> (r: Option<String>)
    ensures
        match r {
            Some(s) => active@.contains_key(pid) && s == active@[pid],
            None => !active@.contains_key(pid),
        },
{
    match active.get(&pid) {
        Some(s) => Some(s.clone()),
        None => None,
    }
}

fn push_invocation_step(acts: &mut Vec<SignalAction>, active: &HashMap<u64, String>, store: bool, pid: u64, status: InvocationStatus)
    ensures
        final(acts)@ == old(acts)@ + invocation_step(active@, store, pid, status),
{
    if store {
        match invocation_of(active, pid) {
            Some(id) => {
                acts.push(SignalAction::UpdateInvocation { invocation_id: id, new_status: status });
                assert(acts@ =~= old(acts)@ + invocation_step(active@, store, pid, status));
            },
            None => {
                assert(acts@ =~= old(acts)@ + invocation_step(active@, store, pid, status));
            },
        }
    } else {
        assert(acts@ =~= old(acts)@ + invocation_step(active@, store, pid, status));
    }
}

/// The first steps of pausing `pid` (`pause`) or resuming it: its
/// process-table status, the status of its active invocation (when the
/// invocation store is kept), then the signal on its channel.
pub fn own_signal_steps(pid: u64, active: &HashMap<u64, String>, store: bool, pause: bool) -> (acts: Vec<SignalAction>)
    ensures
        acts@ == own_steps(pid, active@, store, pause),
{
    let (status, inv, kind) = if pause {
        (ProcessStatus::Paused, InvocationStatus::Paused, SignalKind::Pause)
    } else {
        (ProcessStatus::Running, InvocationStatus::Running, SignalKind::Resume)
    };
    let mut acts: Vec<SignalAction> = Vec::new();
    acts.push(SignalAction::SetStatus { pid, status });
    push_invocation_step(&mut acts, active, store, pid, inv);
    acts.push(SignalAction::Deliver { pid, kind, payload: Json::Null });
    assert(acts@ =~= own_steps(pid, active@, store, pause));
    acts
}

/// Whether the session cascades: a pause cascades when `pid` owns the
/// session, a resume when the session is paused.
pub open spec fn cascades(pid: u64, owner_pid: u64, session_paused: bool, pause: bool) -> bool {
    if pause { pid == owner_pid } else { session_paused }
}

/// What pausing (or resuming) `pid` does to the rest of its session, whose
/// owner is `owner_pid` and whose processes are `session_pids`.
pub fn session_signal_steps(
    pid: u64,
    owner_pid: u64,
    session_paused: bool,
    session_pids: &Vec<u64>,
    active: &HashMap<u64, String>,
    store: bool,
    pause: bool,
) -> (acts: Vec<SignalAction>)
    ensures
        cascades(pid, owner_pid, session_paused, pause) ==> acts@ == cascade_steps(pid, session_pids@, active@, store, pause),
        !cascades(pid, owner_pid, session_paused, pause) ==> acts@.len() == 0,
{
    let mut acts: Vec<SignalAction> = Vec::new();
    let go = if pause { pid == owner_pid } else { session_paused };
    if !go {
        return acts;
    }
    let (status, inv, kind) = if pause {
        (ProcessStatus::Paused, InvocationStatus::Paused, SignalKind::Pause)
    } else {
        (ProcessStatus::Running, InvocationStatus::Running, SignalKind::Resume)
    };
    // the other processes of the session
    let mut sibs: Vec<u64> = Vec::new();
    let mut i: usize = 0;
    while i < session_pids.len()
        invariant
            i <= session_pids@.len(),
            sibs@ == others(session_pids@.take(i as int), pid),
        decreases session_pids@.len() - i,
    {
        assert(session_pids@.take(i + 1).drop_last() =~= session_pids@.take(i as int));
        let p = session_pids[i];
        if p != pid {
            sibs.push(p);
        }
        i += 1;
    }
    assert(session_pids@.take(session_pids@.len() as int) =~= session_pids@);
    let ghost s = sibs@;
    // the signal to each
    let mut j: usize = 0;
    while j < sibs.len()
        invariant
            sibs@ == s,
            j <= s.len(),
            acts@ =~= Seq::new(j as nat, |k: int| SignalAction::Deliver { pid: s[k], kind, payload: Json::Null }),
        decreases s.len() - j,
    {
        acts.push(SignalAction::Deliver { pid: sibs[j], kind, payload: Json::Null });
        j += 1;
    }
    let ghost signals = acts@;
    // then each one's status and invocation
    let mut k: usize = 0;
    while k < sibs.len()
        invariant
            sibs@ == s,
            k <= s.len(),
            acts@ == signals + sibling_steps(s.take(k as int), active@, store, status, inv),
        decreases s.len() - k,
    {
        assert(s.take(k + 1).drop_last() =~= s.take(k as int));
        let q = sibs[k];
        let ghost before = acts@;
        acts.push(SignalAction::SetStatus { pid: q, status });
        push_invocation_step(&mut acts, active, store, q, inv);
        assert(acts@ =~= signals + sibling_steps(s.take(k + 1), active@, store, status, inv));
        k += 1;
    }
    assert(s.take(s.len() as int) =~= s);
    acts.push(SignalAction::MarkSession { paused: pause });
    assert(acts@ =~= cascade_steps(pid, session_pids@, active@, store, pause));
    acts
}

/// How a named signal is carried out.
#[derive(Debug)]
pub enum SignalRoute {
    /// `SIGPAUSE`: pause the process (and its session, when it owns it).
    Pause,
    /// `SIGRESUME`: resume the process (and its session, when paused).
    Resume,
    /// Deliver this signal on the process's channel.
    Deliver(SignalKind),
    /// Not a signal name.
    Unknown(AvixError),
}

/// How the signal named `signal` is carried out.
pub fn route_signal(signal: &str) -> (r: SignalRoute)
    ensures
        signal@ == "SIGPAUSE"@ ==> r is Pause,
        signal@ == "SIGRESUME"@ ==> r is Resume,
        signal@ == "SIGSTART"@ ==> r == SignalRoute::Deliver(SignalKind::Start),
        signal@ == "SIGKILL"@ ==> r == SignalRoute::Deliver(SignalKind::Kill),
        signal@ == "SIGSTOP"@ ==> r == SignalRoute::Deliver(SignalKind::Stop),
        signal@ == "SIGSAVE"@ ==> r == SignalRoute::Deliver(SignalKind::Save),
        signal@ == "SIGPIPE"@ ==> r == SignalRoute::Deliver(SignalKind::Pipe),
        signal@ == "SIGESCALATE"@ ==> r == SignalRoute::Deliver(SignalKind::Escalate),
        !(signal@ == "SIGPAUSE"@ || signal@ == "SIGRESUME"@ || signal@ == "SIGSTART"@ || signal@ == "SIGKILL"@
            || signal@ == "SIGSTOP"@ || signal@ == "SIGSAVE"@ || signal@ == "SIGPIPE"@ || signal@ == "SIGESCALATE"@)
            ==> (r matches SignalRoute::Unknown(AvixError::ConfigParse(m)) && m@ == "unknown signal: "@ + signal@),
{
    proof {
        reveal_strlit("SIGPAUSE"); reveal_strlit("SIGRESUME"); reveal_strlit("SIGSTART"); reveal_strlit("SIGKILL");
        reveal_strlit("SIGSTOP"); reveal_strlit("SIGSAVE"); reveal_strlit("SIGPIPE"); reveal_strlit("SIGESCALATE");
        assert("SIGPAUSE"@.len() == 8); assert("SIGRESUME"@.len() == 9); assert("SIGSTART"@.len() == 8);
        assert("SIGKILL"@.len() == 7); assert("SIGSTOP"@.len() == 7); assert("SIGSAVE"@.len() == 7);
        assert("SIGPIPE"@.len() == 7); assert("SIGESCALATE"@.len() == 11);
        assert("SIGPAUSE"@[3] != "SIGSTART"@[3]);
        assert("SIGKILL"@[3] != "SIGSTOP"@[3]); assert("SIGKILL"@[3] != "SIGSAVE"@[3]); assert("SIGKILL"@[3] != "SIGPIPE"@[3]);
        assert("SIGSTOP"@[4] != "SIGSAVE"@[4]); assert("SIGSTOP"@[3] != "SIGPIPE"@[3]); assert("SIGSAVE"@[3] != "SIGPIPE"@[3]);
    }
    if str_eq(signal, "SIGPAUSE") {
        SignalRoute::Pause
    } else if str_eq(signal, "SIGRESUME") {
        SignalRoute::Resume
    } else if str_eq(signal, "SIGSTART") {
        SignalRoute::Deliver(SignalKind::Start)
    } else if str_eq(signal, "SIGKILL") {
        SignalRoute::Deliver(SignalKind::Kill)
    } else if str_eq(signal, "SIGSTOP") {
        SignalRoute::Deliver(SignalKind::Stop)
    } else if str_eq(signal, "SIGSAVE") {
        SignalRoute::Deliver(SignalKind::Save)
    } else if str_eq(signal, "SIGPIPE") {
        SignalRoute::Deliver(SignalKind::Pipe)
    } else if str_eq(signal, "SIGESCALATE") {
        SignalRoute::Deliver(SignalKind::Escalate)
    } else {
        SignalRoute::Unknown(AvixError::ConfigParse(concat2("unknown signal: ", signal)))
    }
}

/// The error when `pid` has no signal channel.
pub fn no_channel_error(pid: u64) -> (e: AvixError)
    ensures
        e matches AvixError::NotFound(m) && m@ == "no signal channel for pid "@ + decimal(pid as nat),
{
    AvixError::NotFound(concat2("no signal channel for pid ", u64_to_decimal(pid).as_str()))
}

/// What sending a deliverable signal to `pid` answers: success when it
/// reached the process's channel, else the no-channel error.
pub fn delivery_result(pid: u64, delivered: bool) -> (r: Result<(), AvixError>)
    ensures
        delivered ==> r is Ok,
        !delivered ==> (r matches Err(AvixError::NotFound(m)) && m@ == "no signal channel for pid "@ + decimal(pid as nat)),
{
    if delivered { Ok(()) } else { Err(no_channel_error(pid)) }
}

proof fn lemma_others_contains(pids: Seq<u64>, pid: u64, q: u64)
    requires
        pids.contains(q),
        q != pid,
    ensures
        others(pids, pid).contains(q),
    decreases pids.len(),
{
    let r = others(pids.drop_last(), pid);
    if pids.last() == q {
        assert(others(pids, pid) == r.push(q));
        assert(others(pids, pid)[r.len() as int] == q);
    } else {
        let i = choose|i: int| 0 <= i < pids.len() && pids[i] == q;
        assert(i < pids.len() - 1);
        assert(pids.drop_last()[i] == q);
        lemma_others_contains(pids.drop_last(), pid, q);
        let k = choose|k: int| 0 <= k < r.len() && r[k] == q;
        if pids.last() != pid {
            assert(others(pids, pid)[k] == q);
        } else {
            assert(others(pids, pid) == r);
        }
    }
}

proof fn lemma_sibling_steps_set(sibs: Seq<u64>, active: Map<u64, String>, store: bool,
    status: ProcessStatus, inv: InvocationStatus, q: u64)
    requires
        sibs.contains(q),
    ensures
        sibling_steps(sibs, active, store, status, inv).contains(SignalAction::SetStatus { pid: q, status }),
    decreases sibs.len(),
{
    let prev = sibling_steps(sibs.drop_last(), active, store, status, inv);
    let here = seq![SignalAction::SetStatus { pid: sibs.last(), status }];
    let all = sibling_steps(sibs, active, store, status, inv);
    assert(all == prev + here + invocation_step(active, store, sibs.last(), inv));
    if sibs.last() == q {
        assert(all[prev.len() as int] == SignalAction::SetStatus { pid: q, status });
    } else {
        let i = choose|i: int| 0 <= i < sibs.len() && sibs[i] == q;
        assert(sibs.drop_last()[i] == q);
        lemma_sibling_steps_set(sibs.drop_last(), active, store, status, inv, q);
        let k = choose|k: int| 0 <= k < prev.len() && prev[k] == SignalAction::SetStatus { pid: q, status };
        assert(all[k] == prev[k]);
    }
}

/// Pausing the owner of a session reaches every other process of it: each
/// gets `SIGPAUSE` and is marked paused, and the session is marked paused.
/// Resuming a process of a paused session does the same with `SIGRESUME`.
pub proof fn law_session_cascade_reaches_every_member(
    pid: u64,
    session_pids: Seq<u64>,
    active: Map<u64, String>,
    store: bool,
    pause: bool,
    q: u64,
)
    requires
        session_pids.contains(q),
        q != pid,
    ensures
        ({
            let steps = cascade_steps(pid, session_pids, active, store, pause);
            let (status, kind) = if pause {
                (ProcessStatus::Paused, SignalKind::Pause)
            } else {
                (ProcessStatus::Running, SignalKind::Resume)
            };
            &&& steps.contains(SignalAction::Deliver { pid: q, kind, payload: Json::Null })
            &&& steps.contains(SignalAction::SetStatus { pid: q, status })
            &&& steps.last() == SignalAction::MarkSession { paused: pause }
        }),
{
    let sibs = others(session_pids, pid);
    lemma_others_contains(session_pids, pid, q);
    let (status, inv, kind) = if pause {
        (ProcessStatus::Paused, InvocationStatus::Paused, SignalKind::Pause)
    } else {
        (ProcessStatus::Running, InvocationStatus::Running, SignalKind::Resume)
    };
    let signals = Seq::new(sibs.len(), |i: int| SignalAction::Deliver { pid: sibs[i], kind, payload: Json::Null });
    let rest = sibling_steps(sibs, active, store, status, inv);
    let steps = cascade_steps(pid, session_pids, active, store, pause);
    assert(steps == signals + rest + seq![SignalAction::MarkSession { paused: pause }]);
    let i = choose|i: int| 0 <= i < sibs.len() && sibs[i] == q;
    assert(steps[i] == signals[i]);
    lemma_sibling_steps_set(sibs, active, store, status, inv, q);
    let k = choose|k: int| 0 <= k < rest.len() && rest[k] == SignalAction::SetStatus { pid: q, status };
    assert(steps[signals.len() + k] == rest[k]);
}

} // verus!
