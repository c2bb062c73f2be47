//! Start-up repair of session records left by a previous run: every
//! session that had a live invocation loses its stale pids, and a running
//! or paused one becomes idle.

use vstd::prelude::*;
use crate::agents::SessionStatus;
use crate::capability::holds;
use crate::invocation::{InvocationRecord, status_is_live};
use crate::text::str_eq;

verus! {

/// Some live invocation of `invs` belongs to session `s`.
pub open spec fn has_live_invocation(invs: Seq<InvocationRecord>, s: Seq<char>) -> bool {
    exists|i: int| 0 <= i < invs.len() && status_is_live(invs[i].status) && #[trigger] invs[i].session_id@ == s
}

/// No two entries of `v` read the same.
pub open spec fn distinct_texts(v: Seq<String>) -> bool {
    forall|i: int, j: int| 0 <= i < j < v.len() ==> (#[trigger] v[i])@ != (#[trigger] v[j])@
}

fn holds_text(v: &Vec<String>, s: &str) -> (b: bool)
    ensures
        b == holds(v@, s@),
{
    let mut i: usize = 0;
    while i < v.len()
        invariant
            i <= v@.len(),
            forall|k: int| 0 <= k < i ==> v@[k]@ != s@,
        decreases v@.len() - i,
    {
        if str_eq(v[i].as_str(), s) {
            return true;
        }
        i += 1;
    }
    false
}

/// The sessions to repair: each session of a live invocation, once.
pub fn affected_sessions(invocations: &Vec<InvocationRecord>) -> (out: Vec<String>)
    ensures
        distinct_texts(out@),
        forall|s: Seq<char>| holds(out@, s) <==> has_live_invocation(invocations@, s),
{
    let mut out: Vec<String> = Vec::new();
    let mut i: usize = 0;
    while i < invocations.len()
        invariant
            i <= invocations@.len(),
            distinct_texts(out@),
            forall|s: Seq<char>| holds(out@, s) <==> has_live_invocation(invocations@.take(i as int), s),
        decreases invocations@.len() - i,
    {
        let inv = &invocations[i];
        let ghost before = out@;
        assert(forall|s: Seq<char>| holds(before, s) <==> has_live_invocation(invocations@.take(i as int), s));
        let add = inv.status.is_live() && !holds_text(&out, inv.session_id.as_str());
        if add {
            out.push(inv.session_id.clone());
        }
        proof {
            assert(forall|w: int| 0 <= w < before.len() ==> out@[w] == before[w]);
            assert(add ==> out@.len() == before.len() + 1 && out@[before.len() as int]@ == invocations@[i as int].session_id@);
            assert(!add ==> out@ == before);
            assert(invocations@.take(i + 1).drop_last() =~= invocations@.take(i as int));
            assert forall|s: Seq<char>| holds(out@, s) <==> has_live_invocation(invocations@.take(i + 1), s) by {
                let t = invocations@.take(i + 1);
                if has_live_invocation(t, s) {
                    let k = choose|k: int| 0 <= k < t.len() && status_is_live(t[k].status) && #[trigger] t[k].session_id@ == s;
                    if k < i {
                        assert(invocations@.take(i as int)[k] == t[k]);
                        assert(has_live_invocation(invocations@.take(i as int), s));
                        assert(holds(before, s));
                        let w = choose|w: int| 0 <= w < before.len() && #[trigger] before[w]@ == s;
                        assert(out@[w] == before[w]);
                    } else {
                        assert(t[k] == invocations@[i as int]);
                        if holds(before, s) {
                            let w = choose|w: int| 0 <= w < before.len() && #[trigger] before[w]@ == s;
                            assert(out@[w] == before[w]);
                        } else {
                            assert(out@[out@.len() - 1]@ == s);
                        }
                    }
                }
                if holds(out@, s) {
                    let w = choose|w: int| 0 <= w < out@.len() && #[trigger] out@[w]@ == s;
                    if w < before.len() {
                        assert(before[w] == out@[w]);
                        assert(holds(before, s));
                        assert(has_live_invocation(invocations@.take(i as int), s));
                        let k = choose|k: int| 0 <= k < i && status_is_live(invocations@.take(i as int)[k].status)
                            && #[trigger] invocations@.take(i as int)[k].session_id@ == s;
                        assert(t[k] == invocations@.take(i as int)[k]);
                    } else {
                        assert(t[i as int] == invocations@[i as int]);
                    }
                }
            }
        }
        i += 1;
    }
    assert(invocations@.take(invocations@.len() as int) =~= invocations@);
    out
}

/// What repair does to a session's status: running or paused becomes idle
/// (and counts as repaired); any other status stays.
pub open spec fn repaired_status_spec(status: SessionStatus) -> (SessionStatus, bool) {
    if status is Running || status is Paused {
        (SessionStatus::Idle, true)
    } else {
        (status, false)
    }
}

/// What repair does to a session's status.
pub fn repaired_status(status: SessionStatus) -> (r: (SessionStatus, bool))
    ensures
        r == repaired_status_spec(status),
{
    match status {
        SessionStatus::Running | SessionStatus::Paused => (SessionStatus::Idle, true),
        _ => (status, false),
    }
}

/// Repair one affected session: its pids are cleared (no executor survives
/// a restart) and its status repaired.
pub fn repair_session(status: SessionStatus, pids: Vec<u64>) -> (r: (SessionStatus, Vec<u64>, bool))
    ensures
        (r.0, r.2) == repaired_status_spec(status),
        r.1@.len() == 0,
{
    let (st, changed) = repaired_status(status);
    let mut pids = pids;
    pids.clear();
    (st, pids, changed)
}

/// Repair is idempotent: repairing a repaired session changes nothing and
/// counts no repair; afterwards no session is left running or paused.
pub proof fn law_repair_idempotent(status: SessionStatus)
    ensures
        repaired_status_spec(repaired_status_spec(status).0) == (repaired_status_spec(status).0, false),
        !(repaired_status_spec(status).0 is Running) && !(repaired_status_spec(status).0 is Paused),
{
}

} // verus!
