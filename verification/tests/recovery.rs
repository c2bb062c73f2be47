//! Start-up repair of sessions left by a previous run.

use avix_core::agents::SessionStatus;
use avix_core::invocation::{InvocationRecord, InvocationStatus};
use avix_core::recovery::{affected_sessions, repair_session};

struct Session {
    id: String,
    status: SessionStatus,
    pids: Vec<u64>,
}

fn make_inv(id: &str, session_id: &str, status: InvocationStatus) -> InvocationRecord {
    InvocationRecord::new(id.into(), "agent".into(), "alice".into(), 1, "goal".into(), session_id.into())
        .with_status(status)
}

/// One start-up pass: every affected session is repaired; returns how many
/// changed status.
fn recover(invs: &Vec<InvocationRecord>, sessions: &mut Vec<Session>) -> u32 {
    let affected = affected_sessions(invs);
    let mut repaired = 0;
    for s in sessions.iter_mut() {
        if affected.contains(&s.id) {
            let (st, pids, changed) = repair_session(s.status, std::mem::take(&mut s.pids));
            s.status = st;
            s.pids = pids;
            if changed {
                repaired += 1;
            }
        }
    }
    repaired
}

fn statuses(invs: &[InvocationRecord]) -> Vec<InvocationStatus> {
    invs.iter().map(|r| r.status).collect()
}

#[test]
fn running_invocations_are_preserved_for_restore() {
    let invs = vec![make_inv("inv-1", "s1", InvocationStatus::Running)];
    let mut sessions = vec![Session { id: "s1".into(), status: SessionStatus::Running, pids: vec![1] }];
    recover(&invs, &mut sessions);
    assert_eq!(statuses(&invs), vec![InvocationStatus::Running]);
}

#[test]
fn paused_invocations_are_preserved_for_restore() {
    let invs = vec![make_inv("inv-p", "s1", InvocationStatus::Paused)];
    let mut sessions = vec![Session { id: "s1".into(), status: SessionStatus::Paused, pids: vec![] }];
    recover(&invs, &mut sessions);
    assert_eq!(statuses(&invs), vec![InvocationStatus::Paused]);
}

#[test]
fn terminal_invocations_are_untouched() {
    let invs = vec![
        make_inv("done", "s1", InvocationStatus::Completed),
        make_inv("fail", "s1", InvocationStatus::Failed),
        make_inv("kill", "s1", InvocationStatus::Killed),
    ];
    let mut sessions = vec![Session { id: "s1".into(), status: SessionStatus::Idle, pids: vec![] }];
    recover(&invs, &mut sessions);
    assert_eq!(statuses(&invs), vec![InvocationStatus::Completed, InvocationStatus::Failed, InvocationStatus::Killed]);
}

#[test]
fn running_session_becomes_idle_and_pids_cleared() {
    let invs = vec![make_inv("inv-r", "s1", InvocationStatus::Running)];
    let mut sessions = vec![Session { id: "s1".into(), status: SessionStatus::Running, pids: vec![42] }];
    assert_eq!(recover(&invs, &mut sessions), 1);
    assert_eq!(sessions[0].status, SessionStatus::Idle);
    assert!(sessions[0].pids.is_empty());
}

#[test]
fn paused_session_becomes_idle() {
    let invs = vec![make_inv("inv-pa", "s1", InvocationStatus::Paused)];
    let mut sessions = vec![Session { id: "s1".into(), status: SessionStatus::Paused, pids: vec![] }];
    recover(&invs, &mut sessions);
    assert_eq!(sessions[0].status, SessionStatus::Idle);
}

#[test]
fn idle_session_with_idle_invocation_pids_cleared() {
    let invs = vec![make_inv("inv-i", "s1", InvocationStatus::Idle)];
    let mut sessions = vec![Session { id: "s1".into(), status: SessionStatus::Idle, pids: vec![99] }];
    assert_eq!(recover(&invs, &mut sessions), 0);
    assert_eq!(sessions[0].status, SessionStatus::Idle);
    assert!(sessions[0].pids.is_empty());
}

#[test]
fn session_with_only_terminal_invocations_is_untouched() {
    let invs = vec![make_inv("done", "s1", InvocationStatus::Completed)];
    let mut sessions = vec![Session { id: "s1".into(), status: SessionStatus::Idle, pids: vec![7] }];
    recover(&invs, &mut sessions);
    assert_eq!(sessions[0].status, SessionStatus::Idle);
    assert_eq!(sessions[0].pids, vec![7]);
}

#[test]
fn crash_recovery_is_idempotent() {
    let invs = vec![make_inv("inv-x", "s1", InvocationStatus::Running)];
    let mut sessions = vec![Session { id: "s1".into(), status: SessionStatus::Running, pids: vec![42] }];
    assert_eq!(recover(&invs, &mut sessions), 1);
    assert_eq!(recover(&invs, &mut sessions), 0);
    assert_eq!(sessions[0].status, SessionStatus::Idle);
    assert!(sessions[0].pids.is_empty());
    assert_eq!(statuses(&invs), vec![InvocationStatus::Running]);
}
