//! Process-handler bookkeeping: the agent list, pids, sessions, signals,
//! invocation listings and crash recovery.

use std::collections::HashMap;

use avix_core::agents::{
    allocate_pid, inherited_session, resume_goal, service_list, session_mark_on_exit, session_store_missing,
    tool_list, AgentRecord, AgentsYaml, SessionMark, SessionStatus,
};
use avix_core::error::AvixError;
use avix_core::invocation::{
    conversation_path, list_invocations, select, snapshot_check, store_missing, InvocationRecord, InvocationStatus,
    Selector,
};
use avix_core::json::Json;
use avix_core::kernel_ipc::ProcessStatus;
use avix_core::recovery::{affected_sessions, repaired_status};
use avix_core::session_manager::{InvocationManager, SessionManager};
use avix_core::signals::{
    no_channel_error, own_signal_steps, route_signal, session_signal_steps, SignalAction, SignalKind, SignalRoute,
};
use avix_core::spawn::{plan_agent_spawn, plan_proc_spawn, SessionStep};
use avix_core::token::CapabilityToken;

fn agent(pid: u32, name: &str) -> AgentRecord {
    AgentRecord {
        pid,
        name: name.into(),
        goal: "g".into(),
        session_id: "s".into(),
        spawned_at: "2026-01-01T00:00:00Z".into(),
    }
}

#[test]
fn agent_list_upsert_replaces_by_pid() {
    let mut y = AgentsYaml::empty();
    y.upsert(agent(2, "a"));
    y.upsert(agent(3, "b"));
    y.upsert(agent(2, "c"));
    assert_eq!(y.agents.len(), 2);
    assert_eq!(y.agents[0].name, "c");
    assert_eq!(y.agents[1].name, "b");
    y.remove_pid(2);
    assert_eq!(y.agents.len(), 1);
    assert_eq!(y.agents[0].pid, 3);
    y.remove_pid(99);
    assert_eq!(y.agents.len(), 1);
}

#[test]
fn pid_allocation_is_one_past_the_largest() {
    assert_eq!(allocate_pid(&vec![]), 2);
    assert_eq!(allocate_pid(&vec![5, 3, 9]), 10);
    assert_eq!(allocate_pid(&vec![0]), 1);
    assert_eq!(allocate_pid(&vec![1]), 2);
}

#[test]
fn child_inherits_parent_session() {
    let mut active = HashMap::new();
    active.insert(7u64, "sess-7".to_string());
    assert_eq!(inherited_session(Some(7), &active).as_deref(), Some("sess-7"));
    assert_eq!(inherited_session(Some(8), &active), None);
    assert_eq!(inherited_session(None, &active), None);
}

#[test]
fn owner_exit_closes_the_session() {
    assert_eq!(session_mark_on_exit(5, 5, InvocationStatus::Completed), SessionMark::Completed);
    assert_eq!(session_mark_on_exit(5, 5, InvocationStatus::Killed), SessionMark::Failed);
    assert_eq!(session_mark_on_exit(5, 5, InvocationStatus::Failed), SessionMark::Failed);
    assert_eq!(session_mark_on_exit(5, 5, InvocationStatus::Paused), SessionMark::Keep);
    assert_eq!(session_mark_on_exit(6, 5, InvocationStatus::Completed), SessionMark::Keep);
}

#[test]
fn resume_needs_a_live_session() {
    assert_eq!(resume_goal("s1", SessionStatus::Idle, "old goal", None).unwrap(), "old goal");
    assert_eq!(resume_goal("s1", SessionStatus::Paused, "old goal", Some("new input")).unwrap(), "new input");
    match resume_goal("s1", SessionStatus::Completed, "g", None) {
        Err(AvixError::InvalidInput(m)) => {
            assert_eq!(m, "session s1 is not Idle, Running, or Paused (status: Completed)")
        }
        other => panic!("unexpected {other:?}"),
    }
    assert!(matches!(session_store_missing(), AvixError::NotFound(m) if m == "session store not configured"));
}

#[test]
fn listings_count_states() {
    let s = service_list(
        vec![Json::uint(1), Json::uint(2), Json::uint(3)],
        &vec!["running".into(), "starting".into(), "running".into()],
    );
    assert_eq!((s.total, s.running, s.starting), (3, 2, 1));
    let t = tool_list(vec![Json::Null, Json::Null], &vec!["available".into(), "degraded".into()]);
    assert_eq!((t.total, t.available, t.unavailable), (2, 1, 1));
}

#[test]
fn signal_names_route() {
    assert!(matches!(route_signal("SIGPAUSE"), SignalRoute::Pause));
    assert!(matches!(route_signal("SIGRESUME"), SignalRoute::Resume));
    assert!(matches!(route_signal("SIGKILL"), SignalRoute::Deliver(SignalKind::Kill)));
    assert!(matches!(route_signal("SIGESCALATE"), SignalRoute::Deliver(SignalKind::Escalate)));
    match route_signal("SIGFOO") {
        SignalRoute::Unknown(AvixError::ConfigParse(m)) => assert_eq!(m, "unknown signal: SIGFOO"),
        other => panic!("unexpected {other:?}"),
    }
    assert!(matches!(no_channel_error(12), AvixError::NotFound(m) if m == "no signal channel for pid 12"));
}

#[test]
fn pausing_a_process_updates_table_and_invocation() {
    let mut active = HashMap::new();
    active.insert(4u64, "inv-4".to_string());
    let acts = own_signal_steps(4, &active, true, true);
    assert_eq!(acts.len(), 3);
    assert!(matches!(acts[0], SignalAction::SetStatus { pid: 4, status: ProcessStatus::Paused }));
    assert!(matches!(&acts[1], SignalAction::UpdateInvocation { invocation_id, new_status: InvocationStatus::Paused } if invocation_id == "inv-4"));
    assert!(matches!(acts[2], SignalAction::Deliver { pid: 4, kind: SignalKind::Pause, .. }));
    // without the store, no invocation step
    let acts = own_signal_steps(4, &active, false, false);
    assert_eq!(acts.len(), 2);
    assert!(matches!(acts[1], SignalAction::Deliver { kind: SignalKind::Resume, .. }));
}

#[test]
fn owner_pause_cascades_to_every_member() {
    let mut active = HashMap::new();
    active.insert(2u64, "inv-2".to_string());
    let acts = session_signal_steps(1, 1, false, &vec![1, 2, 3], &active, true, true);
    // signals to 2 and 3, then status (+ invocation) of each, then the mark
    assert!(matches!(acts[0], SignalAction::Deliver { pid: 2, kind: SignalKind::Pause, .. }));
    assert!(matches!(acts[1], SignalAction::Deliver { pid: 3, kind: SignalKind::Pause, .. }));
    assert!(matches!(acts[2], SignalAction::SetStatus { pid: 2, status: ProcessStatus::Paused }));
    assert!(matches!(&acts[3], SignalAction::UpdateInvocation { invocation_id, .. } if invocation_id == "inv-2"));
    assert!(matches!(acts[4], SignalAction::SetStatus { pid: 3, status: ProcessStatus::Paused }));
    assert!(matches!(acts[5], SignalAction::MarkSession { paused: true }));
    assert_eq!(acts.len(), 6);
}

#[test]
fn non_owner_pause_does_not_cascade() {
    let active = HashMap::new();
    assert!(session_signal_steps(2, 1, false, &vec![1, 2], &active, true, true).is_empty());
    // a resume cascades only from a paused session
    assert!(session_signal_steps(2, 1, false, &vec![1, 2], &active, true, false).is_empty());
    let acts = session_signal_steps(2, 1, true, &vec![1, 2], &active, true, false);
    assert!(matches!(acts[0], SignalAction::Deliver { pid: 1, kind: SignalKind::Resume, .. }));
    assert!(matches!(acts.last().unwrap(), SignalAction::MarkSession { paused: false }));
}

fn record(id: &str, user: &str, agent: &str, session: &str, status: InvocationStatus) -> InvocationRecord {
    InvocationRecord::new(id.into(), agent.into(), user.into(), 1, "goal".into(), session.into()).with_status(status)
}

fn sample() -> Vec<InvocationRecord> {
    vec![
        record("i1", "alice", "researcher", "s1", InvocationStatus::Running),
        record("i2", "alice", "writer", "s1", InvocationStatus::Completed),
        record("i3", "bob", "researcher", "s2", InvocationStatus::Paused),
        record("i4", "alice", "researcher", "s3", InvocationStatus::Failed),
    ]
}

fn ids(v: &[InvocationRecord]) -> Vec<&str> {
    v.iter().map(|r| r.id.as_str()).collect()
}

#[test]
fn invocation_listings_filter_in_order() {
    let all = sample();
    assert_eq!(ids(&list_invocations(&all, "alice", None, true)), vec!["i1", "i2", "i4"]);
    assert_eq!(ids(&list_invocations(&all, "alice", Some("researcher"), true)), vec!["i1", "i4"]);
    assert_eq!(ids(&list_invocations(&all, "alice", None, false)), vec!["i2", "i4"]);
    assert_eq!(ids(&select(&all, &Selector::Session("s1".into()))), vec!["i1", "i2"]);
    assert_eq!(ids(&select(&all, &Selector::Finished)), vec!["i2", "i4"]);
}

#[test]
fn snapshot_requires_a_live_invocation() {
    let all = sample();
    assert!(snapshot_check("i1", Some(&all[0])).is_ok());
    assert!(matches!(snapshot_check("i2", Some(&all[1])), Err(AvixError::InvalidInput(m)) if m == "cannot snapshot a finalized invocation"));
    assert!(matches!(snapshot_check("zz", None), Err(AvixError::NotFound(m)) if m == "invocation zz not found"));
    assert!(matches!(store_missing(), AvixError::NotFound(m) if m == "invocation store not configured"));
}

#[test]
fn conversation_file_path() {
    assert_eq!(conversation_path("alice", "sess-1", 57), "alice/.sessions/sess-1/57.jsonl");
}

#[test]
fn status_names() {
    assert_eq!(InvocationStatus::Killed.wire_name(), "killed");
    assert!(InvocationStatus::Idle.is_live());
    assert!(!InvocationStatus::Completed.is_live());
}

#[test]
fn crash_recovery_finds_each_live_session_once() {
    let mut all = sample();
    all.push(record("i5", "bob", "x", "s1", InvocationStatus::Idle));
    let sessions = affected_sessions(&all);
    assert_eq!(sessions, vec!["s1", "s2"]);
    assert_eq!(repaired_status(SessionStatus::Running), (SessionStatus::Idle, true));
    assert_eq!(repaired_status(SessionStatus::Paused), (SessionStatus::Idle, true));
    assert_eq!(repaired_status(SessionStatus::Completed), (SessionStatus::Completed, false));
}

#[test]
fn managers_without_store_refuse_writes() {
    let m: SessionManager<u8> = SessionManager::new(None);
    assert!(m.store().is_none());
    assert!(matches!(m.require_store(), Err(AvixError::NotFound(s)) if s == "session store not configured"));
    let m = m.with_store(3);
    assert_eq!(m.store(), Some(&3));
    let i: InvocationManager<u8> = InvocationManager::new(None);
    assert!(matches!(i.require_store(), Err(AvixError::NotFound(s)) if s == "invocation store not configured"));
    assert_eq!(i.with_store(4).require_store().unwrap(), &4);
}

fn test_sign(key: &Vec<u8>, t: &CapabilityToken) -> String {
    format!("sig:{}:{}:{}", key.len(), t.granted_tools.join(","), t.expires_at)
}

#[test]
fn kernel_spawn_plan_allocates_records_and_mints() {
    let mut invocations = std::collections::HashMap::new();
    let key = b"test-master-key-32-bytes-padded!".to_vec();
    let p = plan_proc_spawn(&vec![2, 7, 3], "researcher", "find papers", "sess-1", "alice", &mut invocations, &key, &test_sign);
    assert_eq!(p.pid, 8);
    assert_eq!(p.entry.pid, 8);
    assert_eq!(p.entry.name, "researcher");
    assert_eq!(p.entry.goal, "find papers");
    assert_eq!(p.entry.status, ProcessStatus::Pending);
    assert_eq!(p.entry.parent, None);
    assert_eq!(p.entry.spawned_by, "kernel");
    assert_eq!(p.record.pid, 8);
    assert_eq!(p.record.session_id, "sess-1");
    assert_eq!(p.invocation.username, "alice");
    assert_eq!(p.invocation.session_id, "sess-1");
    assert_eq!(invocations.get(&8), Some(&p.invocation.id));
    assert_eq!(p.token.granted_tools, vec!["fs/read", "fs/write", "agent/spawn", "llm/complete"]);
    let it = p.token.issued_to.as_ref().unwrap();
    assert_eq!((it.pid, it.agent_name.as_str(), it.spawned_by.as_str()), (8, "researcher", "alice"));
    assert_eq!(p.token.expires_at, p.token.issued_at + 3600);
    assert_eq!(p.token.signature, test_sign(&key, &CapabilityToken {
        granted_tools: p.token.granted_tools.clone(), issued_to: None, issued_at: 0, expires_at: p.token.expires_at, signature: String::new(),
    }));
    // the first agent of an empty table gets pid 2
    let q = plan_proc_spawn(&vec![], "a", "g", "s", "bob", &mut invocations, &key, &test_sign);
    assert_eq!(q.pid, 2);
}

#[test]
fn spawn_without_parent_pid_creates_new_session() {
    let mut sessions = std::collections::HashMap::new();
    let mut invocations = std::collections::HashMap::new();
    let key = b"k".to_vec();
    let p = plan_agent_spawn(100, "a", "g", "", "alice", None, true, &mut sessions, &mut invocations,
        vec!["fs/read".to_string()], &key, &test_sign).unwrap();
    assert_eq!(p.session, SessionStep::Create);
    assert_eq!(p.session_id.len(), 36);
    assert_eq!(sessions.get(&100), Some(&p.session_id));
    assert_eq!(p.invocation.session_id, p.session_id);
    assert_eq!(p.entry.spawned_by, "alice");
    assert_eq!(p.token.granted_tools, vec!["fs/read"]);
}

#[test]
fn spawn_with_parent_pid_inherits_session() {
    let parent_session = "123e4567-e89b-12d3-a456-426614174000".to_string();
    let mut sessions = std::collections::HashMap::new();
    sessions.insert(100u64, parent_session.clone());
    let mut invocations = std::collections::HashMap::new();
    let key = b"k".to_vec();
    let p = plan_agent_spawn(101, "child", "g", "", "alice", Some(100), true, &mut sessions, &mut invocations,
        vec![], &key, &test_sign).unwrap();
    assert_eq!(p.session_id, parent_session);
    assert_eq!(p.session, SessionStep::Join);
    assert_eq!(p.entry.parent, Some(100));
    assert_eq!(sessions.get(&101), Some(&parent_session));
}

#[test]
fn spawn_into_named_session_needs_a_uuid_with_a_store() {
    let mut sessions = std::collections::HashMap::new();
    let mut invocations = std::collections::HashMap::new();
    let key = b"k".to_vec();
    match plan_agent_spawn(5, "a", "g", "not-a-uuid", "alice", None, true, &mut sessions, &mut invocations, vec![], &key, &test_sign) {
        Err(AvixError::InvalidInput(m)) => assert_eq!(m, "invalid session id: not-a-uuid"),
        other => panic!("unexpected {other:?}"),
    }
    assert!(sessions.is_empty() && invocations.is_empty());
    // without a session store the id is used as given
    let p = plan_agent_spawn(5, "a", "g", "not-a-uuid", "alice", None, false, &mut sessions, &mut invocations, vec![], &key, &test_sign).unwrap();
    assert_eq!(p.session_id, "not-a-uuid");
    assert_eq!(p.session, SessionStep::Detached);
}
