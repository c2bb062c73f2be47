//! Single-use approval tokens, and human-in-the-loop requests answered or
//! timed out.

use avix_core::approvals::ApprovalTokenStore;
use avix_core::atp::AtpEventKind;
use avix_core::error::AvixError;
use avix_core::hil::{HilManager, HilRequest, HilState, HilType, HilUrgency};
use avix_core::json::Json;
use avix_core::types::{Pid, Role};

fn denied_message<T: std::fmt::Debug>(r: Result<T, AvixError>) -> String {
    match r {
        Err(AvixError::CapabilityDenied(m)) => m,
        other => panic!("expected a refusal, got {other:?}"),
    }
}

#[test]
fn fresh_token_is_accepted_once() {
    let mut s = ApprovalTokenStore::new();
    let t = s.create("hil-1");
    assert_eq!(t.len(), 36);
    assert!(s.consume(&t).is_ok());
    assert_eq!(denied_message(s.consume(&t)), "EUSED: token already used");
    assert_eq!(denied_message(s.consume(&t)), "EUSED: token already used");
}

#[test]
fn unknown_token_is_refused() {
    let mut s = ApprovalTokenStore::new();
    assert_eq!(denied_message(s.consume("nope")), "token not found");
}

#[test]
fn registered_token_keeps_its_state() {
    let mut s = ApprovalTokenStore::new();
    s.register("tok-a");
    s.consume("tok-a").unwrap();
    s.register("tok-a");
    assert_eq!(denied_message(s.consume("tok-a")), "EUSED: token already used");
}

fn request(hil_id: &str, token: &str) -> HilRequest {
    HilRequest {
        api_version: "avix/v1".into(),
        kind: "HilRequest".into(),
        hil_id: hil_id.into(),
        pid: Pid::from_u64(57),
        agent_name: "researcher".into(),
        hil_type: HilType::ToolCallApproval,
        tool: Some("send_email".into()),
        args: None,
        reason: None,
        context: None,
        options: None,
        urgency: HilUrgency::High,
        approval_token: token.into(),
        created_at: "2026-01-01T00:00:00Z".into(),
        expires_at: "2026-01-01T00:10:00Z".into(),
        state: HilState::Pending,
        atp_session_id: "atp-1".into(),
    }
}

#[test]
fn approving_a_request_announces_it() {
    let mut m = HilManager::new(ApprovalTokenStore::new(), 600);
    assert_eq!(m.timeout_secs(), 600);
    m.open(request("hil-1", "tok-1"));
    let mut payload = Json::empty_object();
    payload.set("note", Json::string("fine"));
    let a = m.resolve("hil-1", "tok-1", "approved", "alice", &payload).unwrap();
    let updated = a.updated.unwrap();
    assert_eq!(updated.state, HilState::Approved);
    assert_eq!(updated.hil_id, "hil-1");
    assert_eq!(a.event.event.event, AtpEventKind::HilResolved);
    assert_eq!(a.event.owner_session.as_deref(), Some("researcher"));
    assert_eq!(a.event.min_role, Role::User);
    let b = &a.event.event.body;
    assert_eq!(b.get_str("hilId").as_deref(), Some("hil-1"));
    assert_eq!(b.get_str("outcome").as_deref(), Some("approved"));
    assert_eq!(b.get_str("resolvedBy").as_deref(), Some("alice"));
    assert_eq!(b.get_str("note").as_deref(), Some("fine"));
    assert!(b.get_str("resolvedAt").is_some());
}

#[test]
fn any_other_decision_denies() {
    let mut m = HilManager::new(ApprovalTokenStore::new(), 600);
    m.open(request("hil-2", "tok-2"));
    let a = m.resolve("hil-2", "tok-2", "rejected", "bob", &Json::empty_object()).unwrap();
    assert_eq!(a.updated.unwrap().state, HilState::Denied);
    assert!(matches!(a.event.event.body.get("note"), Some(Json::Null)));
}

#[test]
fn second_answer_is_refused() {
    let mut m = HilManager::new(ApprovalTokenStore::new(), 600);
    m.open(request("hil-3", "tok-3"));
    m.resolve("hil-3", "tok-3", "approved", "alice", &Json::empty_object()).unwrap();
    let r = m.resolve("hil-3", "tok-3", "denied", "bob", &Json::empty_object());
    assert_eq!(denied_message(r), "EUSED: token already used");
}

#[test]
fn answer_with_wrong_token_changes_nothing() {
    let mut m = HilManager::new(ApprovalTokenStore::new(), 600);
    m.open(request("hil-4", "tok-4"));
    let r = m.resolve("hil-4", "forged", "approved", "mallory", &Json::empty_object());
    assert_eq!(denied_message(r), "token not found");
    // the request is still open: its timeout still fires
    assert!(m.timeout_hil("hil-4", Pid::from_u64(57)).is_some());
}

#[test]
fn timeout_resumes_the_agent() {
    let mut m = HilManager::new(ApprovalTokenStore::new(), 600);
    m.open(request("hil-5", "tok-5"));
    let t = m.timeout_hil("hil-5", Pid::from_u64(57)).unwrap();
    assert_eq!(t.updated.state, HilState::Timeout);
    assert_eq!(t.resume_pid, Pid::from_u64(57));
    assert_eq!(t.resume_payload.get_str("decision").as_deref(), Some("timeout"));
    assert_eq!(t.event.event.body.get_str("outcome").as_deref(), Some("timeout"));
    assert_eq!(t.event.event.body.get_str("resolvedBy").as_deref(), Some("kernel"));
    // a second timeout finds nothing open
    assert!(m.timeout_hil("hil-5", Pid::from_u64(57)).is_none());
}

#[test]
fn answered_request_does_not_time_out() {
    let mut m = HilManager::new(ApprovalTokenStore::new(), 600);
    m.open(request("hil-6", "tok-6"));
    m.resolve("hil-6", "tok-6", "approved", "alice", &Json::empty_object()).unwrap();
    assert!(m.timeout_hil("hil-6", Pid::from_u64(57)).is_none());
}

#[test]
fn answer_to_closed_request_still_announces() {
    let mut store = ApprovalTokenStore::new();
    let tok = store.create("hil-gone");
    let mut m = HilManager::new(store, 600);
    let a = m.resolve("hil-gone", &tok, "approved", "alice", &Json::empty_object()).unwrap();
    assert!(a.updated.is_none());
    assert_eq!(a.event.owner_session.as_deref(), Some(""));
}
