//! Event scoping and per-connection filtering, and the events the gateway
//! publishes.

use avix_core::atp::{AtpEvent, AtpEventKind};
use avix_core::event_bus::{
    agent_output_event, event_scope, on_vfs_change, sys_service_event, tool_changed_event, BusEvent, EventFilter,
};
use avix_core::json::Json;
use avix_core::types::Role;

fn make_agent_output_event(session: &str) -> BusEvent {
    let (min_role, owner_scoped) = event_scope(&AtpEventKind::AgentOutput);
    BusEvent {
        event: AtpEvent::new(AtpEventKind::AgentOutput, session, Json::empty_object()),
        owner_session: if owner_scoped { Some(session.to_string()) } else { None },
        min_role,
    }
}

#[test]
fn filter_blocks_guest_for_user_only_event() {
    let mut f = EventFilter::new("sess-001".into(), Role::Guest);
    f.set_subscriptions(vec!["*".into()]);
    let ev = make_agent_output_event("sess-001");
    assert!(!f.should_receive(&ev));
}

#[test]
fn filter_allows_user_for_own_agent_output() {
    let mut f = EventFilter::new("sess-001".into(), Role::User);
    f.set_subscriptions(vec!["*".into()]);
    let ev = make_agent_output_event("sess-001");
    assert!(f.should_receive(&ev));
}

#[test]
fn filter_blocks_user_for_other_session_event() {
    let mut f = EventFilter::new("sess-001".into(), Role::User);
    f.set_subscriptions(vec!["*".into()]);
    let ev = make_agent_output_event("sess-002");
    assert!(!f.should_receive(&ev));
}

#[test]
fn operator_receives_any_session_event() {
    let mut f = EventFilter::new("sess-001".into(), Role::Operator);
    f.set_subscriptions(vec!["*".into()]);
    let ev = make_agent_output_event("sess-002");
    assert!(f.should_receive(&ev));
}

#[test]
fn filter_blocks_unsubscribed_event() {
    let mut f = EventFilter::new("sess-001".into(), Role::User);
    f.set_subscriptions(vec!["agent.exit".into()]);
    let ev = make_agent_output_event("sess-001"); // agent.output not in list
    assert!(!f.should_receive(&ev));
}

#[test]
fn wildcard_subscription_allows_all_permitted() {
    let mut f = EventFilter::new("sess-001".into(), Role::User);
    f.set_subscriptions(vec!["*".into()]);
    let ev = make_agent_output_event("sess-001");
    assert!(f.should_receive(&ev));
}

#[test]
fn no_subscriptions_blocks_all() {
    let f = EventFilter::new("sess-001".into(), Role::Admin);
    // no set_subscriptions call
    let ev = make_agent_output_event("sess-001");
    assert!(!f.should_receive(&ev));
}

#[test]
fn admin_receives_sys_service_events() {
    let mut f = EventFilter::new("sess-001".into(), Role::Admin);
    f.set_subscriptions(vec!["*".into()]);
    let ev = BusEvent {
        event: AtpEvent::new(AtpEventKind::SysService, "sess-001", Json::empty_object()),
        owner_session: None,
        min_role: Role::Admin,
    };
    assert!(f.should_receive(&ev));
}

#[test]
fn operator_blocked_from_sys_service_events() {
    let mut f = EventFilter::new("sess-001".into(), Role::Operator);
    f.set_subscriptions(vec!["*".into()]);
    let ev = BusEvent {
        event: AtpEvent::new(AtpEventKind::SysService, "sess-001", Json::empty_object()),
        owner_session: None,
        min_role: Role::Admin,
    };
    assert!(!f.should_receive(&ev));
}

#[test]
fn tool_changed_event_is_not_owner_scoped() {
    let (min_role, owner_scoped) = event_scope(&AtpEventKind::ToolChanged);
    assert_eq!(min_role, Role::Guest);
    assert!(!owner_scoped);
}

#[test]
fn agent_output_event_is_owner_scoped() {
    let (min_role, owner_scoped) = event_scope(&AtpEventKind::AgentOutput);
    assert_eq!(min_role, Role::User);
    assert!(owner_scoped);
}

#[test]
fn sys_alert_requires_operator() {
    let (min_role, owner_scoped) = event_scope(&AtpEventKind::SysAlert);
    assert_eq!(min_role, Role::Operator);
    assert!(!owner_scoped);
}

#[test]
fn sys_service_requires_admin() {
    let (min_role, _) = event_scope(&AtpEventKind::SysService);
    assert_eq!(min_role, Role::Admin);
}

#[test]
fn specific_subscription_receives_matching_event() {
    let mut f = EventFilter::new("sess-001".into(), Role::User);
    f.set_subscriptions(vec!["agent.output".into()]);
    let ev = make_agent_output_event("sess-001");
    assert!(f.should_receive(&ev));
}

#[test]
fn convenience_agent_output_publishes_bus_event() {
    let ev = agent_output_event("sess-x", 42, "hello");
    assert_eq!(ev.event.event, AtpEventKind::AgentOutput);
    assert_eq!(ev.owner_session.as_deref(), Some("sess-x"));
    assert_eq!(ev.min_role, Role::User);
    assert_eq!(ev.event.body.get_str("pid").as_deref(), Some("42"));
    assert_eq!(ev.event.body.get_str("text").as_deref(), Some("hello"));
}

#[test]
fn convenience_tool_changed_has_no_owner() {
    let ev = tool_changed_event("fs/read", "updated");
    assert!(ev.owner_session.is_none());
    assert_eq!(ev.min_role, Role::Guest);
}

#[test]
fn convenience_sys_service_publishes_event() {
    let ev = sys_service_event("router.svc", "running");
    assert_eq!(ev.event.event, AtpEventKind::SysService);
    assert!(ev.owner_session.is_none());
    assert_eq!(ev.min_role, Role::Admin);
}

#[test]
fn on_vfs_change_publishes_fs_changed_event() {
    let ev = on_vfs_change("/users/alice/data.yaml", "sess-001");
    assert_eq!(ev.event.event, AtpEventKind::FsChanged);
    assert_eq!(ev.owner_session.as_deref(), Some("sess-001"));
    assert_eq!(ev.min_role, Role::User);
    assert_eq!(ev.event.body.get_str("path").as_deref(), Some("/users/alice/data.yaml"));
}

#[test]
fn on_vfs_change_is_owner_scoped() {
    let ev = on_vfs_change("/some/path", "sess-abc");
    assert_eq!(ev.owner_session.as_deref(), Some("sess-abc"));
}

#[test]
fn event_wire_names_use_dot_notation() {
    assert_eq!(AtpEventKind::AgentOutput.wire_name(), "agent.output");
    assert_eq!(AtpEventKind::SysService.wire_name(), "sys.service");
}
