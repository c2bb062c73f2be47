//! The stand-in kernel used by gateway tests: spawn, list, stat and kill,
//! with the events each publishes.

use avix_core::atp::{AtpErrorCode, AtpEventKind};
use avix_core::json::Json;
use avix_core::test_router::TestIpcRouter;

fn params(pairs: Vec<(&str, Json)>) -> Json {
    let mut j = Json::empty_object();
    for (k, v) in pairs {
        j.set(k, v);
    }
    j
}

fn pid_param(pid: u64) -> Json {
    params(vec![("pid", Json::uint(pid))])
}

#[test]
fn agent_spawn_is_listed_and_announced() {
    let mut r = TestIpcRouter::new();
    let o = r.call(
        "kernel/proc/spawn",
        params(vec![("agent", Json::string("researcher")), ("goal", Json::string("find"))]),
        100,
    );
    let reply = o.result.unwrap();
    assert_eq!(reply.get_str("pid").as_deref(), Some("100"));
    assert_eq!(reply.get_str("status").as_deref(), Some("running"));
    assert_eq!(o.events.len(), 1);
    assert_eq!(o.events[0].event.event, AtpEventKind::AgentSpawned);
    assert_eq!(o.events[0].event.session_id, "test-session");
    assert_eq!(o.events[0].event.body.get_str("name").as_deref(), Some("researcher"));
    assert_eq!(o.events[0].event.body.get_str("goal").as_deref(), Some("find"));

    let listing = r.call("kernel/proc/list", Json::Null, 0).result.unwrap();
    match listing {
        Json::Array(v) => {
            assert_eq!(v.len(), 1);
            assert_eq!(v[0].get_u64("pid"), Some(100));
            assert_eq!(v[0].get_str("name").as_deref(), Some("researcher"));
            assert_eq!(v[0].get_str("status").as_deref(), Some("running"));
        }
        other => panic!("expected a list, got {other:?}"),
    }
}

#[test]
fn echo_command_prints_its_argument() {
    let mut r = TestIpcRouter::new();
    let cmd = Json::Array(vec![Json::string("echo"), Json::string("hello")]);
    let o = r.spawn(params(vec![("cmd", cmd)]), 7);
    assert_eq!(o.events.len(), 2);
    assert_eq!(o.events[0].event.event, AtpEventKind::ProcStart);
    assert_eq!(o.events[0].event.body.get_str("name").as_deref(), Some("proc"));
    assert_eq!(o.events[1].event.event, AtpEventKind::ProcOutput);
    assert_eq!(o.events[1].event.body.get_str("text").as_deref(), Some("hello"));
}

#[test]
fn non_echo_command_prints_nothing() {
    let mut r = TestIpcRouter::new();
    let cmd = Json::Array(vec![Json::string("ls")]);
    let o = r.spawn(params(vec![("cmd", cmd), ("name", Json::string("lister"))]), 8);
    assert_eq!(o.events.len(), 1);
    assert_eq!(o.events[0].event.body.get_str("name").as_deref(), Some("lister"));
}

#[test]
fn stat_finds_spawned_and_refuses_unknown() {
    let mut r = TestIpcRouter::new();
    r.spawn(params(vec![("agent", Json::string("a"))]), 5);
    let found = r.stat(&pid_param(5)).unwrap();
    assert_eq!(found.get_u64("pid"), Some(5));
    let missing = r.stat(&pid_param(6)).unwrap_err();
    assert_eq!(missing.code, AtpErrorCode::Enotfound);
    assert_eq!(missing.message, "proc 6 not found");
    // `id` takes precedence over `pid`
    let by_id = r.stat(&params(vec![("id", Json::uint(5)), ("pid", Json::uint(6))])).unwrap();
    assert_eq!(by_id.get_u64("pid"), Some(5));
}

#[test]
fn kill_removes_and_announces_agent_exit() {
    let mut r = TestIpcRouter::new();
    r.spawn(params(vec![("agent", Json::string("a"))]), 5);
    r.spawn(params(vec![("name", Json::string("p"))]), 6);
    let o = r.kill(&pid_param(5));
    assert_eq!(o.result.unwrap().get_bool("ok"), Some(true));
    assert_eq!(o.events.len(), 1);
    assert_eq!(o.events[0].event.event, AtpEventKind::AgentExit);
    assert_eq!(o.events[0].event.body.get_str("pid").as_deref(), Some("5"));
    assert_eq!(o.events[0].event.body.get_u64("exitCode"), Some(0));
    assert!(r.stat(&pid_param(5)).is_err());
    assert!(r.stat(&pid_param(6)).is_ok());
    let o = r.kill(&pid_param(6));
    assert_eq!(o.events[0].event.event, AtpEventKind::ProcExit);
}

#[test]
fn killing_unknown_pid_still_answers_ok() {
    let mut r = TestIpcRouter::new();
    let o = r.kill(&pid_param(99));
    assert!(o.result.is_ok());
    assert_eq!(o.events[0].event.event, AtpEventKind::ProcExit);
}

#[test]
fn respawn_under_same_pid_replaces() {
    let mut r = TestIpcRouter::new();
    r.spawn(params(vec![("agent", Json::string("first"))]), 5);
    r.spawn(params(vec![("agent", Json::string("second"))]), 5);
    match r.list() {
        Json::Array(v) => {
            assert_eq!(v.len(), 1);
            assert_eq!(v[0].get_str("name").as_deref(), Some("second"));
        }
        _ => panic!("expected a list"),
    }
}

#[test]
fn unknown_method_is_unavailable() {
    let mut r = TestIpcRouter::new();
    let o = r.call("kernel/fs/read", Json::Null, 0);
    let e = o.result.unwrap_err();
    assert_eq!(e.code, AtpErrorCode::Eunavail);
    assert_eq!(e.message, "test IPC: no handler for 'kernel/fs/read'");
    assert!(o.events.is_empty());
}
