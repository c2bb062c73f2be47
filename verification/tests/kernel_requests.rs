//! How the kernel routes JSON-RPC requests, and the replies it builds.

use avix_core::error::AvixError;
use avix_core::ipc_message::JsonRpcResponse;
use avix_core::json::Json;
use avix_core::kernel_ipc::{
    done_reply, invalid_body_reply, kill_reply, list_reply, lookup_reply, pid_of, plan_kernel_request,
    resume_session_reply, session_pause_next, session_resume_next, snapshot_reply, spawn_reply, stat_reply,
    value_reply, ActiveAgent, KernelCall, KernelStep, ProcessStatus, SessionNext, SessionView,
};

const SESSION_UUID: &str = "0b6c7e9e-6f2b-4c1a-9d7e-2f1a3b4c5d6e";

fn obj(pairs: Vec<(&str, Json)>) -> Json {
    let mut j = Json::empty_object();
    for (k, v) in pairs {
        j.set(k, v);
    }
    j
}

fn error_of(step: KernelStep) -> (i32, String) {
    match step {
        KernelStep::Reply(r) => err_parts(r),
        KernelStep::Call(c) => panic!("expected an error reply, got {c:?}"),
    }
}

fn err_parts(r: JsonRpcResponse) -> (i32, String) {
    assert!(r.result.is_none());
    let e = r.error.expect("an error");
    (e.code, e.message)
}

#[test]
fn spawn_fills_defaults() {
    match plan_kernel_request("1", "kernel/proc/spawn", Json::empty_object()) {
        KernelStep::Call(KernelCall::Spawn { name, goal, session_id, caller, parent_pid }) => {
            assert_eq!(name, "unnamed");
            assert_eq!(goal, "");
            assert_eq!(session_id, "");
            assert_eq!(caller, "gateway");
            assert_eq!(parent_pid, None);
        }
        other => panic!("unexpected {other:?}"),
    }
    let p = obj(vec![("name", Json::string("writer")), ("parent_pid", Json::uint(3)), ("caller", Json::string("alice"))]);
    match plan_kernel_request("1", "kernel/proc/spawn", p) {
        KernelStep::Call(KernelCall::Spawn { name, caller, parent_pid, .. }) => {
            assert_eq!(name, "writer");
            assert_eq!(caller, "alice");
            assert_eq!(parent_pid, Some(3));
        }
        other => panic!("unexpected {other:?}"),
    }
}

#[test]
fn kill_and_stat_take_id_or_pid() {
    assert!(matches!(
        plan_kernel_request("1", "kernel/proc/kill", obj(vec![("pid", Json::uint(9))])),
        KernelStep::Call(KernelCall::Kill { pid: 9 })
    ));
    assert!(matches!(
        plan_kernel_request("1", "kernel/proc/stat", obj(vec![("id", Json::uint(4)), ("pid", Json::uint(9))])),
        KernelStep::Call(KernelCall::Stat { pid: 4 })
    ));
    assert_eq!(pid_of(&Json::Null), 0);
}

#[test]
fn wait_and_setcap_answer_ok() {
    match plan_kernel_request("7", "kernel/proc/wait", Json::Null) {
        KernelStep::Reply(r) => {
            assert_eq!(r.id, "7");
            assert_eq!(r.result.unwrap().get_bool("ok"), Some(true));
        }
        other => panic!("unexpected {other:?}"),
    }
}

#[test]
fn unknown_method_is_minus_32601() {
    let (code, msg) = error_of(plan_kernel_request("2", "kernel/nope", Json::Null));
    assert_eq!(code, -32601);
    assert_eq!(msg, "unknown kernel method: kernel/nope");
}

#[test]
fn signal_send_needs_pid_and_signal() {
    let (code, msg) = error_of(plan_kernel_request("3", "kernel/signal/send", obj(vec![("signal", Json::string("SIGKILL"))])));
    assert_eq!((code, msg.as_str()), (-32602, "missing pid"));
    let (code, msg) = error_of(plan_kernel_request("3", "kernel/signal/send", obj(vec![("pid", Json::uint(5))])));
    assert_eq!((code, msg.as_str()), (-32602, "missing signal"));
    let p = obj(vec![("pid", Json::uint(5)), ("signal", Json::string("SIGPAUSE"))]);
    match plan_kernel_request("3", "kernel/signal/send", p) {
        KernelStep::Call(KernelCall::SignalSend { pid, signal, payload }) => {
            assert_eq!(pid, 5);
            assert_eq!(signal, "SIGPAUSE");
            assert!(matches!(payload, Json::Null));
        }
        other => panic!("unexpected {other:?}"),
    }
}

#[test]
fn uuid_parameters_are_checked() {
    let (code, msg) = error_of(plan_kernel_request("4", "kernel/proc/message-get", obj(vec![("id", Json::string("nope"))])));
    assert_eq!((code, msg.as_str()), (-32002, "invalid message UUID"));
    let (code, msg) = error_of(plan_kernel_request("4", "kernel/proc/session/get", Json::empty_object()));
    assert_eq!((code, msg.as_str()), (-32002, "invalid session ID"));
    match plan_kernel_request("4", "kernel/proc/message-list", obj(vec![("session_id", Json::string(SESSION_UUID))])) {
        KernelStep::Call(KernelCall::MessageList { session_id }) => assert_eq!(session_id, SESSION_UUID),
        other => panic!("unexpected {other:?}"),
    }
    match plan_kernel_request(
        "4",
        "kernel/proc/session/resume",
        obj(vec![("session_id", Json::string(SESSION_UUID)), ("input", Json::string("go on"))]),
    ) {
        KernelStep::Call(KernelCall::SessionResume { session_id, input }) => {
            assert_eq!(session_id, SESSION_UUID);
            assert_eq!(input.as_deref(), Some("go on"));
        }
        other => panic!("unexpected {other:?}"),
    }
}

#[test]
fn invocation_list_by_session_or_user() {
    match plan_kernel_request("5", "kernel/proc/invocation-list", obj(vec![("session_id", Json::string("s1"))])) {
        KernelStep::Call(KernelCall::InvocationsForSession { session_id }) => assert_eq!(session_id, "s1"),
        other => panic!("unexpected {other:?}"),
    }
    match plan_kernel_request("5", "kernel/proc/invocation-list", obj(vec![("username", Json::string("alice"))])) {
        KernelStep::Call(KernelCall::Invocations { username, agent_name, live }) => {
            assert_eq!(username, "alice");
            assert!(agent_name.is_none());
            assert!(live);
        }
        other => panic!("unexpected {other:?}"),
    }
}

#[test]
fn replies_carry_codes() {
    let (c, m) = err_parts(value_reply("1", Err("boom".into())));
    assert_eq!((c, m.as_str()), (-32000, "boom"));
    let (c, _) = err_parts(kill_reply("1", Err("no".into())));
    assert_eq!(c, -32003);
    assert_eq!(done_reply("1", Ok(())).result.unwrap().get_bool("ok"), Some(true));
    let v = spawn_reply("1", Ok(12)).result.unwrap();
    assert_eq!(v.get_u64("pid"), Some(12));
    assert_eq!(v.get_str("status").as_deref(), Some("running"));
    assert_eq!(resume_session_reply("1", Ok(13)).result.unwrap().get_u64("pid"), Some(13));
    let (c, m) = err_parts(lookup_reply("1", Ok(None), "message", "abc"));
    assert_eq!((c, m.as_str()), (-32003, "message abc not found"));
    let (c, m) = err_parts(invalid_body_reply("1", "part", "missing field"));
    assert_eq!((c, m.as_str()), (-32002, "invalid part: missing field"));
}

#[test]
fn snapshot_reply_codes() {
    let ok = snapshot_reply("1", Ok(Json::uint(1)), "").result.unwrap();
    assert_eq!(ok.get_bool("success"), Some(true));
    let (c, _) = err_parts(snapshot_reply("1", Err(AvixError::NotFound("x".into())), "x"));
    assert_eq!(c, -32003);
    let (c, _) = err_parts(snapshot_reply("1", Err(AvixError::InvalidInput("x".into())), "x"));
    assert_eq!(c, -32001);
    let (c, _) = err_parts(snapshot_reply("1", Err(AvixError::IpcTimeout), "t"));
    assert_eq!(c, -32000);
}

#[test]
fn list_and_stat_replies() {
    let agents = vec![ActiveAgent { pid: 3, name: "a".into(), status: "running".into(), goal: "g".into() }];
    match list_reply("1", Ok(agents)).result.unwrap() {
        Json::Array(v) => {
            assert_eq!(v.len(), 1);
            assert_eq!(v[0].get_u64("pid"), Some(3));
            assert_eq!(v[0].get_str("goal").as_deref(), Some("g"));
        }
        other => panic!("unexpected {other:?}"),
    }
    let s = stat_reply("1", 3, Some(("a".into(), "g".into(), ProcessStatus::Paused))).result.unwrap();
    assert_eq!(s.get_str("status").as_deref(), Some("paused"));
    let (c, m) = err_parts(stat_reply("1", 42, None));
    assert_eq!((c, m.as_str()), (-32003, "pid 42 not found"));
}

#[test]
fn session_pause_and_resume_decisions() {
    let view = |owner: u64, paused: bool, pids: Vec<u64>| SessionView { owner_pid: owner, paused, pids };
    assert!(matches!(session_pause_next("1", "s", Ok(Some(view(7, false, vec![])))), SessionNext::PauseOwner(7)));
    match session_pause_next("1", "s", Ok(Some(view(0, false, vec![])))) {
        SessionNext::Reply(r) => assert_eq!(err_parts(r), (-32001, "session has no active owner pid".to_string())),
        other => panic!("unexpected {other:?}"),
    }
    match session_pause_next("1", "s9", Ok(None)) {
        SessionNext::Reply(r) => assert_eq!(err_parts(r), (-32003, "session s9 not found".to_string())),
        other => panic!("unexpected {other:?}"),
    }
    match session_resume_next(Ok(Some(view(7, true, vec![7, 8])))) {
        SessionNext::ResumeAll(p) => assert_eq!(p, vec![7, 8]),
        other => panic!("unexpected {other:?}"),
    }
    assert!(matches!(session_resume_next(Ok(Some(view(7, false, vec![7])))), SessionNext::ResumeSession));
    assert!(matches!(session_resume_next(Err("db".into())), SessionNext::ResumeSession));
}
