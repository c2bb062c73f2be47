//! The legacy command set: responses, and translation to kernel calls.

use avix_core::atp::{ATPCommand, ATPResponse};
use avix_core::json::Json;
use avix_core::translator::{ATPTranslator, TranslationError};
use avix_core::types::Role;

fn object_with_u64(key: &str, n: u64) -> Json {
    let mut j = Json::empty_object();
    j.set(key, Json::uint(n));
    j
}

#[test]
fn test_response_ok_shape() {
    let resp = ATPResponse::ok("req-1", object_with_u64("pid", 100));
    assert!(resp.ok);
    assert!(resp.result.is_some());
    assert!(resp.error.is_none());
}

#[test]
fn test_response_error_shape() {
    let resp = ATPResponse::err("req-1", "not found");
    assert!(!resp.ok);
    assert!(resp.result.is_none());
    assert!(resp.error.is_some());
}

#[test]
fn test_agent_spawn_translates_to_proc_spawn() {
    let translator = ATPTranslator;
    let cmd = ATPCommand::AgentSpawn { name: "x".into(), goal: "y".into() };
    let call = translator.translate(&cmd, &Role::Admin).unwrap();
    assert_eq!(call.method, "kernel/proc/spawn");
}

#[test]
fn test_fs_read_translates_correctly() {
    let translator = ATPTranslator;
    let cmd = ATPCommand::FsRead { path: "/users/alice/data".into() };
    let call = translator.translate(&cmd, &Role::Admin).unwrap();
    assert_eq!(call.method, "kernel/fs/read");
}

#[test]
fn test_non_admin_cannot_reboot() {
    let translator = ATPTranslator;
    let cmd = ATPCommand::SysReboot { confirm: true };
    let res = translator.translate(&cmd, &Role::Guest);
    assert!(matches!(res, Err(TranslationError::Eperm(_, _))));
}

#[test]
fn test_admin_can_reboot() {
    let translator = ATPTranslator;
    let cmd = ATPCommand::SysReboot { confirm: true };
    let res = translator.translate(&cmd, &Role::Admin);
    assert!(res.is_ok());
}

#[test]
fn test_agent_kill_translates() {
    let translator = ATPTranslator;
    let cmd = ATPCommand::AgentKill { pid: "42".to_string() };
    let call = translator.translate(&cmd, &Role::Admin).unwrap();
    assert_eq!(call.method, "kernel/proc/kill");
    assert_eq!(call.params.get_u64("pid"), Some(42u64));
}

#[test]
fn test_agent_list_translates() {
    let translator = ATPTranslator;
    let cmd = ATPCommand::AgentList;
    let call = translator.translate(&cmd, &Role::User).unwrap();
    assert_eq!(call.method, "kernel/proc/list");
}

#[test]
fn test_agent_status_translates() {
    let translator = ATPTranslator;
    let cmd = ATPCommand::AgentStatus { pid: "7".to_string() };
    let call = translator.translate(&cmd, &Role::User).unwrap();
    assert_eq!(call.method, "kernel/proc/info");
    assert_eq!(call.params.get_u64("pid"), Some(7u64));
}

#[test]
fn test_fs_write_translates() {
    let translator = ATPTranslator;
    let cmd = ATPCommand::FsWrite { path: "/users/alice/file.txt".into(), content: "hello".into() };
    let call = translator.translate(&cmd, &Role::User).unwrap();
    assert_eq!(call.method, "kernel/fs/write");
    assert_eq!(call.params.get_str("content").as_deref(), Some("hello"));
}

#[test]
fn test_llm_status_translates() {
    let translator = ATPTranslator;
    let cmd = ATPCommand::LlmStatus;
    let call = translator.translate(&cmd, &Role::User).unwrap();
    assert_eq!(call.method, "llm/status");
}

#[test]
fn test_sys_info_translates() {
    let translator = ATPTranslator;
    let cmd = ATPCommand::SysInfo;
    let call = translator.translate(&cmd, &Role::User).unwrap();
    assert_eq!(call.method, "kernel/sys/info");
}

#[test]
fn test_operator_cannot_reboot() {
    let translator = ATPTranslator;
    let cmd = ATPCommand::SysReboot { confirm: true };
    let res = translator.translate(&cmd, &Role::Operator);
    assert!(matches!(res, Err(TranslationError::Eperm(_, _))));
}

#[test]
fn test_user_cannot_reboot() {
    let translator = ATPTranslator;
    let cmd = ATPCommand::SysReboot { confirm: true };
    let res = translator.translate(&cmd, &Role::User);
    assert!(matches!(res, Err(TranslationError::Eperm(_, _))));
}

#[test]
fn test_response_id_preserved() {
    let resp = ATPResponse::ok("my-request-id", Json::empty_object());
    assert_eq!(resp.id, "my-request-id");
}

#[test]
fn test_spawn_params_contain_name_and_goal() {
    let translator = ATPTranslator;
    let cmd = ATPCommand::AgentSpawn { name: "my-agent".into(), goal: "my-goal".into() };
    let call = translator.translate(&cmd, &Role::Admin).unwrap();
    assert_eq!(call.params.get_str("name").as_deref(), Some("my-agent"));
    assert_eq!(call.params.get_str("goal").as_deref(), Some("my-goal"));
}

#[test]
fn unparsable_pid_translates_to_zero() {
    let translator = ATPTranslator;
    let cmd = ATPCommand::AgentKill { pid: "abc".to_string() };
    let call = translator.translate(&cmd, &Role::User).unwrap();
    assert_eq!(call.params.get_u64("pid"), Some(0u64));
}
