//! Translation of legacy protocol commands into kernel IPC calls.

use vstd::prelude::*;
use crate::atp::ATPCommand;
use crate::json::{Json, JsonNumber, object, json_get, get_str_spec, member_count};
use crate::text::{owned, parse_u64, parse_u64_spec};
use crate::types::Role;

verus! {

/// Why a command could not be translated.
#[derive(Debug)]
pub enum TranslationError {
    /// The role may not run this command (role, command name).
    Eperm(Role, String),
    UnknownCommand,
}

/// A kernel IPC call: method and parameters.
#[derive(Debug)]
pub struct IpcCall {
    pub method: String,
    pub params: Json,
}

/// The legacy command translator.
pub struct ATPTranslator;

/// The pid a legacy command names: its decimal value, or 0 when it does not parse.
pub open spec fn pid_or_zero(pid: Seq<char>) -> u64 {
    match parse_u64_spec(pid) {
        Some(n) => n,
        None => 0,
    }
}

/// The IPC method each legacy command maps to.
pub open spec fn translated_method(cmd: ATPCommand) -> Seq<char> {
    match cmd {
        ATPCommand::AgentSpawn { .. } => "kernel/proc/spawn"@,
        ATPCommand::AgentKill { .. } => "kernel/proc/kill"@,
        ATPCommand::AgentList => "kernel/proc/list"@,
        ATPCommand::AgentStatus { .. } => "kernel/proc/info"@,
        ATPCommand::FsRead { .. } => "kernel/fs/read"@,
        ATPCommand::FsWrite { .. } => "kernel/fs/write"@,
        ATPCommand::LlmStatus => "llm/status"@,
        ATPCommand::SysInfo => "kernel/sys/info"@,
        ATPCommand::SysReboot { .. } => "kernel/sys/reboot"@,
    }
}

/// The parameters each legacy command carries over, and nothing else.
pub open spec fn params_match(cmd: ATPCommand, params: Json) -> bool {
    &&& params is Object
    &&& member_count(params) == match cmd {
        ATPCommand::AgentSpawn { .. } | ATPCommand::FsWrite { .. } => 2nat,
        ATPCommand::AgentKill { .. } | ATPCommand::AgentStatus { .. } | ATPCommand::FsRead { .. }
            | ATPCommand::SysReboot { .. } => 1nat,
        _ => 0nat,
    }
    &&& match cmd {
        ATPCommand::AgentSpawn { name, goal } =>
            get_str_spec(params, "name"@) == Some(name@) && get_str_spec(params, "goal"@) == Some(goal@),
        ATPCommand::AgentKill { pid } =>
            json_get(params, "pid"@) == Some(Json::Number(JsonNumber::PosInt(pid_or_zero(pid@)))),
        ATPCommand::AgentStatus { pid } =>
            json_get(params, "pid"@) == Some(Json::Number(JsonNumber::PosInt(pid_or_zero(pid@)))),
        ATPCommand::FsRead { path } => get_str_spec(params, "path"@) == Some(path@),
        ATPCommand::FsWrite { path, content } =>
            get_str_spec(params, "path"@) == Some(path@) && get_str_spec(params, "content"@) == Some(content@),
        ATPCommand::SysReboot { confirm } => json_get(params, "confirm"@) == Some(Json::Bool(confirm)),
        _ => true,
    }
}

fn str_entry(key: &str, val: &String) -> (e: (String, Json))
    ensures
        e.0@ == key@,
        e.1 is Str && e.1->Str_0@ == val@,
{
    (owned(key), Json::Str(val.clone()))
}

fn pid_params(pid: &String) -> (j: Json)
    ensures
        j is Object,
        member_count(j) == 1,
        json_get(j, "pid"@) == Some(Json::Number(JsonNumber::PosInt(pid_or_zero(pid@)))),
{
    let n: u64 = match parse_u64(pid.as_str()) {
        Some(n) => n,
        None => 0,
    };
    let es = vec![(owned("pid"), Json::uint(n))];
    let j = object(es);
    proof { assert(json_get(j, es@[0].0@) == Some(es@[0].1)); }
    j
}

impl ATPTranslator {
    /// Map a legacy command to its IPC call. Only `Admin` may reboot.
    pub fn translate(&self, cmd: &ATPCommand, caller_role: &Role) -> (r: Result<IpcCall, TranslationError>)
        ensures
            match r {
                Ok(call) => call.method@ == translated_method(*cmd) && params_match(*cmd, call.params)
                    && (cmd is SysReboot ==> *caller_role == Role::Admin),
                Err(e) => cmd is SysReboot && *caller_role != Role::Admin
                    && (e matches TranslationError::Eperm(role, what) && role == *caller_role
                    && what@ == "sys/reboot"@),
            },
    {
        match cmd {
            ATPCommand::AgentSpawn { name, goal } => {
                let es = vec![str_entry("name", name), str_entry("goal", goal)];
                proof { reveal_strlit("name"); reveal_strlit("goal"); assert("name"@[0] != "goal"@[0]); }
                let params = object(es);
                proof { assert(json_get(params, es@[0].0@) == Some(es@[0].1)); assert(json_get(params, es@[1].0@) == Some(es@[1].1)); }
                Ok(IpcCall { method: owned("kernel/proc/spawn"), params })
            },
            ATPCommand::AgentKill { pid } => {
                Ok(IpcCall { method: owned("kernel/proc/kill"), params: pid_params(pid) })
            },
            ATPCommand::AgentList => {
                Ok(IpcCall { method: owned("kernel/proc/list"), params: Json::empty_object() })
            },
            ATPCommand::AgentStatus { pid } => {
                Ok(IpcCall { method: owned("kernel/proc/info"), params: pid_params(pid) })
            },
            ATPCommand::FsRead { path } => {
                let es = vec![str_entry("path", path)];
                let params = object(es);
                proof { assert(json_get(params, es@[0].0@) == Some(es@[0].1)); }
                Ok(IpcCall { method: owned("kernel/fs/read"), params })
            },
            ATPCommand::FsWrite { path, content } => {
                let es = vec![str_entry("path", path), str_entry("content", content)];
                proof { reveal_strlit("path"); reveal_strlit("content"); assert("path"@.len() == 4); assert("content"@.len() == 7); }
                let params = object(es);
                proof { assert(json_get(params, es@[0].0@) == Some(es@[0].1)); assert(json_get(params, es@[1].0@) == Some(es@[1].1)); }
                Ok(IpcCall { method: owned("kernel/fs/write"), params })
            },
            ATPCommand::LlmStatus => {
                Ok(IpcCall { method: owned("llm/status"), params: Json::empty_object() })
            },
            ATPCommand::SysInfo => {
                Ok(IpcCall { method: owned("kernel/sys/info"), params: Json::empty_object() })
            },
            ATPCommand::SysReboot { confirm } => {
                if *caller_role != Role::Admin {
                    return Err(TranslationError::Eperm(*caller_role, owned("sys/reboot")));
                }
                let es = vec![(owned("confirm"), Json::Bool(*confirm))];
                let params = object(es);
                proof { assert(json_get(params, es@[0].0@) == Some(es@[0].1)); }
                Ok(IpcCall { method: owned("kernel/sys/reboot"), params })
            },
        }
    }
}

} // verus!
