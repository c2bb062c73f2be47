//! The kernel's IPC request routing: which process-handler call a
//! `kernel/*` JSON-RPC request asks for (with its parameters read and
//! checked), or the error answered at once; and the JSON-RPC response each
//! call's outcome becomes.

use vstd::prelude::*;
use crate::error::AvixError;
use crate::ipc_message::JsonRpcResponse;
use crate::json::{Json, JsonNumber, json_get, get_str_spec, get_u64_spec, get_bool_spec, member_count};
use crate::text::{owned, str_eq, concat2, concat3, decimal, u64_to_decimal};

verus! {

/// An ASCII hexadecimal digit, either case.
pub open spec fn hex_char(c: char) -> bool {
    ('0' <= c && c <= '9') || ('a' <= c && c <= 'f') || ('A' <= c && c <= 'F')
}

/// The hyphenated form: 36 characters, `-` at 8, 13, 18 and 23, hex elsewhere.
pub open spec fn uuid_hyphenated(s: Seq<char>) -> bool {
    &&& s.len() == 36
    &&& forall|i: int| 0 <= i < 36 ==> (if i == 8 || i == 13 || i == 18 || i == 23 {
        s[i] == '-'
    } else {
        hex_char(s[i])
    })
}

/// The text `uuid::Uuid::parse_str` accepts: 32 hex digits, the hyphenated
/// form, the hyphenated form in braces, or it after `urn:uuid:` (prefix in
/// any case).
pub open spec fn uuid_text(s: Seq<char>) -> bool {
    ||| s.len() == 32 && forall|i: int| 0 <= i < 32 ==> hex_char(s[i])
    ||| uuid_hyphenated(s)
    ||| s.len() == 38 && s[0] == '{' && s[37] == '}' && uuid_hyphenated(s.subrange(1, 37))
    ||| s.len() == 45 && ascii_lower(s.subrange(0, 9)) == "urn:uuid:"@ && uuid_hyphenated(s.subrange(9, 45))
}

/// `s` with ASCII capitals lowered.
pub open spec fn ascii_lower(s: Seq<char>) -> Seq<char> {
    s.map_values(|c: char| if 'A' <= c && c <= 'Z' { ((c as u32) + 32) as char } else { c })
}

/// Whether `uuid::Uuid::parse_str` accepts `s`. Its source (`try_parse`)
/// takes exactly the shapes `uuid_text` lists, with hex digits of either
/// case and the `urn:uuid:` prefix compared ignoring ASCII case.
#[verifier::external_body]
pub(crate) fn uuid_parses(s: &str) -> (b: bool)
    ensures
        b == uuid_text(s@),
{
    uuid::Uuid::parse_str(s).is_ok()
}

/// A call on the process handler that a request asks for.
#[derive(Debug)]
pub enum KernelCall {
    Spawn { name: String, goal: String, session_id: String, caller: String, parent_pid: Option<u64> },
    List,
    Kill { pid: u64 },
    Stat { pid: u64 },
    Pause { pid: u64 },
    Resume { pid: u64 },
    ListInstalled { username: String },
    InvocationsForSession { session_id: String },
    Invocations { username: String, agent_name: Option<String>, live: bool },
    InvocationConversation { id: String },
    InvocationGet { id: String },
    InvocationSnapshot { id: String },
    MessageCreate { message: Json },
    MessageGet { id: String },
    MessageList { session_id: String },
    PartCreate { part: Json },
    PartGet { id: String },
    PartList { message_id: String },
    SessionList { username: String },
    SessionGet { id: String },
    SessionPause { session_id: String },
    SessionResume { session_id: String, input: Option<String> },
    InstallAgent { params: Json },
    UninstallAgent { params: Json },
    InstallService { params: Json },
    UninstallService { params: Json },
    ServiceList,
    ToolList,
    SignalSend { pid: u64, signal: String, payload: Json },
}

/// What the kernel does with a request: answer at once, or make a call.
#[derive(Debug)]
pub enum KernelStep {
    Reply(JsonRpcResponse),
    Call(KernelCall),
}

/// `params[key]` as a string, or `default`.
pub open spec fn str_param(params: Json, key: Seq<char>, default: Seq<char>) -> Seq<char> {
    match get_str_spec(params, key) {
        Some(s) => s,
        None => default,
    }
}

/// The pid a request names: `params.id`, else `params.pid`, else 0.
pub open spec fn pid_param(params: Json) -> u64 {
    match get_u64_spec(params, "id"@) {
        Some(n) => n,
        None => match get_u64_spec(params, "pid"@) {
            Some(n) => n,
            None => 0,
        },
    }
}

/// `params[key]`, or `null`.
pub open spec fn member_or_null(params: Json, key: Seq<char>) -> Json {
    match json_get(params, key) {
        Some(v) => v,
        None => Json::Null,
    }
}

/// `r` is a JSON-RPC error for `id` with `code` and `message`.
pub open spec fn error_response(r: JsonRpcResponse, id: Seq<char>, code: int, message: Seq<char>) -> bool {
    r.jsonrpc@ == "2.0"@ && r.id@ == id && r.result is None && (r.error matches Some(e) && e.code == code && e.message@ == message && e.data is None)
}

/// `r` is the success `{ ok: true }` for `id`.
pub open spec fn ok_flag_response(r: JsonRpcResponse, id: Seq<char>) -> bool {
    r.jsonrpc@ == "2.0"@ && r.id@ == id && r.error is None && (r.result matches Some(v) && get_bool_spec(v, "ok"@) == Some(true)
        && member_count(v) == 1)
}

/// `step` is the error reply `code`/`message` for `id`.
pub open spec fn replies_error(step: KernelStep, id: Seq<char>, code: int, message: Seq<char>) -> bool {
    step matches KernelStep::Reply(r) && error_response(r, id, code, message)
}

/// A request naming a record by UUID text under `key`: the call `ok` when the
/// text parses, else the `-32002` reply `invalid`.
pub open spec fn by_uuid(step: KernelStep, id: Seq<char>, params: Json, key: Seq<char>, invalid: Seq<char>,
    ok: spec_fn(KernelCall, Seq<char>) -> bool) -> bool {
    let raw = str_param(params, key, ""@);
    if uuid_text(raw) {
        step matches KernelStep::Call(c) && ok(c, raw)
    } else {
        replies_error(step, id, -32002, invalid)
    }
}

/// How the kernel routes request `id` for `method` with `params`.
pub open spec fn kernel_plan(id: Seq<char>, method: Seq<char>, params: Json, step: KernelStep) -> bool {
    if method == "kernel/proc/spawn"@ {
        step matches KernelStep::Call(KernelCall::Spawn { name, goal, session_id, caller, parent_pid })
            && name@ == str_param(params, "name"@, "unnamed"@)
            && goal@ == str_param(params, "goal"@, ""@)
            && session_id@ == str_param(params, "session_id"@, ""@)
            && caller@ == str_param(params, "caller"@, "gateway"@)
            && parent_pid == get_u64_spec(params, "parent_pid"@)
    } else if method == "kernel/proc/list"@ {
        step matches KernelStep::Call(KernelCall::List)
    } else if method == "kernel/proc/kill"@ {
        step matches KernelStep::Call(KernelCall::Kill { pid }) && pid == pid_param(params)
    } else if method == "kernel/proc/stat"@ {
        step matches KernelStep::Call(KernelCall::Stat { pid }) && pid == pid_param(params)
    } else if method == "kernel/proc/pause"@ {
        step matches KernelStep::Call(KernelCall::Pause { pid }) && pid == pid_param(params)
    } else if method == "kernel/proc/resume"@ {
        step matches KernelStep::Call(KernelCall::Resume { pid }) && pid == pid_param(params)
    } else if method == "kernel/proc/wait"@ || method == "kernel/proc/setcap"@ {
        step matches KernelStep::Reply(r) && ok_flag_response(r, id)
    } else if method == "kernel/proc/list-installed"@ {
        step matches KernelStep::Call(KernelCall::ListInstalled { username })
            && username@ == str_param(params, "username"@, ""@)
    } else if method == "kernel/proc/invocation-list"@ {
        let sid = str_param(params, "session_id"@, ""@);
        if sid.len() > 0 {
            step matches KernelStep::Call(KernelCall::InvocationsForSession { session_id }) && session_id@ == sid
        } else {
            step matches KernelStep::Call(KernelCall::Invocations { username, agent_name, live })
                && username@ == str_param(params, "username"@, ""@)
                && (match get_str_spec(params, "agent_name"@) {
                    Some(a) => agent_name matches Some(x) && x@ == a,
                    None => agent_name is None,
                })
                && live == (match get_bool_spec(params, "live"@) {
                    Some(b) => b,
                    None => true,
                })
        }
    } else if method == "kernel/proc/invocation-conversation"@ {
        step matches KernelStep::Call(KernelCall::InvocationConversation { id: inv })
            && inv@ == str_param(params, "id"@, ""@)
    } else if method == "kernel/proc/invocation-get"@ {
        step matches KernelStep::Call(KernelCall::InvocationGet { id: inv }) && inv@ == str_param(params, "id"@, ""@)
    } else if method == "kernel/proc/invocation-snapshot"@ {
        step matches KernelStep::Call(KernelCall::InvocationSnapshot { id: inv })
            && inv@ == str_param(params, "id"@, ""@)
    } else if method == "kernel/proc/message-create"@ {
        step matches KernelStep::Call(KernelCall::MessageCreate { message })
            && message == member_or_null(params, "message"@)
    } else if method == "kernel/proc/message-get"@ {
        by_uuid(step, id, params, "id"@, "invalid message UUID"@,
            |c: KernelCall, raw: Seq<char>| c matches KernelCall::MessageGet { id: x } && x@ == raw)
    } else if method == "kernel/proc/message-list"@ {
        by_uuid(step, id, params, "session_id"@, "invalid session UUID"@,
            |c: KernelCall, raw: Seq<char>| c matches KernelCall::MessageList { session_id: x } && x@ == raw)
    } else if method == "kernel/proc/part-create"@ {
        step matches KernelStep::Call(KernelCall::PartCreate { part }) && part == member_or_null(params, "part"@)
    } else if method == "kernel/proc/part-get"@ {
        by_uuid(step, id, params, "id"@, "invalid part UUID"@,
            |c: KernelCall, raw: Seq<char>| c matches KernelCall::PartGet { id: x } && x@ == raw)
    } else if method == "kernel/proc/part-list"@ {
        by_uuid(step, id, params, "message_id"@, "invalid message UUID"@,
            |c: KernelCall, raw: Seq<char>| c matches KernelCall::PartList { message_id: x } && x@ == raw)
    } else if method == "kernel/proc/session/list"@ {
        step matches KernelStep::Call(KernelCall::SessionList { username })
            && username@ == str_param(params, "username"@, ""@)
    } else if method == "kernel/proc/session/get"@ {
        by_uuid(step, id, params, "id"@, "invalid session ID"@,
            |c: KernelCall, raw: Seq<char>| c matches KernelCall::SessionGet { id: x } && x@ == raw)
    } else if method == "kernel/proc/session/pause"@ {
        by_uuid(step, id, params, "session_id"@, "invalid session ID"@,
            |c: KernelCall, raw: Seq<char>| c matches KernelCall::SessionPause { session_id: x } && x@ == raw)
    } else if method == "kernel/proc/session/resume"@ {
        by_uuid(step, id, params, "session_id"@, "invalid session ID"@,
            |c: KernelCall, raw: Seq<char>| c matches KernelCall::SessionResume { session_id: x, input }
                && x@ == raw && (match get_str_spec(params, "input"@) {
                    Some(t) => input matches Some(i) && i@ == t,
                    None => input is None,
                }))
    } else if method == "kernel/proc/package/install-agent"@ {
        step matches KernelStep::Call(KernelCall::InstallAgent { params: p }) && p == params
    } else if method == "kernel/proc/package/uninstall-agent"@ {
        step matches KernelStep::Call(KernelCall::UninstallAgent { params: p }) && p == params
    } else if method == "kernel/proc/package/install-service"@ {
        step matches KernelStep::Call(KernelCall::InstallService { params: p }) && p == params
    } else if method == "kernel/proc/package/uninstall-service"@ {
        step matches KernelStep::Call(KernelCall::UninstallService { params: p }) && p == params
    } else if method == "kernel/sys/service-list"@ {
        step matches KernelStep::Call(KernelCall::ServiceList)
    } else if method == "kernel/sys/tool-list"@ {
        step matches KernelStep::Call(KernelCall::ToolList)
    } else if method == "kernel/signal/send"@ {
        let pid = match get_u64_spec(params, "pid"@) {
            Some(n) => n,
            None => 0u64,
        };
        let signal = str_param(params, "signal"@, ""@);
        if pid == 0 {
            replies_error(step, id, -32602, "missing pid"@)
        } else if signal.len() == 0 {
            replies_error(step, id, -32602, "missing signal"@)
        } else {
            step matches KernelStep::Call(KernelCall::SignalSend { pid: p, signal: s, payload })
                && p == pid && s@ == signal && payload == member_or_null(params, "payload"@)
        }
    } else {
        replies_error(step, id, -32601, "unknown kernel method: "@ + method)
    }
}

fn str_or(params: &Json, key: &str, default: &str) -> (s: String)
    ensures
        s@ == str_param(*params, key@, default@),
{
    match params.get_str(key) {
        Some(v) => v,
        None => owned(default),
    }
}

/// The pid a request names: `params.id`, else `params.pid`, else 0.
pub fn pid_of(params: &Json) -> (pid: u64)
    ensures
        pid == pid_param(*params),
{
    match params.get_u64("id") {
        Some(n) => n,
        None => match params.get_u64("pid") {
            Some(n) => n,
            None => 0,
        },
    }
}

fn take_or_null(params: &mut Json, key: &str) -> (v: Json)
    ensures
        v == member_or_null(*old(params), key@),
{
    match params.take(key) {
        Some(v) => v,
        None => Json::Null,
    }
}

fn ok_flag(id: &str) -> (r: JsonRpcResponse)
    ensures
        ok_flag_response(r, id@),
{
    let mut v = Json::empty_object();
    v.set("ok", Json::Bool(true));
    JsonRpcResponse::ok(id, v)
}

fn error_reply(id: &str, code: i32, message: &str) -> (s: KernelStep)
    ensures
        replies_error(s, id@, code as int, message@),
{
    KernelStep::Reply(JsonRpcResponse::err(id, code, message, None))
}

/// Route one kernel request.
pub fn plan_kernel_request(id: &str, method: &str, params: Json) -> (step: KernelStep)
    ensures
        kernel_plan(id@, method@, params, step),
{
    let ghost p0 = params;
    if str_eq(method, "kernel/proc/spawn") {
        let name = str_or(&params, "name", "unnamed");
        let goal = str_or(&params, "goal", "");
        let session_id = str_or(&params, "session_id", "");
        let caller = str_or(&params, "caller", "gateway");
        let parent_pid = params.get_u64("parent_pid");
        KernelStep::Call(KernelCall::Spawn { name, goal, session_id, caller, parent_pid })
    } else if str_eq(method, "kernel/proc/list") {
        KernelStep::Call(KernelCall::List)
    } else if str_eq(method, "kernel/proc/kill") {
        KernelStep::Call(KernelCall::Kill { pid: pid_of(&params) })
    } else if str_eq(method, "kernel/proc/stat") {
        KernelStep::Call(KernelCall::Stat { pid: pid_of(&params) })
    } else if str_eq(method, "kernel/proc/pause") {
        KernelStep::Call(KernelCall::Pause { pid: pid_of(&params) })
    } else if str_eq(method, "kernel/proc/resume") {
        KernelStep::Call(KernelCall::Resume { pid: pid_of(&params) })
    } else if str_eq(method, "kernel/proc/wait") || str_eq(method, "kernel/proc/setcap") {
        KernelStep::Reply(ok_flag(id))
    } else if str_eq(method, "kernel/proc/list-installed") {
        KernelStep::Call(KernelCall::ListInstalled { username: str_or(&params, "username", "") })
    } else if str_eq(method, "kernel/proc/invocation-list") {
        let session_id = str_or(&params, "session_id", "");
        if !session_id.as_str().is_empty() {
            KernelStep::Call(KernelCall::InvocationsForSession { session_id })
        } else {
            let username = str_or(&params, "username", "");
            let agent_name = params.get_str("agent_name");
            let live = match params.get_bool("live") {
                Some(b) => b,
                None => true,
            };
            KernelStep::Call(KernelCall::Invocations { username, agent_name, live })
        }
    } else if str_eq(method, "kernel/proc/invocation-conversation") {
        KernelStep::Call(KernelCall::InvocationConversation { id: str_or(&params, "id", "") })
    } else if str_eq(method, "kernel/proc/invocation-get") {
        KernelStep::Call(KernelCall::InvocationGet { id: str_or(&params, "id", "") })
    } else if str_eq(method, "kernel/proc/invocation-snapshot") {
        KernelStep::Call(KernelCall::InvocationSnapshot { id: str_or(&params, "id", "") })
    } else if str_eq(method, "kernel/proc/message-create") {
        let mut params = params;
        KernelStep::Call(KernelCall::MessageCreate { message: take_or_null(&mut params, "message") })
    } else if str_eq(method, "kernel/proc/message-get") {
        let raw = str_or(&params, "id", "");
        if uuid_parses(raw.as_str()) {
            KernelStep::Call(KernelCall::MessageGet { id: raw })
        } else {
            error_reply(id, -32002, "invalid message UUID")
        }
    } else if str_eq(method, "kernel/proc/message-list") {
        let raw = str_or(&params, "session_id", "");
        if uuid_parses(raw.as_str()) {
            KernelStep::Call(KernelCall::MessageList { session_id: raw })
        } else {
            error_reply(id, -32002, "invalid session UUID")
        }
    } else if str_eq(method, "kernel/proc/part-create") {
        let mut params = params;
        KernelStep::Call(KernelCall::PartCreate { part: take_or_null(&mut params, "part") })
    } else if str_eq(method, "kernel/proc/part-get") {
        let raw = str_or(&params, "id", "");
        if uuid_parses(raw.as_str()) {
            KernelStep::Call(KernelCall::PartGet { id: raw })
        } else {
            error_reply(id, -32002, "invalid part UUID")
        }
    } else if str_eq(method, "kernel/proc/part-list") {
        let raw = str_or(&params, "message_id", "");
        if uuid_parses(raw.as_str()) {
            KernelStep::Call(KernelCall::PartList { message_id: raw })
        } else {
            error_reply(id, -32002, "invalid message UUID")
        }
    } else if str_eq(method, "kernel/proc/session/list") {
        KernelStep::Call(KernelCall::SessionList { username: str_or(&params, "username", "") })
    } else if str_eq(method, "kernel/proc/session/get") {
        let raw = str_or(&params, "id", "");
        if uuid_parses(raw.as_str()) {
            KernelStep::Call(KernelCall::SessionGet { id: raw })
        } else {
            error_reply(id, -32002, "invalid session ID")
        }
    } else if str_eq(method, "kernel/proc/session/pause") {
        let raw = str_or(&params, "session_id", "");
        if uuid_parses(raw.as_str()) {
            KernelStep::Call(KernelCall::SessionPause { session_id: raw })
        } else {
            error_reply(id, -32002, "invalid session ID")
        }
    } else if str_eq(method, "kernel/proc/session/resume") {
        let raw = str_or(&params, "session_id", "");
        let input = params.get_str("input");
        if uuid_parses(raw.as_str()) {
            KernelStep::Call(KernelCall::SessionResume { session_id: raw, input })
        } else {
            error_reply(id, -32002, "invalid session ID")
        }
    } else if str_eq(method, "kernel/proc/package/install-agent") {
        KernelStep::Call(KernelCall::InstallAgent { params })
    } else if str_eq(method, "kernel/proc/package/uninstall-agent") {
        KernelStep::Call(KernelCall::UninstallAgent { params })
    } else if str_eq(method, "kernel/proc/package/install-service") {
        KernelStep::Call(KernelCall::InstallService { params })
    } else if str_eq(method, "kernel/proc/package/uninstall-service") {
        KernelStep::Call(KernelCall::UninstallService { params })
    } else if str_eq(method, "kernel/sys/service-list") {
        KernelStep::Call(KernelCall::ServiceList)
    } else if str_eq(method, "kernel/sys/tool-list") {
        KernelStep::Call(KernelCall::ToolList)
    } else if str_eq(method, "kernel/signal/send") {
        let pid = match params.get_u64("pid") {
            Some(n) => n,
            None => 0,
        };
        if pid == 0 {
            return error_reply(id, -32602, "missing pid");
        }
        let signal = str_or(&params, "signal", "");
        if signal.as_str().is_empty() {
            return error_reply(id, -32602, "missing signal");
        }
        let mut params = params;
        let payload = take_or_null(&mut params, "payload");
        KernelStep::Call(KernelCall::SignalSend { pid, signal, payload })
    } else {
        let m = concat2("unknown kernel method: ", method);
        error_reply(id, -32601, m.as_str())
    }
}

/// `r` is a success for `id` carrying `v`.
pub open spec fn ok_response(r: JsonRpcResponse, id: Seq<char>, v: Json) -> bool {
    r.jsonrpc@ == "2.0"@ && r.id@ == id && r.error is None && r.result == Some(v)
}

/// The answer to a call whose value is sent back as is (`-32000` on error).
pub fn value_reply(id: &str, outcome: Result<Json, String>) -> (r: JsonRpcResponse)
    ensures
        match outcome {
            Ok(v) => ok_response(r, id@, v),
            Err(t) => error_response(r, id@, -32000, t@),
        },
{
    match outcome {
        Ok(v) => JsonRpcResponse::ok(id, v),
        Err(t) => JsonRpcResponse::err(id, -32000, t.as_str(), None),
    }
}

/// The answer to a call that only succeeds or fails: `{ ok: true }`, or `-32000`.
pub fn done_reply(id: &str, outcome: Result<(), String>) -> (r: JsonRpcResponse)
    ensures
        match outcome {
            Ok(_) => ok_flag_response(r, id@),
            Err(t) => error_response(r, id@, -32000, t@),
        },
{
    match outcome {
        Ok(_) => ok_flag(id),
        Err(t) => JsonRpcResponse::err(id, -32000, t.as_str(), None),
    }
}

/// The answer to `kill`: `{ ok: true }`, or `-32003` when the process
/// table refuses.
pub fn kill_reply(id: &str, outcome: Result<(), String>) -> (r: JsonRpcResponse)
    ensures
        match outcome {
            Ok(_) => ok_flag_response(r, id@),
            Err(t) => error_response(r, id@, -32003, t@),
        },
{
    match outcome {
        Ok(_) => ok_flag(id),
        Err(t) => JsonRpcResponse::err(id, -32003, t.as_str(), None),
    }
}

/// The answer to `spawn`: `{ pid, status: "running" }`, or `-32000`.
pub fn spawn_reply(id: &str, outcome: Result<u64, String>) -> (r: JsonRpcResponse)
    ensures
        match outcome {
            Ok(pid) => r.jsonrpc@ == "2.0"@ && r.id@ == id@ && r.error is None && (r.result matches Some(v)
                && get_u64_spec(v, "pid"@) == Some(pid) && get_str_spec(v, "status"@) == Some("running"@)
                && member_count(v) == 2),
            Err(t) => error_response(r, id@, -32000, t@),
        },
{
    match outcome {
        Ok(pid) => {
            let mut v = Json::empty_object();
            v.set("pid", Json::uint(pid));
            v.set("status", Json::string("running"));
            proof { reveal_strlit("pid"); reveal_strlit("status"); assert("pid"@.len() == 3); assert("status"@.len() == 6); }
            JsonRpcResponse::ok(id, v)
        },
        Err(t) => JsonRpcResponse::err(id, -32000, t.as_str(), None),
    }
}

/// The answer to resuming a session by a new invocation: `{ pid }`, or `-32000`.
pub fn resume_session_reply(id: &str, outcome: Result<u64, String>) -> (r: JsonRpcResponse)
    ensures
        match outcome {
            Ok(pid) => r.jsonrpc@ == "2.0"@ && r.id@ == id@ && r.error is None
                && (r.result matches Some(v) && get_u64_spec(v, "pid"@) == Some(pid) && member_count(v) == 1),
            Err(t) => error_response(r, id@, -32000, t@),
        },
{
    match outcome {
        Ok(pid) => {
            let mut v = Json::empty_object();
            v.set("pid", Json::uint(pid));
            JsonRpcResponse::ok(id, v)
        },
        Err(t) => JsonRpcResponse::err(id, -32000, t.as_str(), None),
    }
}

/// The message for a record `what` under `key` that does not exist.
pub open spec fn not_found_text(what: Seq<char>, key: Seq<char>) -> Seq<char> {
    what + " "@ + key + " not found"@
}

/// The answer to a lookup of record `what` under `key`: the record, `-32003`
/// when there is none, or `-32000`.
pub fn lookup_reply(id: &str, outcome: Result<Option<Json>, String>, what: &str, key: &str) -> (r: JsonRpcResponse)
    ensures
        match outcome {
            Ok(Some(v)) => ok_response(r, id@, v),
            Ok(None) => error_response(r, id@, -32003, not_found_text(what@, key@)),
            Err(t) => error_response(r, id@, -32000, t@),
        },
{
    match outcome {
        Ok(Some(v)) => JsonRpcResponse::ok(id, v),
        Ok(None) => {
            let m = concat3(what, " ", key);
            let m = concat2(m.as_str(), " not found");
            JsonRpcResponse::err(id, -32003, m.as_str(), None)
        },
        Err(t) => JsonRpcResponse::err(id, -32000, t.as_str(), None),
    }
}

/// The answer to a create whose body did not decode as a `what` record.
pub fn invalid_body_reply(id: &str, what: &str, detail: &str) -> (r: JsonRpcResponse)
    ensures
        error_response(r, id@, -32002, "invalid "@ + what@ + ": "@ + detail@),
{
    let m = concat3("invalid ", what, ": ");
    let m = concat2(m.as_str(), detail);
    JsonRpcResponse::err(id, -32002, m.as_str(), None)
}

/// The answer to `invocation-snapshot`: `{ success: true, record }`;
/// `-32003` for a missing invocation, `-32001` for one in the wrong state,
/// `-32000` otherwise. `text` is the error as reported.
pub fn snapshot_reply(id: &str, outcome: Result<Json, AvixError>, text: &str) -> (r: JsonRpcResponse)
    ensures
        match outcome {
            Ok(rec) => r.jsonrpc@ == "2.0"@ && r.id@ == id@ && r.error is None && (r.result matches Some(v)
                && get_bool_spec(v, "success"@) == Some(true) && json_get(v, "record"@) == Some(rec)
                && member_count(v) == 2),
            Err(AvixError::NotFound(_)) => error_response(r, id@, -32003, text@),
            Err(AvixError::InvalidInput(_)) => error_response(r, id@, -32001, text@),
            Err(_) => error_response(r, id@, -32000, text@),
        },
{
    match outcome {
        Ok(rec) => {
            let mut v = Json::empty_object();
            v.set("success", Json::Bool(true));
            v.set("record", rec);
            proof { reveal_strlit("success"); reveal_strlit("record"); assert("success"@.len() == 7); assert("record"@.len() == 6); }
            JsonRpcResponse::ok(id, v)
        },
        Err(AvixError::NotFound(_)) => JsonRpcResponse::err(id, -32003, text, None),
        Err(AvixError::InvalidInput(_)) => JsonRpcResponse::err(id, -32001, text, None),
        Err(_) => JsonRpcResponse::err(id, -32000, text, None),
    }
}

/// A process's run state in the process table.
#[derive(Clone, Copy, Debug, PartialEq, Eq, Structural)]
pub enum ProcessStatus {
    Running,
    Paused,
    Waiting,
    Stopped,
    Crashed,
    Pending,
}

/// The status's wire name.
pub open spec fn process_status_name(s: ProcessStatus) -> Seq<char> {
    match s {
        ProcessStatus::Running => "running"@,
        ProcessStatus::Paused => "paused"@,
        ProcessStatus::Waiting => "waiting"@,
        ProcessStatus::Stopped => "stopped"@,
        ProcessStatus::Crashed => "crashed"@,
        ProcessStatus::Pending => "pending"@,
    }
}

impl ProcessStatus {
    /// The status's wire name.
    pub fn name(&self) -> (s: String)
        ensures
            s@ == process_status_name(*self),
    {
        match self {
            ProcessStatus::Running => owned("running"),
            ProcessStatus::Paused => owned("paused"),
            ProcessStatus::Waiting => owned("waiting"),
            ProcessStatus::Stopped => owned("stopped"),
            ProcessStatus::Crashed => owned("crashed"),
            ProcessStatus::Pending => owned("pending"),
        }
    }
}

/// A process as a listing shows it.
#[derive(Debug)]
pub struct ActiveAgent {
    pub pid: u64,
    pub name: String,
    pub status: String,
    pub goal: String,
}

/// `j` shows `pid`, `name`, `status` and `goal`.
pub open spec fn agent_shown(j: Json, pid: u64, name: Seq<char>, status: Seq<char>, goal: Seq<char>) -> bool {
    &&& j is Object
    &&& get_u64_spec(j, "pid"@) == Some(pid)
    &&& get_str_spec(j, "name"@) == Some(name)
    &&& get_str_spec(j, "status"@) == Some(status)
    &&& get_str_spec(j, "goal"@) == Some(goal)
    &&& member_count(j) == 4
}

fn agent_json(pid: u64, name: &str, status: &str, goal: &str) -> (j: Json)
    ensures
        agent_shown(j, pid, name@, status@, goal@),
{
    proof {
        reveal_strlit("pid"); reveal_strlit("name"); reveal_strlit("status"); reveal_strlit("goal");
        assert("pid"@.len() == 3); assert("name"@.len() == 4); assert("status"@.len() == 6); assert("goal"@.len() == 4);
        assert("name"@[0] != "goal"@[0]);
    }
    let mut j = Json::empty_object();
    j.set("pid", Json::uint(pid));
    j.set("name", Json::string(name));
    j.set("status", Json::string(status));
    j.set("goal", Json::string(goal));
    j
}

/// The answer to `list`: each process as `{ pid, name, status, goal }`, or `-32000`.
pub fn list_reply(id: &str, outcome: Result<Vec<ActiveAgent>, String>) -> (r: JsonRpcResponse)
    ensures
        match outcome {
            Ok(agents) => r.jsonrpc@ == "2.0"@ && r.id@ == id@ && r.error is None && (r.result matches Some(Json::Array(v))
                && v@.len() == agents@.len()
                && forall|i: int| 0 <= i < v@.len() ==> agent_shown(#[trigger] v@[i], agents@[i].pid,
                    agents@[i].name@, agents@[i].status@, agents@[i].goal@)),
            Err(t) => error_response(r, id@, -32000, t@),
        },
{
    match outcome {
        Ok(agents) => {
            let mut out: Vec<Json> = Vec::new();
            let mut i: usize = 0;
            while i < agents.len()
                invariant
                    i <= agents@.len(),
                    out@.len() == i,
                    forall|k: int| 0 <= k < i ==> agent_shown(#[trigger] out@[k], agents@[k].pid,
                        agents@[k].name@, agents@[k].status@, agents@[k].goal@),
                decreases agents@.len() - i,
            {
                let a = &agents[i];
                out.push(agent_json(a.pid, a.name.as_str(), a.status.as_str(), a.goal.as_str()));
                i += 1;
            }
            JsonRpcResponse::ok(id, Json::Array(out))
        },
        Err(t) => JsonRpcResponse::err(id, -32000, t.as_str(), None),
    }
}

/// The answer to `stat`: the table entry as `{ pid, name, status, goal }`,
/// or `-32003` when the pid is unknown.
pub fn stat_reply(id: &str, pid: u64, entry: Option<(String, String, ProcessStatus)>) -> (r: JsonRpcResponse)
    ensures
        match entry {
            Some((name, goal, status)) => r.jsonrpc@ == "2.0"@ && r.id@ == id@ && r.error is None && (r.result matches Some(v)
                && agent_shown(v, pid, name@, process_status_name(status), goal@)),
            None => error_response(r, id@, -32003, "pid "@ + decimal(pid as nat) + " not found"@),
        },
{
    match entry {
        Some((name, goal, status)) => {
            let st = status.name();
            JsonRpcResponse::ok(id, agent_json(pid, name.as_str(), st.as_str(), goal.as_str()))
        },
        None => {
            let m = concat3("pid ", u64_to_decimal(pid).as_str(), " not found");
            JsonRpcResponse::err(id, -32003, m.as_str(), None)
        },
    }
}

/// What a session's record says about its processes.
#[derive(Debug)]
pub struct SessionView {
    pub owner_pid: u64,
    pub paused: bool,
    pub pids: Vec<u64>,
}

/// What follows the session lookup of `session/pause` or `session/resume`.
#[derive(Debug)]
pub enum SessionNext {
    Reply(JsonRpcResponse),
    /// Pause the session's owner process (the pause reaches its other processes).
    PauseOwner(u64),
    /// Send each of these processes `SIGRESUME`, then answer `{ ok: true }`.
    ResumeAll(Vec<u64>),
    /// Resume the session by a new invocation.
    ResumeSession,
}

/// After looking up the session of `session/pause`: pause its owner; or
/// `-32001` when it has none, `-32003` when there is no such session,
/// `-32000` when the lookup failed.
pub fn session_pause_next(id: &str, session_id: &str, found: Result<Option<SessionView>, String>) -> (n: SessionNext)
    ensures
        match found {
            Ok(Some(s)) => if s.owner_pid != 0 {
                n == SessionNext::PauseOwner(s.owner_pid)
            } else {
                n matches SessionNext::Reply(r) && error_response(r, id@, -32001, "session has no active owner pid"@)
            },
            Ok(None) => n matches SessionNext::Reply(r)
                && error_response(r, id@, -32003, not_found_text("session"@, session_id@)),
            Err(t) => n matches SessionNext::Reply(r) && error_response(r, id@, -32000, t@),
        },
{
    match found {
        Ok(Some(s)) => {
            if s.owner_pid != 0 {
                SessionNext::PauseOwner(s.owner_pid)
            } else {
                SessionNext::Reply(JsonRpcResponse::err(id, -32001, "session has no active owner pid", None))
            }
        },
        Ok(None) => {
            let m = concat3("session", " ", session_id);
            let m = concat2(m.as_str(), " not found");
            SessionNext::Reply(JsonRpcResponse::err(id, -32003, m.as_str(), None))
        },
        Err(t) => SessionNext::Reply(JsonRpcResponse::err(id, -32000, t.as_str(), None)),
    }
}

/// After looking up the session of `session/resume`: a paused session with
/// processes has each of them resumed; any other outcome (including a
/// failed or empty lookup) resumes the session by a new invocation.
pub fn session_resume_next(found: Result<Option<SessionView>, String>) -> (n: SessionNext)
    ensures
        match found {
            Ok(Some(s)) => if s.paused && s.pids@.len() > 0 {
                n matches SessionNext::ResumeAll(p) && p@ == s.pids@
            } else {
                n is ResumeSession
            },
            _ => n is ResumeSession,
        },
{
    match found {
        Ok(Some(s)) => {
            if s.paused && s.pids.len() > 0 {
                SessionNext::ResumeAll(s.pids)
            } else {
                SessionNext::ResumeSession
            }
        },
        _ => SessionNext::ResumeSession,
    }
}

/// Each process verb is carried out as that verb, on the pid the request
/// names: `kernel/proc/pause` pauses, `kernel/proc/resume` resumes,
/// `kernel/proc/kill` kills and `kernel/proc/stat` reports, never another.
pub proof fn law_proc_verbs_route_to_their_call(id: Seq<char>, params: Json, step: KernelStep)
    ensures
        kernel_plan(id, "kernel/proc/pause"@, params, step) ==> (step matches KernelStep::Call(KernelCall::Pause { pid })
            && pid == pid_param(params)),
        kernel_plan(id, "kernel/proc/resume"@, params, step) ==> (step matches KernelStep::Call(KernelCall::Resume { pid })
            && pid == pid_param(params)),
        kernel_plan(id, "kernel/proc/kill"@, params, step) ==> (step matches KernelStep::Call(KernelCall::Kill { pid })
            && pid == pid_param(params)),
        kernel_plan(id, "kernel/proc/stat"@, params, step) ==> (step matches KernelStep::Call(KernelCall::Stat { pid })
            && pid == pid_param(params)),
{
    reveal_strlit("kernel/proc/spawn");
    reveal_strlit("kernel/proc/list");
    reveal_strlit("kernel/proc/kill");
    reveal_strlit("kernel/proc/stat");
    reveal_strlit("kernel/proc/pause");
    reveal_strlit("kernel/proc/resume");
    assert("kernel/proc/spawn"@.len() == 17 && "kernel/proc/pause"@.len() == 17);
    assert("kernel/proc/list"@.len() == 16 && "kernel/proc/resume"@.len() == 18);
    assert("kernel/proc/pause"@[12] != "kernel/proc/spawn"@[12]);
    assert("kernel/proc/kill"@[12] != "kernel/proc/list"@[12]);
    assert("kernel/proc/stat"@[12] != "kernel/proc/list"@[12]);
    assert("kernel/proc/stat"@[12] != "kernel/proc/kill"@[12]);
}

} // verus!
