//! Domain handlers: for each validated command, decide whether to answer
//! directly, forward to a kernel IPC method (and with which parameters), or
//! hand off to a stateful service. The IPC call itself is made by the caller.

use vstd::prelude::*;
use crate::atp::{AtpDomain, AtpError, AtpErrorCode, AtpReply};
use crate::ids::new_uuid_v4;
use crate::ipc_message::{IpcClient, JsonRpcRequest, JsonRpcResponse};
use crate::json::{Json, JsonNumber, json_get, get_str_spec, get_bool_spec, object, member_count};
use crate::text::{owned, str_eq, starts_with, contains, concat2, concat3, chars_of, string_of, seq_contains};
use crate::types::{Role, role_at_least, role_name};
use crate::validator::ValidatedCmd;
use crate::error::{AvixError, error_text_spec};
use crate::hil::{HilManager, HilAnswered, resolve_outcome, law_second_answer_refused};

verus! {

/// What a handler decided for one command.
#[derive(Debug)]
pub enum HandlerPlan {
    /// Answer the client directly.
    Reply(AtpReply),
    /// Call kernel IPC `method` with `params` and relay the outcome.
    Forward { method: String, params: Json },
    /// Re-issue the caller's token.
    Refresh,
    /// Revoke the caller's session.
    Logout,
    /// Resolve a human-in-the-loop request with an approval token.
    ResolveHil { hil_id: String, approval_token: String, decision: String, payload: Json },
    /// Deliver a `SIGPIPE` whose payload still has to be checked.
    SigPipe { pid: Json, payload: Json },
}

/// The reply for an operation the domain does not know.
pub open spec fn unknown_op_message(op: Seq<char>) -> Seq<char> {
    "unknown op '"@ + op + "'"@
}

/// An `EPARSE` reply naming the unknown operation.
pub fn unknown_op(id: &str, op: &str) -> (r: AtpReply)
    ensures
        r.id@ == id@,
        !r.ok,
        r.error matches Some(e) && e.code == AtpErrorCode::Eparse && e.message@ == unknown_op_message(op@),
{
    let m = concat3("unknown op '", op, "'");
    AtpReply::err(id, AtpError::new(AtpErrorCode::Eparse, m.as_str()))
}

/// The error code a kernel IPC error maps to.
pub open spec fn ipc_code_to_atp_spec(msg: Seq<char>, code: i32) -> AtpErrorCode {
    if code == -32003 {
        AtpErrorCode::Enotfound
    } else if code == -32002 {
        AtpErrorCode::Eperm
    } else if seq_contains(msg, "not found"@) || seq_contains(msg, "ENOENT"@) {
        AtpErrorCode::Enotfound
    } else if seq_contains(msg, "permission"@) || seq_contains(msg, "EPERM"@) {
        AtpErrorCode::Eperm
    } else if seq_contains(msg, "conflict"@) || seq_contains(msg, "ECONFLICT"@) {
        AtpErrorCode::Econflict
    } else if seq_contains(msg, "unavailable"@) || seq_contains(msg, "EUNAVAIL"@) {
        AtpErrorCode::Eunavail
    } else {
        AtpErrorCode::Einternal
    }
}

/// Map a kernel IPC error (message and JSON-RPC code) to a protocol code.
pub fn ipc_code_to_atp(msg: &str, code: i32) -> (c: AtpErrorCode)
    ensures
        c == ipc_code_to_atp_spec(msg@, code),
{
    if code == -32003 {
        AtpErrorCode::Enotfound
    } else if code == -32002 {
        AtpErrorCode::Eperm
    } else if contains(msg, "not found") || contains(msg, "ENOENT") {
        AtpErrorCode::Enotfound
    } else if contains(msg, "permission") || contains(msg, "EPERM") {
        AtpErrorCode::Eperm
    } else if contains(msg, "conflict") || contains(msg, "ECONFLICT") {
        AtpErrorCode::Econflict
    } else if contains(msg, "unavailable") || contains(msg, "EUNAVAIL") {
        AtpErrorCode::Eunavail
    } else {
        AtpErrorCode::Einternal
    }
}

/// A kernel error raised by a stateful service, as reported to the client:
/// a consumed approval token is `EUSED`, anything else `EINTERNAL`.
pub fn service_error_to_atp(msg: &str) -> (e: AtpError)
    ensures
        seq_contains(msg@, "EUSED"@) ==> e.code == AtpErrorCode::Eused
            && e.message@ == "approval token already consumed"@,
        !seq_contains(msg@, "EUSED"@) ==> e.code == AtpErrorCode::Einternal && e.message@ == msg@,
        e.detail is None,
{
    if contains(msg, "EUSED") {
        AtpError::new(AtpErrorCode::Eused, "approval token already consumed")
    } else {
        AtpError::new(AtpErrorCode::Einternal, msg)
    }
}

/// `e` is how a kernel error with text `msg` is reported (see
/// `service_error_to_atp`).
pub open spec fn service_error_is(msg: Seq<char>, e: AtpError) -> bool {
    &&& e.detail is None
    &&& seq_contains(msg, "EUSED"@) ==> e.code == AtpErrorCode::Eused
        && e.message@ == "approval token already consumed"@
    &&& !seq_contains(msg, "EUSED"@) ==> e.code == AtpErrorCode::Einternal && e.message@ == msg
}

/// `r` answers request `id` for a `SIGRESUME` carrying an approval token,
/// given what the human-in-the-loop manager made of it: `None` when no
/// manager is configured (`EUNAVAIL`), the text of the error a refused
/// resolution raised, or success (`{ ok: true }`).
pub open spec fn hil_reply(id: Seq<char>, answered: Option<Result<(), Seq<char>>>, r: AtpReply) -> bool {
    &&& r.id@ == id
    &&& r.msg_type@ == "reply"@
    &&& match answered {
        None => !r.ok && r.body is None && (r.error matches Some(e) && e.code == AtpErrorCode::Eunavail
            && e.message@ == "HIL manager not configured"@ && e.detail is None),
        Some(Ok(())) => r.ok && r.error is None && (r.body matches Some(b)
            && get_bool_spec(b, "ok"@) == Some(true) && member_count(b) == 1),
        Some(Err(t)) => !r.ok && r.body is None && (r.error matches Some(e) && service_error_is(t, e)),
    }
}

/// The answer to a `SIGRESUME` carrying an approval token (see `hil_reply`).
pub fn hil_resolution_reply(id: &str, answered: Option<Result<(), String>>) -> (r: AtpReply)
    ensures
        hil_reply(id@, match answered {
            None => None,
            Some(Ok(())) => Some(Ok(())),
            Some(Err(t)) => Some(Err(t@)),
        }, r),
{
    match answered {
        None => AtpReply::err(id, AtpError::new(AtpErrorCode::Eunavail, "HIL manager not configured")),
        Some(Ok(())) => {
            let es = vec![(owned("ok"), Json::Bool(true))];
            let b = object(es);
            proof { assert(json_get(b, es@[0].0@) == Some(es@[0].1)); }
            AtpReply::ok(id, b)
        },
        Some(Err(t)) => AtpReply::err(id, service_error_to_atp(t.as_str())),
    }
}

/// An approval answers a request once: after a `SIGRESUME` with an
/// approval token was accepted, a second one presenting the same token is
/// answered `EUSED`, and leaves the open requests as they were.
pub proof fn law_second_resume_answered_used(
    m0: HilManager, m1: HilManager, m2: HilManager,
    id1: Seq<char>, id2: Seq<char>, token: Seq<char>, d1: Seq<char>, d2: Seq<char>,
    by1: Seq<char>, by2: Seq<char>, p1: Json, p2: Json,
    r1: Result<HilAnswered, AvixError>, r2: Result<HilAnswered, AvixError>,
    cmd_id: Seq<char>, reply1: AtpReply, reply2: AtpReply,
)
    requires
        resolve_outcome(m0, m1, id1, token, d1, by1, p1, r1),
        r1 is Ok,
        hil_reply(cmd_id, Some(Ok(())), reply1),
        resolve_outcome(m1, m2, id2, token, d2, by2, p2, r2),
        hil_reply(cmd_id, Some(match r2 { Ok(_) => Ok(()), Err(e) => Err(error_text_spec(e)) }), reply2),
    ensures
        reply1.ok,
        !reply2.ok && (reply2.error matches Some(e) && e.code == AtpErrorCode::Eused
            && e.message@ == "approval token already consumed"@),
        m2.pending() == m1.pending(),
{
    law_second_answer_refused(m0, m1, m2, id1, id2, token, d1, d2, by1, by2, p1, p2, r1, r2);
    reveal_strlit("EUSED: token already used");
    reveal_strlit("EUSED");
    let t = "EUSED: token already used"@;
    assert("EUSED"@.len() == 5);
    assert(t.subrange(0, 0 + "EUSED"@.len() as int) =~= "EUSED"@);
    assert(seq_contains(t, "EUSED"@));
}

/// What a kernel call answers the handler: the transport failure (`Err`
/// with its text) is `EUNAVAIL`; a JSON-RPC error keeps its message under
/// the code `ipc_code_to_atp` gives; a success its result, or `null`.
pub open spec fn call_outcome_spec(resp: Result<JsonRpcResponse, String>, r: Result<Json, AtpError>) -> bool {
    match resp {
        Err(t) => r matches Err(e) && e.code == AtpErrorCode::Eunavail && e.message@ == t@ && e.detail is None,
        Ok(x) => match x.error {
            Some(err) => r matches Err(e) && e.code == ipc_code_to_atp_spec(err.message@, err.code)
                && e.message@ == err.message@ && e.detail is None,
            None => r == Ok::<Json, AtpError>(match x.result {
                Some(v) => v,
                None => Json::Null,
            }),
        },
    }
}

/// Turn the outcome of a kernel call into the handler's result.
pub fn call_outcome(resp: Result<JsonRpcResponse, String>) -> (r: Result<Json, AtpError>)
    ensures
        call_outcome_spec(resp, r),
{
    match resp {
        Err(t) => Err(AtpError::new(AtpErrorCode::Eunavail, t.as_str())),
        Ok(x) => match x.error {
            Some(err) => {
                let code = ipc_code_to_atp(err.message.as_str(), err.code);
                Err(AtpError::new(code, err.message.as_str()))
            },
            None => match x.result {
                Some(v) => Ok(v),
                None => Ok(Json::Null),
            },
        },
    }
}

/// The kernel reached over its socket, one fresh connection per call.
pub struct LiveIpcRouter {
    client: IpcClient,
}

impl LiveIpcRouter {
    /// The client calls go through.
    pub closed spec fn client_spec(&self) -> IpcClient {
        self.client
    }

    /// A router making its calls through `client`.
    pub fn new(client: IpcClient) -> (r: LiveIpcRouter)
        ensures
            r.client_spec() == client,
    {
        LiveIpcRouter { client }
    }

    /// The client calls go through.
    pub fn client(&self) -> (c: &IpcClient)
        ensures
            *c == self.client_spec(),
    {
        &self.client
    }

    /// The JSON-RPC request for a call of `method` with `params`, under a
    /// fresh UUID id.
    pub fn request(&self, method: &str, params: Json) -> (req: JsonRpcRequest)
        ensures
            req.jsonrpc@ == "2.0"@,
            req.method@ == method@,
            req.params == params,
            req.id@.len() == 36,
    {
        JsonRpcRequest { jsonrpc: owned("2.0"), id: new_uuid_v4(), method: owned(method), params }
    }
}

/// The router used when no kernel socket is configured.
pub struct NullIpcRouter;

impl NullIpcRouter {
    /// Every call is answered `EUNAVAIL`.
    pub fn call(&self, _method: &str, _params: Json) -> (r: Result<Json, AtpError>)
        ensures
            r matches Err(e) && e.code == AtpErrorCode::Eunavail && e.message@ == "kernel IPC not configured"@,
    {
        Err(AtpError::new(AtpErrorCode::Eunavail, "kernel IPC not configured"))
    }
}

/// `op` is one of `ops`.
pub open spec fn one_of(op: Seq<char>, ops: Seq<Seq<char>>) -> bool {
    exists|i: int| 0 <= i < ops.len() && #[trigger] ops[i] == op
}

fn is_one_of(op: &str, ops: &[&str]) -> (b: bool)
    ensures
        b == one_of(op@, ops@.map_values(|s: &str| s@)),
{
    let ghost views = ops@.map_values(|s: &str| s@);
    let mut i: usize = 0;
    while i < ops.len()
        invariant
            i <= ops@.len(),
            views == ops@.map_values(|s: &str| s@),
            forall|j: int| 0 <= j < i ==> views[j] != op@,
        decreases ops@.len() - i,
    {
        if str_eq(ops[i], op) {
            assert(views[i as int] == op@);
            return true;
        }
        i += 1;
    }
    false
}

/// Forward `body` unchanged to `prefix + op`.
pub open spec fn forwards_to(plan: HandlerPlan, method: Seq<char>, body: Json) -> bool {
    plan matches HandlerPlan::Forward { method: m, params } && m@ == method && params == body
}

/// The plan is the unknown-op reply for `id`/`op`.
pub open spec fn is_unknown_op(plan: HandlerPlan, id: Seq<char>, op: Seq<char>) -> bool {
    plan matches HandlerPlan::Reply(r) && r.id@ == id && !r.ok
        && (r.error matches Some(e) && e.code == AtpErrorCode::Eparse && e.message@ == unknown_op_message(op))
}

/// The plan is an error reply for `id` with `code` and `message`.
pub open spec fn is_error_reply(plan: HandlerPlan, id: Seq<char>, code: AtpErrorCode, message: Seq<char>) -> bool {
    plan matches HandlerPlan::Reply(r) && r.id@ == id && !r.ok
        && (r.error matches Some(e) && e.code == code && e.message@ == message)
}

fn forward(method: String, params: Json) -> (p: HandlerPlan)
    ensures
        p == (HandlerPlan::Forward { method, params }),
{
    HandlerPlan::Forward { method, params }
}

/// What the `cap` domain decides for `cmd`.
pub open spec fn cap_planned(cmd: ValidatedCmd, p: HandlerPlan) -> bool {
    &&& ({
        let op = cmd.cmd.op@;
        if op == "inspect"@ || op == "grant"@ || op == "revoke"@ {
            forwards_to(p, "kernel/cap/"@ + op, cmd.cmd.body)
        } else if op == "policy/get"@ {
            forwards_to(p, "kernel/cap/policy_get"@, cmd.cmd.body)
        } else if op == "policy/set"@ {
            forwards_to(p, "kernel/cap/policy_set"@, cmd.cmd.body)
        } else {
            is_unknown_op(p, cmd.cmd.id@, op)
        }
    })
}

/// The `cap` domain.
pub fn plan_cap(cmd: ValidatedCmd) -> (p: HandlerPlan)
    ensures
        cap_planned(cmd, p),
{
    let op = cmd.cmd.op.as_str();
    if str_eq(op, "inspect") || str_eq(op, "grant") || str_eq(op, "revoke") {
        forward(concat2("kernel/cap/", op), cmd.cmd.body)
    } else if str_eq(op, "policy/get") {
        forward(owned("kernel/cap/policy_get"), cmd.cmd.body)
    } else if str_eq(op, "policy/set") {
        forward(owned("kernel/cap/policy_set"), cmd.cmd.body)
    } else {
        HandlerPlan::Reply(unknown_op(cmd.cmd.id.as_str(), op))
    }
}

/// What the `cron` domain decides for `cmd`.
pub open spec fn cron_planned(cmd: ValidatedCmd, p: HandlerPlan) -> bool {
    &&& ({
        let op = cmd.cmd.op@;
        if op == "list"@ || op == "add"@ || op == "remove"@ || op == "pause"@ || op == "resume"@ {
            forwards_to(p, "kernel/cron/"@ + op, cmd.cmd.body)
        } else {
            is_unknown_op(p, cmd.cmd.id@, op)
        }
    })
}

/// The `cron` domain.
pub fn plan_cron(cmd: ValidatedCmd) -> (p: HandlerPlan)
    ensures
        cron_planned(cmd, p),
{
    let op = cmd.cmd.op.as_str();
    if str_eq(op, "list") || str_eq(op, "add") || str_eq(op, "remove") || str_eq(op, "pause") || str_eq(op, "resume") {
        forward(concat2("kernel/cron/", op), cmd.cmd.body)
    } else {
        HandlerPlan::Reply(unknown_op(cmd.cmd.id.as_str(), op))
    }
}

/// What the `snap` domain decides for `cmd`.
pub open spec fn snap_planned(cmd: ValidatedCmd, p: HandlerPlan) -> bool {
    &&& ({
        let op = cmd.cmd.op@;
        if op == "create"@ || op == "list"@ || op == "restore"@ || op == "delete"@ {
            forwards_to(p, "kernel/snap/"@ + op, cmd.cmd.body)
        } else {
            is_unknown_op(p, cmd.cmd.id@, op)
        }
    })
}

/// The `snap` domain.
pub fn plan_snap(cmd: ValidatedCmd) -> (p: HandlerPlan)
    ensures
        snap_planned(cmd, p),
{
    let op = cmd.cmd.op.as_str();
    if str_eq(op, "create") || str_eq(op, "list") || str_eq(op, "restore") || str_eq(op, "delete") {
        forward(concat2("kernel/snap/", op), cmd.cmd.body)
    } else {
        HandlerPlan::Reply(unknown_op(cmd.cmd.id.as_str(), op))
    }
}

/// What the `session` domain decides for `cmd`.
pub open spec fn session_planned(cmd: ValidatedCmd, p: HandlerPlan) -> bool {
    &&& cmd.cmd.op@ == "ready"@ ==> (p matches HandlerPlan::Reply(r) && r.ok && r.id@ == cmd.cmd.id@
        && (r.body matches Some(Json::Str(s)) && s@ == "ack"@))
    &&& cmd.cmd.op@ != "ready"@ ==> is_unknown_op(p, cmd.cmd.id@, cmd.cmd.op@)
}

/// The `session` domain: `ready` is acknowledged directly.
pub fn plan_session(cmd: ValidatedCmd) -> (p: HandlerPlan)
    ensures
        session_planned(cmd, p),
{
    let op = cmd.cmd.op.as_str();
    if str_eq(op, "ready") {
        HandlerPlan::Reply(AtpReply::ok(cmd.cmd.id.as_str(), Json::string("ack")))
    } else {
        HandlerPlan::Reply(unknown_op(cmd.cmd.id.as_str(), op))
    }
}

/// The filesystem message for a read under `/secrets/`.
pub open spec fn secrets_read_message() -> Seq<char> {
    "reads from '/secrets/' are forbidden"@
}

/// What the `fs` domain decides for `cmd`.
pub open spec fn fs_planned(cmd: ValidatedCmd, p: HandlerPlan) -> bool {
    &&& ({
        let op = cmd.cmd.op@;
        let secret_read = (op == "read"@ || op == "stat"@ || op == "watch"@)
            && (get_str_spec(cmd.cmd.body, "path"@) matches Some(path) && "/secrets/"@.is_prefix_of(path));
        if secret_read {
            is_error_reply(p, cmd.cmd.id@, AtpErrorCode::Eperm, secrets_read_message())
        } else if op == "read"@ || op == "write"@ || op == "list"@ || op == "stat"@
            || op == "watch"@ || op == "unwatch"@ {
            forwards_to(p, "kernel/fs/"@ + op, cmd.cmd.body)
        } else {
            is_unknown_op(p, cmd.cmd.id@, op)
        }
    })
}

/// The `fs` domain: reads, stats and watches under `/secrets/` are refused
/// here; known operations are forwarded to `kernel/fs/<op>`.
pub fn plan_fs(cmd: ValidatedCmd) -> (p: HandlerPlan)
    ensures
        fs_planned(cmd, p),
{
    let op = cmd.cmd.op.as_str();
    if str_eq(op, "read") || str_eq(op, "stat") || str_eq(op, "watch") {
        match cmd.cmd.body.get_str("path") {
            Some(path) => {
                if starts_with(path.as_str(), "/secrets/") {
                    return HandlerPlan::Reply(AtpReply::err(
                        cmd.cmd.id.as_str(),
                        AtpError::new(AtpErrorCode::Eperm, "reads from '/secrets/' are forbidden"),
                    ));
                }
            },
            None => {},
        }
    }
    if str_eq(op, "read") || str_eq(op, "write") || str_eq(op, "list") || str_eq(op, "stat")
        || str_eq(op, "watch") || str_eq(op, "unwatch") {
        forward(concat2("kernel/fs/", op), cmd.cmd.body)
    } else {
        HandlerPlan::Reply(unknown_op(cmd.cmd.id.as_str(), op))
    }
}

/// The message of a refused foreign user lookup.
pub open spec fn foreign_user_message(caller: Seq<char>, requested: Seq<char>) -> Seq<char> {
    "'"@ + caller + "' may not fetch user '"@ + requested + "'"@
}

/// What the `users` domain decides for `cmd`.
pub open spec fn users_planned(cmd: ValidatedCmd, p: HandlerPlan) -> bool {
    &&& ({
        let op = cmd.cmd.op@;
        if op == "get"@ {
            match get_str_spec(cmd.cmd.body, "username"@) {
                Some(req) if !role_at_least(cmd.caller_role, Role::Operator) && req != cmd.caller_identity@ =>
                    is_error_reply(p, cmd.cmd.id@, AtpErrorCode::Eperm,
                        foreign_user_message(cmd.caller_identity@, req)),
                _ => forwards_to(p, "kernel/users/get"@, cmd.cmd.body),
            }
        } else if op == "list"@ || op == "create"@ || op == "update"@ || op == "delete"@ || op == "passwd"@ {
            forwards_to(p, "kernel/users/"@ + op, cmd.cmd.body)
        } else {
            is_unknown_op(p, cmd.cmd.id@, op)
        }
    })
}

/// The `users` domain: below `Operator`, `get` may only name the caller.
pub fn plan_users(cmd: ValidatedCmd) -> (p: HandlerPlan)
    ensures
        users_planned(cmd, p),
{
    let op = cmd.cmd.op.as_str();
    if str_eq(op, "get") {
        if !cmd.caller_role.at_least(Role::Operator) {
            match cmd.cmd.body.get_str("username") {
                Some(requested) => {
                    if !str_eq(requested.as_str(), cmd.caller_identity.as_str()) {
                        let mut m = owned("'");
                        m.append(cmd.caller_identity.as_str());
                        m.append("' may not fetch user '");
                        m.append(requested.as_str());
                        m.append("'");
                        return HandlerPlan::Reply(AtpReply::err(
                            cmd.cmd.id.as_str(),
                            AtpError::new(AtpErrorCode::Eperm, m.as_str()),
                        ));
                    }
                },
                None => {},
            }
        }
        forward(owned("kernel/users/get"), cmd.cmd.body)
    } else if str_eq(op, "list") || str_eq(op, "create") || str_eq(op, "update") || str_eq(op, "delete")
        || str_eq(op, "passwd") {
        forward(concat2("kernel/users/", op), cmd.cmd.body)
    } else {
        HandlerPlan::Reply(unknown_op(cmd.cmd.id.as_str(), op))
    }
}

/// What the `auth` domain decides for `cmd`.
pub open spec fn auth_planned(cmd: ValidatedCmd, p: HandlerPlan) -> bool {
    &&& ({
        let op = cmd.cmd.op@;
        if op == "whoami"@ {
            p matches HandlerPlan::Reply(r) && r.ok && r.id@ == cmd.cmd.id@
                && (r.body matches Some(b)
                    && get_str_spec(b, "identity"@) == Some(cmd.caller_identity@)
                    && get_str_spec(b, "role"@) == Some(role_name(cmd.caller_role))
                    && get_str_spec(b, "sessionId"@) == Some(cmd.caller_session_id@)
                    && member_count(b) == 3)
        } else if op == "refresh"@ {
            p is Refresh
        } else if op == "logout"@ {
            p is Logout
        } else if op == "sessions"@ || op == "kick"@ {
            forwards_to(p, "kernel/auth/"@ + op, cmd.cmd.body)
        } else {
            is_unknown_op(p, cmd.cmd.id@, op)
        }
    })
}

/// The `auth` domain.
pub fn plan_auth(cmd: ValidatedCmd) -> (p: HandlerPlan)
    ensures
        auth_planned(cmd, p),
{
    let op = cmd.cmd.op.as_str();
    if str_eq(op, "whoami") {
        let es = vec![
            (owned("identity"), Json::Str(cmd.caller_identity.clone())),
            (owned("role"), Json::Str(cmd.caller_role.name())),
            (owned("sessionId"), Json::Str(cmd.caller_session_id.clone())),
        ];
        proof {
            reveal_strlit("identity"); reveal_strlit("role"); reveal_strlit("sessionId");
            assert("identity"@.len() == 8); assert("role"@.len() == 4); assert("sessionId"@.len() == 9);
        }
        let body = object(es);
        proof {
            assert(json_get(body, es@[0].0@) == Some(es@[0].1));
            assert(json_get(body, es@[1].0@) == Some(es@[1].1));
            assert(json_get(body, es@[2].0@) == Some(es@[2].1));
        }
        HandlerPlan::Reply(AtpReply::ok(cmd.cmd.id.as_str(), body))
    } else if str_eq(op, "refresh") {
        HandlerPlan::Refresh
    } else if str_eq(op, "logout") {
        HandlerPlan::Logout
    } else if str_eq(op, "sessions") || str_eq(op, "kick") {
        forward(concat2("kernel/auth/", op), cmd.cmd.body)
    } else {
        HandlerPlan::Reply(unknown_op(cmd.cmd.id.as_str(), op))
    }
}

/// Every `-` of `s` turned into `/`.
pub open spec fn dashes_to_slashes(s: Seq<char>) -> Seq<char> {
    s.map_values(|c: char| if c == '-' { '/' } else { c })
}

fn replace_dashes(s: &str) -> (r: String)
    ensures
        r@ == dashes_to_slashes(s@),
{
    let v = chars_of(s);
    let mut out: Vec<char> = Vec::new();
    let mut i: usize = 0;
    while i < v.len()
        invariant
            i <= v@.len(),
            out@ == dashes_to_slashes(v@.take(i as int)),
        decreases v@.len() - i,
    {
        let c = v[i];
        out.push(if c == '-' { '/' } else { c });
        assert(dashes_to_slashes(v@.take(i + 1)) =~= dashes_to_slashes(v@.take(i as int)).push(
            if c == '-' { '/' } else { c }));
        i += 1;
    }
    assert(v@.take(v@.len() as int) =~= v@);
    string_of(out.as_slice())
}

/// The `proc` operations forwarded unchanged to `kernel/proc/<op>`.
pub open spec fn proc_plain_op(op: Seq<char>) -> bool {
    op == "kill"@ || op == "list"@ || op == "stat"@ || op == "pause"@ || op == "resume"@
        || op == "wait"@ || op == "setcap"@ || op == "invocation-get"@
        || op == "invocation-conversation"@ || op == "invocation-snapshot"@
        || op == "message-create"@ || op == "message-get"@ || op == "message-list"@
        || op == "part-create"@ || op == "part-get"@ || op == "part-list"@
}

/// The `proc` package operations.
pub open spec fn proc_package_op(op: Seq<char>) -> bool {
    op == "package/install-agent"@ || op == "package/uninstall-agent"@
        || op == "package/install-service"@ || op == "package/uninstall-service"@
}

/// The operations whose body the `proc` handler writes into.
pub open spec fn proc_fills_body(op: Seq<char>) -> bool {
    op == "list-installed"@ || op == "invocation-list"@ || op == "spawn"@
        || op == "session-list"@ || op == "session-get"@ || op == "session-resume"@
        || proc_package_op(op)
}

/// `key` reads as a non-empty string in `body`.
pub open spec fn has_nonempty_str(body: Json, key: Seq<char>) -> bool {
    get_str_spec(body, key) matches Some(s) && s.len() > 0
}

/// `after` equals `before` with `key` set to `val` when the test holds, on
/// every key.
pub open spec fn filled(before: Json, after: Json, key: Seq<char>, val: Json, fill: bool) -> bool {
    &&& fill ==> json_get(after, key) == Some(val)
    &&& !fill ==> json_get(after, key) == json_get(before, key)
    &&& forall|k: Seq<char>| k != key ==> json_get(after, k) == json_get(before, k)
}

fn fill_username(body: Json, who: &String) -> (r: Json)
    requires
        body is Null || body is Object,
    ensures
        r is Null || r is Object,
        !has_nonempty_str(body, "username"@) ==> (r is Object
            && (json_get(r, "username"@) matches Some(Json::Str(s)) && s@ == who@)),
        has_nonempty_str(body, "username"@) ==> r == body,
        forall|k: Seq<char>| k != "username"@ ==> json_get(r, k) == json_get(body, k),
{
    let mut body = body;
    let keep = match body.get_str("username") {
        Some(u) => !u.as_str().is_empty(),
        None => false,
    };
    proof {
        if keep {
            assert(get_str_spec(body, "username"@) matches Some(s) && s.len() > 0);
        }
    }
    if !keep {
        body.set("username", Json::Str(who.clone()));
    }
    body
}

/// What the `proc` domain decides for `cmd`.
pub open spec fn proc_planned(cmd: ValidatedCmd, p: HandlerPlan) -> bool {
    &&& ({
        let op = cmd.cmd.op@;
        let body = cmd.cmd.body;
        let who = cmd.caller_identity@;
        if op == "list-installed"@ || op == "invocation-list"@ {
            p matches HandlerPlan::Forward { method, params } && method@ == "kernel/proc/"@ + op
                && (has_nonempty_str(body, "username"@) ==> params == body)
                && (!has_nonempty_str(body, "username"@) ==> get_str_spec(params, "username"@) == Some(who))
                && forall|k: Seq<char>| k != "username"@ ==> json_get(params, k) == json_get(body, k)
        } else if op == "spawn"@ {
            p matches HandlerPlan::Forward { method, params } && method@ == "kernel/proc/spawn"@
                && (has_nonempty_str(body, "caller"@) ==> json_get(params, "caller"@) == json_get(body, "caller"@))
                && (!has_nonempty_str(body, "caller"@) ==> get_str_spec(params, "caller"@) == Some(who))
                && (json_get(body, "session_id"@) is Some ==> json_get(params, "session_id"@) == json_get(body, "session_id"@))
                && (json_get(body, "session_id"@) is None ==> (get_str_spec(params, "session_id"@) matches Some(e) && e.len() == 0))
                && get_str_spec(params, "atp_session_id"@) == Some(cmd.caller_session_id@)
                && forall|k: Seq<char>| k != "caller"@ && k != "session_id"@ && k != "atp_session_id"@
                    ==> json_get(params, k) == json_get(body, k)
        } else if proc_plain_op(op) {
            forwards_to(p, "kernel/proc/"@ + op, body)
        } else if op == "session-list"@ || op == "session-get"@ || op == "session-resume"@ {
            p matches HandlerPlan::Forward { method, params } && method@ == "kernel/proc/"@ + dashes_to_slashes(op)
                && (has_nonempty_str(body, "username"@) ==> params == body)
                && (!has_nonempty_str(body, "username"@) ==> get_str_spec(params, "username"@) == Some(who))
                && forall|k: Seq<char>| k != "username"@ ==> json_get(params, k) == json_get(body, k)
        } else if proc_package_op(op) {
            p matches HandlerPlan::Forward { method, params } && method@ == "kernel/proc/"@ + op
                && get_str_spec(params, "caller_identity"@) == Some(who)
                && forall|k: Seq<char>| k != "caller_identity"@ ==> json_get(params, k) == json_get(body, k)
        } else {
            is_unknown_op(p, cmd.cmd.id@, op)
        }
    })
}

/// The `proc` domain. Caller details are filled into the body: the
/// caller's name as `username` (listing and session operations, when not
/// given), as `caller` and `atp_session_id` for `spawn` (with an empty
/// `session_id` when none is given), and as `caller_identity` for package
/// operations.
pub fn plan_proc(cmd: ValidatedCmd) -> (p: HandlerPlan)
    requires
        proc_fills_body(cmd.cmd.op@) ==> (cmd.cmd.body is Null || cmd.cmd.body is Object),
    ensures
        proc_planned(cmd, p),
{
    let op = cmd.cmd.op.as_str();
    if str_eq(op, "list-installed") || str_eq(op, "invocation-list") {
        let method = concat2("kernel/proc/", op);
        let params = fill_username(cmd.cmd.body, &cmd.caller_identity);
        forward(method, params)
    } else if str_eq(op, "spawn") {
        let mut body = cmd.cmd.body;
        let ghost b0 = body;
        let has_caller = match body.get_str("caller") {
            Some(c) => !c.as_str().is_empty(),
            None => false,
        };
        if !has_caller {
            body.set("caller", Json::Str(cmd.caller_identity.clone()));
        }
        let ghost b1 = body;
        let has_session = match body.get("session_id") {
            Some(_) => true,
            None => false,
        };
        if !has_session {
            body.set("session_id", Json::string(""));
        }
        let ghost b2 = body;
        body.set("atp_session_id", Json::Str(cmd.caller_session_id.clone()));
        proof {
            reveal_strlit("caller"); reveal_strlit("session_id"); reveal_strlit("atp_session_id");
            reveal_strlit("");
            assert("caller"@.len() == 6); assert("session_id"@.len() == 10); assert("atp_session_id"@.len() == 14);
            if has_caller {
                assert(get_str_spec(b0, "caller"@) matches Some(s) && s.len() > 0);
            }
        }
        forward(owned("kernel/proc/spawn"), body)
    } else if str_eq(op, "kill") || str_eq(op, "list") || str_eq(op, "stat") || str_eq(op, "pause")
        || str_eq(op, "resume") || str_eq(op, "wait") || str_eq(op, "setcap") || str_eq(op, "invocation-get")
        || str_eq(op, "invocation-conversation") || str_eq(op, "invocation-snapshot")
        || str_eq(op, "message-create") || str_eq(op, "message-get") || str_eq(op, "message-list")
        || str_eq(op, "part-create") || str_eq(op, "part-get") || str_eq(op, "part-list") {
        forward(concat2("kernel/proc/", op), cmd.cmd.body)
    } else if str_eq(op, "session-list") || str_eq(op, "session-get") || str_eq(op, "session-resume") {
        let path = replace_dashes(op);
        let method = concat2("kernel/proc/", path.as_str());
        let params = fill_username(cmd.cmd.body, &cmd.caller_identity);
        forward(method, params)
    } else if str_eq(op, "package/install-agent") || str_eq(op, "package/uninstall-agent")
        || str_eq(op, "package/install-service") || str_eq(op, "package/uninstall-service") {
        let method = concat2("kernel/proc/", op);
        let mut body = cmd.cmd.body;
        body.set("caller_identity", Json::Str(cmd.caller_identity.clone()));
        forward(method, body)
    } else {
        HandlerPlan::Reply(unknown_op(cmd.cmd.id.as_str(), op))
    }
}

/// The signals a client may send.
pub open spec fn valid_signal(s: Seq<char>) -> bool {
    s == "SIGSTART"@ || s == "SIGPAUSE"@ || s == "SIGRESUME"@ || s == "SIGKILL"@
        || s == "SIGSTOP"@ || s == "SIGSAVE"@ || s == "SIGPIPE"@ || s == "SIGESCALATE"@
}

/// The reply text for a signal outside the valid set.
pub open spec fn unknown_signal_message(s: Seq<char>) -> Seq<char> {
    "unknown signal '"@ + s
        + "'; valid: SIGSTART, SIGPAUSE, SIGRESUME, SIGKILL, SIGSTOP, SIGSAVE, SIGPIPE, SIGESCALATE"@
}

/// The reply text for an approval without the request it answers.
pub open spec fn missing_hil_id_message() -> Seq<char> {
    "SIGRESUME with approvalToken requires 'hilId' in payload"@
}

/// String member `k` of the signal's `payload`.
pub open spec fn payload_str(body: Json, k: Seq<char>) -> Option<Seq<char>> {
    match json_get(body, "payload"@) {
        Some(p) => get_str_spec(p, k),
        None => None,
    }
}

/// `p` is the payload a signal carries: `body.payload`, or an empty object.
pub open spec fn payload_is(body: Json, p: Json) -> bool {
    match json_get(body, "payload"@) {
        Some(x) => p == x,
        None => p is Object && p->Object_0@.len() == 0,
    }
}

fn is_valid_signal(s: &str) -> (b: bool)
    ensures
        b == valid_signal(s@),
{
    str_eq(s, "SIGSTART") || str_eq(s, "SIGPAUSE") || str_eq(s, "SIGRESUME") || str_eq(s, "SIGKILL")
        || str_eq(s, "SIGSTOP") || str_eq(s, "SIGSAVE") || str_eq(s, "SIGPIPE") || str_eq(s, "SIGESCALATE")
}

fn payload_member(body: &Json, key: &str) -> (r: Option<String>)
    ensures
        match r {
            Some(v) => payload_str(*body, key@) == Some(v@),
            None => payload_str(*body, key@) is None,
        },
{
    match body.get("payload") {
        Some(p) => p.get_str(key),
        None => None,
    }
}

/// What the `signal` domain decides for `cmd`.
pub open spec fn signal_planned(cmd: ValidatedCmd, p: HandlerPlan) -> bool {
    &&& ({
        let op = cmd.cmd.op@;
        let id = cmd.cmd.id@;
        let body = cmd.cmd.body;
        if op == "send"@ {
            match get_str_spec(body, "signal"@) {
                None => is_error_reply(p, id, AtpErrorCode::Eparse, "missing 'signal' field"@),
                Some(s) => if !valid_signal(s) {
                    is_error_reply(p, id, AtpErrorCode::Eparse, unknown_signal_message(s))
                } else if s == "SIGRESUME"@ && payload_str(body, "approvalToken"@) is Some {
                    match payload_str(body, "hilId"@) {
                        None => is_error_reply(p, id, AtpErrorCode::Eparse, missing_hil_id_message()),
                        Some(h) => p matches HandlerPlan::ResolveHil { hil_id, approval_token, decision, payload }
                            && hil_id@ == h
                            && Some(approval_token@) == payload_str(body, "approvalToken"@)
                            && decision@ == (match payload_str(body, "decision"@) {
                                Some(d) => d,
                                None => "denied"@,
                            })
                            && Some(payload) == json_get(body, "payload"@),
                    }
                } else if s == "SIGPIPE"@ {
                    p matches HandlerPlan::SigPipe { pid, payload }
                        && payload_is(body, payload)
                        && (json_get(body, "pid"@) matches Some(Json::Number(_)) ==> Some(pid) == json_get(body, "pid"@))
                        && (!(json_get(body, "pid"@) matches Some(Json::Number(_))) ==> pid == Json::Number(JsonNumber::PosInt(0)))
                } else {
                    forwards_to(p, "kernel/signal/send"@, body)
                },
            }
        } else if op == "subscribe"@ || op == "unsubscribe"@ || op == "list"@ {
            forwards_to(p, "kernel/signal/"@ + op, body)
        } else {
            is_unknown_op(p, id, op)
        }
    })
}

/// The `signal` domain. `send` checks the signal name; an approval
/// (`SIGRESUME` carrying an `approvalToken`) goes to the HIL service, a
/// `SIGPIPE` has its payload checked before delivery, and any other signal
/// is forwarded to `kernel/signal/send` as sent.
pub fn plan_signal(cmd: ValidatedCmd) -> (p: HandlerPlan)
    ensures
        signal_planned(cmd, p),
{
    let op = cmd.cmd.op.as_str();
    let id = cmd.cmd.id.as_str();
    if str_eq(op, "send") {
        let mut body = cmd.cmd.body;
        let ghost b0 = body;
        let sig = match body.get_str("signal") {
            Some(s) => s,
            None => {
                return HandlerPlan::Reply(AtpReply::err(id, AtpError::new(AtpErrorCode::Eparse, "missing 'signal' field")));
            },
        };
        if !is_valid_signal(sig.as_str()) {
            let m = concat3("unknown signal '", sig.as_str(),
                "'; valid: SIGSTART, SIGPAUSE, SIGRESUME, SIGKILL, SIGSTOP, SIGSAVE, SIGPIPE, SIGESCALATE");
            return HandlerPlan::Reply(AtpReply::err(id, AtpError::new(AtpErrorCode::Eparse, m.as_str())));
        }
        if str_eq(sig.as_str(), "SIGRESUME") {
            if let Some(token) = payload_member(&body, "approvalToken") {
                let hil_id = match payload_member(&body, "hilId") {
                    Some(h) => h,
                    None => {
                        return HandlerPlan::Reply(AtpReply::err(id, AtpError::new(AtpErrorCode::Eparse,
                            "SIGRESUME with approvalToken requires 'hilId' in payload")));
                    },
                };
                let decision = match payload_member(&body, "decision") {
                    Some(d) => d,
                    None => owned("denied"),
                };
                let payload = match body.take("payload") {
                    Some(x) => x,
                    None => {
                        proof { assert(false); }
                        Json::Null
                    },
                };
                return HandlerPlan::ResolveHil { hil_id, approval_token: token, decision, payload };
            }
        }
        if str_eq(sig.as_str(), "SIGPIPE") {
            let pid = if body.member_is_number("pid") {
                match body.take("pid") {
                    Some(x) => x,
                    None => {
                        proof { assert(false); }
                        Json::Null
                    },
                }
            } else {
                Json::uint(0)
            };
            proof {
                reveal_strlit("pid");
                reveal_strlit("payload");
                assert("pid"@.len() == 3);
                assert("payload"@.len() == 7);
                assert(json_get(body, "payload"@) == json_get(b0, "payload"@));
            }
            let payload = match body.take("payload") {
                Some(x) => x,
                None => Json::empty_object(),
            };
            return HandlerPlan::SigPipe { pid, payload };
        }
        forward(owned("kernel/signal/send"), body)
    } else if str_eq(op, "subscribe") || str_eq(op, "unsubscribe") || str_eq(op, "list") {
        forward(concat2("kernel/signal/", op), cmd.cmd.body)
    } else {
        HandlerPlan::Reply(unknown_op(id, op))
    }
}

/// The domains whose handlers are served here; the others (`crews`, `sys`,
/// `pipe`) are answered by services outside this library.
pub open spec fn planned_here(d: AtpDomain) -> bool {
    !(d is Crews || d is Sys || d is Pipe)
}

/// `cmd` meets what `plan` requires: a `proc` command whose handler writes
/// into the body has an object (or `null`) body.
pub fn can_plan(cmd: &ValidatedCmd) -> (b: bool)
    ensures
        b == (cmd.cmd.domain is Proc && proc_fills_body(cmd.cmd.op@)
            ==> (cmd.cmd.body is Null || cmd.cmd.body is Object)),
{
    let fills = match cmd.cmd.domain {
        AtpDomain::Proc => {
            let op = cmd.cmd.op.as_str();
            str_eq(op, "list-installed") || str_eq(op, "invocation-list") || str_eq(op, "spawn")
                || str_eq(op, "session-list") || str_eq(op, "session-get") || str_eq(op, "session-resume")
                || str_eq(op, "package/install-agent") || str_eq(op, "package/uninstall-agent")
                || str_eq(op, "package/install-service") || str_eq(op, "package/uninstall-service")
        },
        _ => false,
    };
    let shaped = match &cmd.cmd.body {
        Json::Null | Json::Object(_) => true,
        _ => false,
    };
    !fills || shaped
}

/// Route a validated command to its domain's plan. `None` for a domain
/// whose handler lives outside this library.
pub fn plan(cmd: ValidatedCmd) -> (p: Option<HandlerPlan>)
    requires
        cmd.cmd.domain is Proc && proc_fills_body(cmd.cmd.op@)
            ==> (cmd.cmd.body is Null || cmd.cmd.body is Object),
    ensures
        p is None <==> !planned_here(cmd.cmd.domain),
        p matches Some(q) ==> match cmd.cmd.domain {
            AtpDomain::Auth => auth_planned(cmd, q),
            AtpDomain::Proc => proc_planned(cmd, q),
            AtpDomain::Signal => signal_planned(cmd, q),
            AtpDomain::Fs => fs_planned(cmd, q),
            AtpDomain::Snap => snap_planned(cmd, q),
            AtpDomain::Cron => cron_planned(cmd, q),
            AtpDomain::Users => users_planned(cmd, q),
            AtpDomain::Cap => cap_planned(cmd, q),
            AtpDomain::Session => session_planned(cmd, q),
            _ => false,
        },
{
    match cmd.cmd.domain {
        AtpDomain::Auth => Some(plan_auth(cmd)),
        AtpDomain::Proc => Some(plan_proc(cmd)),
        AtpDomain::Signal => Some(plan_signal(cmd)),
        AtpDomain::Fs => Some(plan_fs(cmd)),
        AtpDomain::Snap => Some(plan_snap(cmd)),
        AtpDomain::Cron => Some(plan_cron(cmd)),
        AtpDomain::Users => Some(plan_users(cmd)),
        AtpDomain::Cap => Some(plan_cap(cmd)),
        AtpDomain::Session => Some(plan_session(cmd)),
        AtpDomain::Crews | AtpDomain::Sys | AtpDomain::Pipe => None,
    }
}

/// Nothing under `/secrets/` is read through the gateway: a `read`, `stat`
/// or `watch` whose path starts with `/secrets/` is refused with `EPERM`,
/// whatever the caller's role, and is never forwarded to the kernel.
pub proof fn law_secret_paths_never_read(cmd: ValidatedCmd, p: HandlerPlan, path: Seq<char>)
    requires
        fs_planned(cmd, p),
        cmd.cmd.op@ == "read"@ || cmd.cmd.op@ == "stat"@ || cmd.cmd.op@ == "watch"@,
        get_str_spec(cmd.cmd.body, "path"@) == Some(path),
        "/secrets/"@.is_prefix_of(path),
    ensures
        !(p is Forward),
        p matches HandlerPlan::Reply(r) && r.id@ == cmd.cmd.id@ && !r.ok
            && (r.error matches Some(e) && e.code == AtpErrorCode::Eperm
                && e.message@ == "reads from '/secrets/' are forbidden"@),
{
}

/// Every signal the kernel delivers or carries out passes the gateway's
/// name check.
pub proof fn law_kernel_signals_pass_gateway_check(s: Seq<char>)
    requires
        s == "SIGSTART"@ || s == "SIGKILL"@ || s == "SIGSTOP"@ || s == "SIGSAVE"@ || s == "SIGPIPE"@
            || s == "SIGESCALATE"@ || s == "SIGPAUSE"@ || s == "SIGRESUME"@,
    ensures
        valid_signal(s),
{
}

/// A plain signal send (neither `SIGPIPE` nor a `SIGRESUME` carrying an
/// approval token) is handed to the kernel's `kernel/signal/send` with the
/// body exactly as the client sent it.
pub proof fn law_plain_signal_forwarded(cmd: ValidatedCmd, p: HandlerPlan, s: Seq<char>)
    requires
        signal_planned(cmd, p),
        cmd.cmd.op@ == "send"@,
        get_str_spec(cmd.cmd.body, "signal"@) == Some(s),
        s == "SIGSTART"@ || s == "SIGKILL"@ || s == "SIGSTOP"@ || s == "SIGSAVE"@ || s == "SIGESCALATE"@
            || s == "SIGPAUSE"@ || (s == "SIGRESUME"@ && payload_str(cmd.cmd.body, "approvalToken"@) is None),
    ensures
        p matches HandlerPlan::Forward { method, params } && method@ == "kernel/signal/send"@
            && params == cmd.cmd.body,
{
    reveal_strlit("SIGSTART");
    reveal_strlit("SIGKILL");
    reveal_strlit("SIGSTOP");
    reveal_strlit("SIGSAVE");
    reveal_strlit("SIGESCALATE");
    reveal_strlit("SIGPAUSE");
    reveal_strlit("SIGRESUME");
    reveal_strlit("SIGPIPE");
    assert("SIGRESUME"@.len() == 9);
    assert("SIGPIPE"@.len() == 7);
    assert("SIGSTART"@.len() == 8 && "SIGPAUSE"@.len() == 8 && "SIGESCALATE"@.len() == 11);
    assert("SIGKILL"@[3] != "SIGPIPE"@[3] && "SIGSTOP"@[3] != "SIGPIPE"@[3] && "SIGSAVE"@[3] != "SIGPIPE"@[3]);
}

/// The filesystem operations reach the kernel method of the same name with
/// the client's body unchanged, unless they are reads under `/secrets/`.
pub proof fn law_fs_ops_forwarded(cmd: ValidatedCmd, p: HandlerPlan)
    requires
        fs_planned(cmd, p),
        cmd.cmd.op@ == "read"@ || cmd.cmd.op@ == "write"@ || cmd.cmd.op@ == "list"@ || cmd.cmd.op@ == "stat"@
            || cmd.cmd.op@ == "watch"@ || cmd.cmd.op@ == "unwatch"@,
        !(get_str_spec(cmd.cmd.body, "path"@) matches Some(path) && "/secrets/"@.is_prefix_of(path)),
    ensures
        p matches HandlerPlan::Forward { method, params } && method@ == "kernel/fs/"@ + cmd.cmd.op@
            && params == cmd.cmd.body,
{
}

} // verus!
