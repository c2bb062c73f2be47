//! JSON-RPC 2.0 messages exchanged over the kernel IPC sockets, and the
//! stateless client configuration.

use vstd::prelude::*;
use crate::json::Json;
use crate::text::owned;
use std::path::PathBuf;

verus! {

#[verifier::external_type_specification]
#[verifier::external_body]
pub struct ExPathBuf(std::path::PathBuf);

#[derive(Debug)]
pub struct JsonRpcRequest {
    pub jsonrpc: String,
    pub id: String,
    pub method: String,
    pub params: Json,
}

/// A request without an id: no response is expected.
#[derive(Debug)]
pub struct JsonRpcNotification {
    pub jsonrpc: String,
    pub method: String,
    pub params: Json,
}

#[derive(Debug)]
pub struct JsonRpcError {
    pub code: i32,
    pub message: String,
    pub data: Option<Json>,
}

#[derive(Debug)]
pub struct JsonRpcResponse {
    pub jsonrpc: String,
    pub id: String,
    pub result: Option<Json>,
    pub error: Option<JsonRpcError>,
}

/// Either kind of inbound message.
#[derive(Debug)]
pub enum IpcMessage {
    Request(JsonRpcRequest),
    Notification(JsonRpcNotification),
}

impl JsonRpcResponse {
    /// A success response carrying `result`.
    pub fn ok(id: &str, result: Json) -> (r: JsonRpcResponse)
        ensures
            r.jsonrpc@ == "2.0"@,
            r.id@ == id@,
            r.result == Some(result),
            r.error is None,
    {
        JsonRpcResponse { jsonrpc: owned("2.0"), id: owned(id), result: Some(result), error: None }
    }

    /// An error response.
    pub fn err(id: &str, code: i32, message: &str, data: Option<Json>) -> (r: JsonRpcResponse)
        ensures
            r.jsonrpc@ == "2.0"@,
            r.id@ == id@,
            r.result is None,
            r.error matches Some(e) && e.code == code && e.message@ == message@ && e.data == data,
    {
        JsonRpcResponse {
            jsonrpc: owned("2.0"),
            id: owned(id),
            result: None,
            error: Some(JsonRpcError { code, message: owned(message), data }),
        }
    }
}

/// Kernel-specific JSON-RPC error codes.
#[derive(Clone, Copy, Debug, PartialEq, Eq, Structural)]
pub enum JsonRpcErrorCode {
    Eauth,
    Eperm,
    Enoent,
    Ebusy,
    Etimeout,
    Eused,
    Eprovider,
    Eprovperm,
}

pub open spec fn error_code_value(c: JsonRpcErrorCode) -> int {
    match c {
        JsonRpcErrorCode::Eauth => -32001,
        JsonRpcErrorCode::Eperm => -32002,
        JsonRpcErrorCode::Enoent => -32003,
        JsonRpcErrorCode::Ebusy => -32004,
        JsonRpcErrorCode::Etimeout => -32005,
        JsonRpcErrorCode::Eused => -32009,
        JsonRpcErrorCode::Eprovider => -32010,
        JsonRpcErrorCode::Eprovperm => -32018,
    }
}

impl JsonRpcErrorCode {
    /// The numeric code sent on the wire.
    pub fn code(&self) -> (n: i32)
        ensures
            n == error_code_value(*self),
    {
        match self {
            JsonRpcErrorCode::Eauth => -32001,
            JsonRpcErrorCode::Eperm => -32002,
            JsonRpcErrorCode::Enoent => -32003,
            JsonRpcErrorCode::Ebusy => -32004,
            JsonRpcErrorCode::Etimeout => -32005,
            JsonRpcErrorCode::Eused => -32009,
            JsonRpcErrorCode::Eprovider => -32010,
            JsonRpcErrorCode::Eprovperm => -32018,
        }
    }
}

/// The per-call timeout, in milliseconds, a new client starts with.
pub const DEFAULT_TIMEOUT_MS: u64 = 5_000;

/// A stateless IPC client: one fresh connection to `target` per call.
pub struct IpcClient {
    target: PathBuf,
    timeout_ms: u64,
}

impl IpcClient {
    /// A client for the socket at `target` with the default 5 s timeout.
    pub fn new(target: PathBuf) -> (c: IpcClient)
        ensures
            c.target() == target,
            c.timeout_ms() == 5_000,
    {
        IpcClient { target, timeout_ms: DEFAULT_TIMEOUT_MS }
    }

    /// The same client with another per-call timeout, in milliseconds.
    pub fn with_timeout(self, timeout_ms: u64) -> (c: IpcClient)
        ensures
            c.target() == self.target(),
            c.timeout_ms() == timeout_ms,
    {
        IpcClient { timeout_ms, ..self }
    }

    pub closed spec fn target(&self) -> PathBuf {
        self.target
    }

    pub closed spec fn timeout_ms(&self) -> u64 {
        self.timeout_ms
    }

    /// The socket this client connects to.
    pub fn target_path(&self) -> (p: &PathBuf)
        ensures
            *p == self.target(),
    {
        &self.target
    }

    /// The per-call timeout, in milliseconds.
    pub fn call_timeout(&self) -> (ms: u64)
        ensures
            ms == self.timeout_ms(),
    {
        self.timeout_ms
    }
}

} // verus!
