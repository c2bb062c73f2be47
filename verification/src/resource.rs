//! Resource requests: an agent asks the kernel for more context tokens, a
//! tool it was not granted, a pipe to another agent, or a renewed token.
//! The kernel checks the request's token signature, then answers every
//! item in order.

use vstd::prelude::*;
use crate::atp::now_rfc3339;
use crate::error::AvixError;
use crate::ids::new_uuid_v4;
use crate::kernel_ipc::uuid_hyphenated;
use crate::text::{owned, str_eq, concat2};
use crate::token::{CapabilityToken, copy_tools, copy_issuer, signed_by, CLOCK_BOUND};

verus! {

/// How urgently a tool is wanted.
#[derive(Clone, Copy, Debug, PartialEq, Eq, Structural)]
pub enum Urgency {
    Low,
    Normal,
    High,
}

/// Which way a pipe carries data.
#[derive(Clone, Copy, Debug, PartialEq, Eq, Structural)]
pub enum PipeDirection {
    In,
    Out,
    Bidirectional,
}

/// The urgency of a tool request that names none.
pub fn default_urgency() -> (u: Urgency)
    ensures
        u == Urgency::Normal,
{
    Urgency::Normal
}

/// The direction of a pipe request that names none.
pub fn default_direction() -> (d: PipeDirection)
    ensures
        d == PipeDirection::Out,
{
    PipeDirection::Out
}

/// The buffer size of a pipe request that names none.
pub fn default_buffer_tokens() -> (n: u32)
    ensures
        n == 8192,
{
    8192
}

/// One thing an agent asks for.
#[derive(Debug)]
pub enum ResourceItem {
    /// More context-window tokens.
    ContextTokens { amount: u32, reason: String },
    /// A tool not in the agent's token.
    Tool { name: String, urgency: Urgency, reason: String },
    /// A pipe to another agent.
    Pipe { target_pid: u64, direction: PipeDirection, buffer_tokens: u32, reason: String },
    /// A fresh token before the current one expires.
    TokenRenewal { reason: String },
}

/// A request from an agent; `timestamp` is RFC 3339 text.
#[derive(Debug)]
pub struct ResourceRequest {
    pub agent_pid: u64,
    pub request_id: String,
    pub timestamp: String,
    /// The signature of the token the agent holds.
    pub capability_token_signature: String,
    pub requests: Vec<ResourceItem>,
}

impl ResourceRequest {
    /// A request with a fresh id (`req-` and a random identifier).
    pub fn new(agent_pid: u64, capability_token_signature: String, requests: Vec<ResourceItem>) -> (r: ResourceRequest)
        ensures
            r.agent_pid == agent_pid,
            r.capability_token_signature == capability_token_signature,
            r.requests == requests,
            "req-"@.is_prefix_of(r.request_id@),
            r.request_id@.len() == 40,
    {
        let id = concat2("req-", new_uuid_v4().as_str());
        proof { reveal_strlit("req-"); assert("req-"@.len() == 4); assert(id@.subrange(0, 4) =~= "req-"@); }
        ResourceRequest {
            agent_pid,
            request_id: id,
            timestamp: now_rfc3339(),
            capability_token_signature,
            requests,
        }
    }
}

/// The kernel's answer to one item, in the order of the items.
#[derive(Debug)]
pub enum ResourceGrant {
    ContextTokens { granted: bool, amount: u32, new_total: u32, expires_at: Option<i64>, reason: Option<String> },
    /// A tool is never granted here: it needs a human's approval first, so
    /// no updated token comes with it.
    Tool { granted: bool, name: String, new_token: Option<CapabilityToken>, reason: Option<String>, suggestion: Option<String> },
    Pipe { granted: bool, target_pid: u64, pipe_id: Option<String>, direction: PipeDirection, buffer_tokens: u32, reason: Option<String> },
    /// A renewal is granted: the agent's token minted anew with the same
    /// tools and issuer, and its expiry (Unix seconds).
    TokenRenewal { granted: bool, new_token: Option<CapabilityToken>, expires_at: Option<i64>, reason: Option<String> },
}

/// The kernel's answer to a request; `responded_at` is RFC 3339 text.
#[derive(Debug)]
pub struct ResourceResponse {
    pub request_id: String,
    pub responded_at: String,
    pub grants: Vec<ResourceGrant>,
}

/// The context size an agent has before extra tokens are granted.
pub const BASE_CONTEXT_TOKENS: u32 = 64000;

/// Every amount of context tokens asked for in `items` can be added to the
/// base context size.
pub open spec fn amounts_fit(items: Seq<ResourceItem>) -> bool {
    forall|i: int| 0 <= i < items.len() ==> (#[trigger] items[i] matches ResourceItem::ContextTokens { amount, .. }
        ==> amount + BASE_CONTEXT_TOKENS <= u32::MAX)
}

/// `g` is the kernel's answer to `item`, for an agent holding `token`; a
/// renewed token lives `ttl` seconds from the clock reading it was issued
/// at and is signed by `sign` under `key`.
pub open spec fn answers<S: Fn(&Vec<u8>, &CapabilityToken) -> String>(item: ResourceItem, g: ResourceGrant, ttl: i64,
    token: CapabilityToken, key: Vec<u8>, sign: S) -> bool {
    match item {
        ResourceItem::ContextTokens { amount, .. } => g matches ResourceGrant::ContextTokens { granted, amount: a, new_total, expires_at, reason }
            && granted && a == amount && new_total == amount + BASE_CONTEXT_TOKENS && expires_at is None && reason is None,
        ResourceItem::Tool { name, .. } => g matches ResourceGrant::Tool { granted, name: n, new_token, reason, suggestion }
            && !granted && n@ == name@ && new_token is None
            && (reason matches Some(r) && r@ == "HIL approval required"@) && suggestion is None,
        ResourceItem::Pipe { target_pid, direction, buffer_tokens, .. } => g matches ResourceGrant::Pipe { granted, target_pid: t, pipe_id, direction: d, buffer_tokens: b, reason }
            && granted && t == target_pid && d == direction && b == buffer_tokens && reason is None
            && (pipe_id matches Some(p) && p@.len() == 41 && p@.subrange(0, 5) == "pipe-"@
                && uuid_hyphenated(p@.subrange(5, 41))),
        ResourceItem::TokenRenewal { .. } => g matches ResourceGrant::TokenRenewal { granted, new_token, expires_at, reason }
            && granted && reason is None
            && (new_token matches Some(n)
                && n.granted_tools@ == token.granted_tools@
                && n.issued_to == token.issued_to
                && -CLOCK_BOUND <= n.issued_at <= CLOCK_BOUND
                && n.expires_at == n.issued_at + ttl
                && expires_at == Some(n.expires_at)
                && signed_by(sign, key, n)),
    }
}

/// The kernel side of resource requests.
#[derive(Debug)]
pub struct KernelResourceHandler {
    hmac_key: Vec<u8>,
    renewal_ttl_secs: i64,
}

impl KernelResourceHandler {
    #[verifier::type_invariant]
    spec fn inv(&self) -> bool {
        0 <= self.renewal_ttl_secs <= 3600
    }

    /// The key tokens are signed with.
    pub closed spec fn key(&self) -> Vec<u8> {
        self.hmac_key
    }

    /// How long a renewed token lives, in seconds.
    pub closed spec fn renewal_ttl(&self) -> i64 {
        self.renewal_ttl_secs
    }

    /// A handler signing with `hmac_key`; renewed tokens live an hour.
    pub fn new(hmac_key: Vec<u8>) -> (h: KernelResourceHandler)
        ensures
            h.key() == hmac_key,
            h.renewal_ttl() == 3600,
    {
        KernelResourceHandler { hmac_key, renewal_ttl_secs: 3600 }
    }

    /// The answer to one item, for an agent holding `token`. A renewal
    /// mints `token` anew (same tools and issuer) from the current time,
    /// signed by `sign` under this handler's key.
    pub fn dispatch_item<S: Fn(&Vec<u8>, &CapabilityToken) -> String>(&self, item: &ResourceItem,
        token: &CapabilityToken, sign: &S) -> (g: ResourceGrant)
        requires
            item matches ResourceItem::ContextTokens { amount, .. } ==> amount + BASE_CONTEXT_TOKENS <= u32::MAX,
            forall|k: &Vec<u8>, u: &CapabilityToken| sign.requires((k, u)),
        ensures
            answers(*item, g, self.renewal_ttl(), *token, self.key(), *sign),
    {
        proof { use_type_invariant(self); }
        match item {
            ResourceItem::ContextTokens { amount, .. } => ResourceGrant::ContextTokens {
                granted: true,
                amount: *amount,
                new_total: BASE_CONTEXT_TOKENS + *amount,
                expires_at: None,
                reason: None,
            },
            ResourceItem::Tool { name, .. } => ResourceGrant::Tool {
                granted: false,
                name: name.clone(),
                new_token: None,
                reason: Some(owned("HIL approval required")),
                suggestion: None,
            },
            ResourceItem::Pipe { target_pid, direction, buffer_tokens, .. } => {
                let u = new_uuid_v4();
                let id = concat2("pipe-", u.as_str());
                proof {
                    reveal_strlit("pipe-");
                    assert("pipe-"@.len() == 5);
                    assert(id@.subrange(0, 5) =~= "pipe-"@);
                    assert(id@.subrange(5, 41) =~= u@);
                }
                ResourceGrant::Pipe {
                    granted: true,
                    target_pid: *target_pid,
                    pipe_id: Some(id),
                    direction: *direction,
                    buffer_tokens: *buffer_tokens,
                    reason: None,
                }
            },
            ResourceItem::TokenRenewal { .. } => {
                let n = CapabilityToken::mint(copy_tools(&token.granted_tools), copy_issuer(&token.issued_to),
                    self.renewal_ttl_secs, &self.hmac_key, sign);
                let expires_at = n.expires_at;
                ResourceGrant::TokenRenewal { granted: true, new_token: Some(n), expires_at: Some(expires_at), reason: None }
            },
        }
    }

    /// Answer a request from an agent holding `current_token`.
    /// `signature_valid` says whether that token's signature is valid under
    /// this handler's key; the request must carry the token's signature.
    /// Renewed tokens are signed by `sign`.
    pub fn handle<S: Fn(&Vec<u8>, &CapabilityToken) -> String>(&self, req: &ResourceRequest,
        current_token: &CapabilityToken, signature_valid: bool, sign: &S) -> (r: Result<ResourceResponse, AvixError>)
        requires
            signature_valid && req.capability_token_signature@ == current_token.signature@ ==> amounts_fit(req.requests@),
            forall|k: &Vec<u8>, u: &CapabilityToken| sign.requires((k, u)),
        ensures
            !signature_valid ==> (r matches Err(AvixError::CapabilityDenied(m))
                && m@ == "capability token signature is invalid"@),
            signature_valid && req.capability_token_signature@ != current_token.signature@ ==> (r matches Err(AvixError::CapabilityDenied(m))
                && m@ == "request token signature does not match current token"@),
            signature_valid && req.capability_token_signature@ == current_token.signature@ ==> (r matches Ok(resp)
                && resp.request_id@ == req.request_id@
                && resp.grants@.len() == req.requests@.len()
                && forall|i: int| 0 <= i < req.requests@.len() ==> answers(#[trigger] req.requests@[i], resp.grants@[i],
                    self.renewal_ttl(), *current_token, self.key(), *sign)),
    {
        if !signature_valid {
            return Err(AvixError::CapabilityDenied(owned("capability token signature is invalid")));
        }
        if !str_eq(req.capability_token_signature.as_str(), current_token.signature.as_str()) {
            return Err(AvixError::CapabilityDenied(owned("request token signature does not match current token")));
        }
        let mut grants: Vec<ResourceGrant> = Vec::new();
        let mut i: usize = 0;
        while i < req.requests.len()
            invariant
                i <= req.requests@.len(),
                amounts_fit(req.requests@),
                forall|k: &Vec<u8>, u: &CapabilityToken| sign.requires((k, u)),
                grants@.len() == i,
                forall|k: int| 0 <= k < i ==> answers(#[trigger] req.requests@[k], grants@[k], self.renewal_ttl(),
                    *current_token, self.key(), *sign),
            decreases req.requests@.len() - i,
        {
            let item = &req.requests[i];
            assert(req.requests@[i as int] matches ResourceItem::ContextTokens { amount, .. } ==> amount + BASE_CONTEXT_TOKENS <= u32::MAX);
            grants.push(self.dispatch_item(item, current_token, sign));
            i += 1;
        }
        Ok(ResourceResponse { request_id: req.request_id.clone(), responded_at: now_rfc3339(), grants })
    }
}

} // verus!
