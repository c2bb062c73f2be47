//! Resource requests: the signature checks, and the answer to each kind of
//! item, in order.

use avix_core::error::AvixError;
use avix_core::resource::{
    default_buffer_tokens, default_direction, default_urgency, KernelResourceHandler, PipeDirection, ResourceGrant,
    ResourceItem, ResourceRequest, Urgency, BASE_CONTEXT_TOKENS,
};
use avix_core::token::{now_unix_secs, CapabilityToken, IssuedTo};

const TEST_KEY: &[u8] = b"test-master-key-32-bytes-padded!";

/// A keyed checksum over the token's claims, standing in for the signing
/// scheme the kernel is configured with.
fn sign(key: &Vec<u8>, t: &CapabilityToken) -> String {
    let mut text = String::new();
    text.push_str(&t.granted_tools.join(","));
    if let Some(it) = &t.issued_to {
        text.push_str(&format!("|{}|{}|{}", it.pid, it.agent_name, it.spawned_by));
    }
    text.push_str(&format!("|{}|{}", t.issued_at, t.expires_at));
    let mut h: u64 = 1469598103934665603;
    for b in key.iter().chain(text.as_bytes()) {
        h ^= *b as u64;
        h = h.wrapping_mul(1099511628211);
    }
    format!("hmac-sha256:{h:016x}")
}

/// Whether `t` carries the signature `sign` gives its claims under `key`.
fn verify_signature(t: &CapabilityToken, key: &[u8]) -> bool {
    let unsigned = CapabilityToken {
        granted_tools: t.granted_tools.clone(),
        issued_to: t.issued_to.as_ref().map(|it| IssuedTo {
            pid: it.pid,
            agent_name: it.agent_name.clone(),
            spawned_by: it.spawned_by.clone(),
        }),
        issued_at: t.issued_at,
        expires_at: t.expires_at,
        signature: String::new(),
    };
    sign(&key.to_vec(), &unsigned) == t.signature
}

/// A token minted now for an hour; returns once the clock has moved past
/// the second it was issued in, so that a renewal is issued later.
fn mint_token(tools: &[&str], issued_to: Option<IssuedTo>) -> CapabilityToken {
    let tools = tools.iter().map(|s| s.to_string()).collect();
    let t = CapabilityToken::mint(tools, issued_to, 3600, &TEST_KEY.to_vec(), &sign);
    while now_unix_secs() <= t.issued_at {
        std::hint::spin_loop();
    }
    t
}

fn signed_token(tools: &[&str]) -> CapabilityToken {
    mint_token(tools, None)
}

fn make_req(token: &CapabilityToken, items: Vec<ResourceItem>) -> ResourceRequest {
    ResourceRequest::new(42, token.signature.clone(), items)
}

fn handler() -> KernelResourceHandler {
    KernelResourceHandler::new(TEST_KEY.to_vec())
}

/// Answer `req` for `token`, checking the token's signature first.
fn answer(req: &ResourceRequest, token: &CapabilityToken) -> Result<avix_core::resource::ResourceResponse, AvixError> {
    handler().handle(req, token, verify_signature(token, TEST_KEY), &sign)
}

#[test]
fn handle_rejects_invalid_token_signature() {
    let mut token = signed_token(&["fs/read"]);
    token.granted_tools.push("extra".into()); // tamper: invalidates the signature
    let req = make_req(&token, vec![]);
    let err = answer(&req, &token).unwrap_err();
    match err {
        AvixError::CapabilityDenied(m) => assert!(m.contains("invalid"), "should reject invalid signature: {m}"),
        other => panic!("unexpected error {other:?}"),
    }
}

#[test]
fn handle_rejects_mismatched_request_signature() {
    let token = signed_token(&["fs/read"]);
    let mut req = make_req(&token, vec![]);
    req.capability_token_signature = "sha256:wrong".into();
    let err = answer(&req, &token).unwrap_err();
    match err {
        AvixError::CapabilityDenied(m) => assert!(m.contains("does not match"), "{m}"),
        other => panic!("unexpected error {other:?}"),
    }
}

#[test]
fn context_tokens_granted() {
    let token = signed_token(&["fs/read"]);
    let req = make_req(&token, vec![ResourceItem::ContextTokens { amount: 10_000, reason: "need more".into() }]);
    let resp = answer(&req, &token).unwrap();
    assert_eq!(resp.grants.len(), 1);
    match &resp.grants[0] {
        ResourceGrant::ContextTokens { granted, amount, new_total, .. } => {
            assert!(granted);
            assert_eq!(*amount, 10_000);
            assert_eq!(*new_total, BASE_CONTEXT_TOKENS + 10_000);
            assert_eq!(*new_total, 74_000);
        }
        _ => panic!("expected ContextTokens grant"),
    }
}

#[test]
fn tool_request_returns_denied_hil_required() {
    let token = signed_token(&["fs/read"]);
    let req = make_req(
        &token,
        vec![ResourceItem::Tool { name: "send_email".into(), urgency: Urgency::Normal, reason: "need to notify user".into() }],
    );
    let resp = answer(&req, &token).unwrap();
    match &resp.grants[0] {
        ResourceGrant::Tool { granted, name, new_token, reason, suggestion } => {
            assert!(!granted, "tool grants require HIL");
            assert_eq!(name, "send_email");
            assert!(new_token.is_none());
            assert_eq!(reason.as_deref(), Some("HIL approval required"));
            assert!(suggestion.is_none(), "HIL orchestration is caller's responsibility");
        }
        _ => panic!("expected Tool grant"),
    }
}

#[test]
fn pipe_request_granted_with_pipe_id() {
    let token = signed_token(&["pipe/open"]);
    let req = make_req(
        &token,
        vec![ResourceItem::Pipe {
            target_pid: 58,
            direction: PipeDirection::Out,
            buffer_tokens: 16_384,
            reason: "stream to writer".into(),
        }],
    );
    let resp = answer(&req, &token).unwrap();
    match &resp.grants[0] {
        ResourceGrant::Pipe { granted, pipe_id, target_pid, buffer_tokens, .. } => {
            assert!(granted);
            assert_eq!(*target_pid, 58);
            assert_eq!(*buffer_tokens, 16_384);
            let id = pipe_id.as_ref().expect("granted pipe must have a pipe_id");
            assert!(id.starts_with("pipe-"));
        }
        _ => panic!("expected Pipe grant"),
    }
}

#[test]
fn token_renewal_returns_new_signed_token() {
    let token = signed_token(&["fs/read", "llm/complete"]);
    let req = make_req(&token, vec![ResourceItem::TokenRenewal { reason: "expiring soon".into() }]);
    let resp = answer(&req, &token).unwrap();
    match &resp.grants[0] {
        ResourceGrant::TokenRenewal { granted, new_token, expires_at, .. } => {
            assert!(granted);
            let new_tok = new_token.as_ref().unwrap();
            assert!(verify_signature(new_tok, TEST_KEY), "renewed token must be signed");
            assert_eq!(new_tok.granted_tools, token.granted_tools, "tools must be preserved");
            assert!(expires_at.is_some());
            assert!(expires_at.unwrap() > token.expires_at, "new expiry must be later");
        }
        _ => panic!("expected TokenRenewal grant"),
    }
}

#[test]
fn token_renewal_preserves_issued_to() {
    let token = mint_token(
        &["fs/read"],
        Some(IssuedTo { pid: 57, agent_name: "researcher".into(), spawned_by: "alice".into() }),
    );
    let req = make_req(&token, vec![ResourceItem::TokenRenewal { reason: "".into() }]);
    let resp = answer(&req, &token).unwrap();
    match &resp.grants[0] {
        ResourceGrant::TokenRenewal { new_token, .. } => {
            let it = new_token.as_ref().unwrap().issued_to.as_ref().unwrap();
            assert_eq!(it.agent_name, "researcher");
        }
        _ => panic!(),
    }
}

#[test]
fn batched_requests_return_grants_in_order() {
    let token = signed_token(&["fs/read"]);
    let req = make_req(
        &token,
        vec![
            ResourceItem::ContextTokens { amount: 5_000, reason: "".into() },
            ResourceItem::Tool { name: "email".into(), urgency: Urgency::Low, reason: "".into() },
            ResourceItem::TokenRenewal { reason: "".into() },
        ],
    );
    let resp = answer(&req, &token).unwrap();
    assert_eq!(resp.grants.len(), 3);
    assert!(matches!(&resp.grants[0], ResourceGrant::ContextTokens { .. }));
    assert!(matches!(&resp.grants[1], ResourceGrant::Tool { .. }));
    assert!(matches!(&resp.grants[2], ResourceGrant::TokenRenewal { .. }));
}

#[test]
fn response_request_id_matches_request() {
    let token = signed_token(&["fs/read"]);
    let req = make_req(&token, vec![]);
    let resp = answer(&req, &token).unwrap();
    assert_eq!(resp.request_id, req.request_id);
}

#[test]
fn request_ids_are_fresh_and_prefixed() {
    let token = signed_token(&[]);
    let a = make_req(&token, vec![]);
    let b = make_req(&token, vec![]);
    assert!(a.request_id.starts_with("req-"));
    assert_eq!(a.request_id.len(), 40);
    assert_ne!(a.request_id, b.request_id);
}

#[test]
fn defaults_for_missing_fields() {
    assert_eq!(default_urgency(), Urgency::Normal);
    assert_eq!(default_direction(), PipeDirection::Out);
    assert_eq!(default_buffer_tokens(), 8192);
}

#[test]
fn single_item_dispatch_answers_directly() {
    let token = signed_token(&[]);
    let g = handler().dispatch_item(&ResourceItem::ContextTokens { amount: 1, reason: "".into() }, &token, &sign);
    assert!(matches!(g, ResourceGrant::ContextTokens { granted: true, amount: 1, new_total: 64_001, .. }));
}

#[test]
fn renewed_token_lives_an_hour_from_issue() {
    let token = mint_token(&["a/b"], None);
    let g = handler().dispatch_item(&ResourceItem::TokenRenewal { reason: "".into() }, &token, &sign);
    match g {
        ResourceGrant::TokenRenewal { new_token: Some(n), expires_at: Some(e), .. } => {
            assert_eq!(n.expires_at, n.issued_at + 3600);
            assert_eq!(e, n.expires_at);
            assert!(n.issued_at >= token.issued_at);
        }
        other => panic!("unexpected {other:?}"),
    }
}
