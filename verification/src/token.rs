//! Capability tokens: the tools an agent may call, who it was issued to,
//! when it was issued and when it expires (Unix seconds), and a signature
//! over those fields under the kernel's key.

use vstd::prelude::*;

verus! {

/// The agent a token was issued to.
#[derive(Debug)]
pub struct IssuedTo {
    pub pid: u64,
    pub agent_name: String,
    pub spawned_by: String,
}

impl IssuedTo {
    /// A copy of this issuer.
    pub fn duplicate(&self) -> (r: IssuedTo)
        ensures
            r == *self,
    {
        IssuedTo { pid: self.pid, agent_name: self.agent_name.clone(), spawned_by: self.spawned_by.clone() }
    }
}

/// A capability token.
#[derive(Debug)]
pub struct CapabilityToken {
    pub granted_tools: Vec<String>,
    pub issued_to: Option<IssuedTo>,
    /// Unix seconds.
    pub issued_at: i64,
    /// Unix seconds.
    pub expires_at: i64,
    pub signature: String,
}

/// The largest magnitude a clock reading can have: chrono computes
/// `timestamp()` as (days since the common era, an `i32`, less 719163)
/// times 86400, plus the seconds of the day.
pub const CLOCK_BOUND: i64 = 200_000_000_000_000;

/// The current time in Unix seconds, `chrono::Utc::now().timestamp()`.
/// Of its value only chrono's range is claimed.
#[verifier::external_body]
pub fn now_unix_secs() -> (t: i64)
    ensures
        -CLOCK_BOUND <= t <= CLOCK_BOUND,
{
    chrono::Utc::now().timestamp()
}

/// A copy of `tools`, in order.
pub fn copy_tools(tools: &Vec<String>) -> (r: Vec<String>)
    ensures
        r@ == tools@,
{
    let mut out: Vec<String> = Vec::new();
    let mut i: usize = 0;
    while i < tools.len()
        invariant
            i <= tools@.len(),
            out@ == tools@.take(i as int),
        decreases tools@.len() - i,
    {
        out.push(tools[i].clone());
        assert(out@ =~= tools@.take(i + 1));
        i += 1;
    }
    assert(tools@.take(tools@.len() as int) =~= tools@);
    out
}

/// A copy of an optional issuer.
pub fn copy_issuer(it: &Option<IssuedTo>) -> (r: Option<IssuedTo>)
    ensures
        r == *it,
{
    match it {
        Some(x) => Some(x.duplicate()),
        None => None,
    }
}

/// `t` and `u` carry the same tools, issuer and times.
pub open spec fn same_claims(t: CapabilityToken, u: CapabilityToken) -> bool {
    &&& t.granted_tools@ == u.granted_tools@
    &&& t.issued_to == u.issued_to
    &&& t.issued_at == u.issued_at
    &&& t.expires_at == u.expires_at
}

/// `t`'s signature is what `sign` gives for `key` and `t`'s claims (the
/// claims presented with an empty signature).
pub open spec fn signed_by<S: Fn(&Vec<u8>, &CapabilityToken) -> String>(sign: S, key: Vec<u8>, t: CapabilityToken) -> bool {
    exists|u: CapabilityToken| #![trigger sign.ensures((&key, &u), t.signature)]
        same_claims(u, t) && u.signature@.len() == 0 && sign.ensures((&key, &u), t.signature)
}

impl CapabilityToken {
    /// A token with `tools` and `issued_to`, issued now (by the clock) and
    /// living `ttl` seconds, signed by `sign` under `key`. `sign` computes
    /// the signature of the claims it is shown; the caller supplies the
    /// signing scheme.
    pub fn mint<S: Fn(&Vec<u8>, &CapabilityToken) -> String>(
        tools: Vec<String>,
        issued_to: Option<IssuedTo>,
        ttl: i64,
        key: &Vec<u8>,
        sign: &S,
    ) -> (t: CapabilityToken)
        requires
            -CLOCK_BOUND <= ttl <= CLOCK_BOUND,
            forall|k: &Vec<u8>, u: &CapabilityToken| sign.requires((k, u)),
        ensures
            t.granted_tools@ == tools@,
            t.issued_to == issued_to,
            -CLOCK_BOUND <= t.issued_at <= CLOCK_BOUND,
            t.expires_at == t.issued_at + ttl,
            signed_by(*sign, *key, t),
    {
        let now = now_unix_secs();
        let unsigned = CapabilityToken {
            granted_tools: tools,
            issued_to,
            issued_at: now,
            expires_at: now + ttl,
            signature: String::new(),
        };
        let ghost u = unsigned;
        let signature = sign(key, &unsigned);
        let t = CapabilityToken { signature, ..unsigned };
        assert(same_claims(u, t));
        assert(u.signature@.len() == 0);
        assert(sign.ensures((key, &u), t.signature));
        t
    }
}

} // verus!
