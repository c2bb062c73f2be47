//! Single-use approval tokens for human-in-the-loop requests: a token is
//! handed out with a request, and the first answer that presents it
//! consumes it; any later one is refused.

use vstd::prelude::*;
use crate::error::AvixError;
use crate::ids::new_uuid_v4;
use crate::keyed::KeyedTable;
use crate::text::owned;

verus! {

/// The tokens handed out, each with whether it was used.
#[derive(Debug)]
pub struct ApprovalTokenStore {
    tokens: KeyedTable<bool>,
}

/// The outcome of presenting `token` to a store holding `before`.
pub open spec fn consume_outcome(before: ApprovalTokenStore, after: ApprovalTokenStore, token: Seq<char>, r: Result<(), AvixError>) -> bool {
    match before.state(token) {
        None => after.tokens_view() == before.tokens_view()
            && (r matches Err(AvixError::CapabilityDenied(m)) && m@ == "token not found"@),
        Some(true) => after.tokens_view() == before.tokens_view()
            && (r matches Err(AvixError::CapabilityDenied(m)) && m@ == "EUSED: token already used"@),
        Some(false) => r is Ok && after.state(token) == Some(true)
            && forall|t: Seq<char>| t != token ==> after.state(t) == before.state(t),
    }
}

impl ApprovalTokenStore {
    /// The table of tokens.
    pub closed spec fn tokens_view(&self) -> KeyedTable<bool> {
        self.tokens
    }

    /// Whether `token` was handed out, and if so whether it was used.
    pub open spec fn state(&self, token: Seq<char>) -> Option<bool> {
        self.tokens_view().lookup(token)
    }

    /// A store with no tokens.
    pub fn new() -> (s: ApprovalTokenStore)
        ensures
            forall|t: Seq<char>| s.state(t) is None,
    {
        ApprovalTokenStore { tokens: KeyedTable::new() }
    }

    /// Hand out a fresh token for the request `_hil_id`.
    pub fn create(&mut self, _hil_id: &str) -> (token: String)
        ensures
            token@.len() == 36,
            final(self).state(token@) == Some(false),
            forall|t: Seq<char>| t != token@ ==> final(self).state(t) == old(self).state(t),
    {
        let token = new_uuid_v4();
        self.tokens.insert(token.clone(), false);
        token
    }

    /// Record a token minted elsewhere as unused; a token already known
    /// keeps its state.
    pub fn register(&mut self, token: &str)
        ensures
            old(self).state(token@) is None ==> final(self).state(token@) == Some(false),
            old(self).state(token@) is Some ==> final(self).state(token@) == old(self).state(token@),
            forall|t: Seq<char>| t != token@ ==> final(self).state(t) == old(self).state(t),
    {
        if !self.tokens.contains(token) {
            self.tokens.insert(owned(token), false);
        }
    }

    /// Use `token`: it must have been handed out and not used yet.
    pub fn consume(&mut self, token_id: &str) -> (r: Result<(), AvixError>)
        ensures
            consume_outcome(*old(self), *final(self), token_id@, r),
    {
        match self.tokens.get(token_id) {
            None => Err(AvixError::CapabilityDenied(owned("token not found"))),
            Some(used) => {
                if *used {
                    Err(AvixError::CapabilityDenied(owned("EUSED: token already used")))
                } else {
                    self.tokens.insert(owned(token_id), true);
                    Ok(())
                }
            },
        }
    }
}

/// An approval token works once: after a successful use, presenting it
/// again is refused as already used, and changes nothing.
pub proof fn law_token_single_use(
    s0: ApprovalTokenStore,
    s1: ApprovalTokenStore,
    s2: ApprovalTokenStore,
    token: Seq<char>,
    r1: Result<(), AvixError>,
    r2: Result<(), AvixError>,
)
    requires
        consume_outcome(s0, s1, token, r1),
        r1 is Ok,
        consume_outcome(s1, s2, token, r2),
    ensures
        r2 matches Err(AvixError::CapabilityDenied(m)) && m@ == "EUSED: token already used"@,
        s2.tokens_view() == s1.tokens_view(),
{
}

/// A token just handed out is accepted once.
pub proof fn law_fresh_token_accepted(s0: ApprovalTokenStore, s1: ApprovalTokenStore, token: Seq<char>, r: Result<(), AvixError>)
    requires
        s0.state(token) == Some(false),
        consume_outcome(s0, s1, token, r),
    ensures
        r is Ok,
        s1.state(token) == Some(true),
{
}

} // verus!
