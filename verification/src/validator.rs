//! Command validation: replay protection per connection and the ordered
//! checks a command passes before dispatch.

use vstd::prelude::*;
use crate::atp::{AtpCmd, AtpDomain, AtpError, AtpErrorCode};
use crate::acl::{check_admin_port, check_domain_role, check_fs_hard_veto, domain_min_role_spec,
    requires_admin_port_spec, fs_hard_vetoed, role_denied_message, admin_port_message, veto_message};
use crate::event_bus::strings_contain;
use crate::json::get_str_spec;
use crate::text::{owned, str_eq, contains, concat3, seq_contains};
use crate::types::{Role, role_at_least};

verus! {

/// Command ids already seen on one connection.
pub struct ReplayGuard {
    seen: Vec<String>,
}

impl View for ReplayGuard {
    type V = Set<Seq<char>>;

    open spec fn view(&self) -> Set<Seq<char>> {
        Set::new(|s: Seq<char>| strings_contain(self.seen_ids(), s))
    }
}

impl ReplayGuard {
    pub closed spec fn seen_ids(&self) -> Seq<String> {
        self.seen@
    }

    /// A guard that has seen nothing.
    pub fn new() -> (g: ReplayGuard)
        ensures
            g@ == Set::<Seq<char>>::empty(),
    {
        let g = ReplayGuard { seen: Vec::new() };
        assert(g@ =~= Set::<Seq<char>>::empty());
        g
    }

    /// Register a command id; a repeated id is a replay and is refused with
    /// `EPARSE`, leaving the guard unchanged.
    pub fn check_and_register(&mut self, id: &str) -> (r: Result<(), AtpError>)
        ensures
            register_outcome(old(self)@, final(self)@, id@, r),
    {
        let mut i: usize = 0;
        while i < self.seen.len()
            invariant
                i <= self.seen@.len(),
                forall|j: int| 0 <= j < i ==> self.seen@[j]@ != id@,
            decreases self.seen@.len() - i,
        {
            if str_eq(self.seen[i].as_str(), id) {
                assert(old(self)@.contains(id@));
                let m = concat3("duplicate command id '", id, "'");
                return Err(AtpError::new(AtpErrorCode::Eparse, m.as_str()));
            }
            i += 1;
        }
        assert(!old(self)@.contains(id@));
        self.seen.push(owned(id));
        assert(self@ =~= old(self)@.insert(id@)) by {
            assert forall|s: Seq<char>| self@.contains(s) == old(self)@.insert(id@).contains(s) by {
                if s == id@ {
                    assert(self.seen@[self.seen@.len() - 1]@ == s);
                }
                if strings_contain(old(self).seen@, s) {
                    let j = choose|j: int| 0 <= j < old(self).seen@.len() && #[trigger] old(self).seen@[j]@ == s;
                    assert(self.seen@[j] == old(self).seen@[j]);
                }
                if strings_contain(self.seen@, s) && s != id@ {
                    let j = choose|j: int| 0 <= j < self.seen@.len() && #[trigger] self.seen@[j]@ == s;
                    assert(j < old(self).seen@.len());
                    assert(old(self).seen@[j] == self.seen@[j]);
                }
            }
        }
        Ok(())
    }
}

/// Registering `id` with a guard that had seen `before` left it having seen
/// `after` and answered `r`: a new id is accepted and remembered, a seen one
/// is refused with `EPARSE` and nothing changes.
pub open spec fn register_outcome(before: Set<Seq<char>>, after: Set<Seq<char>>, id: Seq<char>, r: Result<(), AtpError>) -> bool {
    &&& (r is Ok <==> !before.contains(id))
    &&& (r is Ok ==> after == before.insert(id))
    &&& (r is Err ==> after == before)
    &&& (r matches Err(e) ==> e.code == AtpErrorCode::Eparse
        && e.message@ == "duplicate command id '"@ + id + "'"@)
}

/// A command id is accepted once: after it was accepted, the same id is
/// refused as a duplicate, and the guard stays as it was.
pub proof fn law_replay_refused(
    g0: Set<Seq<char>>, g1: Set<Seq<char>>, g2: Set<Seq<char>>, id: Seq<char>,
    r1: Result<(), AtpError>, r2: Result<(), AtpError>,
)
    requires
        register_outcome(g0, g1, id, r1),
        r1 is Ok,
        register_outcome(g1, g2, id, r2),
    ensures
        r2 matches Err(e) && e.code == AtpErrorCode::Eparse,
        g2 == g1,
{
}

/// The identity a validated token asserts.
#[derive(Debug)]
pub struct TokenClaims {
    /// Identity name.
    pub sub: String,
    pub role: Role,
    pub session_id: String,
}

/// A command that passed validation, with the caller's identity attached.
#[derive(Debug)]
pub struct ValidatedCmd {
    pub cmd: AtpCmd,
    pub caller_identity: String,
    pub caller_role: Role,
    pub caller_session_id: String,
}

/// The error a token failure is reported as: `EEXPIRED` when the reason
/// mentions expiry, `EAUTH` otherwise.
pub fn token_failure(reason: &str) -> (e: AtpError)
    ensures
        seq_contains(reason@, "expired"@) ==> e.code == AtpErrorCode::Eexpired && e.message@ == "token expired"@,
        !seq_contains(reason@, "expired"@) ==> e.code == AtpErrorCode::Eauth
            && e.message@ == "invalid token: "@ + reason@,
{
    if contains(reason, "expired") {
        AtpError::new(AtpErrorCode::Eexpired, "token expired")
    } else {
        let mut m = owned("invalid token: ");
        m.append(reason);
        AtpError::new(AtpErrorCode::Eauth, m.as_str())
    }
}

/// The path a filesystem command targets (`""` when absent).
pub open spec fn fs_target(cmd: AtpCmd) -> Seq<char> {
    match get_str_spec(cmd.body, "path"@) {
        Some(p) => p,
        None => Seq::empty(),
    }
}

/// Every check a command must pass once its token is valid.
pub open spec fn command_permitted(cmd: AtpCmd, claims: TokenClaims, bound_session_id: Seq<char>, is_admin_port: bool) -> bool {
    &&& claims.session_id@ == bound_session_id
    &&& role_at_least(claims.role, domain_min_role_spec(cmd.domain, cmd.op@))
    &&& (!requires_admin_port_spec(cmd.domain, cmd.op@) || is_admin_port)
    &&& (cmd.domain == AtpDomain::Fs ==> !fs_hard_vetoed(fs_target(cmd), cmd.op@))
}

/// Checks after the token: the session id must match this connection, then
/// the domain × role matrix, the admin-port gate, the filesystem vetoes,
/// and finally replay protection.
pub fn authorize_cmd(
    cmd: AtpCmd,
    claims: &TokenClaims,
    replay_guard: &mut ReplayGuard,
    bound_session_id: &str,
    is_admin_port: bool,
) -> (r: Result<ValidatedCmd, AtpError>)
    ensures
        r is Ok <==> command_permitted(cmd, *claims, bound_session_id@, is_admin_port)
            && !old(replay_guard)@.contains(cmd.id@),
        r is Ok ==> final(replay_guard)@ == old(replay_guard)@.insert(cmd.id@),
        r is Err ==> final(replay_guard)@ == old(replay_guard)@,
        r matches Ok(v) ==> v.cmd == cmd && v.caller_identity@ == claims.sub@
            && v.caller_role == claims.role && v.caller_session_id@ == claims.session_id@,
        r matches Err(e) ==> (claims.session_id@ != bound_session_id@ ==> e.code == AtpErrorCode::Esession
            && e.message@ == "session ID mismatch"@),
        r matches Err(e) ==> (claims.session_id@ == bound_session_id@
            && !role_at_least(claims.role, domain_min_role_spec(cmd.domain, cmd.op@)) ==> e.code == AtpErrorCode::Eperm
            && e.message@ == role_denied_message(cmd.domain, cmd.op@, claims.role)),
        r matches Err(e) ==> (claims.session_id@ == bound_session_id@
            && role_at_least(claims.role, domain_min_role_spec(cmd.domain, cmd.op@))
            && requires_admin_port_spec(cmd.domain, cmd.op@) && !is_admin_port ==> e.code == AtpErrorCode::Eperm
            && e.message@ == admin_port_message(cmd.domain, cmd.op@)),
        r matches Err(e) ==> (claims.session_id@ == bound_session_id@
            && role_at_least(claims.role, domain_min_role_spec(cmd.domain, cmd.op@))
            && (!requires_admin_port_spec(cmd.domain, cmd.op@) || is_admin_port)
            && cmd.domain == AtpDomain::Fs && fs_hard_vetoed(fs_target(cmd), cmd.op@) ==> e.code == AtpErrorCode::Eperm
            && e.message@ == veto_message(fs_target(cmd))),
        r matches Err(e) ==> (command_permitted(cmd, *claims, bound_session_id@, is_admin_port)
            ==> e.code == AtpErrorCode::Eparse),
{
    if !str_eq(claims.session_id.as_str(), bound_session_id) {
        return Err(AtpError::new(AtpErrorCode::Esession, "session ID mismatch"));
    }
    match check_domain_role(cmd.domain, cmd.op.as_str(), claims.role) {
        Err(e) => return Err(e),
        Ok(()) => {},
    }
    match check_admin_port(cmd.domain, cmd.op.as_str(), is_admin_port) {
        Err(e) => return Err(e),
        Ok(()) => {},
    }
    if cmd.domain == AtpDomain::Fs {
        let path = match cmd.body.get_str("path") {
            Some(p) => p,
            None => String::new(),
        };
        match check_fs_hard_veto(path.as_str(), cmd.op.as_str()) {
            Err(e) => return Err(e),
            Ok(()) => {},
        }
    }
    match replay_guard.check_and_register(cmd.id.as_str()) {
        Err(e) => return Err(e),
        Ok(()) => {},
    }
    Ok(ValidatedCmd {
        caller_identity: claims.sub.clone(),
        caller_role: claims.role,
        caller_session_id: claims.session_id.clone(),
        cmd,
    })
}

} // verus!
