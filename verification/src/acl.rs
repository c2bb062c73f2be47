//! Access control for protocol commands: the domain × role matrix,
//! resource ownership, hard vetoes on filesystem writes, and the operations
//! reserved to the admin port.

use vstd::prelude::*;
use crate::atp::{AtpDomain, AtpError, AtpErrorCode, domain_label};
use crate::types::{Role, role_at_least, role_name};
use crate::text::{owned, str_eq, starts_with};

verus! {

/// The minimum role for `op` on `domain`.
pub open spec fn domain_min_role_spec(domain: AtpDomain, op: Seq<char>) -> Role {
    match domain {
        AtpDomain::Auth => Role::Guest,
        AtpDomain::Proc => if op == "list"@ {
            Role::Guest
        } else if op == "setcap"@ {
            Role::Operator
        } else {
            Role::User
        },
        AtpDomain::Signal => Role::User,
        AtpDomain::Fs => if op == "read"@ || op == "list"@ || op == "stat"@ {
            Role::Guest
        } else {
            Role::User
        },
        AtpDomain::Snap => if op == "delete"@ { Role::Operator } else { Role::User },
        AtpDomain::Cron => Role::User,
        AtpDomain::Users => if op == "list"@ {
            Role::Operator
        } else if op == "create"@ || op == "update"@ || op == "delete"@ {
            Role::Admin
        } else {
            Role::User
        },
        AtpDomain::Crews => if op == "create"@ || op == "update"@ || op == "delete"@
            || op == "join"@ || op == "leave"@ {
            Role::Admin
        } else {
            Role::Guest
        },
        AtpDomain::Cap => if op == "inspect"@ { Role::Operator } else { Role::Admin },
        AtpDomain::Sys => if is_sys_read_op(op) {
            Role::User
        } else if op == "install"@ || op == "uninstall"@ || op == "update"@ {
            Role::Operator
        } else {
            Role::Admin
        },
        AtpDomain::Pipe => Role::User,
        AtpDomain::Session => Role::User,
    }
}

/// The read-only observability operations of the `sys` domain.
pub open spec fn is_sys_read_op(op: Seq<char>) -> bool {
    op == "status"@ || op == "logs"@ || op == "service-list"@ || op == "tool-list"@
}

/// The operation needs the admin listener.
pub open spec fn requires_admin_port_spec(domain: AtpDomain, op: Seq<char>) -> bool {
    match domain {
        AtpDomain::Cap => true,
        AtpDomain::Sys => !is_sys_read_op(op),
        _ => false,
    }
}

/// A filesystem operation that is refused whatever the caller's role:
/// any write under `/secrets/` or `/proc/`.
pub open spec fn fs_hard_vetoed(path: Seq<char>, op: Seq<char>) -> bool {
    op == "write"@ && ("/secrets/"@.is_prefix_of(path) || "/proc/"@.is_prefix_of(path))
}

/// Message of a domain × role refusal.
pub open spec fn role_denied_message(domain: AtpDomain, op: Seq<char>, caller: Role) -> Seq<char> {
    "role '"@ + role_name(caller) + "' cannot invoke domain '"@ + domain_label(domain)
        + "' op '"@ + op + "'"@
}

/// Message of an ownership refusal.
pub open spec fn ownership_denied_message(caller: Seq<char>, owner: Seq<char>) -> Seq<char> {
    "'"@ + caller + "' cannot access resources owned by '"@ + owner + "'"@
}

/// Message of a hard veto.
pub open spec fn veto_message(path: Seq<char>) -> Seq<char> {
    "writes to '"@ + path + "' are unconditionally forbidden"@
}

/// Message of an admin-port refusal.
pub open spec fn admin_port_message(domain: AtpDomain, op: Seq<char>) -> Seq<char> {
    "domain '"@ + domain_label(domain) + "' op '"@ + op + "' requires admin port 7701"@
}

fn sys_read_op(op: &str) -> (b: bool)
    ensures
        b == is_sys_read_op(op@),
{
    str_eq(op, "status") || str_eq(op, "logs") || str_eq(op, "service-list") || str_eq(op, "tool-list")
}

/// The minimum role required to invoke `op` on `domain`.
pub fn domain_min_role(domain: AtpDomain, op: &str) -> (r: Role)
    ensures
        r == domain_min_role_spec(domain, op@),
{
    match domain {
        AtpDomain::Auth => Role::Guest,
        AtpDomain::Proc => if str_eq(op, "list") {
            Role::Guest
        } else if str_eq(op, "setcap") {
            Role::Operator
        } else {
            Role::User
        },
        AtpDomain::Signal => Role::User,
        AtpDomain::Fs => if str_eq(op, "read") || str_eq(op, "list") || str_eq(op, "stat") {
            Role::Guest
        } else {
            Role::User
        },
        AtpDomain::Snap => if str_eq(op, "delete") { Role::Operator } else { Role::User },
        AtpDomain::Cron => Role::User,
        AtpDomain::Users => if str_eq(op, "list") {
            Role::Operator
        } else if str_eq(op, "create") || str_eq(op, "update") || str_eq(op, "delete") {
            Role::Admin
        } else {
            Role::User
        },
        AtpDomain::Crews => if str_eq(op, "create") || str_eq(op, "update") || str_eq(op, "delete")
            || str_eq(op, "join") || str_eq(op, "leave") {
            Role::Admin
        } else {
            Role::Guest
        },
        AtpDomain::Cap => if str_eq(op, "inspect") { Role::Operator } else { Role::Admin },
        AtpDomain::Sys => if sys_read_op(op) {
            Role::User
        } else if str_eq(op, "install") || str_eq(op, "uninstall") || str_eq(op, "update") {
            Role::Operator
        } else {
            Role::Admin
        },
        AtpDomain::Pipe => Role::User,
        AtpDomain::Session => Role::User,
    }
}

/// Check that `caller` meets the minimum role for `op` on `domain`.
pub fn check_domain_role(domain: AtpDomain, op: &str, caller: Role) -> (r: Result<(), AtpError>)
    ensures
        r is Ok <==> role_at_least(caller, domain_min_role_spec(domain, op@)),
        r matches Err(e) ==> e.code == AtpErrorCode::Eperm && e.detail is None
            && e.message@ == role_denied_message(domain, op@, caller),
{
    let min_role = domain_min_role(domain, op);
    if !caller.at_least(min_role) {
        let mut m = owned("role '");
        m.append(caller.name().as_str());
        m.append("' cannot invoke domain '");
        m.append(domain.label().as_str());
        m.append("' op '");
        m.append(op);
        m.append("'");
        return Err(AtpError::new(AtpErrorCode::Eperm, m.as_str()));
    }
    Ok(())
}

/// Check that `caller_identity` may act on a resource owned by
/// `target_owner`: its own resources, or any resource for `Operator` and up.
pub fn check_ownership(caller_identity: &str, caller_role: Role, target_owner: &str) -> (r: Result<(), AtpError>)
    ensures
        r is Ok <==> (role_at_least(caller_role, Role::Operator) || caller_identity@ == target_owner@),
        r matches Err(e) ==> e.code == AtpErrorCode::Eperm && e.detail is None
            && e.message@ == ownership_denied_message(caller_identity@, target_owner@),
{
    if caller_role.at_least(Role::Operator) {
        return Ok(());
    }
    if str_eq(caller_identity, target_owner) {
        return Ok(());
    }
    let mut m = owned("'");
    m.append(caller_identity);
    m.append("' cannot access resources owned by '");
    m.append(target_owner);
    m.append("'");
    Err(AtpError::new(AtpErrorCode::Eperm, m.as_str()))
}

/// Refuse writes under `/secrets/` or `/proc/` regardless of role.
pub fn check_fs_hard_veto(path: &str, op: &str) -> (r: Result<(), AtpError>)
    ensures
        r is Ok <==> !fs_hard_vetoed(path@, op@),
        r matches Err(e) ==> e.code == AtpErrorCode::Eperm && e.detail is None
            && e.message@ == veto_message(path@),
{
    if !str_eq(op, "write") {
        return Ok(());
    }
    if starts_with(path, "/secrets/") || starts_with(path, "/proc/") {
        let mut m = owned("writes to '");
        m.append(path);
        m.append("' are unconditionally forbidden");
        return Err(AtpError::new(AtpErrorCode::Eperm, m.as_str()));
    }
    Ok(())
}

/// Refuse operations reserved to the admin port when the connection came
/// in on the user port.
pub fn check_admin_port(domain: AtpDomain, op: &str, is_admin_port: bool) -> (r: Result<(), AtpError>)
    ensures
        r is Ok <==> (!requires_admin_port_spec(domain, op@) || is_admin_port),
        r matches Err(e) ==> e.code == AtpErrorCode::Eperm && e.detail is None
            && e.message@ == admin_port_message(domain, op@),
{
    let requires_admin_port = match domain {
        AtpDomain::Cap => true,
        AtpDomain::Sys => !sys_read_op(op),
        _ => false,
    };
    if requires_admin_port && !is_admin_port {
        let mut m = owned("domain '");
        m.append(domain.label().as_str());
        m.append("' op '");
        m.append(op);
        m.append("' requires admin port 7701");
        return Err(AtpError::new(AtpErrorCode::Eperm, m.as_str()));
    }
    Ok(())
}

/// Raising the caller's role never turns an allowed command into a refused
/// one.
pub proof fn law_domain_role_monotone(domain: AtpDomain, op: Seq<char>, lower: Role, higher: Role)
    requires
        role_at_least(higher, lower),
        role_at_least(lower, domain_min_role_spec(domain, op)),
    ensures
        role_at_least(higher, domain_min_role_spec(domain, op)),
{
}

/// An administrator passes the domain × role matrix for every operation.
pub proof fn law_admin_passes_every_domain(domain: AtpDomain, op: Seq<char>)
    ensures
        role_at_least(Role::Admin, domain_min_role_spec(domain, op)),
{
}

/// Every operation of `auth` is open to guests.
pub proof fn law_auth_open_to_guests(op: Seq<char>)
    ensures
        domain_min_role_spec(AtpDomain::Auth, op) == Role::Guest,
{
}

/// Writes under `/secrets/` and `/proc/` are vetoed whatever follows the
/// prefix; reads are never vetoed by this rule.
pub proof fn law_hard_veto(path: Seq<char>, op: Seq<char>)
    ensures
        op == "write"@ && "/secrets/"@.is_prefix_of(path) ==> fs_hard_vetoed(path, op),
        op == "write"@ && "/proc/"@.is_prefix_of(path) ==> fs_hard_vetoed(path, op),
        op != "write"@ ==> !fs_hard_vetoed(path, op),
{
}

/// Only `cap` and the non-read `sys` operations need the admin port; on
/// the admin port every command passes this gate.
pub proof fn law_admin_port_scope(domain: AtpDomain, op: Seq<char>)
    ensures
        domain != AtpDomain::Cap && domain != AtpDomain::Sys ==> !requires_admin_port_spec(domain, op),
        domain == AtpDomain::Sys && is_sys_read_op(op) ==> !requires_admin_port_spec(domain, op),
{
}

/// Only an administrator may create, update or delete user accounts: for
/// these operations of `users`, the matrix admits exactly the `Admin`
/// role, so a `User`, `Operator` or `Guest` caller is refused.
pub proof fn law_user_account_changes_need_admin(op: Seq<char>, caller: Role)
    requires
        op == "create"@ || op == "update"@ || op == "delete"@,
    ensures
        domain_min_role_spec(AtpDomain::Users, op) == Role::Admin,
        role_at_least(caller, domain_min_role_spec(AtpDomain::Users, op)) <==> caller == Role::Admin,
{
    reveal_strlit("list");
    reveal_strlit("create");
    reveal_strlit("update");
    reveal_strlit("delete");
    assert("list"@.len() == 4);
    assert(op.len() == 6);
}

} // verus!
