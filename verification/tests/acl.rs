//! Access-control rules: the domain × role matrix, ownership, hard vetoes
//! and the admin port.

use avix_core::acl::{check_admin_port, check_domain_role, check_fs_hard_veto, check_ownership};
use avix_core::atp::AtpDomain;
use avix_core::types::Role;


// ── domain × role matrix ───────────────────────────────────────────────────

#[test]
fn guest_can_list_proc() {
    assert!(check_domain_role(AtpDomain::Proc, "list", Role::Guest).is_ok());
}

#[test]
fn guest_cannot_spawn() {
    assert!(check_domain_role(AtpDomain::Proc, "spawn", Role::Guest).is_err());
}

#[test]
fn user_can_spawn() {
    assert!(check_domain_role(AtpDomain::Proc, "spawn", Role::User).is_ok());
}

#[test]
fn user_cannot_setcap() {
    assert!(check_domain_role(AtpDomain::Proc, "setcap", Role::User).is_err());
}

#[test]
fn operator_can_setcap() {
    assert!(check_domain_role(AtpDomain::Proc, "setcap", Role::Operator).is_ok());
}

#[test]
fn guest_cannot_write_fs() {
    assert!(check_domain_role(AtpDomain::Fs, "write", Role::Guest).is_err());
}

#[test]
fn guest_can_read_fs() {
    assert!(check_domain_role(AtpDomain::Fs, "read", Role::Guest).is_ok());
}

#[test]
fn guest_can_stat_fs() {
    assert!(check_domain_role(AtpDomain::Fs, "stat", Role::Guest).is_ok());
}

#[test]
fn user_cannot_list_users() {
    assert!(check_domain_role(AtpDomain::Users, "list", Role::User).is_err());
}

#[test]
fn operator_can_list_users() {
    assert!(check_domain_role(AtpDomain::Users, "list", Role::Operator).is_ok());
}

#[test]
fn user_cannot_create_user() {
    assert!(check_domain_role(AtpDomain::Users, "create", Role::User).is_err());
}

#[test]
fn admin_can_create_user() {
    assert!(check_domain_role(AtpDomain::Users, "create", Role::Admin).is_ok());
}

#[test]
fn admin_can_delete_user() {
    assert!(check_domain_role(AtpDomain::Users, "delete", Role::Admin).is_ok());
}

#[test]
fn user_can_get_own_user() {
    assert!(check_domain_role(AtpDomain::Users, "get", Role::User).is_ok());
}

#[test]
fn guest_can_list_crews() {
    assert!(check_domain_role(AtpDomain::Crews, "list", Role::Guest).is_ok());
}

#[test]
fn user_cannot_create_crew() {
    assert!(check_domain_role(AtpDomain::Crews, "create", Role::User).is_err());
}

#[test]
fn admin_can_create_crew() {
    assert!(check_domain_role(AtpDomain::Crews, "create", Role::Admin).is_ok());
}

#[test]
fn operator_can_inspect_cap() {
    assert!(check_domain_role(AtpDomain::Cap, "inspect", Role::Operator).is_ok());
}

#[test]
fn operator_cannot_grant_cap() {
    assert!(check_domain_role(AtpDomain::Cap, "grant", Role::Operator).is_err());
}

#[test]
fn admin_can_grant_cap() {
    assert!(check_domain_role(AtpDomain::Cap, "grant", Role::Admin).is_ok());
}

#[test]
fn user_can_view_sys_status() {
    assert!(check_domain_role(AtpDomain::Sys, "status", Role::User).is_ok());
}

#[test]
fn user_can_list_services() {
    assert!(check_domain_role(AtpDomain::Sys, "service-list", Role::User).is_ok());
}

#[test]
fn user_can_list_tools() {
    assert!(check_domain_role(AtpDomain::Sys, "tool-list", Role::User).is_ok());
}

#[test]
fn guest_cannot_list_services() {
    assert!(check_domain_role(AtpDomain::Sys, "service-list", Role::Guest).is_err());
}

#[test]
fn user_cannot_shutdown() {
    assert!(check_domain_role(AtpDomain::Sys, "shutdown", Role::User).is_err());
}

#[test]
fn admin_can_shutdown() {
    assert!(check_domain_role(AtpDomain::Sys, "shutdown", Role::Admin).is_ok());
}

#[test]
fn user_can_open_pipe() {
    assert!(check_domain_role(AtpDomain::Pipe, "open", Role::User).is_ok());
}

#[test]
fn user_can_manage_session() {
    assert!(check_domain_role(AtpDomain::Session, "create", Role::User).is_ok());
}

#[test]
fn guest_cannot_send_signal() {
    assert!(check_domain_role(AtpDomain::Signal, "send", Role::Guest).is_err());
}

#[test]
fn user_can_delete_own_snap() {
    assert!(check_domain_role(AtpDomain::Snap, "create", Role::User).is_ok());
}

#[test]
fn user_cannot_delete_snap() {
    assert!(check_domain_role(AtpDomain::Snap, "delete", Role::User).is_err());
}

#[test]
fn operator_can_delete_snap() {
    assert!(check_domain_role(AtpDomain::Snap, "delete", Role::Operator).is_ok());
}

// ── ownership ─────────────────────────────────────────────────────────────

#[test]
fn user_can_target_own_resource() {
    assert!(check_ownership("alice", Role::User, "alice").is_ok());
}

#[test]
fn user_cannot_target_other_resource() {
    assert!(check_ownership("alice", Role::User, "bob").is_err());
}

#[test]
fn operator_can_target_any_resource() {
    assert!(check_ownership("alice", Role::Operator, "bob").is_ok());
}

#[test]
fn admin_can_target_any_resource() {
    assert!(check_ownership("alice", Role::Admin, "bob").is_ok());
}

// ── hard vetoes ───────────────────────────────────────────────────────────

#[test]
fn write_to_secrets_always_blocked() {
    assert!(check_fs_hard_veto(r#"/secrets/api_key"#, "write").is_err());
}

#[test]
fn write_to_proc_always_blocked() {
    assert!(check_fs_hard_veto(r#"/proc/57/status.yaml"#, "write").is_err());
}

#[test]
fn read_from_secrets_not_vetoed_here() {
    // /secrets/ read EPERM is enforced by VFS, not this check
    assert!(check_fs_hard_veto(r#"/secrets/api_key"#, "read").is_ok());
}

#[test]
fn write_to_users_not_vetoed() {
    assert!(check_fs_hard_veto(r#"/users/alice/data.yaml"#, "write").is_ok());
}

#[test]
fn read_from_proc_not_vetoed() {
    assert!(check_fs_hard_veto(r#"/proc/57/status.yaml"#, "read").is_ok());
}

// ── admin port ────────────────────────────────────────────────────────────

#[test]
fn cap_domain_requires_admin_port() {
    assert!(check_admin_port(AtpDomain::Cap, "grant", false).is_err());
}

#[test]
fn cap_domain_allowed_on_admin_port() {
    assert!(check_admin_port(AtpDomain::Cap, "grant", true).is_ok());
}

#[test]
fn cap_inspect_requires_admin_port() {
    assert!(check_admin_port(AtpDomain::Cap, "inspect", false).is_err());
}

#[test]
fn sys_status_allowed_on_user_port() {
    assert!(check_admin_port(AtpDomain::Sys, "status", false).is_ok());
}

#[test]
fn sys_logs_allowed_on_user_port() {
    assert!(check_admin_port(AtpDomain::Sys, "logs", false).is_ok());
}

#[test]
fn sys_service_list_allowed_on_user_port() {
    assert!(check_admin_port(AtpDomain::Sys, "service-list", false).is_ok());
}

#[test]
fn sys_tool_list_allowed_on_user_port() {
    assert!(check_admin_port(AtpDomain::Sys, "tool-list", false).is_ok());
}

#[test]
fn sys_shutdown_requires_admin_port() {
    assert!(check_admin_port(AtpDomain::Sys, "shutdown", false).is_err());
}

#[test]
fn sys_reload_requires_admin_port() {
    assert!(check_admin_port(AtpDomain::Sys, "reload", false).is_err());
}

#[test]
fn sys_shutdown_allowed_on_admin_port() {
    assert!(check_admin_port(AtpDomain::Sys, "shutdown", true).is_ok());
}

#[test]
fn proc_domain_never_requires_admin_port() {
    assert!(check_admin_port(AtpDomain::Proc, "spawn", false).is_ok());
}

#[test]
fn fs_domain_never_requires_admin_port() {
    assert!(check_admin_port(AtpDomain::Fs, "write", false).is_ok());
}
