//! Socket paths under the runtime directory.

use avix_core::platform::{agent_sock_path, kernel_sock_path, router_sock_path, svc_sock_path};
use avix_core::types::Pid;
use std::path::PathBuf;

#[test]
fn kernel_sock_path_is_under_run_dir() {
    let dir = "/run/avix";
    assert_eq!(PathBuf::from(kernel_sock_path(dir)), PathBuf::from("/run/avix/kernel.sock"));
}

#[test]
fn router_sock_path_is_under_run_dir() {
    let dir = "/run/avix";
    assert_eq!(PathBuf::from(router_sock_path(dir)), PathBuf::from("/run/avix/router.sock"));
}

#[test]
fn agent_sock_path_uses_pid() {
    let dir = "/run/avix";
    let pid = Pid::from_u64(57);
    assert_eq!(PathBuf::from(agent_sock_path(dir, pid)), PathBuf::from("/run/avix/agents/57.sock"));
}

#[test]
fn svc_sock_path_uses_name() {
    let dir = "/run/avix";
    assert_eq!(PathBuf::from(svc_sock_path(dir, "github-svc")), PathBuf::from("/run/avix/services/github-svc.sock"));
}

#[test]
fn sock_paths_join_without_doubling_separators() {
    assert_eq!(kernel_sock_path("/run/avix/"), "/run/avix/kernel.sock");
}
