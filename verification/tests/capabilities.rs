//! Capability groups resolved to tool and syscall names, and the tools a
//! new agent is granted.

use avix_core::agents::granted_tools;
use avix_core::capability::{CapabilityResolver, SyscallInfo};

const ALWAYS_PRESENT: [&str; 4] = ["cap/request-tool", "cap/escalate", "cap/list", "job/watch"];

fn syscalls() -> Vec<SyscallInfo> {
    vec![
        SyscallInfo { name: "kernel/proc/spawn".into(), domain: "proc".into() },
        SyscallInfo { name: "kernel/proc/kill".into(), domain: "proc".into() },
        SyscallInfo { name: "kernel/fs/read".into(), domain: "fs".into() },
        SyscallInfo { name: "kernel/cap/list".into(), domain: "cap".into() },
    ]
}

fn resolver(tools: &[&str]) -> CapabilityResolver {
    CapabilityResolver::new(tools.iter().map(|s| s.to_string()).collect(), syscalls())
}

fn resolve(tools: &[&str], caps: &[&str]) -> Vec<String> {
    resolver(tools).resolve(&caps.iter().map(|s| s.to_string()).collect())
}

fn has(v: &[String], t: &str) -> bool {
    v.iter().any(|x| x == t)
}

#[test]
fn resolve_fs_star_matches_fs_tools() {
    let tools = resolve(&["fs/read", "fs/write", "llm/complete"], &["fs:*"]);
    assert!(has(&tools, "fs/read"));
    assert!(has(&tools, "fs/write"));
    assert!(!has(&tools, "llm/complete"));
    // `fs:*` also grants the syscalls of domain `fs`
    assert!(has(&tools, "kernel/fs/read"));
}

#[test]
fn resolve_kernel_star_matches_all_syscalls() {
    let tools = resolve(&[], &["kernel:*"]);
    for sc in syscalls() {
        assert!(has(&tools, &sc.name), "missing syscall {}", sc.name);
    }
}

#[test]
fn resolve_kernel_proc_filter_matches_proc_domain() {
    let tools = resolve(&[], &["kernel:proc"]);
    assert!(has(&tools, "kernel/proc/spawn"));
    assert!(has(&tools, "kernel/proc/kill"));
    for t in &tools {
        if !ALWAYS_PRESENT.contains(&t.as_str()) {
            assert!(t.starts_with("kernel/proc/"), "unexpected non-proc tool in result: {t}");
        }
    }
}

#[test]
fn resolve_proc_star_matches_proc_domain_syscalls() {
    let r = resolver(&[]);
    let by_kernel = r.resolve(&vec!["kernel:proc".to_string()]);
    let by_proc = r.resolve(&vec!["proc:*".to_string()]);
    assert_eq!(by_kernel, by_proc);
}

#[test]
fn resolve_specific_syscall_filter() {
    let tools = resolve(&[], &["proc:spawn"]);
    assert!(has(&tools, "kernel/proc/spawn"));
    assert!(!has(&tools, "kernel/proc/kill"));
}

#[test]
fn resolve_nested_tool_names() {
    let names = ["workspace/project/list", "workspace/project/create", "workspace/create-project"];
    let project_tools = resolve(&names, &["workspace:project"]);
    assert!(has(&project_tools, "workspace/project/list"));
    assert!(has(&project_tools, "workspace/project/create"));
    assert!(!has(&project_tools, "workspace/create-project"));

    let all_tools = resolve(&names, &["workspace:*"]);
    for n in names {
        assert!(has(&all_tools, n));
    }
}

#[test]
fn resolve_empty_capabilities_returns_only_always_present() {
    let tools = resolve(&["fs/read", "llm/complete"], &[]);
    for ap in ALWAYS_PRESENT {
        assert!(has(&tools, ap));
    }
    assert!(!has(&tools, "fs/read"));
    assert_eq!(tools.len(), ALWAYS_PRESENT.len());
    // sorted
    assert_eq!(tools, vec!["cap/escalate", "cap/list", "cap/request-tool", "job/watch"]);
}

#[test]
fn resolve_deduplicates_overlapping_groups() {
    let tools = resolve(&["fs/read", "fs/write"], &["fs:*", "fs:read"]);
    assert_eq!(tools.iter().filter(|t| *t == "fs/read").count(), 1);
}

#[test]
fn result_is_strictly_sorted() {
    let tools = resolve(&["zeta/x", "alpha/y", "fs/read"], &["zeta:*", "alpha:*", "fs:*", "kernel:*"]);
    for w in tools.windows(2) {
        assert!(w[0] < w[1], "{} !< {}", w[0], w[1]);
    }
}

#[test]
fn group_without_colon_is_a_wildcard() {
    let tools = resolve(&["fs/read", "fsx/read"], &["fs"]);
    assert!(has(&tools, "fs/read"));
    assert!(!has(&tools, "fsx/read"));
}

#[test]
fn granted_tools_without_resolver_is_always_present_list() {
    let tools = granted_tools(Some(vec!["fs:*".into()]), None);
    assert_eq!(tools, vec!["cap/request-tool", "cap/escalate", "cap/list", "job/watch"]);
}

#[test]
fn granted_tools_with_resolver_resolves() {
    let r = resolver(&["fs/read"]);
    let tools = granted_tools(Some(vec!["fs:*".into()]), Some(&r));
    assert!(has(&tools, "fs/read"));
    let none_requested = granted_tools(None, Some(&r));
    assert_eq!(none_requested.len(), 4);
}
