//! Where the kernel, router, agent and service sockets live under the run
//! directory. Paths are `/`-separated strings joined the way
//! `Path::join` joins them on Unix.

use vstd::prelude::*;
use crate::text::{chars_of, string_of, concat2, decimal, u64_to_decimal};
use crate::types::Pid;

verus! {

/// `base` joined with `seg`: an absolute `seg` replaces `base`; otherwise a
/// `/` separates them unless `base` is empty or already ends in one.
pub open spec fn path_join(base: Seq<char>, seg: Seq<char>) -> Seq<char> {
    if seg.len() > 0 && seg[0] == '/' {
        seg
    } else if base.len() == 0 || base.last() == '/' {
        base + seg
    } else {
        base + seq!['/'] + seg
    }
}

/// Join a path segment onto a base path.
pub fn join(base: &str, seg: &str) -> (r: String)
    ensures
        r@ == path_join(base@, seg@),
{
    let vb = chars_of(base);
    let vs = chars_of(seg);
    if vs.len() > 0 && vs[0] == '/' {
        return string_of(vs.as_slice());
    }
    if vb.len() == 0 || vb[vb.len() - 1] == '/' {
        return concat2(base, seg);
    }
    let mut v = vb;
    v.push('/');
    let mut i: usize = 0;
    let ghost v0 = v@;
    while i < vs.len()
        invariant
            i <= vs@.len(),
            v@ == v0 + vs@.take(i as int),
        decreases vs@.len() - i,
    {
        v.push(vs[i]);
        assert(vs@.take(i + 1) =~= vs@.take(i as int).push(vs@[i as int]));
        assert(v0 + vs@.take(i + 1) =~= (v0 + vs@.take(i as int)).push(vs@[i as int]));
        i += 1;
    }
    assert(vs@.take(vs@.len() as int) =~= vs@);
    string_of(v.as_slice())
}

/// Default path of the kernel socket: `<run_dir>/kernel.sock`.
pub fn kernel_sock_path(run_dir: &str) -> (p: String)
    ensures
        p@ == path_join(run_dir@, "kernel.sock"@),
{
    join(run_dir, "kernel.sock")
}

/// Default path of the router socket: `<run_dir>/router.sock`.
pub fn router_sock_path(run_dir: &str) -> (p: String)
    ensures
        p@ == path_join(run_dir@, "router.sock"@),
{
    join(run_dir, "router.sock")
}

/// An agent's signal socket: `<run_dir>/agents/<pid>.sock`.
pub fn agent_sock_path(run_dir: &str, pid: Pid) -> (p: String)
    ensures
        p@ == path_join(path_join(run_dir@, "agents"@), decimal(pid.0 as nat) + ".sock"@),
{
    let dir = join(run_dir, "agents");
    let mut file = u64_to_decimal(pid.as_u64());
    file.append(".sock");
    join(dir.as_str(), file.as_str())
}

/// A named service socket: `<run_dir>/services/<name>.sock`.
pub fn svc_sock_path(run_dir: &str, name: &str) -> (p: String)
    ensures
        p@ == path_join(path_join(run_dir@, "services"@), name@ + ".sock"@),
{
    let dir = join(run_dir, "services");
    let file = concat2(name, ".sock");
    join(dir.as_str(), file.as_str())
}

} // verus!
