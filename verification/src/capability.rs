//! Capability groups to tool names: an agent manifest requests groups such
//! as `fs:*`, `kernel:proc` or `workspace:project`; the resolver turns them
//! into the sorted, duplicate-free list of tools and syscalls the agent is
//! granted, always including the tools every agent has.

use vstd::prelude::*;
use crate::text::{owned, str_eq, starts_with, concat2, concat3, chars_of, string_of, chars_lt, str_lt,
    lemma_lt_irreflexive, lemma_lt_transitive, lemma_lt_total};

verus! {

/// A kernel syscall as the syscall registry lists it.
#[derive(Debug)]
pub struct SyscallInfo {
    pub name: String,
    pub domain: String,
}

/// The tools every agent is granted, whatever it requests.
pub open spec fn always_present(t: Seq<char>) -> bool {
    t == "cap/request-tool"@ || t == "cap/escalate"@ || t == "cap/list"@ || t == "job/watch"@
}

/// Position of the first `:` in `s`, or -1.
pub open spec fn colon_at(s: Seq<char>) -> int
    decreases s.len(),
{
    if s.len() == 0 {
        -1
    } else if s[0] == ':' {
        0
    } else {
        let r = colon_at(s.drop_first());
        if r < 0 { -1 } else { r + 1 }
    }
}

/// The namespace of a capability group: what precedes the first `:`, or
/// the whole group.
pub open spec fn cap_ns(cap: Seq<char>) -> Seq<char> {
    if colon_at(cap) >= 0 { cap.subrange(0, colon_at(cap)) } else { cap }
}

/// The filter of a capability group: what follows the first `:`, or `*`.
pub open spec fn cap_filter(cap: Seq<char>) -> Seq<char> {
    if colon_at(cap) >= 0 { cap.subrange(colon_at(cap) + 1, cap.len() as int) } else { "*"@ }
}

/// Group `cap` grants syscall `sc`: `kernel:*` every syscall, `kernel:<d>`
/// those of domain `d`; `<ns>:*` those of domain `ns`, `<ns>:<f>` those of
/// domain `ns` named with the prefix `kernel/<ns>/<f>`.
pub open spec fn syscall_matches(cap: Seq<char>, sc: SyscallInfo) -> bool {
    let ns = cap_ns(cap);
    let f = cap_filter(cap);
    if ns == "kernel"@ {
        f == "*"@ || sc.domain@ == f
    } else {
        sc.domain@ == ns && (f == "*"@ || ("kernel/"@ + ns + "/"@ + f).is_prefix_of(sc.name@))
    }
}

/// The tool-name prefix of group `cap`: `<ns>/` for `<ns>:*`, else `<ns>/<f>`.
pub open spec fn tool_prefix(cap: Seq<char>) -> Seq<char> {
    if cap_filter(cap) == "*"@ {
        cap_ns(cap) + "/"@
    } else {
        cap_ns(cap) + "/"@ + cap_filter(cap)
    }
}

/// Some group among the first `n` of `caps` grants `t` from the syscalls
/// or the tools.
pub open spec fn granted_by(caps: Seq<String>, tools: Seq<String>, syscalls: Seq<SyscallInfo>, n: int, t: Seq<char>) -> bool {
    ||| exists|i: int, j: int| 0 <= i < n && 0 <= j < syscalls.len() && #[trigger] syscalls[j].name@ == t
            && syscall_matches(#[trigger] caps[i]@, syscalls[j])
    ||| exists|i: int, j: int| 0 <= i < n && 0 <= j < tools.len() && #[trigger] tools[j]@ == t
            && tool_prefix(#[trigger] caps[i]@).is_prefix_of(t)
}

/// `t` is granted for `caps`.
pub open spec fn granted(caps: Seq<String>, tools: Seq<String>, syscalls: Seq<SyscallInfo>, t: Seq<char>) -> bool {
    granted_by(caps, tools, syscalls, caps.len() as int, t) || always_present(t)
}

/// `v` holds a string reading `t`.
pub open spec fn holds(v: Seq<String>, t: Seq<char>) -> bool {
    exists|k: int| 0 <= k < v.len() && #[trigger] v[k]@ == t
}

/// `v` is strictly increasing (so free of duplicates).
pub open spec fn strictly_sorted(v: Seq<String>) -> bool {
    forall|i: int, j: int| 0 <= i < j < v.len() ==> chars_lt(#[trigger] v[i]@, #[trigger] v[j]@)
}

/// Add `s` to the sorted set `v`.
fn insert_sorted(v: &mut Vec<String>, s: String)
    requires
        strictly_sorted(old(v)@),
    ensures
        strictly_sorted(final(v)@),
        forall|t: Seq<char>| holds(final(v)@, t) <==> (holds(old(v)@, t) || t == s@),
{
    let ghost v0 = v@;
    let mut p: usize = 0;
    while p < v.len()
        invariant
            v@ == v0,
            p <= v0.len(),
            strictly_sorted(v0),
            forall|k: int| 0 <= k < p ==> chars_lt(#[trigger] v0[k]@, s@),
        ensures
            p <= v0.len(),
            forall|k: int| 0 <= k < p ==> chars_lt(#[trigger] v0[k]@, s@),
            p < v0.len() ==> !chars_lt(v0[p as int]@, s@),
        decreases v0.len() - p,
    {
        if !str_lt(v[p].as_str(), s.as_str()) {
            break;
        }
        p += 1;
    }
    if p < v.len() && str_eq(v[p].as_str(), s.as_str()) {
        assert forall|t: Seq<char>| holds(v@, t) <==> (holds(v0, t) || t == s@) by {
            if t == s@ {
                assert(v0[p as int]@ == t);
            }
        }
        return;
    }
    proof {
        if p < v0.len() {
            lemma_lt_total(v0[p as int]@, s@);
        }
    }
    let ghost sv = s@;
    v.insert(p, s);
    proof {
        assert(v@ == v0.insert(p as int, v@[p as int]));
        assert forall|i: int, j: int| 0 <= i < j < v@.len() implies chars_lt(#[trigger] v@[i]@, #[trigger] v@[j]@) by {
            if j < p {
                assert(v@[i] == v0[i] && v@[j] == v0[j]);
            } else if j == p {
                assert(v@[i] == v0[i]);
            } else if i == p {
                assert(v@[j] == v0[j - 1]);
                if j - 1 > p {
                    assert(chars_lt(v0[p as int]@, v0[j - 1]@));
                    lemma_lt_transitive(sv, v0[p as int]@, v0[j - 1]@);
                }
            } else if i < p {
                assert(v@[i] == v0[i] && v@[j] == v0[j - 1]);
                if i < j - 1 {
                    assert(chars_lt(v0[i]@, v0[j - 1]@));
                } else {
                    assert(false);
                }
            } else {
                assert(v@[i] == v0[i - 1] && v@[j] == v0[j - 1]);
            }
        }
        assert forall|t: Seq<char>| holds(v@, t) <==> (holds(v0, t) || t == sv) by {
            if holds(v@, t) {
                let k = choose|k: int| 0 <= k < v@.len() && #[trigger] v@[k]@ == t;
                if k < p {
                    assert(v0[k]@ == t);
                } else if k > p {
                    assert(v0[k - 1]@ == t);
                }
            }
            if holds(v0, t) {
                let k = choose|k: int| 0 <= k < v0.len() && #[trigger] v0[k]@ == t;
                if k < p {
                    assert(v@[k]@ == t);
                } else {
                    assert(v@[k + 1]@ == t);
                }
            }
            if t == sv {
                assert(v@[p as int]@ == t);
            }
        }
    }
}

/// Split a group at its first `:` into namespace and filter.
fn split_cap(cap: &str) -> (r: (String, String))
    ensures
        r.0@ == cap_ns(cap@),
        r.1@ == cap_filter(cap@),
{
    let cs = chars_of(cap);
    let mut i: usize = 0;
    assert(cs@.skip(0) =~= cs@);
    while i < cs.len()
        invariant
            cs@ == cap@,
            i <= cs@.len(),
            forall|k: int| 0 <= k < i ==> cs@[k] != ':',
            colon_at(cs@) == (if colon_at(cs@.skip(i as int)) < 0 { -1 } else { colon_at(cs@.skip(i as int)) + i }),
        decreases cs@.len() - i,
    {
        assert(cs@.skip(i as int)[0] == cs@[i as int]);
        if cs[i] == ':' {
            let ns = string_of(&cs.as_slice()[0..i]);
            let f = string_of(&cs.as_slice()[i + 1..cs.len()]);
            assert(ns@ =~= cap_ns(cap@));
            assert(f@ =~= cap_filter(cap@));
            return (ns, f);
        }
        assert(cs@.skip(i as int).drop_first() =~= cs@.skip(i + 1));
        i += 1;
    }
    assert(cs@.skip(i as int) =~= Seq::<char>::empty());
    (owned(cap), owned("*"))
}

fn syscall_match(ns: &str, filter: &str, sc: &SyscallInfo) -> (b: bool)
    ensures
        b == ({
            if ns@ == "kernel"@ {
                filter@ == "*"@ || sc.domain@ == filter@
            } else {
                sc.domain@ == ns@ && (filter@ == "*"@ || ("kernel/"@ + ns@ + "/"@ + filter@).is_prefix_of(sc.name@))
            }
        }),
{
    if str_eq(ns, "kernel") {
        str_eq(filter, "*") || str_eq(sc.domain.as_str(), filter)
    } else if str_eq(sc.domain.as_str(), ns) {
        if str_eq(filter, "*") {
            true
        } else {
            let head = concat3("kernel/", ns, "/");
            let prefix = concat2(head.as_str(), filter);
            starts_with(sc.name.as_str(), prefix.as_str())
        }
    } else {
        false
    }
}

/// Turns capability groups into tool names, over a snapshot of the tool
/// and syscall registries.
#[derive(Debug)]
pub struct CapabilityResolver {
    tools: Vec<String>,
    syscalls: Vec<SyscallInfo>,
}

impl CapabilityResolver {
    /// The registered tool names.
    pub closed spec fn tools(&self) -> Seq<String> {
        self.tools@
    }

    /// The registered syscalls.
    pub closed spec fn syscalls(&self) -> Seq<SyscallInfo> {
        self.syscalls@
    }

    /// A resolver over these registered tools and syscalls.
    pub fn new(tools: Vec<String>, syscalls: Vec<SyscallInfo>) -> (r: CapabilityResolver)
        ensures
            r.tools() == tools@,
            r.syscalls() == syscalls@,
    {
        CapabilityResolver { tools, syscalls }
    }

    /// The tools granted for `capabilities`: sorted, without duplicates,
    /// every always-present tool included.
    pub fn resolve(&self, capabilities: &Vec<String>) -> (r: Vec<String>)
        ensures
            strictly_sorted(r@),
            forall|t: Seq<char>| holds(r@, t) <==> granted(capabilities@, self.tools(), self.syscalls(), t),
    {
        let caps = capabilities;
        let mut out: Vec<String> = Vec::new();
        let mut i: usize = 0;
        while i < caps.len()
            invariant
                i <= caps@.len(),
                strictly_sorted(out@),
                forall|t: Seq<char>| holds(out@, t) <==> granted_by(caps@, self.tools@, self.syscalls@, i as int, t),
            decreases caps@.len() - i,
        {
            let (ns, filter) = split_cap(caps[i].as_str());
            let mut j: usize = 0;
            while j < self.syscalls.len()
                invariant
                    i < caps@.len(),
                    j <= self.syscalls@.len(),
                    ns@ == cap_ns(caps@[i as int]@),
                    filter@ == cap_filter(caps@[i as int]@),
                    strictly_sorted(out@),
                    forall|t: Seq<char>| holds(out@, t) <==> (granted_by(caps@, self.tools@, self.syscalls@, i as int, t)
                        || exists|jj: int| 0 <= jj < j && #[trigger] self.syscalls@[jj].name@ == t
                            && syscall_matches(caps@[i as int]@, self.syscalls@[jj])),
                decreases self.syscalls@.len() - j,
            {
                let sc = &self.syscalls[j];
                if syscall_match(ns.as_str(), filter.as_str(), sc) {
                    let ghost before = out@;
                    insert_sorted(&mut out, sc.name.clone());
                    assert forall|t: Seq<char>| holds(out@, t) <==> (granted_by(caps@, self.tools@, self.syscalls@, i as int, t)
                        || exists|jj: int| 0 <= jj < j + 1 && #[trigger] self.syscalls@[jj].name@ == t
                            && syscall_matches(caps@[i as int]@, self.syscalls@[jj])) by {
                        if t == sc.name@ {
                            assert(self.syscalls@[j as int].name@ == t);
                        }
                    }
                }
                j += 1;
            }
            let prefix = if str_eq(filter.as_str(), "*") {
                concat2(ns.as_str(), "/")
            } else {
                concat3(ns.as_str(), "/", filter.as_str())
            };
            assert(prefix@ == tool_prefix(caps@[i as int]@));
            let mut k: usize = 0;
            while k < self.tools.len()
                invariant
                    i < caps@.len(),
                    k <= self.tools@.len(),
                    prefix@ == tool_prefix(caps@[i as int]@),
                    strictly_sorted(out@),
                    forall|t: Seq<char>| holds(out@, t) <==> (granted_by(caps@, self.tools@, self.syscalls@, i as int, t)
                        || (exists|jj: int| 0 <= jj < self.syscalls@.len() && #[trigger] self.syscalls@[jj].name@ == t
                            && syscall_matches(caps@[i as int]@, self.syscalls@[jj]))
                        || (exists|kk: int| 0 <= kk < k && #[trigger] self.tools@[kk]@ == t
                            && tool_prefix(caps@[i as int]@).is_prefix_of(t))),
                decreases self.tools@.len() - k,
            {
                let name = &self.tools[k];
                if starts_with(name.as_str(), prefix.as_str()) {
                    insert_sorted(&mut out, name.clone());
                    assert forall|t: Seq<char>| holds(out@, t) <==> (granted_by(caps@, self.tools@, self.syscalls@, i as int, t)
                        || (exists|jj: int| 0 <= jj < self.syscalls@.len() && #[trigger] self.syscalls@[jj].name@ == t
                            && syscall_matches(caps@[i as int]@, self.syscalls@[jj]))
                        || (exists|kk: int| 0 <= kk < k + 1 && #[trigger] self.tools@[kk]@ == t
                            && tool_prefix(caps@[i as int]@).is_prefix_of(t))) by {
                        if t == name@ {
                            assert(self.tools@[k as int]@ == t);
                        }
                    }
                }
                k += 1;
            }
            assert forall|t: Seq<char>| holds(out@, t) <==> granted_by(caps@, self.tools@, self.syscalls@, i + 1, t) by {
                if granted_by(caps@, self.tools@, self.syscalls@, i + 1, t) {
                    if exists|ii: int, jj: int| 0 <= ii < i + 1 && 0 <= jj < self.syscalls@.len()
                        && #[trigger] self.syscalls@[jj].name@ == t && syscall_matches(#[trigger] caps@[ii]@, self.syscalls@[jj]) {
                        let (ii, jj) = choose|ii: int, jj: int| 0 <= ii < i + 1 && 0 <= jj < self.syscalls@.len()
                            && #[trigger] self.syscalls@[jj].name@ == t && syscall_matches(#[trigger] caps@[ii]@, self.syscalls@[jj]);
                        if ii < i {
                            assert(granted_by(caps@, self.tools@, self.syscalls@, i as int, t));
                        }
                    } else {
                        let (ii, kk) = choose|ii: int, kk: int| 0 <= ii < i + 1 && 0 <= kk < self.tools@.len()
                            && #[trigger] self.tools@[kk]@ == t && tool_prefix(#[trigger] caps@[ii]@).is_prefix_of(t);
                        if ii < i {
                            assert(granted_by(caps@, self.tools@, self.syscalls@, i as int, t));
                        }
                    }
                }
            }
            i += 1;
        }
        insert_sorted(&mut out, owned("cap/request-tool"));
        insert_sorted(&mut out, owned("cap/escalate"));
        insert_sorted(&mut out, owned("cap/list"));
        insert_sorted(&mut out, owned("job/watch"));
        out
    }
}

/// The first `:` of `p + ":" + q` is the one after `p`, when `p` has none.
proof fn lemma_colon_after(p: Seq<char>, q: Seq<char>)
    requires
        forall|i: int| 0 <= i < p.len() ==> p[i] != ':',
    ensures
        colon_at(p + seq![':'] + q) == p.len(),
    decreases p.len(),
{
    let s = p + seq![':'] + q;
    if p.len() == 0 {
        assert(s[0] == ':');
    } else {
        assert(s[0] == p[0]);
        assert(s.drop_first() =~= p.drop_first() + seq![':'] + q);
        lemma_colon_after(p.drop_first(), q);
    }
}

/// Requesting `kernel:<d>` grants the same as requesting `<d>:*` for a
/// syscall domain `d`: both grant the syscalls of domain `d` (and the
/// always-present tools), as long as no registered tool is named under
/// `kernel/<d>` or `<d>/`, the tool prefixes the two groups differ in.
pub proof fn law_kernel_domain_group_equals_namespace_group(
    c1: String,
    c2: String,
    d: Seq<char>,
    tools: Seq<String>,
    syscalls: Seq<SyscallInfo>,
    t: Seq<char>,
)
    requires
        c1@ == "kernel:"@ + d,
        c2@ == d + ":*"@,
        forall|i: int| 0 <= i < d.len() ==> d[i] != ':',
        d != "kernel"@,
        d != "*"@,
        forall|j: int| 0 <= j < tools.len() ==> !("kernel/"@ + d).is_prefix_of(#[trigger] tools[j]@)
            && !(d + "/"@).is_prefix_of(tools[j]@),
    ensures
        granted(seq![c1], tools, syscalls, t) <==> granted(seq![c2], tools, syscalls, t),
{
    reveal_strlit("kernel:");
    reveal_strlit(":*");
    reveal_strlit("kernel");
    reveal_strlit("*");
    reveal_strlit("kernel/");
    reveal_strlit("/");
    let k = "kernel"@;
    assert("kernel:"@ + d =~= k + seq![':'] + d);
    assert(d + ":*"@ =~= d + seq![':'] + "*"@);
    lemma_colon_after(k, d);
    lemma_colon_after(d, "*"@);
    assert(cap_ns(c1@) =~= k);
    assert(cap_filter(c1@) =~= d);
    assert(cap_ns(c2@) =~= d);
    assert(cap_filter(c2@) =~= "*"@);
    assert(tool_prefix(c1@) =~= "kernel/"@ + d);
    assert(tool_prefix(c2@) =~= d + "/"@);
    let caps1 = seq![c1];
    let caps2 = seq![c2];
    assert(caps1[0] == c1 && caps2[0] == c2);
    assert forall|sc: SyscallInfo| syscall_matches(c1@, sc) <==> syscall_matches(c2@, sc) by {}
    if granted_by(caps1, tools, syscalls, 1, t) {
        if exists|i: int, j: int| 0 <= i < 1 && 0 <= j < syscalls.len() && #[trigger] syscalls[j].name@ == t
            && syscall_matches(#[trigger] caps1[i]@, syscalls[j]) {
            let (i, j) = choose|i: int, j: int| 0 <= i < 1 && 0 <= j < syscalls.len() && #[trigger] syscalls[j].name@ == t
                && syscall_matches(#[trigger] caps1[i]@, syscalls[j]);
            assert(syscall_matches(caps2[0]@, syscalls[j]));
        } else {
            let (i, j) = choose|i: int, j: int| 0 <= i < 1 && 0 <= j < tools.len() && #[trigger] tools[j]@ == t
                && tool_prefix(#[trigger] caps1[i]@).is_prefix_of(t);
            assert(!("kernel/"@ + d).is_prefix_of(tools[j]@));
        }
    }
    if granted_by(caps2, tools, syscalls, 1, t) {
        if exists|i: int, j: int| 0 <= i < 1 && 0 <= j < syscalls.len() && #[trigger] syscalls[j].name@ == t
            && syscall_matches(#[trigger] caps2[i]@, syscalls[j]) {
            let (i, j) = choose|i: int, j: int| 0 <= i < 1 && 0 <= j < syscalls.len() && #[trigger] syscalls[j].name@ == t
                && syscall_matches(#[trigger] caps2[i]@, syscalls[j]);
            assert(syscall_matches(caps1[0]@, syscalls[j]));
        } else {
            let (i, j) = choose|i: int, j: int| 0 <= i < 1 && 0 <= j < tools.len() && #[trigger] tools[j]@ == t
                && tool_prefix(#[trigger] caps2[i]@).is_prefix_of(t);
            assert(!(d + "/"@).is_prefix_of(tools[j]@));
        }
    }
}

/// Two strictly sorted lists that hold the same strings are the same list.
proof fn lemma_sorted_same_contents(a: Seq<String>, b: Seq<String>)
    requires
        strictly_sorted(a),
        strictly_sorted(b),
        forall|t: Seq<char>| holds(a, t) <==> holds(b, t),
    ensures
        a.len() == b.len(),
        forall|k: int| 0 <= k < a.len() ==> #[trigger] a[k]@ == b[k]@,
    decreases a.len(),
{
    if a.len() == 0 {
        if b.len() > 0 {
            assert(holds(b, b[0]@));
        }
    } else if b.len() == 0 {
        assert(holds(a, a[0]@));
    } else {
        assert(holds(a, a[0]@));
        assert(holds(b, b[0]@));
        let k = choose|k: int| 0 <= k < b.len() && #[trigger] b[k]@ == a[0]@;
        let m = choose|m: int| 0 <= m < a.len() && #[trigger] a[m]@ == b[0]@;
        if k > 0 {
            assert(chars_lt(b[0]@, b[k]@));
            if m > 0 {
                assert(chars_lt(a[0]@, a[m]@));
                lemma_lt_transitive(a[0]@, b[0]@, a[0]@);
                lemma_lt_irreflexive(a[0]@);
            } else {
                lemma_lt_irreflexive(a[0]@);
            }
        }
        assert(a[0]@ == b[0]@);
        let a1 = a.drop_first();
        let b1 = b.drop_first();
        assert forall|t: Seq<char>| holds(a1, t) <==> holds(b1, t) by {
            if holds(a1, t) {
                let i = choose|i: int| 0 <= i < a1.len() && #[trigger] a1[i]@ == t;
                assert(a[i + 1]@ == t);
                assert(holds(a, t));
                let j = choose|j: int| 0 <= j < b.len() && #[trigger] b[j]@ == t;
                assert(chars_lt(a[0]@, a[i + 1]@));
                if j == 0 {
                    lemma_lt_irreflexive(t);
                }
                assert(b1[j - 1]@ == t);
            }
            if holds(b1, t) {
                let i = choose|i: int| 0 <= i < b1.len() && #[trigger] b1[i]@ == t;
                assert(b[i + 1]@ == t);
                assert(holds(b, t));
                let j = choose|j: int| 0 <= j < a.len() && #[trigger] a[j]@ == t;
                assert(chars_lt(b[0]@, b[i + 1]@));
                if j == 0 {
                    lemma_lt_irreflexive(t);
                }
                assert(a1[j - 1]@ == t);
            }
        }
        lemma_sorted_same_contents(a1, b1);
        assert forall|k: int| 0 <= k < a.len() implies #[trigger] a[k]@ == b[k]@ by {
            if k > 0 {
                assert(a1[k - 1]@ == b1[k - 1]@);
            }
        }
    }
}

/// Resolving `kernel:<d>` and resolving `<d>:*` give the same list, under
/// the conditions of `law_kernel_domain_group_equals_namespace_group`:
/// `r1` and `r2` are what `resolve` returns for the two requests over the
/// same registries.
pub proof fn law_kernel_domain_resolves_as_namespace(
    c1: String,
    c2: String,
    d: Seq<char>,
    tools: Seq<String>,
    syscalls: Seq<SyscallInfo>,
    r1: Seq<String>,
    r2: Seq<String>,
)
    requires
        c1@ == "kernel:"@ + d,
        c2@ == d + ":*"@,
        forall|i: int| 0 <= i < d.len() ==> d[i] != ':',
        d != "kernel"@,
        d != "*"@,
        forall|j: int| 0 <= j < tools.len() ==> !("kernel/"@ + d).is_prefix_of(#[trigger] tools[j]@)
            && !(d + "/"@).is_prefix_of(tools[j]@),
        strictly_sorted(r1),
        forall|t: Seq<char>| holds(r1, t) <==> granted(seq![c1], tools, syscalls, t),
        strictly_sorted(r2),
        forall|t: Seq<char>| holds(r2, t) <==> granted(seq![c2], tools, syscalls, t),
    ensures
        r1.len() == r2.len(),
        forall|k: int| 0 <= k < r1.len() ==> #[trigger] r1[k]@ == r2[k]@,
{
    assert forall|t: Seq<char>| holds(r1, t) <==> holds(r2, t) by {
        law_kernel_domain_group_equals_namespace_group(c1, c2, d, tools, syscalls, t);
    }
    lemma_sorted_same_contents(r1, r2);
}

} // verus!
