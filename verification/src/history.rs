//! Conversation history: messages of a session and the typed parts of each
//! message, with how they are built, selected and ordered.

use vstd::prelude::*;
use crate::ids::new_uuid_v4;
use crate::json::{Json, json_get, get_str_spec, member_count};
use crate::seqs::{filtered, lemma_filtered_insert, lemma_filtered_take_step};
use crate::text::{owned, str_eq};

verus! {

/// Who wrote a message.
#[derive(Clone, Copy, Debug, PartialEq, Eq, Structural)]
pub enum Role {
    User,
    Assistant,
    Tool,
    System,
}

/// One message of a session; ids are UUID text, the time RFC 3339 text.
#[derive(Debug)]
pub struct MessageRecord {
    pub id: String,
    pub session_id: String,
    /// Position within the session (increasing).
    pub sequence: u64,
    pub role: Role,
    pub timestamp: String,
    pub content: String,
    pub tokens: Option<u64>,
}

/// What a part holds.
#[derive(Clone, Copy, Debug, PartialEq, Eq, Structural)]
pub enum PartType {
    Text,
    ToolCall,
    FileDiff,
    CodeBlock,
    Thought,
    Image,
    Embedding,
    Summary,
}

/// A typed part of a message; `data` depends on the type.
#[derive(Debug)]
pub struct PartRecord {
    pub id: String,
    pub message_id: String,
    /// Position within the message, from zero.
    pub part_index: u32,
    pub part_type: PartType,
    pub data: Json,
}

/// `j` is an object reading `s` under `k`.
pub open spec fn has_str(j: Json, k: Seq<char>, s: Seq<char>) -> bool {
    get_str_spec(j, k) == Some(s)
}

/// `j[k]` reads the optional text `s` (`null` when absent).
pub open spec fn has_opt_str(j: Json, k: Seq<char>, s: Option<Seq<char>>) -> bool {
    match s {
        Some(t) => get_str_spec(j, k) == Some(t),
        None => json_get(j, k) == Some(Json::Null),
    }
}

fn opt_str(s: Option<&str>) -> (j: Json)
    ensures
        match s {
            Some(t) => j is Str && j->Str_0@ == t@,
            None => j is Null,
        },
{
    match s {
        Some(t) => Json::string(t),
        None => Json::Null,
    }
}

impl PartRecord {
    fn fresh(message_id: &str, index: u32, part_type: PartType, data: Json) -> (p: PartRecord)
        ensures
            p.message_id@ == message_id@,
            p.part_index == index,
            p.part_type == part_type,
            p.data == data,
            p.id@.len() == 36,
    {
        PartRecord { id: new_uuid_v4(), message_id: owned(message_id), part_index: index, part_type, data }
    }

    /// A text part: `{ content }`.
    pub fn text(message_id: &str, index: u32, content: &str) -> (p: PartRecord)
        ensures
            p.message_id@ == message_id@ && p.part_index == index && p.part_type == PartType::Text,
            p.data is Object && has_str(p.data, "content"@, content@) && member_count(p.data) == 1,
            p.id@.len() == 36,
    {
        let mut d = Json::empty_object();
        d.set("content", Json::string(content));
        PartRecord::fresh(message_id, index, PartType::Text, d)
    }

    /// A tool-call part: `{ call_id, tool_name, args, result }` (`result`
    /// `null` when absent).
    pub fn tool_call(message_id: &str, index: u32, call_id: &str, tool_name: &str, args: Json, result: Option<Json>) -> (p: PartRecord)
        ensures
            p.message_id@ == message_id@ && p.part_index == index && p.part_type == PartType::ToolCall,
            p.data is Object,
            has_str(p.data, "call_id"@, call_id@),
            has_str(p.data, "tool_name"@, tool_name@),
            json_get(p.data, "args"@) == Some(args),
            json_get(p.data, "result"@) == Some(match result { Some(r) => r, None => Json::Null }),
            member_count(p.data) == 4,
            p.id@.len() == 36,
    {
        proof {
            reveal_strlit("call_id"); reveal_strlit("tool_name"); reveal_strlit("args"); reveal_strlit("result");
            assert("call_id"@.len() == 7); assert("tool_name"@.len() == 9); assert("args"@.len() == 4);
            assert("result"@.len() == 6);
        }
        let mut d = Json::empty_object();
        d.set("call_id", Json::string(call_id));
        d.set("tool_name", Json::string(tool_name));
        d.set("args", args);
        d.set("result", match result { Some(r) => r, None => Json::Null });
        PartRecord::fresh(message_id, index, PartType::ToolCall, d)
    }

    /// A file-diff part: `{ path, diff, content }` (absent texts `null`).
    pub fn file_diff(message_id: &str, index: u32, path: &str, diff: Option<&str>, content: Option<&str>) -> (p: PartRecord)
        ensures
            p.message_id@ == message_id@ && p.part_index == index && p.part_type == PartType::FileDiff,
            p.data is Object,
            has_str(p.data, "path"@, path@),
            has_opt_str(p.data, "diff"@, match diff { Some(t) => Some(t@), None => None }),
            has_opt_str(p.data, "content"@, match content { Some(t) => Some(t@), None => None }),
            member_count(p.data) == 3,
            p.id@.len() == 36,
    {
        proof {
            reveal_strlit("path"); reveal_strlit("diff"); reveal_strlit("content");
            assert("path"@.len() == 4); assert("diff"@.len() == 4); assert("content"@.len() == 7);
            assert("path"@[0] != "diff"@[0]);
        }
        let mut d = Json::empty_object();
        d.set("path", Json::string(path));
        d.set("diff", opt_str(diff));
        d.set("content", opt_str(content));
        PartRecord::fresh(message_id, index, PartType::FileDiff, d)
    }

    /// A thought part: `{ reasoning }`.
    pub fn thought(message_id: &str, index: u32, reasoning: &str) -> (p: PartRecord)
        ensures
            p.message_id@ == message_id@ && p.part_index == index && p.part_type == PartType::Thought,
            p.data is Object && has_str(p.data, "reasoning"@, reasoning@) && member_count(p.data) == 1,
            p.id@.len() == 36,
    {
        let mut d = Json::empty_object();
        d.set("reasoning", Json::string(reasoning));
        PartRecord::fresh(message_id, index, PartType::Thought, d)
    }
}

/// Records ordered by a number.
pub trait SortKey {
    spec fn sort_key(&self) -> u64;

    fn key(&self) -> (k: u64)
        ensures
            k == self.sort_key();
}

impl SortKey for MessageRecord {
    open spec fn sort_key(&self) -> u64 {
        self.sequence
    }

    fn key(&self) -> (k: u64) {
        self.sequence
    }
}

impl SortKey for PartRecord {
    open spec fn sort_key(&self) -> u64 {
        self.part_index as u64
    }

    fn key(&self) -> (k: u64) {
        self.part_index as u64
    }
}

/// `s` is in order of its keys.
pub open spec fn key_ordered<T: SortKey>(s: Seq<T>) -> bool {
    forall|i: int, j: int| 0 <= i < j < s.len() ==> (#[trigger] s[i]).sort_key() <= (#[trigger] s[j]).sort_key()
}

/// The elements of `s` with key `k`, in order.
pub open spec fn with_key<T: SortKey>(s: Seq<T>, k: u64) -> Seq<T> {
    filtered(s, |x: T| x.sort_key() == k)
}

/// Order `v` by key, keeping elements with equal keys in their order
/// (a stable sort).
pub fn sort_by_key<T: SortKey>(v: Vec<T>) -> (r: Vec<T>)
    ensures
        key_ordered(r@),
        forall|k: u64| with_key(r@, k) == with_key(v@, k),
{
    let ghost v0 = v@;
    let n = v.len();
    let mut v = v;
    let mut r: Vec<T> = Vec::new();
    let mut i: usize = 0;
    while v.len() > 0
        invariant
            i <= v0.len(),
            v0.len() == n,
            v@ == v0.skip(i as int),
            key_ordered(r@),
            forall|k: u64| with_key(r@, k) == with_key(v0.take(i as int), k),
        decreases v@.len(),
    {
        let x = v.remove(0);
        assert(x == v0[i as int]);
        assert(v@ =~= v0.skip(i + 1));
        let kx = x.key();
        let mut p: usize = 0;
        while p < r.len()
            invariant
                p <= r@.len(),
                key_ordered(r@),
                forall|j: int| 0 <= j < p ==> (#[trigger] r@[j]).sort_key() <= kx,
            ensures
                p <= r@.len(),
                forall|j: int| 0 <= j < p ==> (#[trigger] r@[j]).sort_key() <= kx,
                p < r@.len() ==> r@[p as int].sort_key() > kx,
            decreases r@.len() - p,
        {
            if r[p].key() > kx {
                break;
            }
            p += 1;
        }
        let ghost r0 = r@;
        let ghost xv = x;
        r.insert(p, x);
        proof {
            assert(r@ == r0.insert(p as int, xv));
            assert forall|a: int, b: int| 0 <= a < b < r@.len() implies (#[trigger] r@[a]).sort_key() <= (#[trigger] r@[b]).sort_key() by {
                if b < p {
                    assert(r@[a] == r0[a] && r@[b] == r0[b]);
                } else if b == p {
                    assert(r@[a] == r0[a]);
                } else if a == p {
                    assert(r@[b] == r0[b - 1]);
                    assert(r0[p as int].sort_key() > kx);
                    if b - 1 > p {
                        assert(r0[p as int].sort_key() <= r0[b - 1].sort_key());
                    }
                } else if a < p {
                    assert(r@[a] == r0[a] && r@[b] == r0[b - 1]);
                } else {
                    assert(r@[a] == r0[a - 1] && r@[b] == r0[b - 1]);
                }
            }
            assert forall|k: u64| with_key(r@, k) == with_key(v0.take(i + 1), k) by {
                let pk = |y: T| y.sort_key() == k;
                if xv.sort_key() == k {
                    assert forall|j: int| p <= j < r0.len() implies !pk(#[trigger] r0[j]) by {
                        if j > p {
                            assert(r0[p as int].sort_key() <= r0[j].sort_key());
                        }
                    }
                }
                lemma_filtered_insert(r0, p as int, xv, pk);
                lemma_filtered_take_step(v0, i as int, pk);
                assert(with_key(r@, k) == filtered(r@, pk));
                assert(with_key(r0, k) == filtered(r0, pk));
                assert(with_key(v0.take(i + 1), k) == filtered(v0.take(i + 1), pk));
                assert(with_key(v0.take(i as int), k) == filtered(v0.take(i as int), pk));
            }
        }
        i += 1;
    }
    proof {
        assert(v0.take(i as int) =~= v0) by {
            assert(v0.skip(i as int).len() == 0);
        }
    }
    r
}

/// The messages of session `session_id` among `all`, in order of sequence
/// (messages with the same sequence in the order they were read).
pub fn session_messages(all: Vec<MessageRecord>, session_id: &str) -> (out: Vec<MessageRecord>)
    ensures
        key_ordered(out@),
        forall|k: u64| with_key(out@, k) == with_key(filtered(all@, |m: MessageRecord| m.session_id@ == session_id@), k),
{
    let ghost a0 = all@;
    let n = all.len();
    let ghost keep = |m: MessageRecord| m.session_id@ == session_id@;
    let mut rest = all;
    let mut picked: Vec<MessageRecord> = Vec::new();
    let mut i: usize = 0;
    while rest.len() > 0
        invariant
            i <= a0.len(),
            a0.len() == n,
            rest@ == a0.skip(i as int),
            keep == (|m: MessageRecord| m.session_id@ == session_id@),
            picked@ == filtered(a0.take(i as int), keep),
        decreases rest@.len(),
    {
        proof { lemma_filtered_take_step(a0, i as int, keep); }
        let m = rest.remove(0);
        assert(m == a0[i as int]);
        assert(rest@ =~= a0.skip(i + 1));
        if str_eq(m.session_id.as_str(), session_id) {
            picked.push(m);
        }
        i += 1;
    }
    assert(a0.take(i as int) =~= a0);
    sort_by_key(picked)
}

/// The parts of message `message_id` among `all`, in order of index (parts
/// with the same index in the order they were read).
pub fn message_parts(all: Vec<PartRecord>, message_id: &str) -> (out: Vec<PartRecord>)
    ensures
        key_ordered(out@),
        forall|k: u64| with_key(out@, k) == with_key(filtered(all@, |p: PartRecord| p.message_id@ == message_id@), k),
{
    let ghost a0 = all@;
    let n = all.len();
    let ghost keep = |p: PartRecord| p.message_id@ == message_id@;
    let mut rest = all;
    let mut picked: Vec<PartRecord> = Vec::new();
    let mut i: usize = 0;
    while rest.len() > 0
        invariant
            i <= a0.len(),
            a0.len() == n,
            rest@ == a0.skip(i as int),
            keep == (|p: PartRecord| p.message_id@ == message_id@),
            picked@ == filtered(a0.take(i as int), keep),
        decreases rest@.len(),
    {
        proof { lemma_filtered_take_step(a0, i as int, keep); }
        let p = rest.remove(0);
        assert(p == a0[i as int]);
        assert(rest@ =~= a0.skip(i + 1));
        if str_eq(p.message_id.as_str(), message_id) {
            picked.push(p);
        }
        i += 1;
    }
    assert(a0.take(i as int) =~= a0);
    sort_by_key(picked)
}

/// The parts of type `part_type` among `parts`, in order.
pub fn parts_of_type(parts: Vec<PartRecord>, part_type: PartType) -> (out: Vec<PartRecord>)
    ensures
        out@ == filtered(parts@, |p: PartRecord| p.part_type == part_type),
{
    let ghost a0 = parts@;
    let n = parts.len();
    let ghost keep = |p: PartRecord| p.part_type == part_type;
    let mut rest = parts;
    let mut picked: Vec<PartRecord> = Vec::new();
    let mut i: usize = 0;
    while rest.len() > 0
        invariant
            i <= a0.len(),
            a0.len() == n,
            rest@ == a0.skip(i as int),
            keep == (|p: PartRecord| p.part_type == part_type),
            picked@ == filtered(a0.take(i as int), keep),
        decreases rest@.len(),
    {
        proof { lemma_filtered_take_step(a0, i as int, keep); }
        let p = rest.remove(0);
        assert(p == a0[i as int]);
        assert(rest@ =~= a0.skip(i + 1));
        if p.part_type == part_type {
            picked.push(p);
        }
        i += 1;
    }
    assert(a0.take(i as int) =~= a0);
    picked
}

impl MessageRecord {
    /// A copy of this message.
    pub fn duplicate(&self) -> (m: MessageRecord)
        ensures
            m == *self,
    {
        MessageRecord {
            id: self.id.clone(),
            session_id: self.session_id.clone(),
            sequence: self.sequence,
            role: self.role,
            timestamp: self.timestamp.clone(),
            content: self.content.clone(),
            tokens: self.tokens,
        }
    }
}

} // verus!
