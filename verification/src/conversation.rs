//! A run's conversation: its entries, and the JSON-lines text it is kept
//! in (one entry per line; blank lines are skipped when reading).

use vstd::prelude::*;
use crate::json::Json;
use crate::text::{chars_of, string_of, push_char};

verus! {

/// Who spoke in a conversation turn.
#[derive(Clone, Copy, Debug, PartialEq, Eq, Structural)]
pub enum Role {
    User,
    Assistant,
    Tool,
    System,
}

/// A tool call made during a turn.
#[derive(Debug)]
pub struct ToolCallEntry {
    pub id: String,
    pub name: String,
    pub args: Json,
    pub result: Option<Json>,
}

/// A file changed by a turn.
#[derive(Debug)]
pub struct FileDiffEntry {
    pub path: String,
    pub diff: Option<String>,
    pub content: Option<String>,
}

/// One turn of a conversation.
#[derive(Debug)]
pub struct ConversationEntry {
    pub role: Role,
    pub content: String,
    pub tool_calls: Vec<ToolCallEntry>,
    pub files_changed: Vec<FileDiffEntry>,
    pub thought: Option<String>,
}

impl ConversationEntry {
    /// A plain turn: who spoke and what was said.
    pub fn from_role_content(role: Role, content: String) -> (e: ConversationEntry)
        ensures
            e.role == role,
            e.content == content,
            e.tool_calls@.len() == 0,
            e.files_changed@.len() == 0,
            e.thought is None,
    {
        ConversationEntry { role, content, tool_calls: Vec::new(), files_changed: Vec::new(), thought: None }
    }
}

/// The characters with the Unicode `White_Space` property.
pub open spec fn white_space(c: char) -> bool {
    let n = c as int;
    (0x09 <= n <= 0x0D) || n == 0x20 || n == 0x85 || n == 0xA0 || n == 0x1680
        || (0x2000 <= n <= 0x200A) || n == 0x2028 || n == 0x2029 || n == 0x202F || n == 0x205F || n == 0x3000
}

/// Whether `c` has the Unicode `White_Space` property, as
/// `char::is_whitespace` decides it.
fn is_white_space(c: char) -> (b: bool)
    ensures
        b == white_space(c),
{
    let n: u32 = c as u32;
    (0x09 <= n && n <= 0x0D) || n == 0x20 || n == 0x85 || n == 0xA0 || n == 0x1680
        || (0x2000 <= n && n <= 0x200A) || n == 0x2028 || n == 0x2029 || n == 0x202F || n == 0x205F || n == 0x3000
}

/// `line` without one trailing carriage return.
pub open spec fn strip_cr(line: Seq<char>) -> Seq<char> {
    if line.len() > 0 && line.last() == '\r' { line.drop_last() } else { line }
}

/// The lines of `s` still to come after `cur` (the line read so far) and
/// `acc` (the lines done), as `str::lines` gives them: split at `\n`, a
/// `\r` before it dropped, no line after a final `\n`.
pub open spec fn lines_from(s: Seq<char>, cur: Seq<char>, acc: Seq<Seq<char>>) -> Seq<Seq<char>>
    decreases s.len(),
{
    if s.len() == 0 {
        if cur.len() > 0 { acc.push(cur) } else { acc }
    } else if s[0] == '\n' {
        lines_from(s.drop_first(), Seq::empty(), acc.push(strip_cr(cur)))
    } else {
        lines_from(s.drop_first(), cur.push(s[0]), acc)
    }
}

/// The lines of `s`.
pub open spec fn text_lines(s: Seq<char>) -> Seq<Seq<char>> {
    lines_from(s, Seq::empty(), Seq::empty())
}

/// `line` has a character that is not white space.
pub open spec fn not_blank(line: Seq<char>) -> bool {
    exists|i: int| 0 <= i < line.len() && !white_space(#[trigger] line[i])
}

/// The lines of `ls` that are not blank, in order.
pub open spec fn non_blank(ls: Seq<Seq<char>>) -> Seq<Seq<char>>
    decreases ls.len(),
{
    if ls.len() == 0 {
        Seq::empty()
    } else {
        let r = non_blank(ls.drop_last());
        if not_blank(ls.last()) { r.push(ls.last()) } else { r }
    }
}

fn blank(line: &Vec<char>) -> (b: bool)
    ensures
        b == !not_blank(line@),
{
    let mut i: usize = 0;
    while i < line.len()
        invariant
            i <= line@.len(),
            forall|k: int| 0 <= k < i ==> white_space(#[trigger] line@[k]),
        decreases line@.len() - i,
    {
        if !is_white_space(line[i]) {
            return false;
        }
        i += 1;
    }
    true
}

/// The entry lines of a conversation file: its lines, blank ones skipped.
pub fn entry_lines(text: &str) -> (out: Vec<String>)
    ensures
        out@.map_values(|l: String| l@) == non_blank(text_lines(text@)),
{
    let cs = chars_of(text);
    let mut lines: Vec<Vec<char>> = Vec::new();
    let mut cur: Vec<char> = Vec::new();
    let mut i: usize = 0;
    assert(cs@.skip(0) =~= cs@);
    assert(cur@ =~= Seq::<char>::empty());
    assert(lines@.map_values(|l: Vec<char>| l@) =~= Seq::<Seq<char>>::empty());
    while i < cs.len()
        invariant
            cs@ == text@,
            i <= cs@.len(),
            text_lines(text@) == lines_from(cs@.skip(i as int), cur@, lines@.map_values(|l: Vec<char>| l@)),
        decreases cs@.len() - i,
    {
        let ghost rest = cs@.skip(i as int);
        assert(rest[0] == cs@[i as int]);
        assert(rest.drop_first() =~= cs@.skip(i + 1));
        let c = cs[i];
        if c == '\n' {
            let ghost before = lines@.map_values(|l: Vec<char>| l@);
            let n = cur.len();
            let mut done = cur;
            if n > 0 && done[n - 1] == '\r' {
                done.pop();
            }
            assert(done@ == strip_cr(cur@)) by {
                if n > 0 && cur@[n - 1] == '\r' {
                    assert(done@ =~= cur@.drop_last());
                }
            }
            lines.push(done);
            assert(lines@.map_values(|l: Vec<char>| l@) =~= before.push(strip_cr(cur@)));
            cur = Vec::new();
            assert(cur@ =~= Seq::<char>::empty());
        } else {
            cur.push(c);
        }
        i += 1;
    }
    assert(cs@.skip(i as int) =~= Seq::<char>::empty());
    if cur.len() > 0 {
        let ghost before = lines@.map_values(|l: Vec<char>| l@);
        lines.push(cur);
        assert(lines@.map_values(|l: Vec<char>| l@) =~= before.push(lines@[lines@.len() - 1]@));
    }
    let ghost all = lines@.map_values(|l: Vec<char>| l@);
    assert(all == text_lines(text@));
    let mut out: Vec<String> = Vec::new();
    let mut k: usize = 0;
    while k < lines.len()
        invariant
            k <= lines@.len(),
            all == lines@.map_values(|l: Vec<char>| l@),
            out@.map_values(|l: String| l@) == non_blank(all.take(k as int)),
        decreases lines@.len() - k,
    {
        assert(all.take(k + 1).drop_last() =~= all.take(k as int));
        assert(all.take(k + 1).last() == lines@[k as int]@);
        if !blank(&lines[k]) {
            let ghost before = out@.map_values(|l: String| l@);
            out.push(string_of(lines[k].as_slice()));
            assert(out@.map_values(|l: String| l@) =~= before.push(lines@[k as int]@));
        }
        k += 1;
    }
    assert(all.take(all.len() as int) =~= all);
    out
}

/// The text of a conversation file: each entry line followed by `\n`.
pub open spec fn joined_lines(ls: Seq<Seq<char>>) -> Seq<char>
    decreases ls.len(),
{
    if ls.len() == 0 {
        Seq::empty()
    } else {
        joined_lines(ls.drop_last()) + ls.last() + seq!['\n']
    }
}

/// Join entry lines into a conversation file's text.
pub fn join_lines(lines: &Vec<String>) -> (text: String)
    ensures
        text@ == joined_lines(lines@.map_values(|l: String| l@)),
{
    let ghost all = lines@.map_values(|l: String| l@);
    let mut text = String::new();
    let mut k: usize = 0;
    while k < lines.len()
        invariant
            k <= lines@.len(),
            all == lines@.map_values(|l: String| l@),
            text@ == joined_lines(all.take(k as int)),
        decreases lines@.len() - k,
    {
        assert(all.take(k + 1).drop_last() =~= all.take(k as int));
        assert(all.take(k + 1).last() == lines@[k as int]@);
        let cs = chars_of(lines[k].as_str());
        let ghost start = text@;
        let mut j: usize = 0;
        while j < cs.len()
            invariant
                j <= cs@.len(),
                text@ == start + cs@.take(j as int),
            decreases cs@.len() - j,
        {
            push_char(&mut text, cs[j]);
            assert(start + cs@.take(j + 1) =~= (start + cs@.take(j as int)).push(cs@[j as int]));
            j += 1;
        }
        assert(cs@.take(cs@.len() as int) =~= cs@);
        push_char(&mut text, '\n');
        assert(text@ =~= joined_lines(all.take(k + 1)));
        k += 1;
    }
    assert(all.take(all.len() as int) =~= all);
    text
}

proof fn lemma_consume_line(line: Seq<char>, t: Seq<char>, cur: Seq<char>, acc: Seq<Seq<char>>)
    requires
        forall|i: int| 0 <= i < line.len() ==> line[i] != '\n',
    ensures
        lines_from(line + seq!['\n'] + t, cur, acc) == lines_from(t, Seq::empty(), acc.push(strip_cr(cur + line))),
    decreases line.len(),
{
    let s = line + seq!['\n'] + t;
    if line.len() == 0 {
        assert(s[0] == '\n');
        assert(s.drop_first() =~= t);
        assert(cur + line =~= cur);
    } else {
        assert(s[0] == line[0]);
        let rest = line.drop_first();
        assert(s.drop_first() =~= rest + seq!['\n'] + t);
        lemma_consume_line(rest, t, cur.push(line[0]), acc);
        assert(cur.push(line[0]) + rest =~= cur + line);
    }
}

proof fn lemma_lines_of_joined(ls: Seq<Seq<char>>, t: Seq<char>, acc: Seq<Seq<char>>)
    requires
        forall|k: int, i: int| 0 <= k < ls.len() && 0 <= i < ls[k].len() ==> ls[k][i] != '\n',
        forall|k: int| 0 <= k < ls.len() ==> strip_cr(#[trigger] ls[k]) == ls[k],
    ensures
        lines_from(joined_lines(ls) + t, Seq::empty(), acc) == lines_from(t, Seq::empty(), acc + ls),
    decreases ls.len(),
{
    if ls.len() == 0 {
        assert(joined_lines(ls) + t =~= t);
        assert(acc + ls =~= acc);
    } else {
        let last = ls.last();
        let front = ls.drop_last();
        let t2 = last + seq!['\n'] + t;
        assert(joined_lines(ls) + t =~= joined_lines(front) + t2);
        lemma_lines_of_joined(front, t2, acc);
        assert(strip_cr(ls[ls.len() - 1]) == ls[ls.len() - 1]);
        lemma_consume_line(last, t, Seq::empty(), acc + front);
        assert(Seq::<char>::empty() + last =~= last);
        assert((acc + front).push(last) =~= acc + ls);
    }
}

proof fn lemma_non_blank_keeps_all(ls: Seq<Seq<char>>)
    requires
        forall|k: int| 0 <= k < ls.len() ==> not_blank(#[trigger] ls[k]),
    ensures
        non_blank(ls) == ls,
    decreases ls.len(),
{
    if ls.len() > 0 {
        lemma_non_blank_keeps_all(ls.drop_last());
        assert(not_blank(ls[ls.len() - 1]));
        assert(ls.drop_last().push(ls.last()) =~= ls);
    }
}

/// What is written is what is read back: entry lines without line breaks
/// (none ending in a carriage return, none blank), joined into a
/// conversation file, are exactly the entry lines read from it.
pub proof fn law_conversation_roundtrip(ls: Seq<Seq<char>>)
    requires
        forall|k: int, i: int| 0 <= k < ls.len() && 0 <= i < ls[k].len() ==> ls[k][i] != '\n',
        forall|k: int| 0 <= k < ls.len() ==> strip_cr(#[trigger] ls[k]) == ls[k],
        forall|k: int| 0 <= k < ls.len() ==> not_blank(#[trigger] ls[k]),
    ensures
        non_blank(text_lines(joined_lines(ls))) == ls,
{
    lemma_lines_of_joined(ls, Seq::empty(), Seq::empty());
    assert(joined_lines(ls) + Seq::<char>::empty() =~= joined_lines(ls));
    assert(Seq::<Seq<char>>::empty() + ls =~= ls);
    lemma_non_blank_keeps_all(ls);
}

} // verus!
