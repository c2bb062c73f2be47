//! A plain JSON value the protocol logic reads and builds. Objects keep
//! their entries in order; a lookup finds the first entry with the key.

use vstd::prelude::*;
use crate::text::{owned, str_eq};

verus! {

/// A JSON number: non-negative integer, negative integer, or any other
/// number kept as its text.
#[derive(Debug)]
pub enum JsonNumber {
    PosInt(u64),
    NegInt(i64),
    Other(String),
}

/// A JSON document.
#[derive(Debug)]
pub enum Json {
    Null,
    Bool(bool),
    Number(JsonNumber),
    Str(String),
    Array(Vec<Json>),
    Object(Vec<(String, Json)>),
}

/// Two numbers with the same reading.
pub open spec fn number_same(a: JsonNumber, b: JsonNumber) -> bool {
    match (a, b) {
        (JsonNumber::PosInt(x), JsonNumber::PosInt(y)) => x == y,
        (JsonNumber::NegInt(x), JsonNumber::NegInt(y)) => x == y,
        (JsonNumber::Other(x), JsonNumber::Other(y)) => x@ == y@,
        _ => false,
    }
}

/// Two documents with the same content: the same shape, numbers, texts
/// and keys, in the same order.
pub open spec fn json_same(a: Json, b: Json) -> bool
    decreases a,
{
    match a {
        Json::Null => b is Null,
        Json::Bool(x) => b == Json::Bool(x),
        Json::Number(x) => b matches Json::Number(y) && number_same(x, y),
        Json::Str(x) => b matches Json::Str(y) && x@ == y@,
        Json::Array(xs) => b matches Json::Array(ys) && xs@.len() == ys@.len()
            && forall|i: int| #![trigger xs@[i]] 0 <= i < xs@.len() ==> json_same(xs@[i], ys@[i]),
        Json::Object(es) => b matches Json::Object(fs) && es@.len() == fs@.len()
            && forall|i: int| #![trigger es@[i]] 0 <= i < es@.len() ==> es@[i].0@ == fs@[i].0@ && json_same(es@[i].1, fs@[i].1),
    }
}

/// Same content is transitive.
pub proof fn lemma_json_same_trans(a: Json, b: Json, c: Json)
    requires
        json_same(a, b),
        json_same(b, c),
    ensures
        json_same(a, c),
    decreases a,
{
    reveal_with_fuel(json_same, 2);
    match a {
        Json::Array(xs) => {
            assert(b is Array);
            let ys = b->Array_0;
            assert(c is Array);
            let zs = c->Array_0;
            assert forall|i: int| #![trigger xs@[i]] 0 <= i < xs@.len() implies json_same(xs@[i], zs@[i]) by {
                assert(decreases_to!(a => a->Array_0));
                assert(decreases_to!(a->Array_0 => a->Array_0@));
                assert(decreases_to!(a->Array_0@ => a->Array_0@[i]));
                assert(json_same(xs@[i], ys@[i]));
                assert(json_same(ys@[i], zs@[i]));
                lemma_json_same_trans(xs@[i], ys@[i], zs@[i]);
            }
        },
        Json::Object(es) => {
            let fs = b->Object_0;
            let gs = c->Object_0;
            assert forall|i: int| #![trigger es@[i]] 0 <= i < es@.len() implies es@[i].0@ == gs@[i].0@ && json_same(es@[i].1, gs@[i].1) by {
                assert(decreases_to!(a => a->Object_0));
                assert(decreases_to!(a->Object_0 => a->Object_0@));
                assert(decreases_to!(a->Object_0@ => a->Object_0@[i]));
                assert(decreases_to!(a->Object_0@[i] => a->Object_0@[i].1));
                assert(json_same(es@[i].1, fs@[i].1));
                assert(json_same(fs@[i].1, gs@[i].1));
                lemma_json_same_trans(es@[i].1, fs@[i].1, gs@[i].1);
            }
        },
        _ => {},
    }
}

/// The value of the first entry whose key is `k`.
pub open spec fn entries_lookup(es: Seq<(String, Json)>, k: Seq<char>) -> Option<Json>
    decreases es.len(),
{
    if es.len() == 0 {
        None
    } else if es[0].0@ == k {
        Some(es[0].1)
    } else {
        entries_lookup(es.drop_first(), k)
    }
}

/// Member `k` of an object; `None` for other values or a missing key.
pub open spec fn json_get(j: Json, k: Seq<char>) -> Option<Json> {
    match j {
        Json::Object(es) => entries_lookup(es@, k),
        _ => None,
    }
}

/// How many members an object has (0 for any other value).
pub open spec fn member_count(j: Json) -> nat {
    match j {
        Json::Object(es) => es@.len(),
        _ => 0,
    }
}

/// The string content of a string value.
pub open spec fn json_as_str(j: Json) -> Option<Seq<char>> {
    match j {
        Json::Str(s) => Some(s@),
        _ => None,
    }
}

/// The value of a non-negative integer.
pub open spec fn json_as_u64(j: Json) -> Option<u64> {
    match j {
        Json::Number(JsonNumber::PosInt(n)) => Some(n),
        _ => None,
    }
}

/// `j[k]` read as a string (missing or non-string gives `None`).
pub open spec fn get_str_spec(j: Json, k: Seq<char>) -> Option<Seq<char>> {
    match json_get(j, k) {
        Some(v) => json_as_str(v),
        None => None,
    }
}

/// `j[k]` read as a `u64`.
pub open spec fn get_u64_spec(j: Json, k: Seq<char>) -> Option<u64> {
    match json_get(j, k) {
        Some(v) => json_as_u64(v),
        None => None,
    }
}

/// `j[k]` read as a bool.
pub open spec fn get_bool_spec(j: Json, k: Seq<char>) -> Option<bool> {
    match json_get(j, k) {
        Some(Json::Bool(b)) => Some(b),
        _ => None,
    }
}

/// Position of the first entry whose key is `k`.
fn find_key(es: &Vec<(String, Json)>, key: &str) -> (r: Option<usize>)
    ensures
        match r {
            Some(i) => i < es@.len() && es@[i as int].0@ == key@
                && forall|j: int| 0 <= j < i ==> es@[j].0@ != key@,
            None => forall|j: int| 0 <= j < es@.len() ==> es@[j].0@ != key@,
        },
{
    let mut i: usize = 0;
    while i < es.len()
        invariant
            i <= es@.len(),
            forall|j: int| 0 <= j < i ==> es@[j].0@ != key@,
        decreases es@.len() - i,
    {
        if str_eq(es[i].0.as_str(), key) {
            return Some(i);
        }
        i += 1;
    }
    None
}

/// Replacing the value of the first entry under `k` changes only what `k` reads.
proof fn lemma_lookup_update(es: Seq<(String, Json)>, i: int, name: String, v: Json, other: Seq<char>)
    requires
        0 <= i < es.len(),
        es[i].0@ == name@,
        forall|j: int| 0 <= j < i ==> es[j].0@ != name@,
    ensures
        entries_lookup(es.update(i, (name, v)), name@) == Some(v),
        other != name@ ==> entries_lookup(es.update(i, (name, v)), other) == entries_lookup(es, other),
    decreases i,
{
    let u = es.update(i, (name, v));
    if i > 0 {
        assert(u.drop_first() =~= es.drop_first().update(i - 1, (name, v)));
        lemma_lookup_update(es.drop_first(), i - 1, name, v, other);
    } else {
        assert(u.drop_first() =~= es.drop_first());
    }
}

/// Appending an entry under a new key changes only what that key reads.
proof fn lemma_lookup_push(es: Seq<(String, Json)>, name: String, v: Json, other: Seq<char>)
    requires
        forall|j: int| 0 <= j < es.len() ==> es[j].0@ != name@,
    ensures
        entries_lookup(es.push((name, v)), name@) == Some(v),
        other != name@ ==> entries_lookup(es.push((name, v)), other) == entries_lookup(es, other),
    decreases es.len(),
{
    let u = es.push((name, v));
    if es.len() > 0 {
        assert(u.drop_first() =~= es.drop_first().push((name, v)));
        lemma_lookup_push(es.drop_first(), name, v, other);
        assert(u[0] == es[0]);
    } else {
        assert(u.drop_first() =~= Seq::<(String, Json)>::empty());
        assert(u[0] == (name, v));
        assert(entries_lookup(u.drop_first(), other) is None);
    }
}

/// Removing the first entry under `name` changes only what `name` reads.
proof fn lemma_lookup_remove(es: Seq<(String, Json)>, i: int, name: Seq<char>, other: Seq<char>)
    requires
        0 <= i < es.len(),
        es[i].0@ == name,
        forall|j: int| 0 <= j < i ==> es[j].0@ != name,
        other != name,
    ensures
        entries_lookup(es.remove(i), other) == entries_lookup(es, other),
    decreases i,
{
    let u = es.remove(i);
    if i > 0 {
        assert(u.drop_first() =~= es.drop_first().remove(i - 1));
        assert(u[0] == es[0]);
        lemma_lookup_remove(es.drop_first(), i - 1, name, other);
    } else {
        assert(u =~= es.drop_first());
    }
}

/// A key no entry carries reads as missing.
proof fn lemma_lookup_absent(es: Seq<(String, Json)>, k: Seq<char>)
    requires
        forall|j: int| 0 <= j < es.len() ==> es[j].0@ != k,
    ensures
        entries_lookup(es, k) is None,
    decreases es.len(),
{
    if es.len() > 0 {
        assert(es[0].0@ != k);
        assert forall|j: int| 0 <= j < es.drop_first().len() implies es.drop_first()[j].0@ != k by {
            assert(es.drop_first()[j] == es[j + 1]);
        }
        lemma_lookup_absent(es.drop_first(), k);
    }
}

/// No two entries share a key.
pub open spec fn keys_distinct(es: Seq<(String, Json)>) -> bool {
    forall|i: int, j: int| 0 <= i < j < es.len() ==> es[i].0@ != es[j].0@
}

/// The first entry under `k` is the one read.
pub proof fn lemma_lookup_at(es: Seq<(String, Json)>, i: int, k: Seq<char>)
    requires
        0 <= i < es.len(),
        es[i].0@ == k,
        forall|j: int| 0 <= j < i ==> es[j].0@ != k,
    ensures
        entries_lookup(es, k) == Some(es[i].1),
    decreases i,
{
    if i > 0 {
        assert(es.drop_first()[i - 1] == es[i]);
        lemma_lookup_at(es.drop_first(), i - 1, k);
    }
}

/// An object from entries with distinct keys; each key reads its value.
pub fn object(es: Vec<(String, Json)>) -> (j: Json)
    requires
        keys_distinct(es@),
    ensures
        j == Json::Object(es),
        forall|i: int| 0 <= i < es@.len() ==> json_get(j, #[trigger] es@[i].0@) == Some(es@[i].1),
{
    proof {
        assert forall|i: int| 0 <= i < es@.len() implies
            entries_lookup(es@, #[trigger] es@[i].0@) == Some(es@[i].1) by {
            lemma_lookup_at(es@, i, es@[i].0@);
        }
    }
    Json::Object(es)
}

impl Json {
    /// Move member `key` out of an object (its first entry), leaving the
    /// other members readable as before.
    pub fn take(&mut self, key: &str) -> (r: Option<Json>)
        ensures
            r == json_get(*old(self), key@),
            *old(self) is Object ==> *final(self) is Object,
            forall|k: Seq<char>| k != key@ ==> json_get(*final(self), k) == json_get(*old(self), k),
    {
        let mut taken = Json::Null;
        std::mem::swap(&mut taken, self);
        match taken {
            Json::Object(mut es) => {
                let ghost es0 = es@;
                match find_key(&es, key) {
                    Some(i) => {
                        let (_, v) = es.remove(i);
                        proof {
                            lemma_lookup_at(es0, i as int, key@);
                            assert forall|k: Seq<char>| k != key@ implies
                                entries_lookup(es@, k) == entries_lookup(es0, k) by {
                                lemma_lookup_remove(es0, i as int, key@, k);
                            }
                        }
                        *self = Json::Object(es);
                        Some(v)
                    },
                    None => {
                        proof { lemma_lookup_absent(es0, key@); }
                        *self = Json::Object(es);
                        None
                    },
                }
            },
            other => {
                *self = other;
                None
            },
        }
    }

    /// A copy of this document with the same content.
    pub fn deep_clone(&self) -> (r: Json)
        ensures
            json_same(*self, r),
        decreases self,
    {
        match self {
            Json::Null => {
                assert(json_same(Json::Null, Json::Null));
                Json::Null
            },
            Json::Bool(b) => Json::Bool(*b),
            Json::Number(JsonNumber::PosInt(n)) => Json::Number(JsonNumber::PosInt(*n)),
            Json::Number(JsonNumber::NegInt(n)) => Json::Number(JsonNumber::NegInt(*n)),
            Json::Number(JsonNumber::Other(t)) => Json::Number(JsonNumber::Other(t.clone())),
            Json::Str(t) => Json::Str(t.clone()),
            Json::Array(items) => {
                let mut out: Vec<Json> = Vec::new();
                let mut i: usize = 0;
                while i < items.len()
                    invariant
                        *self == Json::Array(*items),
                        i <= items@.len(),
                        out@.len() == i,
                        forall|k: int| #![trigger out@[k]] 0 <= k < i ==> json_same(items@[k], out@[k]),
                    decreases items@.len() - i,
                {
                    proof {
                        let ghost v = (*self)->Array_0;
                        assert(decreases_to!(*self => (*self)->Array_0));
                        assert(v == *items);
                        assert(decreases_to!(v => v@));
                        assert(decreases_to!(v@ => v@[i as int]));
                    }
                    let c = items[i].deep_clone();
                    out.push(c);
                    i += 1;
                }
                let r = Json::Array(out);
                assert(json_same(*self, r));
                r
            },
            Json::Object(es) => {
                let mut out: Vec<(String, Json)> = Vec::new();
                let mut i: usize = 0;
                while i < es.len()
                    invariant
                        *self == Json::Object(*es),
                        i <= es@.len(),
                        out@.len() == i,
                        forall|k: int| #![trigger out@[k]] 0 <= k < i ==> es@[k].0@ == out@[k].0@ && json_same(es@[k].1, out@[k].1),
                    decreases es@.len() - i,
                {
                    proof {
                        let ghost v = (*self)->Object_0;
                        assert(decreases_to!(*self => (*self)->Object_0));
                        assert(v == *es);
                        assert(decreases_to!(v => v@));
                        assert(decreases_to!(v@ => v@[i as int]));
                        assert(decreases_to!(v@[i as int] => v@[i as int].1));
                    }
                    let v = es[i].1.deep_clone();
                    out.push((es[i].0.clone(), v));
                    i += 1;
                }
                let r = Json::Object(out);
                assert(json_same(*self, r));
                r
            },
        }
    }

    /// A string value.
    pub fn string(s: &str) -> (j: Json)
        ensures
            j == Json::Str(j->Str_0) && j->Str_0@ == s@,
    {
        Json::Str(owned(s))
    }

    /// A non-negative integer value.
    pub fn uint(n: u64) -> (j: Json)
        ensures
            j == Json::Number(JsonNumber::PosInt(n)),
    {
        Json::Number(JsonNumber::PosInt(n))
    }

    /// An object with no members.
    pub fn empty_object() -> (j: Json)
        ensures
            j is Object && j->Object_0@.len() == 0,
    {
        Json::Object(Vec::new())
    }

    /// The member under `key`, if this is an object holding one.
    pub fn get(&self, key: &str) -> (r: Option<&Json>)
        ensures
            match r {
                Some(x) => json_get(*self, key@) == Some(*x),
                None => json_get(*self, key@) is None,
            },
    {
        match self {
            Json::Object(es) => {
                let mut i: usize = 0;
                assert(es@.skip(0) =~= es@);
                while i < es.len()
                    invariant
                        i <= es@.len(),
                        json_get(*self, key@) == entries_lookup(es@, key@),
                        entries_lookup(es@, key@) == entries_lookup(es@.skip(i as int), key@),
                    decreases es@.len() - i,
                {
                    assert(es@.skip(i as int).drop_first() =~= es@.skip(i + 1));
                    if str_eq(es[i].0.as_str(), key) {
                        assert(es@.skip(i as int)[0] == es@[i as int]);
                        return Some(&es[i].1);
                    }
                    i += 1;
                }
                None
            },
            _ => None,
        }
    }

    /// `self[key]` as a string.
    pub fn get_str(&self, key: &str) -> (r: Option<String>)
        ensures
            match r {
                Some(s) => get_str_spec(*self, key@) == Some(s@),
                None => get_str_spec(*self, key@) is None,
            },
    {
        match self.get(key) {
            Some(Json::Str(s)) => Some(s.clone()),
            _ => None,
        }
    }

    /// `self[key]` as a `u64`.
    pub fn get_u64(&self, key: &str) -> (r: Option<u64>)
        ensures
            r == get_u64_spec(*self, key@),
    {
        match self.get(key) {
            Some(Json::Number(JsonNumber::PosInt(n))) => Some(*n),
            _ => None,
        }
    }

    /// `self[key]` as a bool.
    pub fn get_bool(&self, key: &str) -> (r: Option<bool>)
        ensures
            r == get_bool_spec(*self, key@),
    {
        match self.get(key) {
            Some(Json::Bool(b)) => Some(*b),
            _ => None,
        }
    }

    /// `self[key]` is a JSON number.
    pub fn member_is_number(&self, key: &str) -> (r: bool)
        ensures
            r == (json_get(*self, key@) matches Some(Json::Number(_))),
    {
        match self.get(key) {
            Some(Json::Number(_)) => true,
            _ => false,
        }
    }

    /// Set member `key` to `val`. A `null` becomes an object first.
    pub fn set(&mut self, key: &str, val: Json)
        requires
            *old(self) is Null || *old(self) is Object,
        ensures
            *final(self) is Object,
            json_get(*final(self), key@) == Some(val),
            forall|k: Seq<char>| k != key@ ==> json_get(*final(self), k) == json_get(*old(self), k),
            member_count(*final(self)) == member_count(*old(self))
                + (if json_get(*old(self), key@) is Some { 0nat } else { 1nat }),
    {
        let name = owned(key);
        let mut taken = Json::Null;
        std::mem::swap(&mut taken, self);
        let mut es: Vec<(String, Json)> = match taken {
            Json::Object(es) => es,
            _ => Vec::new(),
        };
        let ghost es0 = es@;
        assert(forall|k: Seq<char>| json_get(*old(self), k) == entries_lookup(es0, k));
        assert(member_count(*old(self)) == es0.len());
        let ghost v = val;
        match find_key(&es, key) {
            Some(i) => {
                es.set(i, (name, val));
                proof {
                    assert forall|k: Seq<char>| k != key@ implies
                        entries_lookup(es@, k) == entries_lookup(es0, k) by {
                        lemma_lookup_update(es0, i as int, name, v, k);
                    }
                    lemma_lookup_update(es0, i as int, name, v, key@);
                    lemma_lookup_at(es0, i as int, key@);
                }
            },
            None => {
                es.push((name, val));
                proof {
                    assert forall|k: Seq<char>| k != key@ implies
                        entries_lookup(es@, k) == entries_lookup(es0, k) by {
                        lemma_lookup_push(es0, name, v, k);
                    }
                    lemma_lookup_push(es0, name, v, key@);
                    lemma_lookup_absent(es0, key@);
                }
            },
        }
        let ghost es1 = es@;
        *self = Json::Object(es);
        assert forall|k: Seq<char>| k != key@ implies
            json_get(*self, k) == json_get(*old(self), k) by {
            assert(json_get(*self, k) == entries_lookup(es1, k));
            assert(json_get(*old(self), k) == entries_lookup(es0, k));
        }
    }
}

} // verus!
