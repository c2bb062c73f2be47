//! A small table of values under distinct string keys, in insertion order.

use vstd::prelude::*;
use crate::text::str_eq;

verus! {

/// The value of the first entry under `k`.
pub open spec fn keyed_lookup<V>(s: Seq<(String, V)>, k: Seq<char>) -> Option<V>
    decreases s.len(),
{
    if s.len() == 0 {
        None
    } else if s[0].0@ == k {
        Some(s[0].1)
    } else {
        keyed_lookup(s.drop_first(), k)
    }
}

/// No two entries share a key.
pub open spec fn keys_unique<V>(s: Seq<(String, V)>) -> bool {
    forall|i: int, j: int| 0 <= i < j < s.len() ==> s[i].0@ != s[j].0@
}

proof fn lemma_at<V>(s: Seq<(String, V)>, i: int)
    requires
        0 <= i < s.len(),
        keys_unique(s),
    ensures
        keyed_lookup(s, s[i].0@) == Some(s[i].1),
    decreases i,
{
    if i > 0 {
        assert(s.drop_first()[i - 1] == s[i]);
        assert(s[0].0@ != s[i].0@);
        lemma_at(s.drop_first(), i - 1);
    }
}

proof fn lemma_absent<V>(s: Seq<(String, V)>, k: Seq<char>)
    requires
        forall|j: int| 0 <= j < s.len() ==> s[j].0@ != k,
    ensures
        keyed_lookup(s, k) is None,
    decreases s.len(),
{
    if s.len() > 0 {
        assert forall|j: int| 0 <= j < s.drop_first().len() implies s.drop_first()[j].0@ != k by {
            assert(s.drop_first()[j] == s[j + 1]);
        }
        lemma_absent(s.drop_first(), k);
    }
}

proof fn lemma_update<V>(s: Seq<(String, V)>, i: int, e: (String, V), other: Seq<char>)
    requires
        0 <= i < s.len(),
        s[i].0@ == e.0@,
        other != e.0@,
    ensures
        keyed_lookup(s.update(i, e), other) == keyed_lookup(s, other),
    decreases i,
{
    let u = s.update(i, e);
    if i > 0 {
        assert(u.drop_first() =~= s.drop_first().update(i - 1, e));
        lemma_update(s.drop_first(), i - 1, e, other);
    } else {
        assert(u.drop_first() =~= s.drop_first());
    }
}

proof fn lemma_push<V>(s: Seq<(String, V)>, e: (String, V), other: Seq<char>)
    requires
        other != e.0@,
    ensures
        keyed_lookup(s.push(e), other) == keyed_lookup(s, other),
    decreases s.len(),
{
    let u = s.push(e);
    if s.len() > 0 {
        assert(u.drop_first() =~= s.drop_first().push(e));
        assert(u[0] == s[0]);
        lemma_push(s.drop_first(), e, other);
    } else {
        assert(u[0] == e);
        assert(u.drop_first() =~= Seq::<(String, V)>::empty());
        assert(keyed_lookup(u.drop_first(), other) is None);
    }
}

proof fn lemma_remove<V>(s: Seq<(String, V)>, i: int, other: Seq<char>)
    requires
        0 <= i < s.len(),
        s[i].0@ != other,
    ensures
        keyed_lookup(s.remove(i), other) == keyed_lookup(s, other),
    decreases i,
{
    let u = s.remove(i);
    if i > 0 {
        assert(u.drop_first() =~= s.drop_first().remove(i - 1));
        assert(u[0] == s[0]);
        lemma_remove(s.drop_first(), i - 1, other);
    } else {
        assert(u =~= s.drop_first());
    }
}

/// Values under distinct string keys.
#[derive(Debug)]
pub struct KeyedTable<V> {
    entries: Vec<(String, V)>,
}

impl<V> KeyedTable<V> {
    #[verifier::type_invariant]
    spec fn inv(&self) -> bool {
        keys_unique(self.entries@)
    }

    /// The entries, in insertion order.
    pub closed spec fn entries(&self) -> Seq<(String, V)> {
        self.entries@
    }

    /// The value under `k`.
    pub open spec fn lookup(&self, k: Seq<char>) -> Option<V> {
        keyed_lookup(self.entries(), k)
    }

    /// An empty table.
    pub fn new() -> (t: KeyedTable<V>)
        ensures
            t.entries().len() == 0,
            forall|k: Seq<char>| t.lookup(k) is None,
    {
        KeyedTable { entries: Vec::new() }
    }

    fn find(&self, k: &str) -> (r: Option<usize>)
        ensures
            match r {
                Some(i) => i < self.entries().len() && self.entries()[i as int].0@ == k@
                    && self.lookup(k@) == Some(self.entries()[i as int].1),
                None => self.lookup(k@) is None && forall|j: int| 0 <= j < self.entries().len() ==> self.entries()[j].0@ != k@,
            },
    {
        proof { use_type_invariant(self); }
        let mut i: usize = 0;
        while i < self.entries.len()
            invariant
                i <= self.entries@.len(),
                keys_unique(self.entries@),
                forall|j: int| 0 <= j < i ==> self.entries@[j].0@ != k@,
            decreases self.entries@.len() - i,
        {
            if str_eq(self.entries[i].0.as_str(), k) {
                proof { lemma_at(self.entries@, i as int); }
                return Some(i);
            }
            i += 1;
        }
        proof { lemma_absent(self.entries@, k@); }
        None
    }

    /// The value under `k`, if any.
    pub fn get(&self, k: &str) -> (r: Option<&V>)
        ensures
            match r {
                Some(v) => self.lookup(k@) == Some(*v),
                None => self.lookup(k@) is None,
            },
    {
        match self.find(k) {
            Some(i) => Some(&self.entries[i].1),
            None => None,
        }
    }

    /// Whether a value is kept under `k`.
    pub fn contains(&self, k: &str) -> (b: bool)
        ensures
            b == self.lookup(k@) is Some,
    {
        self.find(k).is_some()
    }

    /// How many keys the table holds.
    pub fn len(&self) -> (n: usize)
        ensures
            n == self.entries().len(),
    {
        self.entries.len()
    }

    /// Keep `v` under `k`, replacing what was there.
    pub fn insert(&mut self, k: String, v: V)
        ensures
            final(self).lookup(k@) == Some(v),
            forall|o: Seq<char>| o != k@ ==> final(self).lookup(o) == old(self).lookup(o),
            final(self).entries().len() == old(self).entries().len() + (if old(self).lookup(k@) is Some { 0int } else { 1int }),
    {
        proof { use_type_invariant(&*self); }
        let found = self.find(k.as_str());
        let mut es: Vec<(String, V)> = Vec::new();
        std::mem::swap(&mut es, &mut self.entries);
        let ghost s0 = es@;
        let ghost e = (k, v);
        match found {
            Some(i) => {
                es.set(i, (k, v));
                proof {
                    assert(es@ == s0.update(i as int, e));
                    assert(keys_unique(es@));
                    lemma_at(es@, i as int);
                    assert forall|o: Seq<char>| o != e.0@ implies keyed_lookup(es@, o) == keyed_lookup(s0, o) by {
                        lemma_update(s0, i as int, e, o);
                    }
                }
            },
            None => {
                es.push((k, v));
                proof {
                    assert(es@ == s0.push(e));
                    assert(keys_unique(es@));
                    lemma_at(es@, s0.len() as int);
                    assert forall|o: Seq<char>| o != e.0@ implies keyed_lookup(es@, o) == keyed_lookup(s0, o) by {
                        lemma_push(s0, e, o);
                    }
                }
            },
        }
        self.entries = es;
    }

    /// Take the value under `k` out of the table.
    pub fn remove(&mut self, k: &str) -> (r: Option<V>)
        ensures
            r == old(self).lookup(k@),
            r is None ==> *final(self) == *old(self),
            final(self).lookup(k@) is None,
            forall|o: Seq<char>| o != k@ ==> final(self).lookup(o) == old(self).lookup(o),
            final(self).entries().len() == old(self).entries().len() - (if old(self).lookup(k@) is Some { 1int } else { 0int }),
    {
        proof { use_type_invariant(&*self); }
        let found = self.find(k);
        match found {
            Some(i) => {
                let mut es: Vec<(String, V)> = Vec::new();
                std::mem::swap(&mut es, &mut self.entries);
                let ghost s0 = es@;
                let (_, v) = es.remove(i);
                proof {
                    assert(es@ == s0.remove(i as int));
                    assert(keys_unique(es@));
                    assert forall|j: int| 0 <= j < es@.len() implies es@[j].0@ != k@ by {
                        if j < i { assert(es@[j] == s0[j]); } else { assert(es@[j] == s0[j + 1]); }
                    }
                    lemma_absent(es@, k@);
                    assert forall|o: Seq<char>| o != k@ implies keyed_lookup(es@, o) == keyed_lookup(s0, o) by {
                        lemma_remove(s0, i as int, o);
                    }
                }
                self.entries = es;
                Some(v)
            },
            None => None,
        }
    }
}

} // verus!
