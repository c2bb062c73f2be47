//! Facts about keeping the elements of a sequence that satisfy a predicate.

use vstd::prelude::*;

verus! {

/// The elements of `s` that satisfy `p`, in order.
pub open spec fn filtered<A>(s: Seq<A>, p: spec_fn(A) -> bool) -> Seq<A>
    decreases s.len(),
{
    if s.len() == 0 {
        Seq::empty()
    } else {
        let r = filtered(s.drop_last(), p);
        if p(s.last()) { r.push(s.last()) } else { r }
    }
}

/// Filtering twice keeps what satisfies both predicates.
pub proof fn lemma_filtered_twice<A>(s: Seq<A>, p: spec_fn(A) -> bool, q: spec_fn(A) -> bool)
    ensures
        filtered(filtered(s, p), q) == filtered(s, |x: A| p(x) && q(x)),
    decreases s.len(),
{
    if s.len() > 0 {
        lemma_filtered_twice(s.drop_last(), p, q);
        let inner = filtered(s.drop_last(), p);
        if p(s.last()) {
            assert(filtered(s, p) == inner.push(s.last()));
            assert(filtered(s, p).drop_last() =~= inner);
        }
    }
}

/// Inserting an element `p` rejects leaves the kept elements as they were;
/// inserting one it keeps, after every kept element, appends it.
pub proof fn lemma_filtered_insert<A>(s: Seq<A>, i: int, x: A, p: spec_fn(A) -> bool)
    requires
        0 <= i <= s.len(),
        p(x) ==> forall|j: int| i <= j < s.len() ==> !p(#[trigger] s[j]),
    ensures
        filtered(s.insert(i, x), p) == (if p(x) { filtered(s, p).push(x) } else { filtered(s, p) }),
    decreases s.len() - i,
{
    let u = s.insert(i, x);
    if i == s.len() {
        assert(u =~= s.push(x));
        assert(u.drop_last() =~= s);
    } else {
        assert(u.drop_last() =~= s.drop_last().insert(i, x));
        assert(u.last() == s.last());
        lemma_filtered_insert(s.drop_last(), i, x, p);
        if p(x) {
            assert(!p(s[s.len() - 1]));
        }
    }
}

/// Taking one more element extends the kept elements by it, when kept.
pub proof fn lemma_filtered_take_step<A>(s: Seq<A>, i: int, p: spec_fn(A) -> bool)
    requires
        0 <= i < s.len(),
    ensures
        filtered(s.take(i + 1), p) == (if p(s[i]) { filtered(s.take(i), p).push(s[i]) } else { filtered(s.take(i), p) }),
{
    assert(s.take(i + 1).drop_last() =~= s.take(i));
    assert(s.take(i + 1).last() == s[i]);
}

} // verus!
