//! Searching sequences by a predicate.

use vstd::prelude::*;

verus! {

/// Index of the first element of `s` that satisfies `p`, or `s.len()` when none does.
pub open spec fn first_index<T>(s: Seq<T>, p: spec_fn(T) -> bool) -> nat
    decreases s.len(),
{
    if s.len() == 0 {
        0
    } else if p(s[0]) {
        0
    } else {
        1 + first_index(s.drop_first(), p)
    }
}

/// `i` is the index of the first element satisfying `p` (or `s.len()`).
pub open spec fn is_first<T>(s: Seq<T>, p: spec_fn(T) -> bool, i: int) -> bool {
    &&& 0 <= i <= s.len()
    &&& i < s.len() ==> p(s[i])
    &&& forall|k: int| 0 <= k < i ==> !p(#[trigger] s[k])
}

pub proof fn lemma_first_index_is<T>(s: Seq<T>, p: spec_fn(T) -> bool, i: int)
    requires
        is_first(s, p, i),
    ensures
        first_index(s, p) == i,
    decreases s.len(),
{
    if s.len() > 0 && !p(s[0]) {
        assert(i > 0) by {
            if i == 0 && 0 < s.len() {
                assert(p(s[0]));
            }
        }
        assert forall|k: int| 0 <= k < i - 1 implies !p(#[trigger] s.drop_first()[k]) by {
            assert(s.drop_first()[k] == s[k + 1]);
        }
        if i - 1 < s.len() - 1 {
            assert(s.drop_first()[i - 1] == s[i]);
        }
        lemma_first_index_is(s.drop_first(), p, i - 1);
    } else if s.len() > 0 {
        if i > 0 {
            assert(!p(s[0]));
        }
    }
}

pub proof fn lemma_first_index_props<T>(s: Seq<T>, p: spec_fn(T) -> bool)
    ensures
        is_first(s, p, first_index(s, p) as int),
    decreases s.len(),
{
    if s.len() > 0 && !p(s[0]) {
        lemma_first_index_props(s.drop_first(), p);
        let j = first_index(s.drop_first(), p) as int;
        assert forall|k: int| 0 <= k < j + 1 implies !p(#[trigger] s[k]) by {
            if k > 0 {
                assert(s[k] == s.drop_first()[k - 1]);
            }
        }
        if j < s.len() - 1 {
            assert(s[j + 1] == s.drop_first()[j]);
        }
    }
}

} // verus!
