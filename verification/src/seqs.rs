//! Looking things up in sequences.

use vstd::prelude::*;

verus! {

/// Where the first element stands for which `p` holds; the length where there
/// is none.
pub open spec fn first_index<A>(s: Seq<A>, p: spec_fn(A) -> bool) -> int
    decreases s.len(),
{
    if s.len() == 0 || p(s[0]) {
        0
    } else {
        1 + first_index(s.skip(1), p)
    }
}

pub proof fn lemma_first_index<A>(s: Seq<A>, p: spec_fn(A) -> bool)
    ensures
        0 <= first_index(s, p) <= s.len(),
        first_index(s, p) < s.len() ==> p(s[first_index(s, p)]),
        forall|k: int| 0 <= k < first_index(s, p) ==> !p(#[trigger] s[k]),
    decreases s.len(),
{
    if s.len() > 0 && !p(s[0]) {
        lemma_first_index(s.skip(1), p);
        let at = first_index(s, p);
        assert forall|k: int| 0 <= k < at implies !p(#[trigger] s[k]) by {
            if k > 0 {
                assert(s[k] == s.skip(1)[k - 1]);
            }
        }
        if at < s.len() {
            assert(s[at] == s.skip(1)[at - 1]);
        }
    }
}

pub proof fn lemma_first_index_is<A>(s: Seq<A>, p: spec_fn(A) -> bool, at: int)
    requires
        0 <= at <= s.len(),
        at < s.len() ==> p(s[at]),
        forall|k: int| 0 <= k < at ==> !p(#[trigger] s[k]),
    ensures
        first_index(s, p) == at,
{
    lemma_first_index(s, p);
    let found = first_index(s, p);
    if found < at {
        assert(!p(s[found]));
    }
    if at < found {
        assert(!p(s[at]));
    }
}

/// Whether `p` holds for some element.
pub open spec fn some<A>(s: Seq<A>, p: spec_fn(A) -> bool) -> bool {
    first_index(s, p) < s.len()
}

/// The first element for which `p` holds.
pub open spec fn first<A>(s: Seq<A>, p: spec_fn(A) -> bool) -> Option<A> {
    if some(s, p) {
        Some(s[first_index(s, p)])
    } else {
        None
    }
}

/// The position as a number, where there is one.
pub open spec fn position<A>(s: Seq<A>, p: spec_fn(A) -> bool) -> Option<usize> {
    if some(s, p) {
        Some(first_index(s, p) as usize)
    } else {
        None
    }
}

pub proof fn lemma_filter_push<A>(s: Seq<A>, p: spec_fn(A) -> bool, i: int)
    requires
        0 <= i < s.len(),
    ensures
        s.take(i + 1).filter(p) == (if p(s[i]) {
            s.take(i).filter(p).push(s[i])
        } else {
            s.take(i).filter(p)
        }),
{
    reveal(Seq::filter);
    assert(s.take(i + 1).drop_last() =~= s.take(i));
}

pub proof fn lemma_filter_empty<A>(s: Seq<A>, p: spec_fn(A) -> bool)
    requires
        s.len() == 0,
    ensures
        s.filter(p) == Seq::<A>::empty(),
{
    reveal(Seq::filter);
    assert(s.filter(p) =~= Seq::<A>::empty());
}

} // verus!
