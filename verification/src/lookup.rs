//! First-match lookup over a sequence, the specification the store's
//! filtered queries are stated against.

use vstd::prelude::*;

verus! {

/// The first element of `s` satisfying `p`, if any.
pub open spec fn first_match<T>(s: Seq<T>, p: spec_fn(T) -> bool) -> Option<T>
    decreases s.len(),
{
    if s.len() == 0 {
        None
    } else if p(s[0]) {
        Some(s[0])
    } else {
        first_match(s.drop_first(), p)
    }
}

/// If nothing before index `i` matches and `s[i]` does, the first match is
/// `s[i]`.
pub proof fn lemma_first_match_at<T>(s: Seq<T>, p: spec_fn(T) -> bool, i: int)
    requires
        0 <= i < s.len(),
        p(s[i]),
        forall|j: int| 0 <= j < i ==> !p(s[j]),
    ensures
        first_match(s, p) == Some(s[i]),
    decreases i,
{
    if i > 0 {
        lemma_first_match_at(s.drop_first(), p, i - 1);
    }
}

/// If nothing in `s` matches, there is no first match.
pub proof fn lemma_first_match_none<T>(s: Seq<T>, p: spec_fn(T) -> bool)
    requires
        forall|j: int| 0 <= j < s.len() ==> !p(s[j]),
    ensures
        first_match(s, p) is None,
    decreases s.len(),
{
    if s.len() > 0 {
        lemma_first_match_none(s.drop_first(), p);
    }
}

/// Appending an element leaves an earlier first match in place, and
/// otherwise the new element is the first match exactly when it matches.
pub proof fn lemma_first_match_push<T>(s: Seq<T>, p: spec_fn(T) -> bool, x: T)
    ensures
        first_match(s.push(x), p) == if first_match(s, p) is Some {
            first_match(s, p)
        } else if p(x) {
            Some(x)
        } else {
            None::<T>
        },
    decreases s.len(),
{
    reveal_with_fuel(first_match, 3);
    if s.len() == 0 {
        assert(s.push(x)[0] == x);
        assert(s.push(x).drop_first() =~= Seq::<T>::empty());
    } else {
        assert(s.push(x)[0] == s[0]);
        assert(s.push(x).drop_first() =~= s.drop_first().push(x));
        lemma_first_match_push(s.drop_first(), p, x);
    }
}

} // verus!
