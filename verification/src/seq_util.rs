//! Searching a sequence for the first element with a given property.

use vstd::prelude::*;

verus! {

/// The index of the first element of `s` satisfying `p`, or `s.len()`
/// when no element does.
pub open spec fn find_first<T>(s: Seq<T>, p: spec_fn(T) -> bool) -> int
    decreases s.len(),
{
    if s.len() == 0 {
        0
    } else if p(s[0]) {
        0
    } else {
        1 + find_first(s.drop_first(), p)
    }
}

/// `find_first` lands on a valid index or the length; every element
/// before it fails `p`; the element at it, if any, satisfies `p`.
pub proof fn lemma_find_first<T>(s: Seq<T>, p: spec_fn(T) -> bool)
    ensures
        0 <= find_first(s, p) <= s.len(),
        forall|j: int| 0 <= j < find_first(s, p) ==> !p(s[j]),
        find_first(s, p) < s.len() ==> p(s[find_first(s, p)]),
    decreases s.len(),
{
    if s.len() == 0 {
    } else if p(s[0]) {
    } else {
        let rest = s.drop_first();
        lemma_find_first(rest, p);
        let i = find_first(s, p);
        assert forall|j: int| 0 <= j < i implies !p(s[j]) by {
            if j > 0 {
                assert(rest[j - 1] == s[j]);
            }
        }
        if i < s.len() {
            assert(rest[i - 1] == s[i]);
        }
    }
}

/// An index below which every element fails `p`, and at which `p` holds
/// (or which is the length), is exactly `find_first`.
pub proof fn lemma_find_first_is<T>(s: Seq<T>, p: spec_fn(T) -> bool, i: int)
    requires
        0 <= i <= s.len(),
        forall|j: int| 0 <= j < i ==> !p(s[j]),
        i < s.len() ==> p(s[i]),
    ensures
        find_first(s, p) == i,
{
    lemma_find_first(s, p);
    let f = find_first(s, p);
    if f < i {
        assert(p(s[f]));
        assert(!p(s[f]));
    } else if i < f {
        assert(p(s[i]));
        assert(!p(s[i]));
    }
}

} // verus!
