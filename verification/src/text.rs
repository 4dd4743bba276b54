//! Character-level string helpers: substring search and path tails.

use vstd::prelude::*;
use vstd::string::StrSliceExecFns;

verus! {

/// Whether `needle` occurs in `hay` starting at index `k`.
pub open spec fn is_match_at(hay: Seq<char>, needle: Seq<char>, k: int) -> bool {
    &&& 0 <= k
    &&& k + needle.len() <= hay.len()
    &&& hay.subrange(k, k + needle.len()) == needle
}

/// Whether `needle` occurs anywhere in `hay` as a contiguous run.
pub open spec fn contains_seq(hay: Seq<char>, needle: Seq<char>) -> bool {
    exists|k: int| is_match_at(hay, needle, k)
}

/// Index just past the last `/` in `p`, or 0 when `p` has none.
pub open spec fn cut_index(p: Seq<char>) -> int
    decreases p.len(),
{
    if p.len() == 0 {
        0
    } else if p.last() == '/' {
        p.len() as int
    } else {
        cut_index(p.drop_last())
    }
}

/// The component of `p` after its last `/`: the whole of `p` when
/// there is no separator, empty when `p` ends in one.
pub open spec fn tail_component(p: Seq<char>) -> Seq<char> {
    p.subrange(cut_index(p), p.len() as int)
}

/// `cut_index` points just past the last separator: nothing at or after
/// it is a `/`, and the character before it (if any) is one.
pub proof fn lemma_cut_index(p: Seq<char>)
    ensures
        0 <= cut_index(p) <= p.len(),
        forall|j: int| cut_index(p) <= j < p.len() ==> p[j] != '/',
        cut_index(p) > 0 ==> p[cut_index(p) - 1] == '/',
    decreases p.len(),
{
    if p.len() == 0 {
    } else if p.last() == '/' {
    } else {
        lemma_cut_index(p.drop_last());
        assert forall|j: int| cut_index(p) <= j < p.len() implies p[j] != '/' by {
            if j < p.len() - 1 {
                assert(p.drop_last()[j] == p[j]);
            }
        }
        if cut_index(p) > 0 {
            assert(p.drop_last()[cut_index(p) - 1] == p[cut_index(p) - 1]);
        }
    }
}

/// An index with no separator at or after it, and a separator (or the
/// start) just before it, is exactly `cut_index`.
pub proof fn lemma_cut_index_is(p: Seq<char>, c: int)
    requires
        0 <= c <= p.len(),
        forall|j: int| c <= j < p.len() ==> p[j] != '/',
        c > 0 ==> p[c - 1] == '/',
    ensures
        cut_index(p) == c,
{
    lemma_cut_index(p);
    let d = cut_index(p);
    if d < c {
        assert(p[c - 1] != '/');
    } else if c < d {
        assert(p[d - 1] != '/');
    }
}

/// The characters of `s`, in order, as a vector.
pub fn chars_of(s: &str) -> (r: Vec<char>)
    ensures
        r@ == s@,
{
    let mut r: Vec<char> = Vec::new();
    let n = s.unicode_len();
    proof {
        assert(r@ =~= s@.subrange(0, 0));
    }
    let mut i: usize = 0;
    while i < n
        invariant
            0 <= i <= n,
            n == s@.len(),
            r@ == s@.subrange(0, i as int),
        decreases n - i,
    {
        let c = s.get_char(i);
        r.push(c);
        proof {
            assert(r@ =~= s@.subrange(0, i + 1));
        }
        i += 1;
    }
    proof {
        assert(s@.subrange(0, s@.len() as int) =~= s@);
    }
    r
}

/// Whether `needle` occurs in `hay` as a contiguous run of characters.
pub fn contains_chars(hay: &Vec<char>, needle: &Vec<char>) -> (r: bool)
    ensures
        r == contains_seq(hay@, needle@),
{
    let hlen = hay.len();
    let nlen = needle.len();
    if nlen == 0 {
        proof {
            assert(hay@.subrange(0, 0) =~= needle@);
            assert(is_match_at(hay@, needle@, 0));
        }
        return true;
    }
    if nlen > hlen {
        proof {
            assert forall|k: int| !is_match_at(hay@, needle@, k) by {}
        }
        return false;
    }
    let bound = hlen - nlen;
    let mut k: usize = 0;
    while k <= bound
        invariant
            1 <= nlen == needle@.len(),
            hlen == hay@.len(),
            nlen <= hlen,
            bound == hlen - nlen,
            0 <= k <= bound + 1,
            forall|k2: int| 0 <= k2 < k ==> !is_match_at(hay@, needle@, k2),
        decreases bound + 1 - k,
    {
        let mut j: usize = 0;
        while j < nlen && hay[k + j] == needle[j]
            invariant
                0 <= j <= nlen == needle@.len(),
                hlen == hay@.len(),
                k + nlen <= hlen,
                forall|j2: int| 0 <= j2 < j ==> hay@[k + j2] == needle@[j2],
            decreases nlen - j,
        {
            j += 1;
        }
        if j == nlen {
            proof {
                assert(hay@.subrange(k as int, k + needle@.len()) =~= needle@);
                assert(is_match_at(hay@, needle@, k as int));
            }
            return true;
        }
        proof {
            assert(!is_match_at(hay@, needle@, k as int)) by {
                if is_match_at(hay@, needle@, k as int) {
                    assert(hay@.subrange(k as int, k + needle@.len())[j as int] == needle@[j as int]);
                }
            }
        }
        k += 1;
    }
    proof {
        assert forall|k2: int| !is_match_at(hay@, needle@, k2) by {
            if 0 <= k2 <= hay@.len() - needle@.len() {
                assert(!is_match_at(hay@, needle@, k2));
            }
        }
    }
    false
}

/// The component of `path` after its last `/`, as a fresh string:
/// the whole of `path` when it has no separator.
pub fn base_name(path: &str) -> (r: String)
    ensures
        r@ == tail_component(path@),
{
    let n = path.unicode_len();
    let mut cut: usize = n;
    while cut > 0 && !(path.get_char(cut - 1) == '/')
        invariant
            0 <= cut <= n,
            n == path@.len(),
            forall|j: int| cut <= j < n ==> path@[j] != '/',
        decreases cut,
    {
        cut -= 1;
    }
    proof {
        lemma_cut_index_is(path@, cut as int);
    }
    path.substring_char(cut, n).to_owned()
}

} // verus!
