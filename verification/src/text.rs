//! Verified substring search over character sequences.

use vstd::prelude::*;

verus! {

/// The pattern `p` occurs in `t` starting at position `i`.
pub open spec fn contains_at(t: Seq<char>, p: Seq<char>, i: int) -> bool {
    &&& 0 <= i
    &&& i + p.len() <= t.len()
    &&& t.subrange(i, i + p.len() as int) == p
}

/// The pattern `p` occurs somewhere in `t`.
pub open spec fn contains_seq(t: Seq<char>, p: Seq<char>) -> bool {
    exists|i: int| contains_at(t, p, i)
}

/// True exactly when `pat` occurs as a contiguous substring of `text`.
pub fn str_contains(text: &str, pat: &str) -> (r: bool)
    ensures
        r == contains_seq(text@, pat@),
{
    let tlen = text.unicode_len();
    let plen = pat.unicode_len();
    if plen > tlen {
        assert(forall|i: int| !contains_at(text@, pat@, i));
        return false;
    }
    let mut i: usize = 0;
    while i <= tlen - plen
        invariant
            plen <= tlen,
            tlen == text@.len(),
            plen == pat@.len(),
            i <= tlen - plen + 1,
            forall|k: int| 0 <= k < i ==> !contains_at(text@, pat@, k),
        decreases tlen - plen - i + 1,
    {
        let mut j: usize = 0;
        let mut mismatch = false;
        while j < plen
            invariant
                plen <= tlen,
                tlen == text@.len(),
                plen == pat@.len(),
                i <= tlen - plen,
                j <= plen,
                !mismatch ==> forall|k: int| 0 <= k < j ==> text@[i + k] == pat@[k],
                mismatch ==> !contains_at(text@, pat@, i as int),
                mismatch ==> plen > 0,
            decreases plen - j,
        {
            if text.get_char(i + j) != pat.get_char(j) {
                proof {
                    if contains_at(text@, pat@, i as int) {
                        assert(text@.subrange(i as int, i + plen as int)[j as int]
                            == text@[i + j]);
                    }
                }
                mismatch = true;
                j = plen;
            } else {
                j = j + 1;
            }
        }
        if !mismatch {
            proof {
                assert(text@.subrange(i as int, i + plen as int) =~= pat@);
                assert(contains_at(text@, pat@, i as int));
            }
            return true;
        }
        i = i + 1;
    }
    proof {
        assert forall|k: int| !contains_at(text@, pat@, k) by {
            if 0 <= k <= tlen - plen {
                assert(!contains_at(text@, pat@, k));
            }
        }
    }
    false
}

} // verus!
