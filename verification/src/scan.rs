//! Locating the zero terminator of a C string.

use vstd::prelude::*;
use vstd::slice::slice_index_get;

verus! {

/// True when the byte sequence holds a zero byte somewhere.
pub open spec fn contains_nul(s: Seq<u8>) -> bool {
    exists|i: int| 0 <= i < s.len() && s[i] == 0
}

/// Index of the first zero byte; the sequence's length when there is none.
pub open spec fn first_nul(s: Seq<u8>) -> int
    decreases s.len(),
{
    if s.len() == 0 {
        0
    } else if s[0] == 0 {
        0
    } else {
        1 + first_nul(s.skip(1))
    }
}

/// `first_nul` lies within the sequence exactly when a zero byte exists,
/// points at a zero byte in that case, and nothing before it is zero.
pub proof fn lemma_first_nul(s: Seq<u8>)
    ensures
        0 <= first_nul(s) <= s.len(),
        first_nul(s) < s.len() ==> s[first_nul(s)] == 0,
        forall|i: int| 0 <= i < first_nul(s) ==> s[i] != 0,
        contains_nul(s) <==> first_nul(s) < s.len(),
    decreases s.len(),
{
    if s.len() == 0 {
        assert(!contains_nul(s));
    } else if s[0] == 0 {
        assert(contains_nul(s));
    } else {
        let t = s.skip(1);
        lemma_first_nul(t);
        assert forall|i: int| 0 <= i < first_nul(s) implies s[i] != 0 by {
            if i > 0 {
                assert(t[i - 1] != 0);
            }
        }
        if contains_nul(s) {
            let w = choose|i: int| 0 <= i < s.len() && s[i] == 0;
            assert(t[w - 1] == 0);
            assert(contains_nul(t));
        }
        if contains_nul(t) {
            let w = choose|i: int| 0 <= i < t.len() && t[i] == 0;
            assert(s[w + 1] == 0);
            assert(contains_nul(s));
        }
    }
}

/// If a zero stands at `k` and nothing before it is zero, then `k` is the
/// first zero.
pub proof fn lemma_first_nul_at(s: Seq<u8>, k: int)
    requires
        0 <= k < s.len(),
        s[k] == 0,
        forall|i: int| 0 <= i < k ==> s[i] != 0,
    ensures
        first_nul(s) == k,
{
    lemma_first_nul(s);
    assert(contains_nul(s));
}

/// Linear scan for the first zero byte, the executable counterpart of
/// `first_nul`.
pub fn find_nul(bytes: &[u8]) -> (r: Option<usize>)
    ensures
        match r {
            Some(i) => i < bytes@.len() && first_nul(bytes@) == i,
            None => !contains_nul(bytes@),
        },
{
    let n = bytes.len();
    let mut i: usize = 0;
    while i < n
        invariant
            i <= n,
            n == bytes@.len(),
            forall|j: int| 0 <= j < i ==> bytes@[j] != 0,
        decreases n - i,
    {
        if *slice_index_get(bytes, i) == 0 {
            proof {
                lemma_first_nul_at(bytes@, i as int);
            }
            return Some(i);
        }
        i = i + 1;
    }
    None
}

} // verus!
