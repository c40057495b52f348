//! Substring containment over character sequences: the match predicate the
//! resolver applies to commit messages.

use vstd::prelude::*;

verus! {

/// The needle `n` occurs in the haystack `h` starting at character index `i`.
pub open spec fn contains_at(h: Seq<char>, n: Seq<char>, i: int) -> bool {
    &&& 0 <= i
    &&& i + n.len() <= h.len()
    &&& h.subrange(i, i + n.len()) == n
}

/// The needle `n` occurs somewhere in the haystack `h`.
pub open spec fn contains_seq(h: Seq<char>, n: Seq<char>) -> bool {
    exists|i: int| contains_at(h, n, i)
}

/// The needle matches `h` at exactly the position `i`, compared character by
/// character.
fn match_at(h: &str, n: &str, i: usize) -> (b: bool)
    requires
        i + n@.len() <= h@.len(),
    ensures
        b == contains_at(h@, n@, i as int),
{
    let h_len = h.unicode_len();
    let n_len = n.unicode_len();
    let mut j: usize = 0;
    while j < n_len
        invariant
            j <= n_len,
            n_len == n@.len(),
            h_len == h@.len(),
            i + n_len <= h_len,
            forall|k: int| 0 <= k < j ==> h@[i + k] == n@[k],
        decreases n_len - j,
    {
        if h.get_char(i + j) != n.get_char(j) {
            assert(h@.subrange(i as int, i + n@.len())[j as int] != n@[j as int]);
            return false;
        }
        j = j + 1;
    }
    assert(h@.subrange(i as int, i + n@.len()) =~= n@);
    true
}

/// Whether `h` contains `n` as a contiguous substring, in the sense of
/// [`contains_seq`] on the character views.
pub fn contains_substring(h: &str, n: &str) -> (b: bool)
    ensures
        b == contains_seq(h@, n@),
{
    let h_len = h.unicode_len();
    let n_len = n.unicode_len();
    if n_len > h_len {
        assert(!contains_seq(h@, n@)) by {
            assert(forall|i: int| !contains_at(h@, n@, i));
        }
        return false;
    }
    if n_len == 0 {
        assert(contains_at(h@, n@, 0)) by {
            assert(h@.subrange(0, 0) =~= n@);
        }
        return true;
    }
    let mut i: usize = 0;
    loop
        invariant
            i <= h_len - n_len + 1,
            0 < n_len <= h_len,
            h_len == h@.len(),
            n_len == n@.len(),
            forall|k: int| 0 <= k < i ==> !contains_at(h@, n@, k),
        decreases h_len - n_len + 1 - i,
    {
        if i > h_len - n_len {
            assert(forall|k: int| contains_at(h@, n@, k) ==> 0 <= k <= h@.len() - n@.len());
            return false;
        }
        if match_at(h, n, i) {
            return true;
        }
        i = i + 1;
    }
}

} // verus!
