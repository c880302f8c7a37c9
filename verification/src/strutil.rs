//! String helpers the broker's logic is built on: substring containment
//! (used by the event filter) and the final `/`-separated segment of a ref
//! name (used to extract a patch id).

use vstd::prelude::*;

verus! {

/// The needle `n` occurs in the haystack `h` starting at position `i`.
pub open spec fn occurs_at(h: Seq<char>, n: Seq<char>, i: int) -> bool {
    0 <= i && i + n.len() <= h.len() && h.subrange(i, i + n.len()) == n
}

/// The needle `n` occurs somewhere in the haystack `h`.
pub open spec fn contains_seq(h: Seq<char>, n: Seq<char>) -> bool {
    exists|i: int| occurs_at(h, n, i)
}

/// Does `n` occur in `h` starting exactly at position `i`?
fn matches_at(h: &str, n: &str, i: usize) -> (b: bool)
    requires
        i + n@.len() <= h@.len(),
        h@.len() <= usize::MAX,
    ensures
        b == occurs_at(h@, n@, i as int),
{
    let nlen = n.unicode_len();
    let mut j: usize = 0;
    while j < nlen
        invariant
            nlen == n@.len(),
            i + nlen <= h@.len(),
            h@.len() <= usize::MAX,
            j <= nlen,
            forall|m: int| 0 <= m < j ==> h@[i + m] == n@[m],
        decreases nlen - j,
    {
        if h.get_char(i + j) != n.get_char(j) {
            proof {
                assert(h@.subrange(i as int, i + n@.len())[j as int] == h@[i + j]);
            }
            return false;
        }
        j += 1;
    }
    assert(h@.subrange(i as int, i + n@.len()) =~= n@);
    true
}

/// Substring search: does `h` contain `n`?
pub fn contains_str(h: &str, n: &str) -> (b: bool)
    ensures
        b == contains_seq(h@, n@),
{
    let hlen = h.unicode_len();
    let nlen = n.unicode_len();
    if nlen > hlen {
        assert(forall|i: int| !occurs_at(h@, n@, i));
        return false;
    }
    if nlen == 0 {
        assert(h@.subrange(0, 0) =~= n@);
        assert(occurs_at(h@, n@, 0));
        return true;
    }
    let mut i: usize = 0;
    while i <= hlen - nlen
        invariant
            hlen == h@.len(),
            nlen == n@.len(),
            1 <= nlen <= hlen,
            i <= hlen - nlen + 1,
            forall|k: int| 0 <= k < i ==> !occurs_at(h@, n@, k),
        decreases hlen - nlen - i + 1,
    {
        if matches_at(h, n, i) {
            return true;
        }
        i += 1;
    }
    assert forall|k: int| !occurs_at(h@, n@, k) by {
        if k > hlen - nlen {
            assert(k + n@.len() > h@.len());
        }
    }
    false
}

/// Character-for-character equality of two string slices.
pub fn str_eq(a: &str, b: &str) -> (r: bool)
    ensures
        r == (a@ == b@),
{
    let alen = a.unicode_len();
    let blen = b.unicode_len();
    if alen != blen {
        return false;
    }
    let mut i: usize = 0;
    while i < alen
        invariant
            alen == a@.len(),
            alen == b@.len(),
            i <= alen,
            forall|m: int| 0 <= m < i ==> a@[m] == b@[m],
        decreases alen - i,
    {
        if a.get_char(i) != b.get_char(i) {
            return false;
        }
        i += 1;
    }
    assert(a@ =~= b@);
    true
}

/// The final `/`-separated segment of `s`: everything after the last `/`,
/// or all of `s` when it holds no `/`.
pub open spec fn last_segment_seq(s: Seq<char>) -> Seq<char>
    decreases s.len(),
{
    if s.len() == 0 {
        s
    } else if s[s.len() - 1] == '/' {
        Seq::empty()
    } else {
        last_segment_seq(s.take(s.len() - 1)).push(s[s.len() - 1])
    }
}

proof fn lemma_last_segment_no_slash(s: Seq<char>)
    requires
        forall|m: int| 0 <= m < s.len() ==> s[m] != '/',
    ensures
        last_segment_seq(s) == s,
    decreases s.len(),
{
    if s.len() == 0 {
    } else {
        lemma_last_segment_no_slash(s.take(s.len() - 1));
        assert(last_segment_seq(s.take(s.len() - 1)).push(s[s.len() - 1]) =~= s);
    }
}

proof fn lemma_last_segment_after_slash(s: Seq<char>, j: int)
    requires
        0 <= j < s.len(),
        s[j] == '/',
        forall|m: int| j < m < s.len() ==> s[m] != '/',
    ensures
        last_segment_seq(s) == s.subrange(j + 1, s.len() as int),
    decreases s.len(),
{
    if j == s.len() - 1 {
        assert(last_segment_seq(s) =~= s.subrange(j + 1, s.len() as int));
    } else {
        let t = s.take(s.len() - 1);
        lemma_last_segment_after_slash(t, j);
        assert(t.subrange(j + 1, t.len() as int).push(s[s.len() - 1]) =~= s.subrange(
            j + 1,
            s.len() as int,
        ));
    }
}

/// The final `/`-separated segment of `s`.
pub fn last_segment(s: &str) -> (r: String)
    ensures
        r@ == last_segment_seq(s@),
{
    let len = s.unicode_len();
    let mut j: usize = len;
    while j > 0
        invariant
            len == s@.len(),
            j <= len,
            forall|m: int| j <= m < len ==> s@[m] != '/',
        decreases j,
    {
        if s.get_char(j - 1) == '/' {
            let r = s.substring_char(j, len).to_owned();
            proof {
                lemma_last_segment_after_slash(s@, j - 1);
            }
            return r;
        }
        j -= 1;
    }
    proof {
        lemma_last_segment_no_slash(s@);
    }
    s.to_owned()
}

} // verus!
