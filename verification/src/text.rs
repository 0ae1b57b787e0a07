//! Character-level text helpers.
//!
//! Comparisons are made on Unicode scalar values (`u32`), with uppercase
//! ASCII letters folded to lowercase; nothing else is folded.  This is
//! enough for the trigger grammar and for window-class matching, whose
//! vocabulary is ASCII.

use vstd::prelude::*;

verus! {

/// ASCII case folding on a scalar value: `A`..`Z` map 32 up, all else stays.
pub open spec fn lower_u32(x: u32) -> u32 {
    if 65 <= x <= 90 {
        (x + 32) as u32
    } else {
        x
    }
}

/// The scalar values of a character sequence.
pub open spec fn u32s(s: Seq<char>) -> Seq<u32> {
    Seq::new(s.len(), |i: int| s[i] as u32)
}

/// The scalar values of a character sequence, ASCII-lowercased.
pub open spec fn lowered(s: Seq<char>) -> Seq<u32> {
    Seq::new(s.len(), |i: int| lower_u32(s[i] as u32))
}

/// `needle` occurs in `hay` starting at position `i`.
pub open spec fn contains_at(hay: Seq<u32>, needle: Seq<u32>, i: int) -> bool {
    &&& 0 <= i
    &&& i + needle.len() <= hay.len()
    &&& forall|k: int| 0 <= k < needle.len() ==> hay[i + k] == needle[k]
}

/// `needle` occurs somewhere in `hay`.
pub open spec fn contains_u32(hay: Seq<u32>, needle: Seq<u32>) -> bool {
    exists|i: int| contains_at(hay, needle, i)
}

/// The ASCII-lowercased scalar value of the character at `i`.
pub fn lowered_char_at(s: &str, i: usize) -> (r: u32)
    requires
        i < s@.len(),
    ensures
        r == lowered(s@)[i as int],
{
    let c = s.get_char(i);
    let x = c as u32;
    if 65 <= x && x <= 90 {
        x + 32
    } else {
        x
    }
}

/// Whether the ASCII-lowercased `hay` contains the ASCII-lowercased
/// `needle` as a contiguous run of characters.
pub fn contains_lowered(hay: &str, needle: &str) -> (r: bool)
    ensures
        r == contains_u32(lowered(hay@), lowered(needle@)),
{
    let hn = hay.unicode_len();
    let nn = needle.unicode_len();
    if nn > hn {
        assert(forall|i: int| !contains_at(lowered(hay@), lowered(needle@), i));
        return false;
    }
    let mut i: usize = 0;
    while i <= hn - nn
        invariant
            hn == hay@.len(),
            nn == needle@.len(),
            nn <= hn,
            i <= hn - nn + 1,
            forall|p: int| 0 <= p < i ==> !contains_at(lowered(hay@), lowered(needle@), p),
        decreases hn - nn + 1 - i,
    {
        let mut k: usize = 0;
        let mut matched = true;
        while k < nn
            invariant
                hn == hay@.len(),
                nn == needle@.len(),
                nn <= hn,
                i <= hn - nn,
                k <= nn,
                matched ==> (forall|q: int|
                    0 <= q < k ==> lowered(hay@)[i + q] == lowered(needle@)[q]),
                !matched ==> !contains_at(lowered(hay@), lowered(needle@), i as int),
            decreases nn - k,
        {
            if lowered_char_at(hay, i + k) != lowered_char_at(needle, k) {
                matched = false;
                k = nn;
            } else {
                k = k + 1;
            }
        }
        if matched {
            assert(contains_at(lowered(hay@), lowered(needle@), i as int));
            return true;
        }
        i = i + 1;
    }
    assert(forall|p: int|
        p > hn - nn ==> !contains_at(lowered(hay@), lowered(needle@), p));
    false
}

/// Character-for-character equality of two string slices.
pub fn str_eq(a: &str, b: &str) -> (r: bool)
    ensures
        r == (a@ == b@),
{
    let la = a.unicode_len();
    let lb = b.unicode_len();
    if la != lb {
        assert(a@ != b@);
        return false;
    }
    for k in 0..la
        invariant
            la == a@.len(),
            la == b@.len(),
            forall|j: int| 0 <= j < k ==> a@[j] == b@[j],
    {
        if a.get_char(k) != b.get_char(k) {
            return false;
        }
    }
    assert(a@ =~= b@);
    true
}

} // verus!
