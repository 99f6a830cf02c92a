//! Byte strings.

use vstd::prelude::*;

verus! {

/// Whether `i` is the index of the first zero byte in `s`.
pub open spec fn is_first_zero(s: Seq<u8>, i: int) -> bool {
    &&& 0 <= i < s.len()
    &&& s[i] == 0
    &&& forall|j: int| 0 <= j < i ==> s[j] != 0
}

/// Length of the string that `s` holds: the number of bytes before its first
/// zero byte, or its whole length where it holds none.
pub open spec fn text_len(s: Seq<u8>) -> int {
    if exists|i: int| is_first_zero(s, i) {
        choose|i: int| is_first_zero(s, i)
    } else {
        s.len() as int
    }
}

/// The string that `s` holds: its bytes before the first zero byte.
pub open spec fn text_of(s: Seq<u8>) -> Seq<u8> {
    s.take(text_len(s))
}

/// The string ends at `k` if no byte before `k` is zero and `k` is the end
/// of `s` or holds a zero byte.
pub proof fn lemma_text_len_at(s: Seq<u8>, k: int)
    requires
        0 <= k <= s.len(),
        forall|j: int| 0 <= j < k ==> s[j] != 0,
        k == s.len() || s[k] == 0,
    ensures
        text_len(s) == k,
{
    if k < s.len() {
        assert(is_first_zero(s, k));
        let c = choose|i: int| is_first_zero(s, i);
        assert(c == k) by {
            if c < k {
                assert(s[c] != 0);
            } else if c > k {
                assert(s[k] != 0);
            }
        }
    } else {
        assert forall|i: int| !is_first_zero(s, i) by {}
    }
}

/// No byte of the string is zero, and the string is no longer than `s`.
pub proof fn lemma_text_len_bounds(s: Seq<u8>)
    ensures
        0 <= text_len(s) <= s.len(),
        forall|j: int| 0 <= j < text_len(s) ==> s[j] != 0,
        text_len(s) < s.len() ==> s[text_len(s)] == 0,
{
    if exists|i: int| is_first_zero(s, i) {
        let c = choose|i: int| is_first_zero(s, i);
        assert(is_first_zero(s, c));
    } else {
        assert forall|j: int| 0 <= j < s.len() implies s[j] != 0 by {
            if s[j] == 0 {
                lemma_some_zero_is_first(s, j);
            }
        }
    }
}

/// A sequence that holds a zero byte holds a first one.
proof fn lemma_some_zero_is_first(s: Seq<u8>, j: int)
    requires
        0 <= j < s.len(),
        s[j] == 0,
    ensures
        exists|i: int| is_first_zero(s, i),
    decreases j,
{
    if exists|k: int| 0 <= k < j && s[k] == 0 {
        let k = choose|k: int| 0 <= k < j && s[k] == 0;
        lemma_some_zero_is_first(s, k);
    } else {
        assert(is_first_zero(s, j));
    }
}

/// Whether `i` is the first index at which `lhs` and `rhs` differ.
pub open spec fn is_first_difference(lhs: Seq<u8>, rhs: Seq<u8>, i: int) -> bool {
    &&& 0 <= i < lhs.len()
    &&& i < rhs.len()
    &&& lhs[i] != rhs[i]
    &&& forall|j: int| 0 <= j < i ==> lhs[j] == rhs[j]
}

/// How two byte strings of one length compare: 0 where they are equal, and
/// else -1 or 1 as the first byte that differs is smaller or greater on the
/// left.
pub open spec fn compares(lhs: Seq<u8>, rhs: Seq<u8>, r: i32) -> bool {
    if lhs == rhs {
        r == 0
    } else {
        exists|i: int|
            is_first_difference(lhs, rhs, i) && r == if lhs[i] < rhs[i] {
                -1i32
            } else {
                1i32
            }
    }
}

/// An index at which two byte strings differ, behind a prefix in which they
/// agree, is the first at which they differ.
proof fn lemma_first_difference(lhs: Seq<u8>, rhs: Seq<u8>, i: usize)
    requires
        i < lhs.len(),
        i < rhs.len(),
        lhs[i as int] != rhs[i as int],
        forall|j: int| 0 <= j < i ==> lhs[j] == rhs[j],
    ensures
        is_first_difference(lhs, rhs, i as int),
{
}

/// Compares two byte strings of one length.
pub fn memcmp(lhs: &[u8], rhs: &[u8]) -> (r: i32)
    requires
        lhs@.len() == rhs@.len(),
    ensures
        compares(lhs@, rhs@, r),
{
    let mut i: usize = 0;
    while i < lhs.len()
        invariant
            i <= lhs@.len(),
            lhs@.len() == rhs@.len(),
            forall|j: int| 0 <= j < i ==> lhs@[j] == rhs@[j],
        decreases lhs@.len() - i,
    {
        if lhs[i] < rhs[i] {
            proof {
                lemma_first_difference(lhs@, rhs@, i);
            }
            return -1;
        }
        if lhs[i] > rhs[i] {
            proof {
                lemma_first_difference(lhs@, rhs@, i);
            }
            return 1;
        }
        i = i + 1;
    }
    assert(lhs@ =~= rhs@);
    0
}

/// Length of the string that `s` holds: the number of bytes before its
/// first zero byte, or the length of `s` where it holds none.
pub fn strlen(s: &[u8]) -> (r: usize)
    ensures
        r == text_len(s@),
{
    let mut i: usize = 0;
    while i < s.len() && s[i] != 0
        invariant
            i <= s@.len(),
            forall|j: int| 0 <= j < i ==> s@[j] != 0,
        decreases s@.len() - i,
    {
        i = i + 1;
    }
    proof {
        lemma_text_len_at(s@, i as int);
    }
    i
}

/// Whether `i` is the first index of `haystack` that holds `byte`.
pub open spec fn is_first_index_of(haystack: Seq<u8>, byte: u8, i: int) -> bool {
    &&& 0 <= i < haystack.len()
    &&& haystack[i] == byte
    &&& forall|j: int| 0 <= j < i ==> haystack[j] != byte
}

/// Where the search for `needle` in `haystack` ends, both taken as the
/// strings that they hold.
///
/// An empty needle is found at the start. A needle of one byte is found at
/// the first index that holds the byte. The search compares the bytes that
/// follow a match of the first byte with the second byte of the needle only,
/// and goes on until the haystack ends: a needle of two bytes or more is not
/// found.
pub open spec fn finds(haystack: Seq<u8>, needle: Seq<u8>, r: Option<usize>) -> bool {
    let hay = text_of(haystack);
    let pin = text_of(needle);
    if pin.len() == 0 {
        r == Some(0usize)
    } else if pin.len() == 1 {
        match r {
            Some(i) => is_first_index_of(hay, pin[0], i as int),
            None => forall|j: int| 0 <= j < hay.len() ==> hay[j] != pin[0],
        }
    } else {
        r is None
    }
}

/// Searches `haystack` for `needle`, and gives the index at which it is
/// found.
pub fn strstr(haystack: &[u8], needle: &[u8]) -> (r: Option<usize>)
    ensures
        finds(haystack@, needle@, r),
{
    let hay_len: usize = strlen(haystack);
    let pin_len: usize = strlen(needle);
    proof {
        lemma_text_len_bounds(haystack@);
        lemma_text_len_bounds(needle@);
    }
    let ghost hay = text_of(haystack@);
    let ghost pin = text_of(needle@);
    let mut start: usize = 0;
    let mut at: usize = 0;
    let mut next: usize = 0;
    while at < hay_len && next < pin_len
        invariant
            hay == text_of(haystack@),
            pin == text_of(needle@),
            hay_len == hay.len(),
            pin_len == pin.len(),
            hay_len <= haystack@.len(),
            pin_len <= needle@.len(),
            start <= at <= hay_len,
            next <= 1,
            next == 0 ==> at == start,
            next == 1 ==> start < at && pin_len >= 1 && hay[start as int] == pin[0],
            pin_len == 0 ==> start == 0,
            pin_len == 1 ==> forall|j: int| 0 <= j < start ==> hay[j] != pin[0],
        decreases hay_len - start, hay_len - at,
    {
        if needle[next] == haystack[at] {
            next = 1;
            at = at + 1;
        } else {
            if next == 1 {
                // The needle has a second byte here, so it is never found;
                // the search goes on from the next index all the same.
                assert(pin_len >= 2);
            }
            start = start + 1;
            at = start;
            next = 0;
        }
    }
    if next == pin_len {
        if pin_len == 1 {
            assert(is_first_index_of(hay, pin[0], start as int));
        }
        Some(start)
    } else {
        if pin_len == 1 {
            assert(next == 0 && at == hay_len);
        }
        None
    }
}

} // verus!
