//! The rules of the C allocation calls: which requests are answered without
//! the allocator, which are refused, and what is asked of the allocator for
//! the rest.

use crate::errno::ErrorNumber;
use crate::heap::POINTER_SIZE;
use crate::string::{lemma_text_len_bounds, strlen, text_of};
use crate::tls::{check_power_of_two, is_power_of_two, PAGE_SIZE};
use vstd::prelude::*;

verus! {

/// The name under which `sysconf` gives the page size.
pub const _SC_PAGESIZE: i32 = 0;

/// What an allocation call does.
#[derive(Clone, Copy, Debug, PartialEq, Eq, Structural)]
pub enum HeapStep {
    /// Return the null pointer; the allocator is not asked.
    Null,
    /// Refuse with this error; the allocator is not asked.
    Refuse(ErrorNumber),
    /// Ask the allocator for `count` elements of `size` bytes, aligned to
    /// `alignment` where that is not zero.
    Allocate { alignment: usize, count: usize, size: usize },
    /// Ask the allocator to resize the block to `size` bytes.
    Resize { size: usize },
    /// Give the block back to the allocator, and return the null pointer.
    Free,
}

/// What the allocator's answer means: a null pointer says that it is out of
/// memory.
pub fn allocated(is_null: bool) -> (r: Option<ErrorNumber>)
    ensures
        r == if is_null {
            Some(ErrorNumber::Nomem)
        } else {
            None
        },
{
    if is_null {
        Some(ErrorNumber::Nomem)
    } else {
        None
    }
}

/// `malloc`: a request for no bytes is answered with the null pointer.
pub fn malloc(size: usize) -> (r: HeapStep)
    ensures
        r == if size == 0 {
            HeapStep::Null
        } else {
            HeapStep::Allocate { alignment: 0, count: 1, size }
        },
{
    if size == 0 {
        HeapStep::Null
    } else {
        HeapStep::Allocate { alignment: 0, count: 1, size }
    }
}

/// `calloc`: a request for no elements, or for elements of no bytes, is
/// answered with the null pointer.
pub fn calloc(nmemb: usize, size: usize) -> (r: HeapStep)
    ensures
        r == if nmemb == 0 || size == 0 {
            HeapStep::Null
        } else {
            HeapStep::Allocate { alignment: 0, count: nmemb, size }
        },
{
    if nmemb == 0 || size == 0 {
        HeapStep::Null
    } else {
        HeapStep::Allocate { alignment: 0, count: nmemb, size }
    }
}

/// `realloc`: without a block it is `malloc`; with a block and no bytes it
/// gives the block back; else it resizes the block.
pub fn realloc(is_null: bool, size: usize) -> (r: HeapStep)
    ensures
        r == if is_null {
            if size == 0 {
                HeapStep::Null
            } else {
                HeapStep::Allocate { alignment: 0, count: 1, size }
            }
        } else if size == 0 {
            HeapStep::Free
        } else {
            HeapStep::Resize { size }
        },
{
    if is_null {
        malloc(size)
    } else if size == 0 {
        HeapStep::Free
    } else {
        HeapStep::Resize { size }
    }
}

/// Whether an alignment is one that the aligned calls take: a power of two
/// that is a multiple of the pointer width.
pub open spec fn alignment_ok(alignment: int) -> bool {
    is_power_of_two(alignment) && alignment % (POINTER_SIZE as int) == 0
}

/// `posix_memalign`: a missing place for the result and an alignment that
/// is not taken are invalid arguments; a request for no bytes stores the
/// null pointer.
pub fn posix_memalign(has_place: bool, alignment: usize, size: usize) -> (r: HeapStep)
    ensures
        r == if !has_place || !alignment_ok(alignment as int) {
            HeapStep::Refuse(ErrorNumber::Inval)
        } else if size == 0 {
            HeapStep::Null
        } else {
            HeapStep::Allocate { alignment, count: 1, size }
        },
{
    if !has_place || !check_power_of_two(alignment) || alignment % POINTER_SIZE != 0 {
        HeapStep::Refuse(ErrorNumber::Inval)
    } else if size == 0 {
        HeapStep::Null
    } else {
        HeapStep::Allocate { alignment, count: 1, size }
    }
}

/// `aligned_alloc`: an alignment that is not taken, and a size that is no
/// multiple of the alignment, are invalid arguments; a request for no bytes
/// is answered with the null pointer.
pub fn aligned_alloc(alignment: usize, size: usize) -> (r: HeapStep)
    ensures
        r == if !alignment_ok(alignment as int) || size as int % alignment as int != 0 {
            HeapStep::Refuse(ErrorNumber::Inval)
        } else if size == 0 {
            HeapStep::Null
        } else {
            HeapStep::Allocate { alignment, count: 1, size }
        },
{
    if !check_power_of_two(alignment) || alignment % POINTER_SIZE != 0 || size % alignment != 0 {
        HeapStep::Refuse(ErrorNumber::Inval)
    } else if size == 0 {
        HeapStep::Null
    } else {
        HeapStep::Allocate { alignment, count: 1, size }
    }
}

/// `sysconf`: the page size is known, and any other name is an invalid
/// argument.
pub fn sysconf(name: i32) -> (r: Result<i64, ErrorNumber>)
    ensures
        r == if name == _SC_PAGESIZE {
            Ok::<i64, ErrorNumber>(PAGE_SIZE as i64)
        } else {
            Err::<i64, ErrorNumber>(ErrorNumber::Inval)
        },
{
    if name == _SC_PAGESIZE {
        Ok(PAGE_SIZE as i64)
    } else {
        Err(ErrorNumber::Inval)
    }
}

/// Whether `b` is white space: a blank, a tab, a line feed, a form feed or a
/// carriage return.
pub open spec fn is_space(b: u8) -> bool {
    b == 32 || b == 9 || b == 10 || b == 12 || b == 13
}

/// Whether `b` is a decimal digit.
pub open spec fn is_digit(b: u8) -> bool {
    48 <= b <= 57
}

/// Where the white space that starts at `from` ends.
pub open spec fn skip_spaces(text: Seq<u8>, from: int) -> int
    decreases text.len() - from,
{
    if from < 0 || from >= text.len() || !is_space(text[from]) {
        from
    } else {
        skip_spaces(text, from + 1)
    }
}

/// Where the digits that start at `from` end.
pub open spec fn skip_digits(text: Seq<u8>, from: int) -> int
    decreases text.len() - from,
{
    if from < 0 || from >= text.len() || !is_digit(text[from]) {
        from
    } else {
        skip_digits(text, from + 1)
    }
}

/// The number that the decimal digits of `text` from `from` up to `to` spell.
pub open spec fn digits_value(text: Seq<u8>, from: int, to: int) -> int
    decreases to - from,
{
    if to <= from {
        0
    } else {
        digits_value(text, from, to - 1) * 10 + (text[to - 1] - 48)
    }
}

/// What reading a number yields: the number, the error to record, and the
/// index behind the last byte that was read where a number was read.
#[derive(Clone, Copy, Debug, PartialEq, Eq)]
pub struct Parsed {
    pub value: i64,
    pub errno: Option<ErrorNumber>,
    pub end: Option<usize>,
}

/// The number `signed`, or the nearest limit with a range error where it
/// lies beyond one.
pub open spec fn clamped(signed: int, end: int) -> Parsed {
    if signed > i64::MAX {
        Parsed { value: i64::MAX, errno: Some(ErrorNumber::Range), end: Some(end as usize) }
    } else if signed < i64::MIN {
        Parsed { value: i64::MIN, errno: Some(ErrorNumber::Range), end: Some(end as usize) }
    } else {
        Parsed { value: signed as i64, errno: None, end: Some(end as usize) }
    }
}

/// Whether a sign stands behind the leading white space of `text`.
pub open spec fn has_sign(text: Seq<u8>) -> bool {
    let sign = skip_spaces(text, 0);
    0 <= sign < text.len() && (text[sign] == 43 || text[sign] == 45)
}

/// What `strtol` yields for the string `text` in base `base`.
///
/// A base below 2 or above 36 is an invalid argument, and a base other than
/// 10 is not implemented. Behind the leading white space a sign must stand,
/// else the argument is invalid. The digits behind the sign are the number,
/// which is cut to the nearest limit with a range error where it does not
/// fit.
pub open spec fn reads_number(text: Seq<u8>, base: i32) -> Parsed {
    let sign = skip_spaces(text, 0);
    let end = skip_digits(text, sign + 1);
    if base < 2 || base > 36 {
        Parsed { value: 0, errno: Some(ErrorNumber::Inval), end: None }
    } else if base != 10 {
        Parsed { value: 0, errno: Some(ErrorNumber::Nosys), end: None }
    } else if !has_sign(text) {
        Parsed { value: 0, errno: Some(ErrorNumber::Inval), end: None }
    } else if text[sign] == 45 {
        clamped(-digits_value(text, sign + 1, end), end)
    } else {
        clamped(digits_value(text, sign + 1, end), end)
    }
}

/// Whether `strtol` has an answer for the string `text` in base `base`: in
/// base 10, a sign is followed by a digit.
pub open spec fn readable_number(text: Seq<u8>, base: i32) -> bool {
    base == 10 && has_sign(text) ==> skip_digits(text, skip_spaces(text, 0) + 1) > skip_spaces(
        text,
        0,
    ) + 1
}

/// The value of digits grows with every digit.
proof fn lemma_digits_value_grows(text: Seq<u8>, from: int, to: int)
    requires
        0 <= from <= to < text.len(),
        forall|j: int| from <= j <= to ==> is_digit(#[trigger] text[j]),
    ensures
        0 <= digits_value(text, from, to),
        digits_value(text, from, to + 1) == digits_value(text, from, to) * 10 + (text[to] - 48),
        digits_value(text, from, to + 1) >= digits_value(text, from, to),
    decreases to - from,
{
    if to > from {
        lemma_digits_value_grows(text, from, to - 1);
    }
}

/// The digits that start at `from` end at `from` or behind it.
proof fn lemma_skip_digits_goes_on(text: Seq<u8>, from: int)
    requires
        0 <= from,
    ensures
        from <= skip_digits(text, from),
    decreases text.len() - from,
{
    if from < text.len() && is_digit(text[from]) {
        lemma_skip_digits_goes_on(text, from + 1);
    }
}

/// Tests whether `strtol` has an answer for the string in `nptr`.
pub fn can_read_number(nptr: &[u8], base: i32) -> (r: bool)
    ensures
        r == readable_number(text_of(nptr@), base),
{
    let ghost text = text_of(nptr@);
    proof {
        lemma_text_len_bounds(nptr@);
    }
    if base != 10 {
        return true;
    }
    let len: usize = strlen(nptr);
    let sign: usize = spaces_end(nptr, len);
    if sign >= len || (nptr[sign] != 43 && nptr[sign] != 45) {
        return true;
    }
    proof {
        assert(text[sign as int] == nptr@[sign as int]);
        if sign + 1 < len {
            assert(text[sign + 1] == nptr@[sign + 1]);
            lemma_skip_digits_goes_on(text, sign + 2);
        }
    }
    sign + 1 < len && 48 <= nptr[sign + 1] && nptr[sign + 1] <= 57
}

/// Finds where the leading white space of the string in `nptr` ends.
fn spaces_end(nptr: &[u8], len: usize) -> (r: usize)
    requires
        len == text_of(nptr@).len(),
        len <= nptr@.len(),
    ensures
        r == skip_spaces(text_of(nptr@), 0),
        r <= len,
{
    let ghost text = text_of(nptr@);
    let mut at: usize = 0;
    while at < len && (nptr[at] == 32 || nptr[at] == 9 || nptr[at] == 10 || nptr[at] == 12
        || nptr[at] == 13)
        invariant
            text == text_of(nptr@),
            len == text.len(),
            len <= nptr@.len(),
            at <= len,
            skip_spaces(text, 0) == skip_spaces(text, at as int),
        decreases len - at,
    {
        assert(text[at as int] == nptr@[at as int]);
        at = at + 1;
    }
    assert(at < len ==> text[at as int] == nptr@[at as int]);
    at
}

/// `strtol`: reads a number from the string in `nptr`, which ends before its
/// first zero byte.
pub fn strtol(nptr: &[u8], base: i32) -> (r: Parsed)
    requires
        readable_number(text_of(nptr@), base),
    ensures
        r == reads_number(text_of(nptr@), base),
{
    let ghost text = text_of(nptr@);
    proof {
        lemma_text_len_bounds(nptr@);
    }
    if base < 2 || base > 36 {
        return Parsed { value: 0, errno: Some(ErrorNumber::Inval), end: None };
    }
    if base != 10 {
        return Parsed { value: 0, errno: Some(ErrorNumber::Nosys), end: None };
    }
    let len: usize = strlen(nptr);
    let sign: usize = spaces_end(nptr, len);
    if sign >= len || (nptr[sign] != 43 && nptr[sign] != 45) {
        assert(sign < len ==> text[sign as int] == nptr@[sign as int]);
        return Parsed { value: 0, errno: Some(ErrorNumber::Inval), end: None };
    }
    assert(text[sign as int] == nptr@[sign as int]);
    let negative: bool = nptr[sign] == 45;
    let limit: u128 = 0x8000_0000_0000_0000;
    let mut magnitude: u128 = 0;
    let mut beyond: bool = false;
    let mut at: usize = sign + 1;
    while at < len && 48 <= nptr[at] && nptr[at] <= 57
        invariant
            text == text_of(nptr@),
            len == text.len(),
            len <= nptr@.len(),
            sign < at <= len,
            limit == 0x8000_0000_0000_0000,
            skip_digits(text, sign + 1) == skip_digits(text, at as int),
            forall|j: int| sign < j < at ==> is_digit(#[trigger] text[j]),
            0 <= digits_value(text, sign + 1, at as int),
            !beyond ==> magnitude == digits_value(text, sign + 1, at as int) && magnitude
                <= limit,
            beyond ==> digits_value(text, sign + 1, at as int) > limit,
        decreases len - at,
    {
        proof {
            assert(text[at as int] == nptr@[at as int]);
            assert forall|j: int| sign + 1 <= j <= at implies is_digit(#[trigger] text[j]) by {}
            lemma_digits_value_grows(text, sign + 1, at as int);
        }
        if !beyond {
            let next: u128 = magnitude * 10 + (nptr[at] - 48) as u128;
            if next > limit {
                beyond = true;
            } else {
                magnitude = next;
            }
        }
        at = at + 1;
    }
    assert(at < len ==> text[at as int] == nptr@[at as int]);
    let end: usize = at;
    if negative {
        if beyond {
            Parsed { value: i64::MIN, errno: Some(ErrorNumber::Range), end: Some(end) }
        } else if magnitude == limit {
            Parsed { value: i64::MIN, errno: None, end: Some(end) }
        } else {
            Parsed { value: -(magnitude as i64), errno: None, end: Some(end) }
        }
    } else {
        if beyond || magnitude == limit {
            Parsed { value: i64::MAX, errno: Some(ErrorNumber::Range), end: Some(end) }
        } else {
            Parsed { value: magnitude as i64, errno: None, end: Some(end) }
        }
    }
}

} // verus!
