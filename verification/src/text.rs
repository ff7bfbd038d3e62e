//! Comparing strings byte by byte.
//!
//! The contracts speak of a string's UTF-8 bytes, `spec_bytes()`; two strings have the
//! same bytes exactly when they have the same characters.

use vstd::prelude::*;
use vstd::string::StringSliceAdditionalSpecFns;
use vstd::utf8::encode_utf8_decode_utf8;

verus! {

/// `part` stands in `whole` at the index `at`.
pub open spec fn occurs_at(whole: Seq<u8>, part: Seq<u8>, at: int) -> bool {
    &&& 0 <= at
    &&& at + part.len() <= whole.len()
    &&& whole.subrange(at, at + part.len()) == part
}

/// `whole` begins with `part`.
pub open spec fn begins_with(whole: Seq<u8>, part: Seq<u8>) -> bool {
    occurs_at(whole, part, 0)
}

/// `whole` ends with `part`.
pub open spec fn ends_with(whole: Seq<u8>, part: Seq<u8>) -> bool {
    occurs_at(whole, part, whole.len() - part.len())
}

/// `part` stands somewhere in `whole`.
pub open spec fn holds(whole: Seq<u8>, part: Seq<u8>) -> bool {
    exists|at: int| occurs_at(whole, part, at)
}

/// Strings with the same bytes are the same string.
pub proof fn lemma_same_bytes_same_text(a: &str, b: &str)
    ensures
        (a.spec_bytes() == b.spec_bytes()) == (a@ == b@),
{
    encode_utf8_decode_utf8(a@);
    encode_utf8_decode_utf8(b@);
}

/// Whether `part` stands in `whole` at the index `at`.
pub fn slice_occurs_at(whole: &[u8], part: &[u8], at: usize) -> (r: bool)
    ensures
        r == occurs_at(whole@, part@, at as int),
{
    if at > whole.len() || part.len() > whole.len() - at {
        return false;
    }
    let mut k: usize = 0;
    while k < part.len()
        invariant
            k <= part.len(),
            at + part.len() <= whole.len(),
            forall|j: int| 0 <= j < k ==> whole@[at + j] == part@[j],
        decreases part.len() - k,
    {
        if whole[at + k] != part[k] {
            assert(whole@.subrange(at as int, at + part.len())[k as int] != part@[k as int]);
            return false;
        }
        k += 1;
    }
    assert(whole@.subrange(at as int, at + part.len()) =~= part@);
    true
}

/// Whether two strings are the same.
pub fn same_text(a: &str, b: &str) -> (r: bool)
    ensures
        r == (a@ == b@),
{
    proof {
        lemma_same_bytes_same_text(a, b);
    }
    let x = a.as_bytes();
    let y = b.as_bytes();
    if x.len() != y.len() {
        return false;
    }
    let r = slice_occurs_at(x, y, 0);
    assert(x@.subrange(0, x@.len() as int) =~= x@);
    r
}

/// Whether `s` begins with `prefix`.
pub fn text_begins_with(s: &str, prefix: &str) -> (r: bool)
    ensures
        r == begins_with(s.spec_bytes(), prefix.spec_bytes()),
{
    slice_occurs_at(s.as_bytes(), prefix.as_bytes(), 0)
}

/// Whether `s` ends with `suffix`.
pub fn text_ends_with(s: &str, suffix: &str) -> (r: bool)
    ensures
        r == ends_with(s.spec_bytes(), suffix.spec_bytes()),
{
    let x = s.as_bytes();
    let y = suffix.as_bytes();
    if y.len() > x.len() {
        return false;
    }
    slice_occurs_at(x, y, x.len() - y.len())
}

/// Whether `part` stands somewhere in `s`.
pub fn text_holds(s: &str, part: &str) -> (r: bool)
    ensures
        r == holds(s.spec_bytes(), part.spec_bytes()),
{
    let x = s.as_bytes();
    let y = part.as_bytes();
    if y.len() > x.len() {
        return false;
    }
    let last = x.len() - y.len();
    let mut at: usize = 0;
    while at < last
        invariant
            x@ == s.spec_bytes(),
            y@ == part.spec_bytes(),
            last == x.len() - y.len(),
            at <= last,
            forall|j: int| 0 <= j < at ==> !occurs_at(x@, y@, j),
        decreases last - at,
    {
        if slice_occurs_at(x, y, at) {
            return true;
        }
        at += 1;
    }
    slice_occurs_at(x, y, last)
}

/// The character of a decimal digit.
pub open spec fn spec_digit(d: nat) -> char {
    if d == 0 {
        '0'
    } else if d == 1 {
        '1'
    } else if d == 2 {
        '2'
    } else if d == 3 {
        '3'
    } else if d == 4 {
        '4'
    } else if d == 5 {
        '5'
    } else if d == 6 {
        '6'
    } else if d == 7 {
        '7'
    } else if d == 8 {
        '8'
    } else {
        '9'
    }
}

/// The decimal digits of a number, without leading zeros.
pub open spec fn spec_decimal(n: nat) -> Seq<char>
    decreases n,
{
    if n < 10 {
        seq![spec_digit(n)]
    } else {
        spec_decimal(n / 10).push(spec_digit(n % 10))
    }
}

/// `format!("{}", n)`: the number in decimal digits.
#[verifier::external_body]
pub(crate) fn decimal(n: u64) -> (text: String)
    ensures
        text@ == spec_decimal(n as nat),
{
    format!("{}", n)
}

/// The value of a decimal digit, if the byte is one.
pub open spec fn digit_value(b: u8) -> Option<nat> {
    if 0x30 <= b <= 0x39 {
        Some((b - 0x30) as nat)
    } else {
        None
    }
}

/// The number that the digits write, if all the bytes are decimal digits and there
/// is at least one.
pub open spec fn digits_value(bytes: Seq<u8>) -> Option<nat>
    decreases bytes.len(),
{
    if bytes.len() == 0 {
        None
    } else if bytes.len() == 1 {
        digit_value(bytes[0])
    } else {
        match (digits_value(bytes.drop_last()), digit_value(bytes.last())) {
            (Some(high), Some(low)) => Some(high * 10 + low),
            _ => None,
        }
    }
}

/// The number that a text writes, as `str::parse::<usize>` reads it: decimal digits,
/// with or without a plus sign before them, that write no more than `usize::MAX`.
pub open spec fn spec_parse_usize(bytes: Seq<u8>) -> Option<usize> {
    let digits = if bytes.len() > 0 && bytes[0] == 0x2b {
        bytes.drop_first()
    } else {
        bytes
    };
    match digits_value(digits) {
        Some(n) => if n <= usize::MAX {
            Some(n as usize)
        } else {
            None
        },
        None => None,
    }
}

/// Once the digits write more than `usize::MAX`, more digits do not bring them back.
proof fn lemma_digits_grow(bytes: Seq<u8>, k: int)
    requires
        0 < k <= bytes.len(),
        digits_value(bytes.take(k)) matches Some(n) && n > usize::MAX,
    ensures
        digits_value(bytes) matches Some(n) ==> n > usize::MAX,
    decreases bytes.len() - k,
{
    if k < bytes.len() {
        assert(bytes.take(k + 1).drop_last() =~= bytes.take(k));
        if digits_value(bytes.take(k + 1)) is Some {
            lemma_digits_grow(bytes, k + 1);
        } else {
            lemma_digits_stay_none(bytes, k + 1);
        }
    } else {
        assert(bytes.take(k) =~= bytes);
    }
}

/// Once the bytes are not all digits, more bytes do not make them so.
proof fn lemma_digits_stay_none(bytes: Seq<u8>, k: int)
    requires
        0 < k <= bytes.len(),
        digits_value(bytes.take(k)) is None,
    ensures
        digits_value(bytes) is None,
    decreases bytes.len() - k,
{
    if k < bytes.len() {
        assert(bytes.take(k + 1).drop_last() =~= bytes.take(k));
        lemma_digits_stay_none(bytes, k + 1);
    } else {
        assert(bytes.take(k) =~= bytes);
    }
}

/// Reads a number as `str::parse::<usize>` does.
pub fn parse_usize(bytes: &[u8]) -> (n: Option<usize>)
    ensures
        n == spec_parse_usize(bytes@),
{
    let start: usize = if bytes.len() > 0 && bytes[0] == 0x2b {
        1
    } else {
        0
    };
    let ghost digits = if start == 1 {
        bytes@.drop_first()
    } else {
        bytes@
    };
    if start == bytes.len() {
        return None;
    }
    let mut value: usize = 0;
    let mut k: usize = start;
    while k < bytes.len()
        invariant
            start <= k <= bytes.len(),
            start < bytes.len(),
            start == if bytes@.len() > 0 && bytes@[0] == 0x2b {
                1int
            } else {
                0int
            },
            digits == if start == 1 {
                bytes@.drop_first()
            } else {
                bytes@
            },
            digits =~= bytes@.skip(start as int),
            k > start ==> digits_value(digits.take(k - start)) == Some(value as nat),
            k == start ==> value == 0,
        decreases bytes.len() - k,
    {
        let b = bytes[k];
        let ghost upto = digits.take(k - start + 1);
        proof {
            assert(upto.last() == b);
            assert(upto.drop_last() =~= digits.take(k - start));
        }
        if b < 0x30 || b > 0x39 {
            proof {
                assert(digits_value(upto) is None);
                lemma_digits_stay_none(digits, k - start + 1);
            }
            return None;
        }
        let low: usize = (b - 0x30) as usize;
        let next = match value.checked_mul(10) {
            Some(high) => high.checked_add(low),
            None => None,
        };
        match next {
            Some(next) => {
                value = next;
            },
            None => {
                proof {
                    assert(digits_value(upto) == Some((value * 10 + low) as nat));
                    lemma_digits_grow(digits, k - start + 1);
                }
                return None;
            },
        }
        k += 1;
    }
    proof {
        assert(digits.take(k - start) =~= digits);
    }
    Some(value)
}

/// The number that a text writes, as `str::parse::<u64>` reads it: decimal digits,
/// with or without a plus sign before them, that write no more than `u64::MAX`.
pub open spec fn spec_parse_u64(bytes: Seq<u8>) -> Option<u64> {
    let digits = if bytes.len() > 0 && bytes[0] == 0x2b {
        bytes.drop_first()
    } else {
        bytes
    };
    match digits_value(digits) {
        Some(n) => if n <= u64::MAX {
            Some(n as u64)
        } else {
            None
        },
        None => None,
    }
}

/// Once the digits write more than `u64::MAX`, more digits do not bring them back.
proof fn lemma_digits_grow_u64(bytes: Seq<u8>, k: int)
    requires
        0 < k <= bytes.len(),
        digits_value(bytes.take(k)) matches Some(n) && n > u64::MAX,
    ensures
        digits_value(bytes) matches Some(n) ==> n > u64::MAX,
    decreases bytes.len() - k,
{
    if k < bytes.len() {
        assert(bytes.take(k + 1).drop_last() =~= bytes.take(k));
        if digits_value(bytes.take(k + 1)) is Some {
            lemma_digits_grow_u64(bytes, k + 1);
        } else {
            lemma_digits_stay_none(bytes, k + 1);
        }
    } else {
        assert(bytes.take(k) =~= bytes);
    }
}

/// Reads a number as `str::parse::<u64>` does.
pub fn parse_u64(bytes: &[u8]) -> (n: Option<u64>)
    ensures
        n == spec_parse_u64(bytes@),
{
    let start: usize = if bytes.len() > 0 && bytes[0] == 0x2b {
        1
    } else {
        0
    };
    let ghost digits = if start == 1 {
        bytes@.drop_first()
    } else {
        bytes@
    };
    if start == bytes.len() {
        return None;
    }
    let mut value: u64 = 0;
    let mut k: usize = start;
    while k < bytes.len()
        invariant
            start <= k <= bytes.len(),
            start < bytes.len(),
            start == if bytes@.len() > 0 && bytes@[0] == 0x2b {
                1int
            } else {
                0int
            },
            digits == if start == 1 {
                bytes@.drop_first()
            } else {
                bytes@
            },
            digits =~= bytes@.skip(start as int),
            k > start ==> digits_value(digits.take(k - start)) == Some(value as nat),
            k == start ==> value == 0,
        decreases bytes.len() - k,
    {
        let b = bytes[k];
        let ghost upto = digits.take(k - start + 1);
        proof {
            assert(upto.last() == b);
            assert(upto.drop_last() =~= digits.take(k - start));
        }
        if b < 0x30 || b > 0x39 {
            proof {
                assert(digits_value(upto) is None);
                lemma_digits_stay_none(digits, k - start + 1);
            }
            return None;
        }
        let low: u64 = (b - 0x30) as u64;
        let next = match value.checked_mul(10) {
            Some(high) => high.checked_add(low),
            None => None,
        };
        match next {
            Some(next) => {
                value = next;
            },
            None => {
                proof {
                    assert(digits_value(upto) == Some((value * 10 + low) as nat));
                    lemma_digits_grow_u64(digits, k - start + 1);
                }
                return None;
            },
        }
        k += 1;
    }
    proof {
        assert(digits.take(k - start) =~= digits);
    }
    Some(value)
}

/// The characters of each string of a list.
pub open spec fn texts(list: Seq<String>) -> Seq<Seq<char>> {
    Seq::new(list.len(), |i: int| list[i]@)
}

/// Whether two lists hold the same strings in the same order.
pub fn same_texts(a: &Vec<String>, b: &Vec<String>) -> (r: bool)
    ensures
        r == (texts(a@) == texts(b@)),
{
    if a.len() != b.len() {
        assert(texts(a@).len() != texts(b@).len());
        return false;
    }
    let mut k: usize = 0;
    while k < a.len()
        invariant
            k <= a.len(),
            a.len() == b.len(),
            forall|j: int| 0 <= j < k ==> a@[j]@ == b@[j]@,
        decreases a.len() - k,
    {
        if a[k] != b[k] {
            assert(texts(a@)[k as int] != texts(b@)[k as int]);
            return false;
        }
        k += 1;
    }
    assert(texts(a@) =~= texts(b@));
    true
}

} // verus!
