//! Decimal numerals: runs of the digits `0` to `9` and the numbers they
//! write.

use crate::text::to_chars;
use vstd::prelude::*;

verus! {

/// The largest bound that `read_digits` takes.
pub const DIGITS_CAP: u64 = 1_000_000_000_000;

/// Whether `c` is one of the digits `0` to `9`.
pub open spec fn is_digit(c: char) -> bool {
    '0' <= c && c <= '9'
}

/// The value of the digit `c`.
pub open spec fn digit_value(c: char) -> int {
    c as int - '0' as int
}

/// Whether `s` consists of digits only. The empty text does.
pub open spec fn all_digits(s: Seq<char>) -> bool {
    forall|i: int| 0 <= i < s.len() ==> is_digit(#[trigger] s[i])
}

/// The number that the digits `s` write; 0 for the empty text.
pub open spec fn number(s: Seq<char>) -> nat
    decreases s.len(),
{
    if s.len() == 0 {
        0
    } else {
        (number(s.drop_last()) * 10 + digit_value(s.last())) as nat
    }
}

/// The smaller of two numbers.
pub open spec fn least(a: int, b: int) -> int {
    if a <= b {
        a
    } else {
        b
    }
}

/// A run of digits splits into two runs of digits.
pub proof fn lemma_all_digits_split(s: Seq<char>, k: int)
    requires
        0 <= k <= s.len(),
    ensures
        all_digits(s) <==> all_digits(s.take(k)) && all_digits(s.skip(k)),
{
    if all_digits(s.take(k)) && all_digits(s.skip(k)) {
        assert forall|i: int| 0 <= i < s.len() implies is_digit(#[trigger] s[i]) by {
            if i < k {
                assert(s.take(k)[i] == s[i]);
            } else {
                assert(s.skip(k)[i - k] == s[i]);
            }
        }
    }
    if all_digits(s) {
        assert forall|i: int| 0 <= i < s.take(k).len() implies is_digit(#[trigger] s.take(k)[i]) by {
            assert(s.take(k)[i] == s[i]);
        }
        assert forall|i: int| 0 <= i < s.skip(k).len() implies is_digit(#[trigger] s.skip(k)[i]) by {
            assert(s.skip(k)[i] == s[i + k]);
        }
    }
}

/// Reads the digits `v[from..to]`. The result is the number they write, but
/// no more than `cap`; `None` if one of the characters is no digit.
pub fn read_digits(v: &Vec<char>, from: usize, to: usize, cap: u64) -> (r: Option<u64>)
    requires
        from <= to <= v@.len(),
        cap <= DIGITS_CAP,
    ensures
        r.is_some() == all_digits(v@.subrange(from as int, to as int)),
        r matches Some(n) ==> n == least(
            number(v@.subrange(from as int, to as int)) as int,
            cap as int,
        ),
{
    let mut acc: u64 = 0;
    let mut i: usize = from;
    assert(v@.subrange(from as int, from as int) =~= Seq::<char>::empty());
    while i < to
        invariant
            from <= i <= to <= v@.len(),
            cap <= DIGITS_CAP,
            all_digits(v@.subrange(from as int, i as int)),
            acc == least(number(v@.subrange(from as int, i as int)) as int, cap as int),
        decreases to - i,
    {
        let c = v[i];
        let ghost sub = v@.subrange(from as int, to as int);
        let ghost next = v@.subrange(from as int, i as int + 1);
        proof {
            assert(next.drop_last() =~= v@.subrange(from as int, i as int));
            assert(next.last() == c);
            assert(sub[i - from] == c);
        }
        if c < '0' || c > '9' {
            return None;
        }
        let d: u64 = (c as u64) - ('0' as u64);
        let grown: u64 = acc * 10 + d;
        acc = if grown > cap {
            cap
        } else {
            grown
        };
        i += 1;
        proof {
            assert forall|j: int| 0 <= j < next.len() implies is_digit(#[trigger] next[j]) by {
                if j < next.len() - 1 {
                    assert(next.drop_last()[j] == next[j]);
                }
            }
        }
    }
    Some(acc)
}

/// The number that a text writes as an unsigned 32-bit numeral: digits,
/// after an optional plus sign, that write a number within range. Any other
/// text is no numeral.
pub open spec fn u32_of(text: Seq<char>) -> Option<u32> {
    let digits = if text.len() > 0 && text[0] == '+' {
        text.drop_first()
    } else {
        text
    };
    if digits.len() > 0 && all_digits(digits) && number(digits) <= u32::MAX {
        Some(number(digits) as u32)
    } else {
        None
    }
}

/// Reads an unsigned 32-bit numeral.
pub fn parse_u32(text: &str) -> (r: Option<u32>)
    ensures
        r == u32_of(text@),
{
    let v = to_chars(text);
    let n = v.len();
    let from: usize = if n > 0 && v[0] == '+' {
        1
    } else {
        0
    };
    proof {
        assert(v@.subrange(0, n as int) =~= v@);
        if from == 1 {
            assert(v@.subrange(1, n as int) =~= v@.drop_first());
        }
    }
    if from == n {
        return None;
    }
    match read_digits(&v, from, n, 4_294_967_296) {
        Some(value) => if value <= 4_294_967_295 {
            Some(value as u32)
        } else {
            None
        },
        None => None,
    }
}

/// The number that a text writes, or 0 if it is no numeral.
pub open spec fn u32_or_zero(text: Seq<char>) -> u32 {
    match u32_of(text) {
        Some(n) => n,
        None => 0,
    }
}

/// Reads an unsigned 32-bit numeral; what is no numeral counts as 0.
pub fn parse_u32_or_zero(text: &str) -> (n: u32)
    ensures
        n == u32_or_zero(text@),
{
    match parse_u32(text) {
        Some(n) => n,
        None => 0,
    }
}

} // verus!
