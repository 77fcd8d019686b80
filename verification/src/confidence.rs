//! Confidence values, held exactly as a whole number of millionths.
//!
//! A confidence is written as a plain decimal numeral: an optional sign,
//! digits, and optionally a point followed by more digits, with at least one
//! digit in all. Digits after the sixth decimal place are not kept, and the
//! part before the point counts for at most `WHOLE_CAP`. Any other text is not
//! a confidence.

use crate::numeral::{all_digits, is_digit, least, lemma_all_digits_split, number, read_digits};
use crate::text::{decimal, decimal_string, digit_char, digit_str, find_char, index_of, to_chars};
use vstd::prelude::*;
use vstd::string::StringExecFns;

verus! {

/// The largest value that the part before the point can contribute.
pub const WHOLE_CAP: u64 = 1_000_000_000_000;

/// Millionths in one unit.
pub const UNIT: u64 = 1_000_000;

/// The smallest difference between two confidences that counts as a change:
/// one tenth.
pub const SIGNIFICANT_DELTA: i64 = 100_000;

/// A confidence value: `micros` millionths.
#[derive(Debug, Clone, Copy, PartialEq, Eq, Structural)]
pub struct Confidence {
    pub micros: i64,
}

impl View for Confidence {
    type V = int;

    open spec fn view(&self) -> int {
        self.micros as int
    }
}

impl DeepView for Confidence {
    type V = int;

    open spec fn deep_view(&self) -> int {
        self.micros as int
    }
}

/// Ten to the power `n`.
pub open spec fn pow10(n: nat) -> nat
    decreases n,
{
    if n == 0 {
        1
    } else {
        10 * pow10((n - 1) as nat)
    }
}

/// The millionths that the digits after the point stand for. Only the first
/// six digits count.
pub open spec fn fraction_micros(frac: Seq<char>) -> nat {
    let kept = least(frac.len() as int, 6) as nat;
    number(frac.take(kept as int)) * pow10((6 - kept) as nat)
}

/// The millionths that an unsigned numeral stands for, if it is one.
pub open spec fn unsigned_micros(body: Seq<char>) -> Option<int> {
    let dot = index_of(body, '.') as int;
    let whole = body.take(dot);
    let frac = if dot < body.len() {
        body.skip(dot + 1)
    } else {
        Seq::<char>::empty()
    };
    if all_digits(whole) && all_digits(frac) && whole.len() + frac.len() > 0 {
        Some(least(number(whole) as int, WHOLE_CAP as int) * UNIT + fraction_micros(frac))
    } else {
        None
    }
}

/// The millionths that a numeral stands for, if the text is a numeral.
pub open spec fn micros_of(text: Seq<char>) -> Option<int> {
    if text.len() > 0 && text[0] == '-' {
        match unsigned_micros(text.drop_first()) {
            Some(m) => Some(-m),
            None => None,
        }
    } else if text.len() > 0 && text[0] == '+' {
        unsigned_micros(text.drop_first())
    } else {
        unsigned_micros(text)
    }
}

/// The size of a number, without its sign.
pub open spec fn magnitude(m: int) -> nat {
    if m < 0 {
        (-m) as nat
    } else {
        m as nat
    }
}

/// A value in millionths, rounded to hundredths (halves away from zero) and
/// written with two decimal places.
pub open spec fn two_decimals(micros: int) -> Seq<char> {
    let hundredths = (magnitude(micros) + 5000) / 10000;
    let sign = if micros < 0 {
        seq!['-']
    } else {
        Seq::<char>::empty()
    };
    sign + decimal((hundredths / 100) as nat) + seq![
        '.',
        digit_char(((hundredths / 10) % 10) as int),
        digit_char((hundredths % 10) as int),
    ]
}

/// Whether two confidences differ by a tenth or more.
pub open spec fn differs_significantly(old: int, new: int) -> bool {
    magnitude(old - new) >= SIGNIFICANT_DELTA
}

/// Ten to the power `n`, for the few powers needed here.
fn power_of_ten(n: usize) -> (p: u64)
    requires
        n <= 6,
    ensures
        p == pow10(n as nat),
        p <= UNIT,
{
    proof {
        lemma_pow10_values();
    }
    if n == 0 {
        1
    } else if n == 1 {
        10
    } else if n == 2 {
        100
    } else if n == 3 {
        1_000
    } else if n == 4 {
        10_000
    } else if n == 5 {
        100_000
    } else {
        1_000_000
    }
}

/// The digits `s` write a number below ten to the power of their count.
proof fn lemma_number_bound(s: Seq<char>)
    requires
        all_digits(s),
    ensures
        number(s) < pow10(s.len()),
    decreases s.len(),
{
    if s.len() > 0 {
        assert(is_digit(s[s.len() - 1]));
        assert forall|i: int| 0 <= i < s.drop_last().len() implies is_digit(
            #[trigger] s.drop_last()[i],
        ) by {
            assert(s.drop_last()[i] == s[i]);
        }
        lemma_number_bound(s.drop_last());
    }
}

/// The powers of ten up to a million.
proof fn lemma_pow10_values()
    ensures
        pow10(0) == 1,
        pow10(1) == 10,
        pow10(2) == 100,
        pow10(3) == 1_000,
        pow10(4) == 10_000,
        pow10(5) == 100_000,
        pow10(6) == 1_000_000,
{
    reveal_with_fuel(pow10, 8);
}

/// At most six digits after the point stand for less than one unit.
proof fn lemma_fraction_bound(kept: Seq<char>)
    requires
        all_digits(kept),
        kept.len() <= 6,
    ensures
        number(kept) * pow10((6 - kept.len()) as nat) < UNIT,
{
    lemma_number_bound(kept);
    lemma_pow10_values();
    let n = number(kept) as int;
    let p = pow10(kept.len()) as int;
    let q = pow10((6 - kept.len()) as nat) as int;
    let k = kept.len();
    assert(p * q == 1_000_000) by {
        if k == 0 {
        } else if k == 1 {
        } else if k == 2 {
        } else if k == 3 {
        } else if k == 4 {
        } else if k == 5 {
        } else {
            assert(k == 6);
        }
    }
    assert(n * q < p * q) by (nonlinear_arith)
        requires
            0 <= n < p,
            q > 0,
    ;
}

/// Reads the digits after the point, `v[from..]`.
fn read_fraction(v: &Vec<char>, from: usize) -> (r: Option<u64>)
    requires
        from <= v@.len(),
    ensures
        r.is_some() == all_digits(v@.skip(from as int)),
        r matches Some(f) ==> f == fraction_micros(v@.skip(from as int)) && f < UNIT,
{
    let end = v.len();
    let kept: usize = if end - from < 6 {
        end - from
    } else {
        6
    };
    let ghost frac = v@.skip(from as int);
    proof {
        assert(frac.take(kept as int) =~= v@.subrange(from as int, from + kept));
        assert(frac.skip(kept as int) =~= v@.subrange(from + kept, end as int));
        lemma_all_digits_split(frac, kept as int);
    }
    let kept_value = read_digits(v, from, from + kept, WHOLE_CAP);
    let rest_value = read_digits(v, from + kept, end, 0);
    match (kept_value, rest_value) {
        (Some(f), Some(_)) => {
            let scale = power_of_ten(6 - kept);
            proof {
                lemma_fraction_bound(frac.take(kept as int));
                lemma_number_bound(frac.take(kept as int));
                lemma_pow10_values();
            }
            Some(f * scale)
        },
        _ => None,
    }
}

/// Reads the unsigned numeral `v[from..]`.
fn read_unsigned(v: &Vec<char>, from: usize) -> (r: Option<u64>)
    requires
        from <= v@.len(),
    ensures
        r.is_some() == unsigned_micros(v@.skip(from as int)).is_some(),
        r matches Some(m) ==> unsigned_micros(v@.skip(from as int)) == Some(m as int) && m
            <= WHOLE_CAP * UNIT + UNIT,
{
    let ghost body = v@.skip(from as int);
    let dot = find_char(v, from, '.');
    let end = v.len();
    let frac_from = if dot < end {
        dot + 1
    } else {
        end
    };
    proof {
        assert(body.take(dot - from) =~= v@.subrange(from as int, dot as int));
        if dot < end {
            assert(body.skip(dot - from + 1) =~= v@.skip(frac_from as int));
        } else {
            assert(v@.skip(frac_from as int) =~= Seq::<char>::empty());
        }
    }
    let whole_value = read_digits(v, from, dot, WHOLE_CAP);
    let frac_value = read_fraction(v, frac_from);
    if (dot - from) + (end - frac_from) == 0 {
        return None;
    }
    match (whole_value, frac_value) {
        (Some(w), Some(f)) => {
            assert(w * UNIT <= WHOLE_CAP * UNIT) by (nonlinear_arith)
                requires
                    w <= WHOLE_CAP,
            ;
            Some(w * UNIT + f)
        },
        _ => None,
    }
}

impl Confidence {
    /// Reads a confidence from its numeral. `None` if the text is no numeral.
    pub fn parse(text: &str) -> (r: Option<Confidence>)
        ensures
            r.deep_view() == micros_of(text@),
    {
        let v = to_chars(text);
        assert(v@.skip(0) =~= v@);
        assert(v@.skip(1) =~= v@.drop_first());
        if v.len() > 0 && v[0] == '-' {
            match read_unsigned(&v, 1) {
                Some(m) => Some(Confidence { micros: -(m as i64) }),
                None => None,
            }
        } else if v.len() > 0 && v[0] == '+' {
            match read_unsigned(&v, 1) {
                Some(m) => Some(Confidence { micros: m as i64 }),
                None => None,
            }
        } else {
            match read_unsigned(&v, 0) {
                Some(m) => Some(Confidence { micros: m as i64 }),
                None => None,
            }
        }
    }

    /// The size of this value, without its sign.
    fn magnitude(&self) -> (a: u64)
        ensures
            a == magnitude(self@),
    {
        if self.micros >= 0 {
            self.micros as u64
        } else {
            ((-(self.micros + 1)) as u64) + 1
        }
    }

    /// This value with two decimal places.
    pub fn to_text(&self) -> (s: String)
        ensures
            s@ == two_decimals(self@),
    {
        let hundredths = (self.magnitude() + 5000) / 10000;
        let mut s = String::new();
        if self.micros < 0 {
            proof {
                reveal_strlit("-");
            }
            s.append("-");
            assert(s@ =~= seq!['-']);
        }
        let whole = decimal_string(hundredths / 100);
        s.append(whole.as_str());
        proof {
            reveal_strlit(".");
        }
        s.append(".");
        s.append(digit_str((hundredths / 10) % 10));
        s.append(digit_str(hundredths % 10));
        assert(s@ =~= two_decimals(self@));
        s
    }

    /// Whether this value lies below `other`.
    pub fn below(&self, other: &Confidence) -> (b: bool)
        ensures
            b == (self@ < other@),
    {
        self.micros < other.micros
    }

    /// Whether this value and `other` differ by a tenth or more.
    pub fn differs_significantly(&self, other: &Confidence) -> (b: bool)
        ensures
            b == differs_significantly(self@, other@),
    {
        let delta: i128 = (self.micros as i128) - (other.micros as i128);
        delta >= (SIGNIFICANT_DELTA as i128) || delta <= -(SIGNIFICANT_DELTA as i128)
    }
}

/// A difference of exactly one tenth is significant; one of 99 thousandths
/// is not.
pub proof fn lemma_tenth_is_the_threshold(old: int, new: int)
    ensures
        magnitude(old - new) == 100_000 ==> differs_significantly(old, new),
        magnitude(old - new) == 99_000 ==> !differs_significantly(old, new),
        differs_significantly(old, new) <==> (new - old >= 100_000 || old - new >= 100_000),
{
}

} // verus!
