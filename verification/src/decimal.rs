//! Exact decimal quantities.
//!
//! Prices and quantities on the wire are decimal literals (as JSON strings or
//! numbers). They are held as a sign, an integer mantissa and a power-of-ten
//! scale, so `"34500.00"` is exactly `3450000 * 10^-2` — never a binary float.
//! The mantissa and scale bounds match the 96-bit decimal range commonly used
//! for currency arithmetic; literals outside that range are rejected.

use vstd::prelude::*;

verus! {

/// One more than the largest admissible mantissa (2^96).
pub const MANTISSA_LIMIT: u128 = 79228162514264337593543950336;

/// The largest admissible scale (digits after the decimal point).
pub const SCALE_LIMIT: u32 = 28;

/// An exact decimal quantity: `(-1)^neg * mantissa * 10^-scale`.
///
/// Trailing zeros of the literal are kept, so `34500.00` has mantissa
/// `3450000` and scale `2`.
#[derive(Debug, Clone, Copy, PartialEq, Eq, Structural)]
pub struct Decimal {
    pub neg: bool,
    pub mantissa: u128,
    pub scale: u32,
}

/// Well-formedness: the mantissa fits in 96 bits and the scale is bounded.
pub open spec fn dec_wf(d: Decimal) -> bool {
    d.mantissa < MANTISSA_LIMIT && d.scale <= SCALE_LIMIT
}

impl Decimal {
    /// Builds a decimal from its parts.
    pub fn new(neg: bool, mantissa: u128, scale: u32) -> (r: Decimal)
        requires
            mantissa < MANTISSA_LIMIT,
            scale <= SCALE_LIMIT,
        ensures
            r == (Decimal { neg, mantissa, scale }),
            dec_wf(r),
    {
        Decimal { neg, mantissa, scale }
    }
}

/// Is `b` an ASCII decimal digit?
pub open spec fn is_digit(b: u8) -> bool {
    48 <= b <= 57
}

/// The first index at or after `i` holding a non-digit (or the end of `s`).
pub open spec fn digits_end(s: Seq<u8>, i: int) -> int
    decreases s.len() - i,
{
    if 0 <= i < s.len() && is_digit(s[i]) {
        digits_end(s, i + 1)
    } else {
        i
    }
}

/// Left fold of the digits `s[i..j)` onto the accumulator `acc`, most
/// significant digit first: the value of a digit run read in base ten.
pub open spec fn digits_acc(s: Seq<u8>, i: int, j: int, acc: nat) -> nat
    decreases j - i,
{
    if i < j && 0 <= i < s.len() && is_digit(s[i]) {
        digits_acc(s, i + 1, j, (acc * 10 + (s[i] - 48)) as nat)
    } else {
        acc
    }
}

/// Folding digits onto an accumulator never shrinks it.
pub proof fn lemma_digits_acc_ge(s: Seq<u8>, i: int, j: int, acc: nat)
    ensures
        digits_acc(s, i, j, acc) >= acc,
    decreases j - i,
{
    if i < j && 0 <= i < s.len() && is_digit(s[i]) {
        lemma_digits_acc_ge(s, i + 1, j, (acc * 10 + (s[i] - 48)) as nat);
    }
}

/// A decimal literal read at position `i` of `s`: an optional minus sign, at
/// least one integer digit, and optionally a point followed by at least one
/// fractional digit. Returns the value and the position after the literal;
/// `None` if no literal starts at `i` or its value is out of range.
pub open spec fn spec_parse_decimal(s: Seq<u8>, i: int) -> Option<(Decimal, int)> {
    if !(0 <= i < s.len()) {
        None
    } else {
        let neg = s[i] == 45;
        let p = if neg { i + 1 } else { i };
        let j = digits_end(s, p);
        if j == p {
            None
        } else if j < s.len() && s[j] == 46 {
            let k = digits_end(s, j + 1);
            if k == j + 1 {
                None
            } else {
                let m = digits_acc(s, j + 1, k, digits_acc(s, p, j, 0));
                if m < MANTISSA_LIMIT && k - j - 1 <= SCALE_LIMIT {
                    Some((Decimal { neg, mantissa: m as u128, scale: (k - j - 1) as u32 }, k))
                } else {
                    None
                }
            }
        } else {
            let m = digits_acc(s, p, j, 0);
            if m < MANTISSA_LIMIT {
                Some((Decimal { neg, mantissa: m as u128, scale: 0 }, j))
            } else {
                None
            }
        }
    }
}

/// A whole byte string as one decimal literal, nothing before or after it.
pub open spec fn spec_dec_of_bytes(s: Seq<u8>) -> Option<Decimal> {
    match spec_parse_decimal(s, 0) {
        Some((d, j)) => if j == s.len() {
            Some(d)
        } else {
            None
        },
        None => None,
    }
}

/// Scans the digit run starting at `i`.
fn find_digits_end(s: &[u8], i: usize) -> (r: usize)
    requires
        i <= s@.len(),
    ensures
        r == digits_end(s@, i as int),
        i <= r <= s@.len(),
{
    let mut cur: usize = i;
    while cur < s.len() && s[cur] >= 48 && s[cur] <= 57
        invariant
            i <= cur <= s@.len(),
            digits_end(s@, i as int) == digits_end(s@, cur as int),
        decreases s@.len() - cur,
    {
        assert(digits_end(s@, cur as int) == digits_end(s@, cur + 1));
        cur = cur + 1;
    }
    assert(digits_end(s@, cur as int) == cur);
    cur
}

/// Folds the digits `s[i..j)` onto `acc`, rejecting values at or above
/// `MANTISSA_LIMIT`.
fn fold_digits(s: &[u8], i: usize, j: usize, acc: u128) -> (r: Option<u128>)
    requires
        i <= j <= s@.len(),
        forall|t: int| i <= t < j ==> is_digit(s@[t]),
        acc < MANTISSA_LIMIT,
    ensures
        match r {
            Some(m) => m == digits_acc(s@, i as int, j as int, acc as nat) && m < MANTISSA_LIMIT,
            None => digits_acc(s@, i as int, j as int, acc as nat) >= MANTISSA_LIMIT,
        },
{
    let mut cur: usize = i;
    let mut m: u128 = acc;
    while cur < j
        invariant
            i <= cur <= j <= s@.len(),
            forall|t: int| i <= t < j ==> is_digit(s@[t]),
            m < MANTISSA_LIMIT,
            digits_acc(s@, i as int, j as int, acc as nat) == digits_acc(
                s@,
                cur as int,
                j as int,
                m as nat,
            ),
        decreases j - cur,
    {
        let d = s[cur] - 48;
        let m2: u128 = m * 10 + (d as u128);
        proof {
            assert(digits_acc(s@, cur as int, j as int, m as nat) == digits_acc(
                s@,
                cur + 1,
                j as int,
                (m as nat * 10 + (s@[cur as int] - 48)) as nat,
            ));
        }
        if m2 >= MANTISSA_LIMIT {
            proof {
                lemma_digits_acc_ge(s@, cur + 1, j as int, m2 as nat);
            }
            return None;
        }
        m = m2;
        cur = cur + 1;
    }
    Some(m)
}

/// All positions of a digit run up to its end hold digits.
proof fn lemma_digits_end_digits(s: Seq<u8>, i: int)
    ensures
        forall|t: int| i <= t < digits_end(s, i) ==> is_digit(s[t]),
        i <= digits_end(s, i),
    decreases s.len() - i,
{
    if 0 <= i < s.len() && is_digit(s[i]) {
        lemma_digits_end_digits(s, i + 1);
    }
}

/// Reads a decimal literal at position `i` of `s`, exactly as
/// `spec_parse_decimal` describes.
pub fn parse_decimal(s: &[u8], i: usize) -> (r: Option<(Decimal, usize)>)
    requires
        i <= s@.len(),
    ensures
        match r {
            Some((d, j)) => spec_parse_decimal(s@, i as int) == Some((d, j as int)) && i < j
                <= s@.len() && dec_wf(d),
            None => spec_parse_decimal(s@, i as int) is None,
        },
{
    if i >= s.len() {
        return None;
    }
    let neg = s[i] == 45;
    let p: usize = if neg {
        i + 1
    } else {
        i
    };
    let j = find_digits_end(s, p);
    proof {
        lemma_digits_end_digits(s@, p as int);
    }
    if j == p {
        return None;
    }
    let int_part = match fold_digits(s, p, j, 0) {
        Some(m) => m,
        None => {
            proof {
                if (j as int) < s@.len() && s@[j as int] == 46 {
                    lemma_digits_acc_ge(
                        s@,
                        j + 1,
                        digits_end(s@, j + 1),
                        digits_acc(s@, p as int, j as int, 0),
                    );
                }
            }
            return None;
        },
    };
    if j < s.len() && s[j] == 46 {
        let k = find_digits_end(s, j + 1);
        proof {
            lemma_digits_end_digits(s@, j + 1);
        }
        if k == j + 1 {
            return None;
        }
        let m = match fold_digits(s, j + 1, k, int_part) {
            Some(m) => m,
            None => {
                return None;
            },
        };
        let sc = k - (j + 1);
        if sc > SCALE_LIMIT as usize {
            return None;
        }
        Some((Decimal { neg, mantissa: m, scale: sc as u32 }, k))
    } else {
        Some((Decimal { neg, mantissa: int_part, scale: 0 }, j))
    }
}

/// Reads a whole byte string as one decimal literal, exactly as
/// `spec_dec_of_bytes` describes.
pub fn dec_of_bytes(s: &[u8]) -> (r: Option<Decimal>)
    ensures
        match r {
            Some(d) => spec_dec_of_bytes(s@) == Some(d) && dec_wf(d),
            None => spec_dec_of_bytes(s@) is None,
        },
{
    match parse_decimal(s, 0) {
        Some((d, j)) => if j == s.len() {
            Some(d)
        } else {
            None
        },
        None => None,
    }
}

} // verus!
