//! Decimal numbers as text.
//!
//! A decimal number is written with digits and at most one point: `12`,
//! `0.001`, `12.`, `.5`. An exponent may follow, a whole number after `e` or
//! `E`: `2.315E+4`, `1e-8`. A decimal number has no sign.

use crate::amount::{fits, fitted, Amount, Fraction};
use crate::message::number::{i64_of, integer};
use crate::text::{
    after, before, chars_of, find_char, is_digit, joined, lemma_position, position, slice,
};
use vstd::prelude::*;

verus! {

/// The value of the digit `c`.
pub open spec fn digit_value(c: char) -> nat {
    (c as nat - '0' as nat) as nat
}

/// Whether `s` holds digits alone.
pub open spec fn all_digits(s: Seq<char>) -> bool {
    forall|i: int| 0 <= i < s.len() ==> is_digit(#[trigger] s[i])
}

/// The number that the digits `s` write; zero for no digits.
pub open spec fn number_of(s: Seq<char>) -> nat
    decreases s.len(),
{
    if s.len() == 0 {
        0
    } else {
        number_of(s.drop_last()) * 10 + digit_value(s.last())
    }
}

/// Ten to the power of `n`.
pub open spec fn pow10(n: nat) -> nat
    decreases n,
{
    if n == 0 {
        1
    } else {
        10 * pow10((n - 1) as nat)
    }
}

/// Where the exponent of `s` is marked: the position of its first `e` or
/// `E`, or `s.len()` where it has none.
pub open spec fn exponent_mark(s: Seq<char>) -> int {
    if position(s, 'e') <= position(s, 'E') {
        position(s, 'e')
    } else {
        position(s, 'E')
    }
}

/// The digits that the text `m` writes, as a number, and how many of them
/// follow the point; `None` where `m` is not digits with at most one point.
pub open spec fn mantissa_of(m: Seq<char>) -> Option<(nat, nat)> {
    let whole = before(m, '.');
    let part = after(m, '.');
    if whole.len() + part.len() > 0 && all_digits(whole) && all_digits(part) {
        Some((number_of(whole + part), part.len()))
    } else {
        None
    }
}

/// The number `n` times ten to the power of `shift`.
pub open spec fn shifted(n: nat, shift: int) -> Fraction {
    if shift >= 0 {
        Fraction { num: n * pow10(shift as nat), den: 1 }
    } else {
        Fraction { num: n, den: pow10((-shift) as nat) }
    }
}

/// The number that the text `s` writes, if `s` is a decimal number.
pub open spec fn decimal_of(s: Seq<char>) -> Option<Fraction> {
    let mark = exponent_mark(s);
    match mantissa_of(s.take(mark)) {
        Some((n, places)) => if mark >= s.len() {
            Some(shifted(n, -places))
        } else {
            match i64_of(s.skip(mark + 1)) {
                Some(exponent) => Some(shifted(n, exponent - places)),
                None => None,
            }
        },
        None => None,
    }
}

/// The amount that the text `s` writes, if `s` is a decimal number whose
/// parts fit.
pub open spec fn parsed(s: Seq<char>) -> Option<Amount> {
    match decimal_of(s) {
        Some(f) => fitted(f),
        None => None,
    }
}

/// The digits of a number write at least what any beginning of them writes.
pub proof fn lemma_number_grows(s: Seq<char>, n: int)
    requires
        0 <= n <= s.len(),
    ensures
        number_of(s.take(n)) <= number_of(s),
    decreases s.len() - n,
{
    if n == s.len() {
        assert(s.take(n) =~= s);
    } else {
        lemma_number_grows(s.drop_last(), n);
        assert(s.drop_last().take(n) =~= s.take(n));
    }
}

/// Powers of ten grow with the exponent.
pub proof fn lemma_pow10_grows(a: nat, b: nat)
    requires
        a <= b,
    ensures
        0 < pow10(a) <= pow10(b),
    decreases b,
{
    if b == 0 {
    } else if a == b {
        lemma_pow10_grows((a - 1) as nat, (b - 1) as nat);
    } else {
        lemma_pow10_grows(a, (b - 1) as nat);
    }
}

fn digits(s: &Vec<char>) -> (r: bool)
    ensures
        r == all_digits(s@),
{
    let mut i: usize = 0;
    while i < s.len()
        invariant
            i <= s.len(),
            forall|j: int| 0 <= j < i ==> is_digit(#[trigger] s[j]),
        decreases s.len() - i,
    {
        let c = s[i];
        if !('0' <= c && c <= '9') {
            return false;
        }
        i += 1;
    }
    true
}

fn number(s: &Vec<char>) -> (r: Option<u128>)
    requires
        all_digits(s@),
    ensures
        match r {
            Some(n) => n == number_of(s@),
            None => number_of(s@) > u128::MAX,
        },
{
    let mut n: u128 = 0;
    let mut i: usize = 0;
    while i < s.len()
        invariant
            i <= s.len(),
            all_digits(s@),
            n == number_of(s@.take(i as int)),
        decreases s.len() - i,
    {
        let c = s[i];
        assert(is_digit(s[i as int]));
        let d: u128 = (c as u32 - '0' as u32) as u128;
        proof {
            assert(s@.take(i + 1).drop_last() =~= s@.take(i as int));
            assert(s@.take(i + 1).last() == s[i as int]);
            assert(d == digit_value(c));
            lemma_number_grows(s@, i + 1);
        }
        match n.checked_mul(10) {
            Some(m) => match m.checked_add(d) {
                Some(next) => {
                    n = next;
                },
                None => {
                    return None;
                },
            },
            None => {
                return None;
            },
        }
        i += 1;
    }
    assert(s@.take(i as int) =~= s@);
    Some(n)
}

fn power_of_ten(k: u128) -> (r: Option<u128>)
    ensures
        match r {
            Some(n) => n == pow10(k as nat),
            None => pow10(k as nat) > u128::MAX,
        },
{
    let mut n: u128 = 1;
    let mut i: u128 = 0;
    while i < k
        invariant
            i <= k,
            n == pow10(i as nat),
        decreases k - i,
    {
        proof {
            lemma_pow10_grows((i + 1) as nat, k as nat);
        }
        match n.checked_mul(10) {
            Some(m) => {
                n = m;
            },
            None => {
                return None;
            },
        }
        i += 1;
    }
    Some(n)
}

fn mantissa(m: &Vec<char>) -> (r: Option<(Option<u128>, usize)>)
    ensures
        match r {
            Some((n, places)) => mantissa_of(m@) matches Some((number, p)) && p == places && (match n {
                Some(n) => n == number,
                None => number > u128::MAX,
            }),
            None => mantissa_of(m@) is None,
        },
{
    let point = find_char(m, '.');
    proof {
        lemma_position(m@, '.');
    }
    let whole = slice(m, 0, point);
    let part = if point < m.len() {
        slice(m, point + 1, m.len())
    } else {
        Vec::new()
    };
    assert(whole@ =~= before(m@, '.'));
    assert(part@ =~= after(m@, '.'));
    if whole.len() == 0 && part.len() == 0 {
        return None;
    }
    if !digits(&whole) || !digits(&part) {
        return None;
    }
    let all = joined(&whole, &part);
    Some((number(&all), part.len()))
}

fn shift(n: Option<u128>, by: i128) -> (r: Option<Amount>)
    requires
        by > i128::MIN,
    ensures
        match n {
            Some(n) => r == fitted(shifted(n as nat, by as int)),
            None => r is None,
        },
        r matches Some(a) ==> a.wf(),
{
    match n {
        Some(n) => if by >= 0 {
            if n == 0 {
                assert(0 * pow10(by as nat) == 0) by (nonlinear_arith);
                Some(Amount { num: 0, den: 1 })
            } else {
                proof {
                    lemma_pow10_grows(0, by as nat);
                }
                match power_of_ten(by as u128) {
                    Some(t) => match n.checked_mul(t) {
                        Some(num) => Some(Amount { num, den: 1 }),
                        None => None,
                    },
                    None => {
                        assert(n * pow10(by as nat) > u128::MAX) by (nonlinear_arith)
                            requires
                                n >= 1,
                                pow10(by as nat) > u128::MAX,
                        ;
                        None
                    },
                }
            }
        } else {
            proof {
                lemma_pow10_grows(0, (-by) as nat);
            }
            match power_of_ten((-by) as u128) {
                Some(den) => Some(Amount { num: n, den }),
                None => None,
            }
        },
        None => None,
    }
}

/// Reads a decimal number. `None` where the text is no decimal number, or
/// where the number does not fit an [`Amount`].
pub fn parse_decimal(text: &str) -> (r: Option<Amount>)
    ensures
        r == parsed(text@),
        match r {
            Some(a) => decimal_of(text@) == Some(a@) && a.wf(),
            None => decimal_of(text@) matches Some(f) ==> !fits(f),
        },
{
    decimal(&chars_of(text))
}

/// Reads a decimal number from its characters.
pub fn decimal(s: &Vec<char>) -> (r: Option<Amount>)
    ensures
        r == parsed(s@),
        match r {
            Some(a) => decimal_of(s@) == Some(a@) && a.wf(),
            None => decimal_of(s@) matches Some(f) ==> !fits(f),
        },
{
    let small = find_char(s, 'e');
    let capital = find_char(s, 'E');
    let mark = if small <= capital {
        small
    } else {
        capital
    };
    let head = slice(s, 0, mark);
    assert(head@ =~= s@.take(mark as int));
    match mantissa(&head) {
        Some((n, places)) => {
            let exponent: i64 = if mark < s.len() {
                let tail = slice(s, mark + 1, s.len());
                assert(tail@ =~= s@.skip(mark + 1));
                match integer(&tail) {
                    Some(exponent) => exponent,
                    None => {
                        return None;
                    },
                }
            } else {
                0
            };
            let by: i128 = exponent as i128 - places as i128;
            proof {
                let number = mantissa_of(head@).unwrap().0;
                if n is None {
                    // the digits alone are too many, and no exponent that
                    // leaves a whole number makes them fewer
                    if by >= 0 {
                        lemma_pow10_grows(0, by as nat);
                        assert(number * pow10(by as nat) > u128::MAX) by (nonlinear_arith)
                            requires
                                number > u128::MAX,
                                pow10(by as nat) >= 1,
                        ;
                    }
                }
            }
            shift(n, by)
        },
        None => None,
    }
}

} // verus!
