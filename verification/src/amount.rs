//! Exact non-negative numbers.
//!
//! Prices, sizes and multipliers are decimal numbers; a quantity derived
//! from them by multiplication and division is a fraction. An [`Amount`]
//! holds such a number as numerator and denominator, so that no operation
//! rounds.

use vstd::prelude::*;

verus! {

/// A non-negative fraction of unbounded integers.
pub struct Fraction {
    pub num: nat,
    pub den: nat,
}

impl Fraction {
    /// The denominator is not zero: the fraction stands for a number.
    pub open spec fn valid(self) -> bool {
        self.den > 0
    }

    /// The fraction stands for a number above zero.
    pub open spec fn positive(self) -> bool {
        self.den > 0 && self.num > 0
    }
}

/// The product of two fractions.
pub open spec fn times(a: Fraction, b: Fraction) -> Fraction {
    Fraction { num: a.num * b.num, den: a.den * b.den }
}

/// The sum of two fractions, over the product of the denominators.
pub open spec fn cross_sum(a: Fraction, b: Fraction) -> Fraction {
    Fraction { num: a.num * b.den + b.num * a.den, den: a.den * b.den }
}

/// The sum of two fractions. Where one denominator divides the other, as
/// with two decimal numbers, the sum has the larger denominator; else it has
/// the product of both.
pub open spec fn plus(a: Fraction, b: Fraction) -> Fraction {
    if a.den > 0 && b.den % a.den == 0 {
        Fraction { num: a.num * (b.den / a.den) + b.num, den: b.den }
    } else if b.den > 0 && a.den % b.den == 0 {
        Fraction { num: a.num + b.num * (a.den / b.den), den: a.den }
    } else {
        cross_sum(a, b)
    }
}

/// The quotient of two fractions.
pub open spec fn over(a: Fraction, b: Fraction) -> Fraction {
    Fraction { num: a.num * b.den, den: a.den * b.num }
}

/// Whether two fractions stand for the same number.
pub open spec fn same_value(a: Fraction, b: Fraction) -> bool {
    a.num * b.den == b.num * a.den
}

/// Whether both parts of a fraction fit an [`Amount`].
pub open spec fn fits(f: Fraction) -> bool {
    f.num <= u128::MAX && f.den <= u128::MAX
}

/// A non-negative number, held exactly as `num / den`.
#[derive(Clone, Copy, Debug, PartialEq, Eq, Hash, Structural)]
pub struct Amount {
    pub num: u128,
    pub den: u128,
}

impl View for Amount {
    type V = Fraction;

    open spec fn view(&self) -> Fraction {
        Fraction { num: self.num as nat, den: self.den as nat }
    }
}

/// The amount that holds the parts of a fraction.
pub open spec fn amount_of(f: Fraction) -> Amount {
    Amount { num: f.num as u128, den: f.den as u128 }
}

/// The amount of a fraction, where both parts fit.
pub open spec fn fitted(f: Fraction) -> Option<Amount> {
    if fits(f) {
        Some(amount_of(f))
    } else {
        None
    }
}

/// The fraction of an optional amount.
pub open spec fn fraction_of(a: Option<Amount>) -> Option<Fraction> {
    match a {
        Some(a) => Some(a@),
        None => None,
    }
}

impl Amount {
    /// The denominator is not zero.
    pub open spec fn wf(&self) -> bool {
        self.den > 0
    }

    /// The amount is a number above zero.
    pub open spec fn positive(&self) -> bool {
        self.den > 0 && self.num > 0
    }

    /// The whole number `n`.
    pub fn whole(n: u128) -> (r: Amount)
        ensures
            r.num == n,
            r.den == 1,
    {
        Amount { num: n, den: 1 }
    }

    /// Whether the amount is a number above zero.
    pub fn is_positive(&self) -> (r: bool)
        ensures
            r == self.positive(),
    {
        self.den > 0 && self.num > 0
    }

    /// The product of two amounts, where it fits.
    pub fn times(self, other: Amount) -> (r: Option<Amount>)
        ensures
            r == fitted(times(self@, other@)),
            match r {
                Some(a) => a@ == times(self@, other@),
                None => !fits(times(self@, other@)),
            },
            self.wf() && other.wf() && r is Some ==> r.unwrap().wf(),
    {
        let num = self.num.checked_mul(other.num);
        let den = self.den.checked_mul(other.den);
        match (num, den) {
            (Some(num), Some(den)) => {
                assert(self.den > 0 && other.den > 0 ==> self.den * other.den > 0)
                    by (nonlinear_arith);
                Some(Amount { num, den })
            },
            _ => None,
        }
    }

    /// The sum of two amounts, where it fits.
    pub fn plus(self, other: Amount) -> (r: Option<Amount>)
        ensures
            r == fitted(plus(self@, other@)),
            self.wf() && other.wf() && r is Some ==> r.unwrap().wf(),
    {
        if self.den > 0 && other.den % self.den == 0 {
            let scaled = self.num.checked_mul(other.den / self.den);
            let num = match scaled {
                Some(scaled) => scaled.checked_add(other.num),
                None => None,
            };
            match num {
                Some(num) => Some(Amount { num, den: other.den }),
                None => None,
            }
        } else if other.den > 0 && self.den % other.den == 0 {
            let scaled = other.num.checked_mul(self.den / other.den);
            let num = match scaled {
                Some(scaled) => self.num.checked_add(scaled),
                None => None,
            };
            match num {
                Some(num) => Some(Amount { num, den: self.den }),
                None => None,
            }
        } else {
            let left = self.num.checked_mul(other.den);
            let right = other.num.checked_mul(self.den);
            let den = self.den.checked_mul(other.den);
            match (left, right, den) {
                (Some(left), Some(right), Some(den)) => match left.checked_add(right) {
                    Some(num) => {
                        assert(self.den > 0 && other.den > 0 ==> self.den * other.den > 0)
                            by (nonlinear_arith);
                        Some(Amount { num, den })
                    },
                    None => None,
                },
                (Some(left), Some(right), None) => None,
                _ => {
                    assert(!fits(cross_sum(self@, other@))) by {
                        assert(self.num * other.den >= 0 && other.num * self.den >= 0)
                            by (nonlinear_arith);
                    }
                    None
                },
            }
        }
    }

    /// The quotient of two amounts, where it fits.
    pub fn over(self, other: Amount) -> (r: Option<Amount>)
        ensures
            r == fitted(over(self@, other@)),
            match r {
                Some(a) => a@ == over(self@, other@),
                None => !fits(over(self@, other@)),
            },
            self.wf() && other.positive() && r is Some ==> r.unwrap().wf(),
    {
        let num = self.num.checked_mul(other.den);
        let den = self.den.checked_mul(other.num);
        match (num, den) {
            (Some(num), Some(den)) => {
                assert(self.den > 0 && other.num > 0 ==> self.den * other.num > 0)
                    by (nonlinear_arith);
                Some(Amount { num, den })
            },
            _ => None,
        }
    }
}

/// Dividing by a number above zero and multiplying by it again gives a
/// fraction of the same value.
pub proof fn lemma_over_times(a: Fraction, b: Fraction)
    requires
        a.valid(),
        b.positive(),
    ensures
        over(a, b).valid(),
        times(over(a, b), b).valid(),
        same_value(times(over(a, b), b), a),
{
    assert((a.num * b.den * b.num) * a.den == a.num * (a.den * b.num * b.den))
        by (nonlinear_arith);
    assert(a.den * b.num > 0) by (nonlinear_arith)
        requires
            a.den > 0,
            b.num > 0,
    ;
    assert((a.den * b.num) * b.den > 0) by (nonlinear_arith)
        requires
            a.den * b.num > 0,
            b.den > 0,
    ;
}

/// The sum of two fractions has the value of the sum over the product of
/// the denominators, whichever denominator it takes.
pub proof fn lemma_plus_value(a: Fraction, b: Fraction)
    requires
        a.valid(),
        b.valid(),
    ensures
        plus(a, b).valid(),
        cross_sum(a, b).valid(),
        same_value(plus(a, b), cross_sum(a, b)),
{
    assert(a.den * b.den > 0) by (nonlinear_arith)
        requires
            a.den > 0,
            b.den > 0,
    ;
    if b.den % a.den == 0 {
        let k = b.den / a.den;
        vstd::arithmetic::div_mod::lemma_fundamental_div_mod(b.den as int, a.den as int);
        assert(b.den == a.den * k);
        assert((a.num * k + b.num) * (a.den * b.den) == (a.num * b.den + b.num * a.den) * b.den)
            by (nonlinear_arith)
            requires
                b.den == a.den * k,
        ;
    } else if a.den % b.den == 0 {
        let k = a.den / b.den;
        vstd::arithmetic::div_mod::lemma_fundamental_div_mod(a.den as int, b.den as int);
        assert(a.den == b.den * k);
        assert((a.num + b.num * k) * (a.den * b.den) == (a.num * b.den + b.num * a.den) * a.den)
            by (nonlinear_arith)
            requires
                a.den == b.den * k,
        ;
    }
}

/// The product of two valid fractions is valid.
pub proof fn lemma_times_valid(a: Fraction, b: Fraction)
    requires
        a.valid(),
        b.valid(),
    ensures
        times(a, b).valid(),
{
    assert(a.den * b.den > 0) by (nonlinear_arith)
        requires
            a.den > 0,
            b.den > 0,
    ;
}

} // verus!
