//! Fixed-point arithmetic over 18-decimal quantities.
//!
//! A `Decimal` is a non-negative number stored as an integer count of
//! `10^-18` atomic units, and a `Rate` is a non-zero `Decimal` tagged with
//! the two denominations it converts between. Amounts are integers tagged
//! with one denomination. Every conversion states its rounding direction
//! exactly: `floor` rounds the true quotient down, `ceil` rounds it up.
//!
//! All operations are exact integer formulas; preconditions exclude the
//! inputs on which a 128-bit intermediate product would overflow.

use vstd::arithmetic::div_mod::lemma_fundamental_div_mod;
use vstd::prelude::*;

use core::marker::PhantomData;

verus! {

/// Number of atomic units in one whole unit: `10^18`.
pub const DECIMAL_FRACTIONAL: u128 = 1_000_000_000_000_000_000;

/// `DECIMAL_FRACTIONAL` squared: `10^36`.
pub const DECIMAL_FRACTIONAL_SQUARED: u128 = 1_000_000_000_000_000_000_000_000_000_000_000_000;

/// The scaling factor of the fixed-point representation, as a mathematical integer.
pub open spec fn frac() -> int {
    DECIMAL_FRACTIONAL as int
}

/// Quotient of non-negative `p` by positive `d`, rounded up.
pub open spec fn div_up(p: int, d: int) -> int {
    if p % d == 0 {
        p / d
    } else {
        p / d + 1
    }
}

/// `a * n / d`, rounded down.
pub fn mul_div_floor(a: u128, n: u128, d: u128) -> (r: u128)
    requires
        d > 0,
        a * n <= u128::MAX,
    ensures
        r == a * n / (d as int),
{
    (a * n) / d
}

/// `a * n / d`, rounded up.
pub fn mul_div_ceil(a: u128, n: u128, d: u128) -> (r: u128)
    requires
        d > 0,
        a * n <= u128::MAX,
    ensures
        r == div_up(a * n, d as int),
{
    let p = a * n;
    let q = p / d;
    let rem = p % d;
    if rem == 0 {
        q
    } else {
        proof {
            lemma_fundamental_div_mod(p as int, d as int);
            assert(2 * (q as int) <= (d as int) * (q as int)) by (nonlinear_arith)
                requires
                    d >= 2,
                    q >= 0,
            ;
        }
        q + 1
    }
}

/// A non-negative fixed-point number with 18 fractional decimal digits.
#[derive(Clone, Copy, Debug, PartialEq, Eq, Structural)]
pub struct Decimal {
    /// The number multiplied by `10^18`.
    pub atomics: u128,
}

impl Decimal {
    /// The decimal whose value is `atomics / 10^18`.
    pub fn raw(atomics: u128) -> (d: Decimal)
        ensures
            d.atomics == atomics,
    {
        Decimal { atomics }
    }

    /// Zero.
    pub fn zero() -> (d: Decimal)
        ensures
            d.atomics == 0,
    {
        Decimal { atomics: 0 }
    }

    /// One.
    pub fn one() -> (d: Decimal)
        ensures
            d.atomics == DECIMAL_FRACTIONAL,
    {
        Decimal { atomics: DECIMAL_FRACTIONAL }
    }

    pub fn is_zero(&self) -> (b: bool)
        ensures
            b <==> self.atomics == 0,
    {
        self.atomics == 0
    }

    /// The ratio `numerator / denominator`, rounded down to 18 decimals.
    pub fn from_ratio(numerator: u128, denominator: u128) -> (d: Decimal)
        requires
            denominator > 0,
            numerator * DECIMAL_FRACTIONAL <= u128::MAX,
        ensures
            d.atomics == numerator * frac() / (denominator as int),
    {
        Decimal { atomics: mul_div_floor(numerator, DECIMAL_FRACTIONAL, denominator) }
    }

    /// `self + rhs`, or `None` on overflow.
    pub fn checked_add(self, rhs: Decimal) -> (r: Option<Decimal>)
        ensures
            self.atomics + rhs.atomics <= u128::MAX ==> r == Some(
                Decimal { atomics: (self.atomics + rhs.atomics) as u128 },
            ),
            self.atomics + rhs.atomics > u128::MAX ==> r is None,
    {
        match self.atomics.checked_add(rhs.atomics) {
            Some(atomics) => Some(Decimal { atomics }),
            None => None,
        }
    }

    /// `self - rhs`, or `None` when `rhs` exceeds `self`.
    pub fn checked_sub(self, rhs: Decimal) -> (r: Option<Decimal>)
        ensures
            self.atomics >= rhs.atomics ==> r == Some(
                Decimal { atomics: (self.atomics - rhs.atomics) as u128 },
            ),
            self.atomics < rhs.atomics ==> r is None,
    {
        match self.atomics.checked_sub(rhs.atomics) {
            Some(atomics) => Some(Decimal { atomics }),
            None => None,
        }
    }

    /// The product of two decimals, truncated to 18 decimals.
    pub fn mul_down(self, rhs: Decimal) -> (r: Decimal)
        requires
            self.atomics * rhs.atomics <= u128::MAX,
        ensures
            r.atomics == self.atomics * rhs.atomics / frac(),
    {
        Decimal { atomics: mul_div_floor(self.atomics, rhs.atomics, DECIMAL_FRACTIONAL) }
    }

    /// The multiplicative inverse, truncated to 18 decimals.
    pub fn inv(self) -> (r: Decimal)
        requires
            self.atomics > 0,
        ensures
            r.atomics == DECIMAL_FRACTIONAL_SQUARED as int / self.atomics as int,
    {
        Decimal { atomics: DECIMAL_FRACTIONAL_SQUARED / self.atomics }
    }

    /// The larger of the two decimals.
    pub fn max_of(self, rhs: Decimal) -> (r: Decimal)
        ensures
            r.atomics == if self.atomics >= rhs.atomics {
                self.atomics as int
            } else {
                rhs.atomics as int
            },
    {
        if self.atomics >= rhs.atomics {
            self
        } else {
            rhs
        }
    }
}

/// An integer quantity of the denomination `T`.
#[derive(Debug)]
pub struct AmountU128<T> {
    pub amount: u128,
    pub denom: PhantomData<T>,
}

impl<T> Clone for AmountU128<T> {
    fn clone(&self) -> (r: Self)
        ensures
            r.amount == self.amount,
    {
        AmountU128 { amount: self.amount, denom: PhantomData }
    }
}

impl<T> Copy for AmountU128<T> {

}

impl<T> AmountU128<T> {
    /// The amount, as a spec-level value.
    pub open spec fn spec_new(amount: u128) -> AmountU128<T> {
        AmountU128 { amount, denom: PhantomData }
    }

    #[verifier::when_used_as_spec(spec_new)]
    pub fn new(amount: u128) -> (a: AmountU128<T>)
        ensures
            a.amount == amount,
    {
        AmountU128 { amount, denom: PhantomData }
    }

    pub fn zero() -> (a: AmountU128<T>)
        ensures
            a.amount == 0,
    {
        AmountU128 { amount: 0, denom: PhantomData }
    }

    pub fn is_zero(&self) -> (b: bool)
        ensures
            b <==> self.amount == 0,
    {
        self.amount == 0
    }

    pub fn u128(&self) -> (v: u128)
        ensures
            v == self.amount,
    {
        self.amount
    }

    /// `self + rhs`, or `None` on overflow.
    pub fn checked_add(self, rhs: AmountU128<T>) -> (r: Option<AmountU128<T>>)
        ensures
            self.amount + rhs.amount <= u128::MAX ==> (r matches Some(s) && s.amount
                == self.amount + rhs.amount),
            self.amount + rhs.amount > u128::MAX ==> r is None,
    {
        match self.amount.checked_add(rhs.amount) {
            Some(amount) => Some(AmountU128::new(amount)),
            None => None,
        }
    }

    /// `self - rhs`, or `None` when `rhs` exceeds `self`.
    pub fn checked_sub(self, rhs: AmountU128<T>) -> (r: Option<AmountU128<T>>)
        ensures
            self.amount >= rhs.amount ==> (r matches Some(s) && s.amount
                == self.amount - rhs.amount),
            self.amount < rhs.amount ==> r is None,
    {
        match self.amount.checked_sub(rhs.amount) {
            Some(amount) => Some(AmountU128::new(amount)),
            None => None,
        }
    }

    /// Absolute difference of the two amounts.
    pub fn abs_diff(self, rhs: AmountU128<T>) -> (r: AmountU128<T>)
        ensures
            r.amount == if self.amount >= rhs.amount {
                self.amount - rhs.amount
            } else {
                rhs.amount - self.amount
            },
    {
        if self.amount >= rhs.amount {
            AmountU128::new(self.amount - rhs.amount)
        } else {
            AmountU128::new(rhs.amount - self.amount)
        }
    }

    /// Convert to denomination `B` by multiplying with a `B`-per-`T` rate, rounding down.
    pub fn mul_floor<B>(&self, rate: &Rate<B, T>) -> (r: AmountU128<B>)
        requires
            self.amount * rate.dec.atomics <= u128::MAX,
        ensures
            r.amount == self.amount * rate.dec.atomics / frac(),
    {
        AmountU128::new(mul_div_floor(self.amount, rate.dec.atomics, DECIMAL_FRACTIONAL))
    }

    /// Convert to denomination `B` by multiplying with a `B`-per-`T` rate, rounding up.
    pub fn mul_ceil<B>(&self, rate: &Rate<B, T>) -> (r: AmountU128<B>)
        requires
            self.amount * rate.dec.atomics <= u128::MAX,
        ensures
            r.amount == div_up(self.amount * rate.dec.atomics, frac()),
    {
        AmountU128::new(mul_div_ceil(self.amount, rate.dec.atomics, DECIMAL_FRACTIONAL))
    }

    /// Convert to denomination `B` by dividing by a `T`-per-`B` rate, rounding down.
    pub fn div_floor<B>(&self, rate: &Rate<T, B>) -> (r: AmountU128<B>)
        requires
            rate.wf(),
            self.amount * DECIMAL_FRACTIONAL <= u128::MAX,
        ensures
            r.amount == self.amount * frac() / rate.dec.atomics as int,
    {
        AmountU128::new(mul_div_floor(self.amount, DECIMAL_FRACTIONAL, rate.dec.atomics))
    }

    /// Convert to denomination `B` by dividing by a `T`-per-`B` rate, rounding up.
    pub fn div_ceil<B>(&self, rate: &Rate<T, B>) -> (r: AmountU128<B>)
        requires
            rate.wf(),
            self.amount * DECIMAL_FRACTIONAL <= u128::MAX,
        ensures
            r.amount == div_up(self.amount * frac(), rate.dec.atomics as int),
    {
        AmountU128::new(mul_div_ceil(self.amount, DECIMAL_FRACTIONAL, rate.dec.atomics))
    }

    /// Scale by a plain decimal, rounding down.
    pub fn dec_mul_floor(self, dec: Decimal) -> (r: AmountU128<T>)
        requires
            self.amount * dec.atomics <= u128::MAX,
        ensures
            r.amount == self.amount * dec.atomics / frac(),
    {
        AmountU128::new(mul_div_floor(self.amount, dec.atomics, DECIMAL_FRACTIONAL))
    }

    /// Scale by a plain decimal, rounding up.
    pub fn dec_mul_ceil(self, dec: Decimal) -> (r: AmountU128<T>)
        requires
            self.amount * dec.atomics <= u128::MAX,
        ensures
            r.amount == div_up(self.amount * dec.atomics, frac()),
    {
        AmountU128::new(mul_div_ceil(self.amount, dec.atomics, DECIMAL_FRACTIONAL))
    }
}

/// A conversion rate: how many `A` one unit of `B` is worth.
#[derive(Debug)]
pub struct Rate<A, B> {
    pub dec: Decimal,
    pub denoms: PhantomData<(A, B)>,
}

impl<A, B> Clone for Rate<A, B> {
    fn clone(&self) -> (r: Self)
        ensures
            r.dec == self.dec,
    {
        Rate { dec: self.dec, denoms: PhantomData }
    }
}

impl<A, B> Copy for Rate<A, B> {

}

impl<A, B> Rate<A, B> {
    /// A rate is well formed when it is non-zero, so that dividing by it is defined.
    pub open spec fn wf(&self) -> bool {
        self.dec.atomics > 0
    }

    /// Build a rate from a decimal; a zero decimal is refused.
    pub fn new(dec: Decimal) -> (r: Option<Rate<A, B>>)
        ensures
            dec.atomics > 0 ==> (r matches Some(rate) && rate.dec == dec && rate.wf()),
            dec.atomics == 0 ==> r is None,
    {
        if dec.is_zero() {
            None
        } else {
            Some(Rate { dec, denoms: PhantomData })
        }
    }

    /// The underlying decimal.
    pub fn rate(&self) -> (d: Decimal)
        ensures
            d == self.dec,
    {
        self.dec
    }

    /// The inverse rate, truncated to 18 decimals.
    pub fn inv(&self) -> (r: Rate<B, A>)
        requires
            self.wf(),
        ensures
            r.dec.atomics == DECIMAL_FRACTIONAL_SQUARED as int / self.dec.atomics as int,
    {
        Rate { dec: self.dec.inv(), denoms: PhantomData }
    }

    /// Chain with a second rate: `A`-per-`B` times `B`-per-`C` gives `A`-per-`C`.
    pub fn mul_rate<C>(&self, rhs: &Rate<B, C>) -> (r: Rate<A, C>)
        requires
            self.dec.atomics * rhs.dec.atomics <= u128::MAX,
        ensures
            r.dec.atomics == self.dec.atomics * rhs.dec.atomics / frac(),
    {
        Rate { dec: self.dec.mul_down(rhs.dec), denoms: PhantomData }
    }

    /// Raise the rate by a plain decimal, or `None` on overflow.
    pub fn add_decimal(&self, dec: Decimal) -> (r: Option<Rate<A, B>>)
        ensures
            self.dec.atomics + dec.atomics <= u128::MAX ==> (r matches Some(rate)
                && rate.dec.atomics == self.dec.atomics + dec.atomics),
            self.dec.atomics + dec.atomics > u128::MAX ==> r is None,
    {
        match self.dec.checked_add(dec) {
            Some(d) => Some(Rate { dec: d, denoms: PhantomData }),
            None => None,
        }
    }

    /// Lower the rate by a plain decimal, or `None` when it would go negative.
    pub fn sub_decimal(&self, dec: Decimal) -> (r: Option<Rate<A, B>>)
        ensures
            self.dec.atomics >= dec.atomics ==> (r matches Some(rate) && rate.dec.atomics
                == self.dec.atomics - dec.atomics),
            self.dec.atomics < dec.atomics ==> r is None,
    {
        match self.dec.checked_sub(dec) {
            Some(d) => Some(Rate { dec: d, denoms: PhantomData }),
            None => None,
        }
    }
}

} // verus!
