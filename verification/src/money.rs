//! Amounts and rates.
//!
//! Amounts are unsigned 128-bit integers. A rate is a fixed-point decimal with
//! 18 fractional digits. Multiplying an amount by a rate rounds down, and no
//! operation wraps or saturates: where the exact result does not fit, the
//! caller is told so.

use cosmwasm_std::Uint128;
use vstd::prelude::*;

verus! {

/// The number of atomic units in the rate 1.0: ten to the eighteenth.
pub const DECIMAL_FRACTIONAL: u128 = 1_000_000_000_000_000_000;

/// A fixed-point decimal with 18 fractional digits, held as its atomic units:
/// the rate 1.0 is `Decimal { atomics: DECIMAL_FRACTIONAL }`.
#[derive(Clone, Copy, Debug, PartialEq, Eq, Structural)]
pub struct Decimal {
    pub atomics: u128,
}

/// `amount * numerator / denominator`, rounded down, over the integers.
pub open spec fn ratio_floor(amount: int, numerator: int, denominator: int) -> int {
    (amount * numerator) / denominator
}

/// `amount` times `rate`, rounded down, over the integers.
pub open spec fn mul_floor(amount: int, rate: Decimal) -> int {
    ratio_floor(amount, rate.atomics as int, DECIMAL_FRACTIONAL as int)
}

/// `mul_floor` as a checked product: `None` where the result is no amount.
pub open spec fn checked_mul_floor(amount: u128, rate: Decimal) -> Option<u128> {
    if mul_floor(amount as int, rate) <= u128::MAX {
        Some(mul_floor(amount as int, rate) as u128)
    } else {
        None
    }
}

/// The sum of two amounts, or `None` where it is no amount.
pub open spec fn checked_sum(a: u128, b: u128) -> Option<u128> {
    if a + b <= u128::MAX {
        Some((a + b) as u128)
    } else {
        None
    }
}

/// Calls `cosmwasm_std::Uint128::multiply_ratio`, which multiplies in 256 bits
/// and divides: the result is `amount * numerator / denominator` rounded down.
/// The outside function panics on a zero denominator and on a quotient that
/// does not fit in 128 bits, so both are excluded here.
#[verifier::external_body]
pub(crate) fn multiply_ratio(amount: u128, numerator: u128, denominator: u128) -> (r: u128)
    requires
        denominator != 0,
        ratio_floor(amount as int, numerator as int, denominator as int) <= u128::MAX,
    ensures
        r as int == ratio_floor(amount as int, numerator as int, denominator as int),
{
    Uint128::new(amount).multiply_ratio(numerator, denominator).u128()
}

/// A quotient of a product by a divisor no smaller than one factor does not
/// exceed the other factor.
pub proof fn lemma_ratio_floor_bounded(amount: int, numerator: int, denominator: int)
    requires
        0 <= amount,
        0 <= numerator <= denominator,
        0 < denominator,
    ensures
        0 <= ratio_floor(amount, numerator, denominator) <= amount,
{
    assert(amount * numerator <= amount * denominator) by (nonlinear_arith)
        requires
            0 <= amount,
            numerator <= denominator,
    ;
    assert(0 <= amount * numerator) by (nonlinear_arith)
        requires
            0 <= amount,
            0 <= numerator,
    ;
    vstd::arithmetic::div_mod::lemma_div_is_ordered(
        amount * numerator,
        amount * denominator,
        denominator,
    );
    vstd::arithmetic::div_mod::lemma_div_multiples_vanish(amount, denominator);
    assert(amount * denominator == denominator * amount) by (nonlinear_arith);
}

/// A product splits along the whole and the fractional part of the rate.
proof fn lemma_mul_floor_split(amount: int, atomics: int)
    requires
        0 <= amount,
        0 <= atomics,
    ensures
        ratio_floor(amount, atomics, DECIMAL_FRACTIONAL as int) == amount * (atomics
            / (DECIMAL_FRACTIONAL as int)) + ratio_floor(
            amount,
            atomics % (DECIMAL_FRACTIONAL as int),
            DECIMAL_FRACTIONAL as int,
        ),
        0 <= amount * (atomics / (DECIMAL_FRACTIONAL as int)),
        0 <= ratio_floor(amount, atomics % (DECIMAL_FRACTIONAL as int), DECIMAL_FRACTIONAL as int)
            <= amount,
{
    let f = DECIMAL_FRACTIONAL as int;
    let w = atomics / f;
    let r = atomics % f;
    assert(amount * atomics == f * (amount * w) + amount * r) by (nonlinear_arith)
        requires
            atomics == f * w + r,
    ;
    assert(0 <= amount * r) by (nonlinear_arith)
        requires
            0 <= amount,
            0 <= r,
    ;
    assert(0 <= amount * w) by (nonlinear_arith)
        requires
            0 <= amount,
            0 <= w,
    ;
    assert(amount * w * f == f * (amount * w)) by (nonlinear_arith);
    lemma_ratio_floor_bounded(amount, r, f);
}

impl Decimal {
    /// The rate 0.
    pub fn zero() -> (r: Decimal)
        ensures
            r.atomics == 0,
    {
        Decimal { atomics: 0 }
    }

    /// The rate 1.0.
    pub fn one() -> (r: Decimal)
        ensures
            r.atomics == DECIMAL_FRACTIONAL,
    {
        Decimal { atomics: DECIMAL_FRACTIONAL }
    }

    /// The rate with the given number of atomic units.
    pub fn raw(atomics: u128) -> (r: Decimal)
        ensures
            r.atomics == atomics,
    {
        Decimal { atomics }
    }

    /// `x` percent.
    pub fn percent(x: u64) -> (r: Decimal)
        ensures
            r.atomics == x * 10_000_000_000_000_000,
    {
        let wide: u128 = x as u128;
        Decimal { atomics: wide * 10_000_000_000_000_000 }
    }

    /// `x` per thousand.
    pub fn permille(x: u64) -> (r: Decimal)
        ensures
            r.atomics == x * 1_000_000_000_000_000,
    {
        let wide: u128 = x as u128;
        Decimal { atomics: wide * 1_000_000_000_000_000 }
    }

    /// The atomic units of this rate.
    pub fn atomics(&self) -> (r: u128)
        ensures
            r == self.atomics,
    {
        self.atomics
    }

    pub fn is_zero(&self) -> (r: bool)
        ensures
            r == (self.atomics == 0),
    {
        self.atomics == 0
    }

    /// Whether this rate is strictly greater than `other`.
    pub fn gt(&self, other: &Decimal) -> (r: bool)
        ensures
            r == (self.atomics > other.atomics),
    {
        self.atomics > other.atomics
    }
}

/// `amount` times `rate`, rounded down; `None` exactly where the result does
/// not fit in 128 bits.
pub fn mul_decimal(amount: u128, rate: Decimal) -> (r: Option<u128>)
    ensures
        r == checked_mul_floor(amount, rate),
{
    let whole: u128 = rate.atomics / DECIMAL_FRACTIONAL;
    let fraction: u128 = rate.atomics % DECIMAL_FRACTIONAL;
    proof {
        lemma_mul_floor_split(amount as int, rate.atomics as int);
    }
    let low: u128 = multiply_ratio(amount, fraction, DECIMAL_FRACTIONAL);
    assert(amount * whole >= 0) by (nonlinear_arith);
    match amount.checked_mul(whole) {
        None => None,
        Some(high) => high.checked_add(low),
    }
}

/// The sum of two amounts; `None` exactly where it does not fit in 128 bits.
pub fn add_amounts(a: u128, b: u128) -> (r: Option<u128>)
    ensures
        r == checked_sum(a, b),
{
    a.checked_add(b)
}

} // verus!
