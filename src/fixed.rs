//! Fixed-point fractions with eighteen decimal places, as cosmwasm's
//! `Decimal` holds them: a fraction is an integer count of 10^-18 units.

use vstd::prelude::*;

verus! {

/// The number of atomic units in one whole.
pub const FRACTIONAL: u128 = 1_000_000_000_000_000_000;

/// The fraction `numerator / denominator` in atomic units, rounded down.
pub open spec fn ratio_atomics(numerator: int, denominator: int) -> int {
    numerator * (FRACTIONAL as int) / denominator
}

/// `amount` times the fraction `atomics / 10^18`, rounded down.
pub open spec fn apply_fraction(amount: int, atomics: int) -> int {
    amount * atomics / (FRACTIONAL as int)
}

/// Relies on cosmwasm_std's `Decimal::from_ratio`, whose value is
/// `numerator * 10^18 / denominator` rounded down (it panics on a zero
/// denominator or when the quotient does not fit in 128 bits).
#[verifier::external_body]
fn decimal_from_ratio(numerator: u128, denominator: u128) -> (r: u128)
    requires
        denominator > 0,
        ratio_atomics(numerator as int, denominator as int) <= u128::MAX,
    ensures
        r == ratio_atomics(numerator as int, denominator as int),
{
    cosmwasm_std::Decimal::from_ratio(numerator, denominator).atomics().u128()
}

/// Relies on cosmwasm_std's `impl Mul<Decimal> for Uint128`, which computes
/// `amount * atomics / 10^18` rounded down (it panics when that does not fit).
#[verifier::external_body]
fn decimal_mul(amount: u128, atomics: u128) -> (r: u128)
    requires
        apply_fraction(amount as int, atomics as int) <= u128::MAX,
    ensures
        r == apply_fraction(amount as int, atomics as int),
{
    let fraction = cosmwasm_std::Decimal::new(cosmwasm_std::Uint128::new(atomics));
    (cosmwasm_std::Uint128::new(amount) * fraction).u128()
}

/// A fraction of at most one leaves an amount no larger than it was.
pub proof fn lemma_fraction_bounded(amount: int, atomics: int)
    requires
        0 <= amount,
        0 <= atomics <= FRACTIONAL as int,
    ensures
        0 <= apply_fraction(amount, atomics) <= amount,
{
    let f = FRACTIONAL as int;
    assert(0 <= amount * atomics <= amount * f) by (nonlinear_arith)
        requires 0 <= amount, 0 <= atomics <= f;
    assert(amount * f / f == amount) by (nonlinear_arith)
        requires f > 0;
    assert(0 <= (amount * atomics) / f <= (amount * f) / f) by (nonlinear_arith)
        requires 0 <= amount * atomics <= amount * f, f > 0;
}

/// A ratio of a part to a whole is at most one.
pub proof fn lemma_ratio_bounded(part: int, whole: int)
    requires
        0 <= part <= whole,
        whole > 0,
    ensures
        0 <= ratio_atomics(part, whole) <= FRACTIONAL as int,
{
    let f = FRACTIONAL as int;
    assert(0 <= part * f <= whole * f) by (nonlinear_arith)
        requires 0 <= part <= whole, f > 0;
    assert(whole * f / whole == f) by (nonlinear_arith)
        requires whole > 0;
    assert(0 <= (part * f) / whole <= (whole * f) / whole) by (nonlinear_arith)
        requires 0 <= part * f <= whole * f, whole > 0;
}

/// The remaining fraction of an ask of `wanted` after `paid` was handed in:
/// `(wanted - paid) / wanted`, or zero once the ask is met.
pub open spec fn remaining_ratio(wanted: u128, paid: u128) -> int {
    if wanted > paid {
        ratio_atomics(wanted - paid, wanted as int)
    } else {
        0
    }
}

/// Computes `remaining_ratio(wanted, paid)`.
pub fn remaining_fraction(wanted: u128, paid: u128) -> (r: u128)
    ensures
        r == remaining_ratio(wanted, paid),
        r <= FRACTIONAL,
{
    if wanted > paid {
        proof {
            lemma_ratio_bounded((wanted - paid) as int, wanted as int);
        }
        decimal_from_ratio(wanted - paid, wanted)
    } else {
        0
    }
}

/// `amount` scaled by a fraction of at most one, rounded down.
pub fn scale(amount: u128, atomics: u128) -> (r: u128)
    requires
        atomics <= FRACTIONAL,
    ensures
        r == apply_fraction(amount as int, atomics as int),
        r <= amount,
{
    proof {
        lemma_fraction_bounded(amount as int, atomics as int);
    }
    decimal_mul(amount, atomics)
}

/// The fee rate of `basis_points` ten-thousandths, in atomic units.
pub open spec fn fee_rate(basis_points: u16) -> int {
    ratio_atomics(basis_points as int, 10000)
}

/// The fee on `amount` at `basis_points` ten-thousandths (at most one whole),
/// as cosmwasm's fixed point computes it.
pub fn fee_of(amount: u128, basis_points: u16) -> (r: u128)
    requires
        basis_points <= 10000,
    ensures
        r == apply_fraction(amount as int, fee_rate(basis_points)),
        r == amount * basis_points / 10000,
        r <= amount,
{
    proof {
        lemma_ratio_bounded(basis_points as int, 10000);
        lemma_fee_exact(amount as int, basis_points as int);
    }
    let rate = decimal_from_ratio(basis_points as u128, 10000);
    scale(amount, rate)
}

/// A fee rate in basis points is that many ten-thousandths exactly, so the
/// fee is `amount * basis_points / 10000` rounded down.
pub proof fn lemma_fee_exact(amount: int, basis_points: int)
    requires
        0 <= amount,
        0 <= basis_points <= 10000,
    ensures
        apply_fraction(amount, ratio_atomics(basis_points, 10000)) == amount * basis_points / 10000,
{
    let f = FRACTIONAL as int;
    let unit: int = 100_000_000_000_000;
    assert(basis_points * f == (basis_points * unit) * 10000) by (nonlinear_arith)
        requires f == unit * 10000;
    assert((basis_points * unit) * 10000 / 10000 == basis_points * unit) by (nonlinear_arith);
    assert(amount * (basis_points * unit) == (amount * basis_points) * unit) by (nonlinear_arith);
    assert(f == 10000 * unit);
    assert(((amount * basis_points) * unit) / (10000 * unit) == (amount * basis_points) / 10000)
        by (nonlinear_arith)
        requires unit > 0, amount * basis_points >= 0;
}

} // verus!
