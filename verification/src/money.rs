//! Monetary amounts and rate arithmetic.
//!
//! An amount of money is a number of cents held in an `i64`; a rate is a
//! number of basis points (ten-thousandths) held in an `i64`. Taking a rated
//! fraction of an amount truncates toward zero to a whole number of cents,
//! which for the non-negative amounts the engine works on is the same as
//! truncating a decimal value to two decimal places.

use vstd::arithmetic::div_mod::{lemma_div_by_multiple, lemma_div_is_ordered, lemma_div_pos_is_pos};
use vstd::arithmetic::mul::{lemma_mul_inequality, lemma_mul_nonnegative};
use vstd::prelude::*;

verus! {

/// One whole (a rate of 100%) expressed in basis points.
pub const BASIS_POINTS: i64 = 10_000;

/// The largest amount of money, in cents, that the engine accepts: the
/// largest value whose product with a rate of up to `BASIS_POINTS` basis
/// points still fits in an `i64`.
pub const MAX_MONEY: i64 = 922_337_203_685_477;

/// The fraction of `value` given by `rate_bp` basis points, truncated toward
/// zero to a whole number of cents (for non-negative values, Euclidean and
/// truncating division agree).
pub open spec fn rated_value(value: int, rate_bp: int) -> int {
    (value * rate_bp) / (BASIS_POINTS as int)
}

/// Multiplies an amount of cents by a rate in basis points and truncates the
/// result to whole cents.
pub fn apply_rate(value: i64, rate_bp: i64) -> (rated: i64)
    requires
        0 <= value <= MAX_MONEY,
        0 <= rate_bp <= BASIS_POINTS,
    ensures
        rated == rated_value(value as int, rate_bp as int),
        0 <= rated <= value,
{
    proof {
        lemma_mul_nonnegative(value as int, rate_bp as int);
        lemma_mul_inequality(rate_bp as int, BASIS_POINTS as int, value as int);
        lemma_mul_upper_fits(value as int, rate_bp as int);
        lemma_div_pos_is_pos(value * rate_bp, BASIS_POINTS as int);
        lemma_div_is_ordered(
            value * rate_bp,
            value * (BASIS_POINTS as int),
            BASIS_POINTS as int,
        );
        lemma_div_by_multiple(value as int, BASIS_POINTS as int);
    }
    let product: i64 = value * rate_bp;
    product / 10_000
}

/// The product of an amount within `MAX_MONEY` and a rate within
/// `BASIS_POINTS` fits in an `i64`.
proof fn lemma_mul_upper_fits(value: int, rate_bp: int)
    requires
        0 <= value <= MAX_MONEY,
        0 <= rate_bp <= BASIS_POINTS,
    ensures
        value * rate_bp <= i64::MAX,
{
    lemma_mul_inequality(value, MAX_MONEY as int, rate_bp);
    lemma_mul_inequality(rate_bp, BASIS_POINTS as int, MAX_MONEY as int);
}

} // verus!
