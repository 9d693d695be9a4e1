//! Calculation rules.
//!
//! A rule is a pure function from an amount of money to an amount of money,
//! given by a fixed formula over one rate per value bracket: a flat rule has a
//! single rate and no threshold, a two-tier rule picks one of two rates
//! depending on whether the value is at most a threshold, and a three-tier
//! rule picks one of three rates over two thresholds. Rules are stateless:
//! one rule value may serve any number of inputs.

use crate::money::{apply_rate, rated_value, BASIS_POINTS, MAX_MONEY};
use vstd::prelude::*;

verus! {

/// A calculation rule: a fixed formula with zero, one or two thresholds and
/// one rate per tier, all rates in basis points and all thresholds in cents.
#[derive(Clone, Copy, PartialEq, Eq, Structural, Debug)]
pub enum CalculationRule {
    /// A single rate applied to every value.
    Flat { rate_bp: i64 },
    /// `low_rate_bp` for values at most `threshold` (inclusive), otherwise
    /// `high_rate_bp`.
    TwoTier { threshold: i64, low_rate_bp: i64, high_rate_bp: i64 },
    /// `low_rate_bp` for values at most `low_threshold`, `mid_rate_bp` for
    /// values at most `high_threshold`, otherwise `high_rate_bp`.
    ThreeTier {
        low_threshold: i64,
        high_threshold: i64,
        low_rate_bp: i64,
        mid_rate_bp: i64,
        high_rate_bp: i64,
    },
}

impl CalculationRule {
    /// A well-formed rule has every rate between zero and one whole and its
    /// thresholds in order.
    pub open spec fn wf(self) -> bool {
        match self {
            CalculationRule::Flat { rate_bp } => 0 <= rate_bp <= BASIS_POINTS,
            CalculationRule::TwoTier { threshold, low_rate_bp, high_rate_bp } => {
                &&& 0 <= threshold
                &&& 0 <= low_rate_bp <= BASIS_POINTS
                &&& 0 <= high_rate_bp <= BASIS_POINTS
            },
            CalculationRule::ThreeTier {
                low_threshold,
                high_threshold,
                low_rate_bp,
                mid_rate_bp,
                high_rate_bp,
            } => {
                &&& 0 <= low_threshold <= high_threshold
                &&& 0 <= low_rate_bp <= BASIS_POINTS
                &&& 0 <= mid_rate_bp <= BASIS_POINTS
                &&& 0 <= high_rate_bp <= BASIS_POINTS
            },
        }
    }

    /// The rate, in basis points, that the rule selects for `value`; tier
    /// boundaries are inclusive on the low side.
    pub open spec fn rate_for(self, value: int) -> int {
        match self {
            CalculationRule::Flat { rate_bp } => rate_bp as int,
            CalculationRule::TwoTier { threshold, low_rate_bp, high_rate_bp } => {
                if value <= threshold {
                    low_rate_bp as int
                } else {
                    high_rate_bp as int
                }
            },
            CalculationRule::ThreeTier {
                low_threshold,
                high_threshold,
                low_rate_bp,
                mid_rate_bp,
                high_rate_bp,
            } => {
                if value <= low_threshold {
                    low_rate_bp as int
                } else if value <= high_threshold {
                    mid_rate_bp as int
                } else {
                    high_rate_bp as int
                }
            },
        }
    }

    /// What applying the rule to `value` yields: the selected rate's fraction
    /// of the value, truncated to whole cents.
    pub open spec fn spec_apply(self, value: int) -> int {
        rated_value(value, self.rate_for(value))
    }

    /// Applies the rule to a non-negative amount of cents.
    pub fn apply(&self, value: i64) -> (rated: i64)
        requires
            self.wf(),
            0 <= value <= MAX_MONEY,
        ensures
            rated == self.spec_apply(value as int),
            0 <= rated <= value,
    {
        let rate_bp: i64 = match *self {
            CalculationRule::Flat { rate_bp } => rate_bp,
            CalculationRule::TwoTier { threshold, low_rate_bp, high_rate_bp } => {
                if value <= threshold {
                    low_rate_bp
                } else {
                    high_rate_bp
                }
            },
            CalculationRule::ThreeTier {
                low_threshold,
                high_threshold,
                low_rate_bp,
                mid_rate_bp,
                high_rate_bp,
            } => {
                if value <= low_threshold {
                    low_rate_bp
                } else if value <= high_threshold {
                    mid_rate_bp
                } else {
                    high_rate_bp
                }
            },
        };
        apply_rate(value, rate_bp)
    }
}

/// A calculation rule is deterministic: two applications of the same rule to
/// the same value yield the same output. Together with `apply`'s
/// postcondition, which pins each call's result to `spec_apply`, repeated
/// calls of `apply` return identical results.
pub proof fn lemma_apply_deterministic(
    rule: CalculationRule,
    value: int,
    first: int,
    second: int,
)
    requires
        first == rule.spec_apply(value),
        second == rule.spec_apply(value),
    ensures
        first == second,
{
}

} // verus!
