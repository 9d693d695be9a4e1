//! The failure kinds the engine reports to its callers.

use vstd::prelude::*;

verus! {

/// Why a calculation was refused. `InvalidInput` reports a monetary value
/// outside the accepted range (negative, or too large to compute with);
/// the operation aborts with no partial mutation. `UnresolvedDiscriminator`
/// reports a discriminator that no rule of the table matches, a defect of
/// the table's configuration rather than of the input.
#[derive(Clone, Copy, PartialEq, Eq, Structural, Debug)]
pub enum EngineError {
    InvalidInput,
    UnresolvedDiscriminator,
}

} // verus!
