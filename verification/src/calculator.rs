//! The calculator: resolves a rule for an input's discriminator and applies
//! it, validating the monetary value first.

use crate::error::EngineError;
use crate::money::MAX_MONEY;
use crate::table::{first_match, lemma_first_match_wf, Discriminator, RuleTable};
use vstd::prelude::*;

verus! {

/// One request to the calculator: a monetary value in cents and the
/// discriminator that selects its rule.
#[derive(Clone, Copy, PartialEq, Eq, Structural, Debug)]
pub struct CalculationInput {
    pub value: i64,
    pub discriminator: Discriminator,
}

impl CalculationInput {
    /// Pairs a value with its discriminator.
    pub fn new(value: i64, discriminator: Discriminator) -> (input: CalculationInput)
        ensures
            input.value == value,
            input.discriminator == discriminator,
    {
        CalculationInput { value, discriminator }
    }
}

/// Orchestrates rule lookup and application over a fixed rule table.
pub struct Calculator {
    table: RuleTable,
}

impl Calculator {
    /// The table the calculator resolves rules from.
    pub closed spec fn spec_table(self) -> RuleTable {
        self.table
    }

    /// A well-formed calculator holds a well-formed table.
    pub open spec fn wf(self) -> bool {
        self.spec_table().wf()
    }

    /// Builds a calculator over a fixed rule table.
    pub fn new(table: RuleTable) -> (calculator: Calculator)
        ensures
            calculator.spec_table() == table,
    {
        Calculator { table }
    }

    /// Computes the derived value for an input: rejects a value outside the
    /// accepted range with `InvalidInput`, reports `UnresolvedDiscriminator`
    /// exactly when no entry of the table matches, and otherwise yields the
    /// first matching rule applied to the value. Pure: the calculator and the
    /// input are left untouched.
    pub fn calculate(&self, input: &CalculationInput) -> (calculated: Result<i64, EngineError>)
        requires
            self.wf(),
        ensures
            input.value < 0 || input.value > MAX_MONEY ==> calculated == Err::<
                i64,
                EngineError,
            >(EngineError::InvalidInput),
            0 <= input.value <= MAX_MONEY ==> match first_match(
                self.spec_table().spec_entries(),
                input.discriminator,
            ) {
                Some(rule) => calculated matches Ok(value) && value == rule.spec_apply(
                    input.value as int,
                ),
                None => calculated == Err::<i64, EngineError>(EngineError::UnresolvedDiscriminator),
            },
    {
        if input.value < 0 || input.value > MAX_MONEY {
            return Err(EngineError::InvalidInput);
        }
        proof {
            lemma_first_match_wf(self.spec_table().spec_entries(), input.discriminator);
        }
        match self.table.resolve(input.discriminator) {
            Ok(rule) => Ok(rule.apply(input.value)),
            Err(unresolved) => Err(unresolved),
        }
    }
}

} // verus!
