//! Tax-invoice generation with post-generation notifications.
//!
//! The simple tax is a flat 6% of the invoice's monthly value, truncated to
//! whole cents at the point the tax amount is produced. After a tax invoice
//! is generated, every registered action is executed on it, in registration
//! order.

use crate::money::{rated_value, MAX_MONEY};
use crate::rules::CalculationRule;
use vstd::prelude::*;

verus! {

/// The flat simple-tax rate, in basis points: 6%.
pub const SIMPLE_TAX_RATE_BP: i64 = 600;

/// An invoice to generate a tax invoice from: its monthly value in cents.
#[derive(Clone, Copy, PartialEq, Eq, Structural, Debug)]
pub struct Invoice {
    pub monthly_value: i64,
}

/// A generated tax invoice: the monthly value it was generated from and the
/// simple tax on it, both in cents.
#[derive(Clone, Copy, PartialEq, Eq, Structural, Debug)]
pub struct TaxInvoice {
    pub value: i64,
    pub simple_tax: i64,
}

/// What a collaborator does with a freshly generated tax invoice (print it,
/// send it by email, persist it). The generator never inspects an action; it
/// only executes each one once per generated invoice.
pub trait ActionAfterGeneratingTaxInvoice {
    fn execute(&self, tax_invoice: &TaxInvoice);
}

/// The simple tax on a non-negative monthly value: 6% truncated to whole
/// cents.
pub open spec fn spec_simple_tax(monthly_value: int) -> int {
    rated_value(monthly_value, SIMPLE_TAX_RATE_BP as int)
}

/// Generates tax invoices and hands each one to a fixed ordered list of
/// follow-up actions.
pub struct TaxInvoiceGenerator<A: ActionAfterGeneratingTaxInvoice> {
    pub actions: Vec<A>,
}

impl<A: ActionAfterGeneratingTaxInvoice> TaxInvoiceGenerator<A> {
    /// Builds a generator with the actions to run after each generation, in
    /// the order they are to run.
    pub fn new(actions: Vec<A>) -> (generator: TaxInvoiceGenerator<A>)
        ensures
            generator.actions@ == actions@,
    {
        TaxInvoiceGenerator { actions }
    }

    /// Generates the tax invoice for an invoice with a non-negative monthly
    /// value and executes every registered action on it, in order. The tax
    /// invoice carries the monthly value unchanged and the simple tax on it.
    pub fn generate(&self, invoice: &Invoice) -> (tax_invoice: TaxInvoice)
        requires
            0 <= invoice.monthly_value <= MAX_MONEY,
        ensures
            tax_invoice.value == invoice.monthly_value,
            tax_invoice.simple_tax == spec_simple_tax(invoice.monthly_value as int),
    {
        let value = invoice.monthly_value;
        let tax_invoice = TaxInvoice { value, simple_tax: self.simple_tax_on_the(value) };
        let mut i: usize = 0;
        while i < self.actions.len()
            invariant
                i <= self.actions@.len(),
            decreases self.actions@.len() - i,
        {
            let action = &self.actions[i];
            action.execute(&tax_invoice);
            i = i + 1;
        }
        tax_invoice
    }

    /// The simple tax on a non-negative monthly value, as a flat-rate rule
    /// application.
    fn simple_tax_on_the(&self, value: i64) -> (tax: i64)
        requires
            0 <= value <= MAX_MONEY,
        ensures
            tax == spec_simple_tax(value as int),
    {
        let rule = CalculationRule::Flat { rate_bp: SIMPLE_TAX_RATE_BP };
        rule.apply(value)
    }
}

} // verus!
