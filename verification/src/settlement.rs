//! Invoice settlement by accumulating payments.
//!
//! An invoice owns a fixed target value, an append-only sequence of
//! payments, and a derived paid flag. The invariant `paid == (total paid >=
//! target)` is re-established after every append; since payments are never
//! removed and every payment is non-negative, the flag never reverts from
//! paid to unpaid.

use crate::money::MAX_MONEY;
use vstd::prelude::*;

verus! {

/// How a payment was made.
#[derive(Clone, Copy, PartialEq, Eq, Structural, Debug)]
pub enum PaymentMethod {
    Boleto,
    CreditCard,
    Ewallet,
    Mobile,
}

/// A bank slip to pay an invoice with: its value in cents.
#[derive(Clone, Copy, PartialEq, Eq, Structural, Debug)]
pub struct Boleto {
    pub value: i64,
}

/// One applied payment: its value in cents and how it was made. Immutable
/// once appended to an invoice.
#[derive(Clone, Copy, PartialEq, Eq, Structural, Debug)]
pub struct Payment {
    pub value: i64,
    pub payment_method: PaymentMethod,
}

/// The sum of the values of a sequence of payments.
pub open spec fn spec_total(payments: Seq<Payment>) -> int
    decreases payments.len(),
{
    if payments.len() == 0 {
        0
    } else {
        spec_total(payments.drop_last()) + payments.last().value
    }
}

/// Whether every payment of a sequence is non-negative.
pub open spec fn payments_non_negative(payments: Seq<Payment>) -> bool {
    forall|i: int| 0 <= i < payments.len() ==> (#[trigger] payments[i]).value >= 0
}

/// Appending a payment adds its value to the total.
pub proof fn lemma_total_push(payments: Seq<Payment>, payment: Payment)
    ensures
        spec_total(payments.push(payment)) == spec_total(payments) + payment.value,
{
    assert(payments.push(payment).drop_last() =~= payments);
}

/// The total of non-negative payments is non-negative.
pub proof fn lemma_total_non_negative(payments: Seq<Payment>)
    requires
        payments_non_negative(payments),
    ensures
        spec_total(payments) >= 0,
    decreases payments.len(),
{
    if payments.len() > 0 {
        assert(payments_non_negative(payments.drop_last()));
        lemma_total_non_negative(payments.drop_last());
    }
}

/// Over non-negative payments, a prefix's total never exceeds the whole
/// total and is itself non-negative.
pub proof fn lemma_total_take_bounds(payments: Seq<Payment>, count: int)
    requires
        payments_non_negative(payments),
        0 <= count <= payments.len(),
    ensures
        0 <= spec_total(payments.take(count)) <= spec_total(payments),
    decreases payments.len() - count,
{
    assert(payments_non_negative(payments.take(count)));
    lemma_total_non_negative(payments.take(count));
    if count == payments.len() {
        assert(payments.take(count) =~= payments);
    } else {
        assert(payments.take(count + 1).drop_last() =~= payments.take(count));
        assert(payments.take(count + 1).last() == payments[count]);
        lemma_total_take_bounds(payments, count + 1);
    }
}

/// Settlement is monotonic: over any sequence of non-negative payments, once
/// a prefix's running total meets a target, every longer prefix's total
/// still meets it — the paid state transitions from unpaid to paid at most
/// once and stays paid thereafter.
pub proof fn lemma_settlement_monotonic(
    target: int,
    payments: Seq<Payment>,
    paid_at: int,
    later: int,
)
    requires
        payments_non_negative(payments),
        0 <= paid_at <= later <= payments.len(),
        spec_total(payments.take(paid_at)) >= target,
    ensures
        spec_total(payments.take(later)) >= target,
    decreases later - paid_at,
{
    if paid_at < later {
        assert(payments.take(paid_at + 1).drop_last() =~= payments.take(paid_at));
        assert(payments.take(paid_at + 1).last() == payments[paid_at]);
        lemma_settlement_monotonic(target, payments, paid_at + 1, later);
    }
}

/// An invoice: a fixed target value set at creation, the payments applied so
/// far, and whether the accumulated total has met the target. The payment
/// sequence is append-only and never exposed by reference, only as a copy.
pub struct Invoice {
    value: i64,
    payments: Vec<Payment>,
    paid: bool,
}

impl Invoice {
    /// The target value, in cents.
    pub closed spec fn spec_value(self) -> i64 {
        self.value
    }

    /// The payments applied so far, in application order.
    pub closed spec fn spec_payments(self) -> Seq<Payment> {
        self.payments@
    }

    /// Whether the invoice has been settled.
    pub closed spec fn spec_is_paid(self) -> bool {
        self.paid
    }

    /// A well-formed invoice has a target within range, only non-negative
    /// payments whose total fits in an `i64`, and a paid flag that holds
    /// exactly when the total meets the target (the boundary is inclusive).
    pub open spec fn wf(self) -> bool {
        &&& 0 <= self.spec_value() <= MAX_MONEY
        &&& payments_non_negative(self.spec_payments())
        &&& spec_total(self.spec_payments()) <= i64::MAX
        &&& self.spec_is_paid() == (spec_total(self.spec_payments()) >= self.spec_value())
    }

    /// Creates an invoice over a fixed non-negative target with no payments;
    /// it starts paid exactly when the target is already met by the empty
    /// total, that is, when the target is zero.
    pub fn new(value: i64) -> (invoice: Invoice)
        requires
            0 <= value <= MAX_MONEY,
        ensures
            invoice.wf(),
            invoice.spec_value() == value,
            invoice.spec_payments() =~= Seq::<Payment>::empty(),
            invoice.spec_is_paid() == (value == 0),
    {
        Invoice { value, payments: Vec::new(), paid: value == 0 }
    }

    /// The target value.
    pub fn value(&self) -> (value: i64)
        ensures
            value == self.spec_value(),
    {
        self.value
    }

    /// A copy of the applied payments, in application order.
    pub fn payments(&self) -> (payments: Vec<Payment>)
        ensures
            payments@ == self.spec_payments(),
    {
        let mut copied: Vec<Payment> = Vec::new();
        let mut i: usize = 0;
        while i < self.payments.len()
            invariant
                i <= self.payments@.len(),
                copied@ =~= self.payments@.take(i as int),
            decreases self.payments@.len() - i,
        {
            copied.push(self.payments[i]);
            i = i + 1;
        }
        proof {
            assert(copied@ =~= self.spec_payments());
        }
        copied
    }

    /// Whether the invoice is settled: on a well-formed invoice, exactly
    /// when the accumulated total meets the target.
    pub fn is_paid(&self) -> (paid: bool)
        ensures
            paid == self.spec_is_paid(),
            self.wf() ==> paid == (spec_total(self.spec_payments()) >= self.spec_value()),
    {
        self.paid
    }

    /// The sum of the applied payments, in cents.
    pub fn total_amount_paid(&self) -> (total: i64)
        requires
            payments_non_negative(self.spec_payments()),
            spec_total(self.spec_payments()) <= i64::MAX,
        ensures
            total == spec_total(self.spec_payments()),
    {
        let mut total: i64 = 0;
        let mut i: usize = 0;
        while i < self.payments.len()
            invariant
                i <= self.payments@.len(),
                payments_non_negative(self.payments@),
                spec_total(self.payments@) <= i64::MAX,
                total == spec_total(self.payments@.take(i as int)),
            decreases self.payments@.len() - i,
        {
            proof {
                assert(self.payments@.take(i + 1).drop_last() =~= self.payments@.take(i as int));
                assert(self.payments@.take(i + 1).last() == self.payments@[i as int]);
                lemma_total_take_bounds(self.payments@, i + 1);
            }
            total = total + self.payments[i].value;
            i = i + 1;
        }
        proof {
            assert(self.payments@.take(self.payments@.len() as int) =~= self.payments@);
        }
        total
    }

    /// Appends one non-negative payment and re-establishes the paid flag:
    /// afterwards the invoice is paid exactly when the new total meets the
    /// target. Prior payments and the target are untouched, and an invoice
    /// that was already paid stays paid.
    pub fn add_payment(&mut self, payment: Payment)
        requires
            old(self).wf(),
            payment.value >= 0,
            spec_total(old(self).spec_payments()) + payment.value <= i64::MAX,
        ensures
            final(self).wf(),
            final(self).spec_value() == old(self).spec_value(),
            final(self).spec_payments() =~= old(self).spec_payments().push(payment),
            final(self).spec_is_paid() == (spec_total(old(self).spec_payments()) + payment.value
                >= old(self).spec_value()),
            old(self).spec_is_paid() ==> final(self).spec_is_paid(),
    {
        self.payments.push(payment);
        proof {
            lemma_total_push(old(self).spec_payments(), payment);
            lemma_total_non_negative(old(self).spec_payments());
        }
        let total = self.total_amount_paid();
        if total >= self.value {
            self.paid = true;
        }
    }
}

/// Applies a batch of boletos to an invoice, in order, each as one payment
/// made by the `Boleto` method.
pub struct BoletosProcessor {}

/// The sum of the values of a sequence of boletos.
pub open spec fn spec_boleto_total(boletos: Seq<Boleto>) -> int
    decreases boletos.len(),
{
    if boletos.len() == 0 {
        0
    } else {
        boletos.first().value + spec_boleto_total(boletos.drop_first())
    }
}

/// Whether every boleto of a sequence is non-negative.
pub open spec fn boletos_non_negative(boletos: Seq<Boleto>) -> bool {
    forall|i: int| 0 <= i < boletos.len() ==> (#[trigger] boletos[i]).value >= 0
}

/// The payments a batch of boletos turns into, in order.
pub open spec fn spec_payments_of(boletos: Seq<Boleto>) -> Seq<Payment> {
    boletos.map_values(
        |boleto: Boleto| Payment { value: boleto.value, payment_method: PaymentMethod::Boleto },
    )
}

/// The total of a suffix of non-negative boletos decomposes into its first
/// value plus the rest, and is itself non-negative.
proof fn lemma_boleto_total_skip(boletos: Seq<Boleto>, from: int)
    requires
        boletos_non_negative(boletos),
        0 <= from <= boletos.len(),
    ensures
        spec_boleto_total(boletos.skip(from)) >= 0,
        from < boletos.len() ==> spec_boleto_total(boletos.skip(from)) == boletos[from].value
            + spec_boleto_total(boletos.skip(from + 1)),
    decreases boletos.len() - from,
{
    if from < boletos.len() {
        assert(boletos.skip(from).first() == boletos[from]);
        assert(boletos.skip(from).drop_first() =~= boletos.skip(from + 1));
        lemma_boleto_total_skip(boletos, from + 1);
    }
}

impl BoletosProcessor {
    /// Applies every boleto of the batch to the invoice as a `Boleto`-method
    /// payment, in order. The target is untouched, the payment sequence
    /// grows by exactly the batch, the paid flag again holds exactly when
    /// the new total meets the target, and an invoice that was already paid
    /// stays paid.
    pub fn process(&self, boletos: &[Boleto], invoice: &mut Invoice)
        requires
            old(invoice).wf(),
            boletos_non_negative(boletos@),
            spec_total(old(invoice).spec_payments()) + spec_boleto_total(boletos@) <= i64::MAX,
        ensures
            final(invoice).wf(),
            final(invoice).spec_value() == old(invoice).spec_value(),
            final(invoice).spec_payments() =~= old(invoice).spec_payments() + spec_payments_of(
                boletos@,
            ),
            old(invoice).spec_is_paid() ==> final(invoice).spec_is_paid(),
    {
        let ghost initial = *invoice;
        proof {
            assert(boletos@.skip(0) =~= boletos@);
        }
        let mut i: usize = 0;
        while i < boletos.len()
            invariant
                i <= boletos@.len(),
                invoice.wf(),
                boletos_non_negative(boletos@),
                invoice.spec_value() == initial.spec_value(),
                invoice.spec_payments() =~= initial.spec_payments() + spec_payments_of(
                    boletos@.take(i as int),
                ),
                spec_total(invoice.spec_payments()) + spec_boleto_total(boletos@.skip(i as int))
                    <= i64::MAX,
                initial.spec_is_paid() ==> invoice.spec_is_paid(),
            decreases boletos@.len() - i,
        {
            let payment = Payment {
                value: boletos[i].value,
                payment_method: PaymentMethod::Boleto,
            };
            proof {
                lemma_boleto_total_skip(boletos@, i as int);
                lemma_boleto_total_skip(boletos@, i + 1);
            }
            let ghost previous = invoice.spec_payments();
            invoice.add_payment(payment);
            proof {
                lemma_total_push(previous, payment);
                assert(spec_total(invoice.spec_payments()) == spec_total(previous)
                    + payment.value);
                assert(invoice.spec_payments() =~= initial.spec_payments() + spec_payments_of(
                    boletos@.take(i + 1),
                ));
            }
            i = i + 1;
        }
        proof {
            assert(boletos@.take(boletos@.len() as int) =~= boletos@);
        }
    }
}

} // verus!
