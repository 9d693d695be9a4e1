//! Purchase pricing from two independently resolved collaborators: a price
//! list that yields a discount rate for the purchase value, and a delivery
//! service that yields a shipping cost for the destination city.
//!
//! The total is `value * (1 - discount) + shipping`, truncated to whole
//! cents. The collaborators are opaque: the calculator validates what they
//! hand back and `compose_total` pins the total for every validated pair.

use crate::error::EngineError;
use crate::money::{apply_rate, rated_value, BASIS_POINTS, MAX_MONEY};
use vstd::prelude::*;

verus! {

/// A purchase: its value in cents and the destination city.
pub struct Purchase {
    pub value: i64,
    pub city: String,
}

/// A collaborator that yields the discount rate, in basis points, for a
/// purchase value. Implementations key the rate by the value's own bracket.
pub trait PriceList {
    fn discount_rate(&self, value: i64) -> i64;
}

/// A collaborator that yields the shipping cost, in cents, for a destination
/// city.
pub trait DeliveryService {
    fn shipping_cost(&self, city: &str) -> i64;
}

/// The total price for a value, a discount in basis points and a shipping
/// cost: the discounted value truncated to whole cents, plus the shipping
/// cost.
pub open spec fn spec_total_price(value: int, discount_bp: int, shipping_cost: int) -> int {
    rated_value(value, BASIS_POINTS - discount_bp) + shipping_cost
}

/// Whether a purchase value, a discount rate and a shipping cost are all in
/// the range the composition accepts.
pub open spec fn price_inputs_valid(value: int, discount_bp: int, shipping_cost: int) -> bool {
    &&& 0 <= value <= MAX_MONEY
    &&& 0 <= discount_bp <= BASIS_POINTS
    &&& 0 <= shipping_cost <= MAX_MONEY
}

/// Composes a purchase value with a discount rate and a shipping cost.
/// Succeeds exactly on validated inputs, yielding `spec_total_price`;
/// rejects anything else with `InvalidInput` (a negative or oversized value
/// or cost, or a discount outside zero to one whole).
pub fn compose_total(value: i64, discount_bp: i64, shipping_cost: i64) -> (total: Result<
    i64,
    EngineError,
>)
    ensures
        price_inputs_valid(value as int, discount_bp as int, shipping_cost as int) ==> (total
            matches Ok(t) && t == spec_total_price(
            value as int,
            discount_bp as int,
            shipping_cost as int,
        )),
        !price_inputs_valid(value as int, discount_bp as int, shipping_cost as int) ==> total
            == Err::<i64, EngineError>(EngineError::InvalidInput),
{
    if value < 0 || value > MAX_MONEY || discount_bp < 0 || discount_bp > BASIS_POINTS
        || shipping_cost < 0 || shipping_cost > MAX_MONEY {
        return Err(EngineError::InvalidInput);
    }
    let discounted = apply_rate(value, BASIS_POINTS - discount_bp);
    Ok(discounted + shipping_cost)
}

/// Calculates purchase totals by asking a price list for the discount and a
/// delivery service for the shipping cost, then composing them with the
/// purchase value.
pub struct PriceCalculator<P: PriceList, D: DeliveryService> {
    price_list: P,
    delivery_service: D,
}

impl<P: PriceList, D: DeliveryService> PriceCalculator<P, D> {
    /// The price list the calculator consults.
    pub closed spec fn spec_price_list(self) -> P {
        self.price_list
    }

    /// The delivery service the calculator consults.
    pub closed spec fn spec_delivery_service(self) -> D {
        self.delivery_service
    }

    /// Builds a calculator over its two collaborators.
    pub fn new(price_list: P, delivery_service: D) -> (calculator: PriceCalculator<P, D>)
        ensures
            calculator.spec_price_list() == price_list,
            calculator.spec_delivery_service() == delivery_service,
    {
        PriceCalculator { price_list, delivery_service }
    }

    /// The total price of a purchase. A negative or oversized purchase value
    /// is rejected with `InvalidInput` whatever the collaborators answer;
    /// what they hand back is validated the same way, so a successful total
    /// is `spec_total_price` of the purchase value and some validated
    /// discount/shipping pair the collaborators produced.
    pub fn calculate(&self, purchase: &Purchase) -> (total: Result<i64, EngineError>)
        ensures
            purchase.value < 0 || purchase.value > MAX_MONEY ==> total == Err::<
                i64,
                EngineError,
            >(EngineError::InvalidInput),
            total matches Ok(t) ==> exists|discount_bp: int, shipping_cost: int|
                price_inputs_valid(purchase.value as int, discount_bp, shipping_cost) && t
                    == spec_total_price(purchase.value as int, discount_bp, shipping_cost),
            total matches Err(e) ==> e == EngineError::InvalidInput,
    {
        let discount_bp = self.price_list.discount_rate(purchase.value);
        let shipping_cost = self.delivery_service.shipping_cost(purchase.city.as_str());
        let total = compose_total(purchase.value, discount_bp, shipping_cost);
        proof {
            if price_inputs_valid(purchase.value as int, discount_bp as int, shipping_cost as int) {
                assert(price_inputs_valid(
                    purchase.value as int,
                    discount_bp as int,
                    shipping_cost as int,
                ) && total->Ok_0 == spec_total_price(
                    purchase.value as int,
                    discount_bp as int,
                    shipping_cost as int,
                ));
            }
        }
        total
    }
}

} // verus!
