use rule_engine::error::EngineError;
use rule_engine::price::{compose_total, DeliveryService, PriceCalculator, PriceList, Purchase};

/// A monetary amount given in whole currency units, as cents.
fn cents(value: f64) -> i64 {
    (value * 100.0).round() as i64
}

/// No discount up to 1000.00, 5% up to 5000.00, 3% above that.
struct DifferentiatedPriceList {}

impl PriceList for DifferentiatedPriceList {
    fn discount_rate(&self, value: i64) -> i64 {
        if value > cents(5000.0) {
            300
        } else if value > cents(1000.0) {
            500
        } else {
            0
        }
    }
}

/// 15.00 to SP, 30.00 anywhere else.
struct ShippingByPost {}

impl DeliveryService for ShippingByPost {
    fn shipping_cost(&self, city: &str) -> i64 {
        if city == "SP" {
            cents(15.0)
        } else {
            cents(30.0)
        }
    }
}

#[test]
fn test_calculate_price() {
    let calculator = PriceCalculator::new(DifferentiatedPriceList {}, ShippingByPost {});

    let purchases = vec![
        (cents(50.0), String::from("SP"), cents(65.0)),
        (cents(50.0), String::from("POA"), cents(80.0)),
        (cents(5200.3), String::from("SP"), cents(5059.29)),
        (cents(2333.85), String::from("SP"), cents(2232.15)),
    ];

    purchases.iter().for_each(|(value, city, expected)| {
        let purchase = Purchase { value: *value, city: city.to_owned() };
        let actual = calculator.calculate(&purchase).unwrap();
        assert_eq!(*expected, actual);
    });
}

#[test]
fn test_negative_purchase_value_is_invalid() {
    let calculator = PriceCalculator::new(DifferentiatedPriceList {}, ShippingByPost {});
    let purchase = Purchase { value: -1, city: String::from("SP") };
    assert_eq!(Err(EngineError::InvalidInput), calculator.calculate(&purchase));
}

/// Hands back a discount rate above one whole, which no valid price list
/// produces.
struct BrokenPriceList {}

impl PriceList for BrokenPriceList {
    fn discount_rate(&self, _value: i64) -> i64 {
        20_000
    }
}

#[test]
fn test_collaborator_answers_are_validated() {
    let calculator = PriceCalculator::new(BrokenPriceList {}, ShippingByPost {});
    let purchase = Purchase { value: cents(50.0), city: String::from("SP") };
    assert_eq!(Err(EngineError::InvalidInput), calculator.calculate(&purchase));
}

#[test]
fn test_compose_total_truncates_once_at_the_end() {
    // 5200.30 * 0.97 = 5044.291; truncated and added to 15.00 -> 5059.29.
    assert_eq!(Ok(cents(5059.29)), compose_total(cents(5200.3), 300, cents(15.0)));
    // 2333.85 * 0.95 = 2217.1575 -> 2217.15; plus 15.00 -> 2232.15.
    assert_eq!(Ok(cents(2232.15)), compose_total(cents(2333.85), 500, cents(15.0)));
    // A negative shipping cost is rejected.
    assert_eq!(Err(EngineError::InvalidInput), compose_total(cents(50.0), 0, -1));
}
