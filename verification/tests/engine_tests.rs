use rule_engine::calculator::{CalculationInput, Calculator};
use rule_engine::dispatch::{CalculationListener, NotificationDispatcher};
use rule_engine::error::EngineError;
use rule_engine::rules::CalculationRule;
use rule_engine::table::{Discriminator, RuleEntry, RulePredicate, RuleTable};
use std::cell::Cell;
use std::rc::Rc;

/// A monetary amount given in whole currency units, as cents.
fn cents(value: f64) -> i64 {
    (value * 100.0).round() as i64
}

const DEVELOPER_TAG: u64 = 1;
const DBA_TAG: u64 = 2;

fn salary_table() -> RuleTable {
    RuleTable::new(vec![
        RuleEntry {
            predicate: RulePredicate::CategoryIs(DEVELOPER_TAG),
            rule: CalculationRule::TwoTier {
                threshold: cents(3000.0),
                low_rate_bp: 9_000,
                high_rate_bp: 8_000,
            },
        },
        RuleEntry {
            predicate: RulePredicate::CategoryIs(DBA_TAG),
            rule: CalculationRule::TwoTier {
                threshold: cents(2000.0),
                low_rate_bp: 8_500,
                high_rate_bp: 7_500,
            },
        },
    ])
}

#[test]
fn test_calculator_resolves_by_category() {
    let calculator = Calculator::new(salary_table());
    let input = CalculationInput::new(cents(1500.0), Discriminator::Category(DEVELOPER_TAG));
    assert_eq!(Ok(cents(1350.0)), calculator.calculate(&input));
    let input = CalculationInput::new(cents(3000.0), Discriminator::Category(DBA_TAG));
    assert_eq!(Ok(cents(2250.0)), calculator.calculate(&input));
}

#[test]
fn test_calculator_reports_unresolved_discriminator() {
    let calculator = Calculator::new(salary_table());
    let input = CalculationInput::new(cents(1500.0), Discriminator::Category(99));
    assert_eq!(Err(EngineError::UnresolvedDiscriminator), calculator.calculate(&input));
    let empty = Calculator::new(RuleTable::new(vec![]));
    let input = CalculationInput::new(0, Discriminator::Value(0));
    assert_eq!(Err(EngineError::UnresolvedDiscriminator), empty.calculate(&input));
}

#[test]
fn test_calculator_rejects_negative_values() {
    let calculator = Calculator::new(salary_table());
    let input = CalculationInput::new(-1, Discriminator::Category(DEVELOPER_TAG));
    assert_eq!(Err(EngineError::InvalidInput), calculator.calculate(&input));
}

#[test]
fn test_calculator_resolves_by_value_bracket() {
    // The price-discount brackets keyed by the value itself: the rates here
    // are what the purchase keeps, the complement of the discount.
    let table = RuleTable::new(vec![
        RuleEntry {
            predicate: RulePredicate::ValueAtMost(cents(1000.0)),
            rule: CalculationRule::Flat { rate_bp: 10_000 },
        },
        RuleEntry {
            predicate: RulePredicate::ValueAtMost(cents(5000.0)),
            rule: CalculationRule::Flat { rate_bp: 9_500 },
        },
        RuleEntry { predicate: RulePredicate::Any, rule: CalculationRule::Flat { rate_bp: 9_700 } },
    ]);
    let calculator = Calculator::new(table);

    let discounted = |value: i64| {
        calculator.calculate(&CalculationInput::new(value, Discriminator::Value(value))).unwrap()
    };
    assert_eq!(cents(50.0), discounted(cents(50.0)));
    assert_eq!(cents(2217.15), discounted(cents(2333.85)));
    assert_eq!(cents(5044.29), discounted(cents(5200.3)));
}

#[test]
fn test_three_tier_rule_brackets() {
    // The same price brackets as one rule keyed on the value itself, rates
    // again as the kept complement of the discount; both bracket boundaries
    // are inclusive on the low side.
    let rule = CalculationRule::ThreeTier {
        low_threshold: cents(1000.0),
        high_threshold: cents(5000.0),
        low_rate_bp: 10_000,
        mid_rate_bp: 9_500,
        high_rate_bp: 9_700,
    };
    assert_eq!(cents(50.0), rule.apply(cents(50.0)));
    assert_eq!(cents(1000.0), rule.apply(cents(1000.0)));
    // 1000.01 * 0.95 = 950.0095, truncated to 950.00: the mid tier applies
    // one cent above the low threshold.
    assert_eq!(cents(950.0), rule.apply(cents(1000.01)));
    assert_eq!(cents(2217.15), rule.apply(cents(2333.85)));
    assert_eq!(cents(5044.29), rule.apply(cents(5200.3)));
}

#[test]
fn test_first_matching_entry_wins() {
    let table = RuleTable::new(vec![
        RuleEntry { predicate: RulePredicate::Any, rule: CalculationRule::Flat { rate_bp: 1_000 } },
        RuleEntry { predicate: RulePredicate::Any, rule: CalculationRule::Flat { rate_bp: 2_000 } },
    ]);
    assert_eq!(2, table.len());
    let resolved = table.resolve(Discriminator::Value(0)).unwrap();
    assert_eq!(CalculationRule::Flat { rate_bp: 1_000 }, resolved);
}

/// Counts its notifications; fails each time when told to, without stopping
/// its siblings.
struct CountingListener {
    fails: bool,
    notified: Rc<Cell<u32>>,
}

impl CalculationListener for CountingListener {
    fn on_result(&self, _value: i64) -> Result<(), String> {
        self.notified.set(self.notified.get() + 1);
        if self.fails {
            Err(String::from("listener failed"))
        } else {
            Ok(())
        }
    }
}

#[test]
fn test_notify_runs_every_listener_and_collects_failures() {
    let counters: Vec<Rc<Cell<u32>>> =
        vec![Rc::new(Cell::new(0)), Rc::new(Cell::new(0)), Rc::new(Cell::new(0))];
    let mut dispatcher: NotificationDispatcher<CountingListener> = NotificationDispatcher::new();
    dispatcher.register(CountingListener { fails: false, notified: counters[0].clone() });
    dispatcher.register(CountingListener { fails: true, notified: counters[1].clone() });
    dispatcher.register(CountingListener { fails: false, notified: counters[2].clone() });
    assert_eq!(3, dispatcher.listener_count());

    let failures = dispatcher.notify(cents(3.43));

    // The middle listener's failure was collected without stopping the rest:
    // every listener ran exactly once.
    assert_eq!(1, failures.len());
    assert_eq!(1, failures[0].index);
    assert_eq!("listener failed", failures[0].message);
    for counter in counters.iter() {
        assert_eq!(1, counter.get());
    }
}

#[test]
fn test_notify_without_failures_reports_none() {
    let mut dispatcher: NotificationDispatcher<CountingListener> = NotificationDispatcher::new();
    dispatcher.register(CountingListener { fails: false, notified: Rc::new(Cell::new(0)) });
    let failures = dispatcher.notify(0);
    assert_eq!(0, failures.len());
}
