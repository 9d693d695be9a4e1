use rule_engine::rules::CalculationRule;
use rule_engine::salary::{Employee, Role, SalaryCalculator};

/// A monetary amount given in whole currency units, as cents.
fn cents(value: f64) -> i64 {
    (value * 100.0).round() as i64
}

#[test]
fn test_calculate_for_employees() {
    let employees = vec![
        (Employee::new(Role::DEVELOPER, cents(1500.0)), cents(1350.0)),
        (Employee::new(Role::DEVELOPER, cents(8500.0)), cents(6800.0)),
        (Employee::new(Role::DBA, cents(3000.0)), cents(2250.0)),
        (Employee::new(Role::DBA, cents(8000.0)), cents(6000.0)),
        (Employee::new(Role::TESTER, cents(2800.0)), cents(2100.0)),
        (Employee::new(Role::TESTER, cents(3200.0)), cents(2400.0)),
    ];

    let salary_calculator = SalaryCalculator {};

    employees.iter().for_each(|(employee, expected_net_salary)| {
        let calculated_net_salary = salary_calculator.calculate(employee);
        assert_eq!(*expected_net_salary, calculated_net_salary);
    });
}

#[test]
fn test_two_tier_threshold_is_inclusive() {
    let rule = CalculationRule::TwoTier {
        threshold: cents(3000.0),
        low_rate_bp: 9_000,
        high_rate_bp: 8_000,
    };
    // Exactly on the threshold: the low tier still applies.
    assert_eq!(cents(2700.0), rule.apply(cents(3000.0)));
    // One cent above the threshold: the high rate applies (3000.01 * 0.8 =
    // 2400.008, truncated to 2400.00).
    assert_eq!(cents(2400.0), rule.apply(cents(3000.01)));
}

#[test]
fn test_rule_application_is_repeatable() {
    let rule = CalculationRule::TwoTier {
        threshold: cents(2000.0),
        low_rate_bp: 8_500,
        high_rate_bp: 7_500,
    };
    let first = rule.apply(cents(2800.0));
    let second = rule.apply(cents(2800.0));
    assert_eq!(first, second);
    assert_eq!(cents(2100.0), first);
}
