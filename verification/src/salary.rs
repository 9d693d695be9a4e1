//! Net-salary calculation by role.
//!
//! Each role maps to a two-tier threshold rule: developers keep 90% of a base
//! salary up to 3000.00 and 80% above it; database administrators and testers
//! keep 85% up to 2000.00 and 75% above it. Amounts are cents, so the
//! thresholds are 300000 and 200000.

use crate::money::MAX_MONEY;
use crate::rules::CalculationRule;
use vstd::prelude::*;

verus! {

/// The role of an employee; the discriminator that selects the salary rule.
#[derive(Clone, Copy, PartialEq, Eq, Structural, Debug)]
pub enum Role {
    DEVELOPER,
    DBA,
    TESTER,
}

/// The two-tier rule a role resolves to.
pub open spec fn spec_rule_for_role(role: Role) -> CalculationRule {
    match role {
        Role::DEVELOPER => CalculationRule::TwoTier {
            threshold: 300_000,
            low_rate_bp: 9_000,
            high_rate_bp: 8_000,
        },
        Role::DBA | Role::TESTER => CalculationRule::TwoTier {
            threshold: 200_000,
            low_rate_bp: 8_500,
            high_rate_bp: 7_500,
        },
    }
}

impl From<Role> for CalculationRule {
    /// Resolves a role to its salary rule.
    fn from(role: Role) -> (rule: CalculationRule) {
        match role {
            Role::DEVELOPER => CalculationRule::TwoTier {
                threshold: 300_000,
                low_rate_bp: 9_000,
                high_rate_bp: 8_000,
            },
            Role::DBA | Role::TESTER => CalculationRule::TwoTier {
                threshold: 200_000,
                low_rate_bp: 8_500,
                high_rate_bp: 7_500,
            },
        }
    }
}

impl vstd::std_specs::convert::FromSpecImpl<Role> for CalculationRule {
    open spec fn obeys_from_spec() -> bool {
        true
    }

    open spec fn from_spec(role: Role) -> CalculationRule {
        spec_rule_for_role(role)
    }
}

/// An employee: a role and a base salary in cents.
#[derive(Clone, Copy, PartialEq, Eq, Structural, Debug)]
pub struct Employee {
    pub role: Role,
    pub base_salary: i64,
}

impl Employee {
    /// Pairs a role with a base salary.
    pub fn new(role: Role, base_salary: i64) -> (employee: Employee)
        ensures
            employee.role == role,
            employee.base_salary == base_salary,
    {
        Employee { role, base_salary }
    }
}

/// The net salary for a role and a non-negative base salary: the role's rule
/// applied to the base.
pub open spec fn spec_net_salary(role: Role, base_salary: int) -> int {
    spec_rule_for_role(role).spec_apply(base_salary)
}

/// Computes net salaries by resolving the rule for an employee's role and
/// applying it to the base salary.
pub struct SalaryCalculator {}

impl SalaryCalculator {
    /// The net salary of an employee with a non-negative base salary.
    pub fn calculate(&self, employee: &Employee) -> (net_salary: i64)
        requires
            0 <= employee.base_salary <= MAX_MONEY,
        ensures
            net_salary == spec_net_salary(employee.role, employee.base_salary as int),
            0 <= net_salary <= employee.base_salary,
    {
        let rule = CalculationRule::from(employee.role);
        rule.apply(employee.base_salary)
    }
}

} // verus!
