//! A rule-based calculation and settlement engine for small financial
//! computations: salary adjustment by role, tax-invoice generation with
//! post-generation notifications, purchase pricing with discount and shipping
//! strategies, and invoice settlement by accumulating payments.
//!
//! Monetary amounts are held in cents and rates in basis points, so every
//! computation is exact integer arithmetic; a monetary output is truncated
//! toward zero to whole cents at the point it is produced.

pub mod calculator;
pub mod dispatch;
pub mod error;
pub mod money;
pub mod price;
pub mod rules;
pub mod salary;
pub mod settlement;
pub mod table;
pub mod tax;
