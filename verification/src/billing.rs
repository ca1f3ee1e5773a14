//! Billing rules: plans, subscriptions, plan changes, providers and payments.
pub mod types;
pub mod plan_change;
pub mod config;
pub mod plans;
pub mod payments;
pub mod analytics;
