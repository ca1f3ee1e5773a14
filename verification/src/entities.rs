//! Domain entities: the enumerations the service stores and exchanges.
pub mod billing_state;
pub mod payment_mode;
pub mod stripe_mode;
pub mod payment_provider;
pub mod payment_scenario;
pub mod payment_status;
pub mod domain;
pub mod subscription_plan;
pub mod user_subscription;
pub mod webhook;
pub mod records;
