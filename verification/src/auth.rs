//! Sign-in for customer domains: magic links, Google OAuth, end-user accounts.
pub mod types;
pub mod tokens;
pub mod config;
pub mod login;
