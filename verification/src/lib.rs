//! Billing, authentication and domain rules of the reauth service, with their
//! contracts proved by Verus.
pub mod api_keys;
pub mod app_error;
pub mod auth;
pub mod billing;
pub mod domain_parsing;
pub mod domains;
pub mod email_templates;
pub mod entities;
pub mod jwt;
pub mod outside;
pub mod payment_port;
pub mod roles;
pub mod text;
pub mod validators;
pub mod webhooks;
