//! Records the service stores about keys, domains' settings and end users.
use vstd::prelude::*;

verus! {

/// An API key as stored: only its hash, never its raw text.
#[derive(Debug, Clone)]
pub struct ApiKey {
    pub id: u128,
    pub domain_id: u128,
    pub key_prefix: String,
    pub key_hash: String,
    pub name: String,
    pub last_used_at: Option<i128>,
    pub revoked_at: Option<i128>,
    pub created_at: Option<i128>,
    pub created_by_end_user_id: u128,
}

/// A domain's Stripe keys, the secret ones encrypted.
#[derive(Debug, Clone)]
pub struct BillingStripeConfig {
    pub id: u128,
    pub domain_id: u128,
    pub stripe_secret_key_encrypted: String,
    pub stripe_publishable_key: String,
    pub stripe_webhook_secret_encrypted: String,
    pub created_at: Option<i128>,
    pub updated_at: Option<i128>,
}

/// How a domain's end users may sign in.
#[derive(Debug, Clone)]
pub struct DomainAuthConfig {
    pub id: u128,
    pub domain_id: u128,
    pub magic_link_enabled: bool,
    pub google_oauth_enabled: bool,
    pub redirect_url: Option<String>,
    pub access_token_ttl_secs: i32,
    pub refresh_token_ttl_days: i32,
    pub created_at: Option<i128>,
    pub updated_at: Option<i128>,
}

/// A domain's own Google OAuth client.
#[derive(Debug, Clone)]
pub struct DomainAuthGoogleOAuth {
    pub id: u128,
    pub domain_id: u128,
    pub client_id: String,
    pub client_secret_encrypted: String,
    pub created_at: Option<i128>,
    pub updated_at: Option<i128>,
}

/// A domain's own e-mail settings for magic links.
#[derive(Debug, Clone)]
pub struct DomainAuthMagicLink {
    pub id: u128,
    pub domain_id: u128,
    pub resend_api_key_encrypted: String,
    pub from_email: String,
    pub created_at: Option<i128>,
    pub updated_at: Option<i128>,
}

/// An end user of a customer domain.
#[derive(Debug, Clone)]
pub struct DomainEndUser {
    pub id: u128,
    pub domain_id: u128,
    pub email: String,
    pub roles: Vec<String>,
    pub email_verified_at: Option<i128>,
    pub last_login_at: Option<i128>,
    pub is_frozen: bool,
    pub is_whitelisted: bool,
    pub created_at: Option<i128>,
    pub updated_at: Option<i128>,
}

} // verus!
