//! Values the authentication rules of a customer domain read and produce.
//!
//! Identifiers are UUIDs given by their 128-bit value; instants are nanoseconds
//! since the Unix epoch (UTC).
use vstd::prelude::*;
use crate::entities::webhook::WebhookEventType;

verus! {

/// How a domain's end users may sign in.
#[derive(Debug, Clone)]
pub struct DomainAuthConfigProfile {
    pub id: u128,
    pub domain_id: u128,
    pub magic_link_enabled: bool,
    pub google_oauth_enabled: bool,
    pub redirect_url: Option<String>,
    pub whitelist_enabled: bool,
    pub access_token_ttl_secs: i32,
    pub refresh_token_ttl_days: i32,
    pub created_at: Option<i128>,
    pub updated_at: Option<i128>,
}

/// A domain's own e-mail settings for magic links.
#[derive(Debug, Clone)]
pub struct DomainAuthMagicLinkProfile {
    pub id: u128,
    pub domain_id: u128,
    pub resend_api_key_encrypted: String,
    pub from_email: String,
    pub created_at: Option<i128>,
    pub updated_at: Option<i128>,
}

/// A domain's own Google OAuth client.
#[derive(Debug, Clone)]
pub struct DomainAuthGoogleOAuthProfile {
    pub id: u128,
    pub domain_id: u128,
    pub client_id: String,
    pub client_secret_encrypted: String,
    pub created_at: Option<i128>,
    pub updated_at: Option<i128>,
}

/// An end user of a customer domain.
#[derive(Debug, Clone)]
pub struct DomainEndUserProfile {
    pub id: u128,
    pub domain_id: u128,
    pub email: String,
    pub roles: Vec<String>,
    pub google_id: Option<String>,
    pub email_verified_at: Option<i128>,
    pub last_login_at: Option<i128>,
    pub is_frozen: bool,
    pub is_whitelisted: bool,
    pub created_at: Option<i128>,
    pub updated_at: Option<i128>,
}

/// What a consumed magic link was issued for.
#[derive(Debug, Clone, Copy, PartialEq, Eq, Structural)]
pub struct DomainMagicLinkData {
    pub end_user_id: u128,
    pub domain_id: u128,
}

/// What the login page of a domain shows.
#[derive(Debug, Clone)]
pub struct PublicDomainConfig {
    pub domain_id: u128,
    pub domain: String,
    pub magic_link_enabled: bool,
    pub google_oauth_enabled: bool,
    pub redirect_url: Option<String>,
}

/// OAuth state data stored in Redis during the OAuth flow
#[derive(Debug, Clone)]
pub struct OAuthStateData {
    pub domain: String,
    /// PKCE code_verifier for exchange
    pub code_verifier: String,
    /// Status: "pending" (initial), "in_use" (being exchanged)
    pub status: String,
    /// Unix timestamp when state was marked in-use (for retry window)
    pub marked_at: Option<i64>,
}

/// The status a stored OAuth state starts in.
pub fn default_pending() -> (r: String)
    ensures
        r@ == "pending"@,
{
    "pending".to_owned()
}

/// Result of attempting to mark state in-use
#[derive(Debug, Clone)]
pub enum MarkStateResult {
    /// State marked successfully, here's the data
    Success(OAuthStateData),
    /// State not found (doesn't exist or was deleted)
    NotFound,
    /// State is in-use and retry window has expired
    RetryWindowExpired,
}

/// OAuth completion data stored after a successful OAuth exchange, used to
/// transfer auth state to the correct domain for cookie setting.
#[derive(Debug, Clone)]
pub struct OAuthCompletionData {
    pub user_id: u128,
    pub domain_id: u128,
    pub domain: String,
}

/// OAuth link confirmation data stored when a Google account needs to be linked
/// to an existing user account (email match, no google_id yet).
#[derive(Debug, Clone)]
pub struct OAuthLinkConfirmationData {
    pub existing_user_id: u128,
    pub google_id: String,
    pub domain_id: u128,
    pub domain: String,
}

/// Result of a Google OAuth login attempt
#[derive(Debug)]
pub enum GoogleLoginResult {
    /// Successfully logged in (existing or new user)
    LoggedIn(DomainEndUserProfile),
    /// User with this email exists but needs to confirm linking
    NeedsLinkConfirmation { existing_user_id: u128, email: String, google_id: String },
}

/// Google OAuth config info for dashboard display
#[derive(Debug, Clone)]
pub struct GoogleOAuthConfigInfo {
    pub client_id_prefix: String,
    pub has_client_secret: bool,
}

/// A webhook event about an end user, with the sign-in method for sign-in events.
#[derive(Debug, Clone)]
pub struct UserEvent {
    pub event: WebhookEventType,
    pub user_id: u128,
    pub auth_method: Option<String>,
}

/// An e-mail to send to an end user.
#[derive(Debug, Clone)]
pub struct EmailMessage {
    pub subject: String,
    pub html: String,
}

} // verus!
