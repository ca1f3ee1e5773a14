//! Authentication settings of a customer domain and the defaults that apply when
//! none are stored.
use vstd::prelude::*;
use vstd::std_specs::hash::{axiom_u128_obeys_hash_table_key_model, obeys_key_model};
use std::collections::HashMap;
use crate::app_error::AppError;
use crate::auth::tokens::{fallback_sender, get_fallback_email_info, is_valid_redirect_url, redirect_allowed};
use crate::auth::types::{
    DomainAuthConfigProfile, DomainAuthGoogleOAuthProfile, DomainAuthMagicLinkProfile,
    GoogleOAuthConfigInfo, OAuthStateData, PublicDomainConfig, default_pending,
};
use crate::domains::{DomainProfile, owned_domain};
use crate::entities::domain::DomainStatus;
use crate::text::{chars_of, concat2, concat3, owned, string_from_char_range};

verus! {

// ============================================================================
// Domains served to end users
// ============================================================================

/// A domain's login pages are served only once the domain is verified; any other
/// domain is not found.
pub fn verified_domain(found: Option<DomainProfile>) -> (r: Result<DomainProfile, AppError>)
    ensures
        found is Some && found.unwrap().status == DomainStatus::Verified ==> r == Ok::<
            DomainProfile,
            AppError,
        >(found.unwrap()),
        !(found is Some && found.unwrap().status == DomainStatus::Verified) ==> r == Err::<
            DomainProfile,
            AppError,
        >(AppError::NotFound),
{
    match found {
        None => Err(AppError::NotFound),
        Some(d) => {
            if d.status != DomainStatus::Verified {
                return Err(AppError::NotFound);
            }
            Ok(d)
        },
    }
}

/// Get public config for a domain (used by login page to show available auth
/// methods): the stored settings, else magic links and Google sign-in enabled and
/// a redirect to `https://<domain>`.
pub fn public_config(domain: DomainProfile, auth_config: &Option<DomainAuthConfigProfile>) -> (r: PublicDomainConfig)
    ensures
        r.domain_id == domain.id,
        r.domain == domain.domain,
        r.magic_link_enabled == (match auth_config {
            Some(c) => c.magic_link_enabled,
            None => true,
        }),
        r.google_oauth_enabled == (match auth_config {
            Some(c) => c.google_oauth_enabled,
            None => true,
        }),
        r.redirect_url matches Some(u) && u@ == (match auth_config {
            Some(c) if c.redirect_url is Some => c.redirect_url.unwrap()@,
            _ => "https://"@ + domain.domain@,
        }),
{
    // Default redirect URL to https://{domain} if not configured
    let redirect_url: String = match auth_config {
        Some(c) => match &c.redirect_url {
            Some(u) => u.clone(),
            None => concat2("https://", domain.domain.as_str()),
        },
        None => concat2("https://", domain.domain.as_str()),
    };
    // Use domain config if set, otherwise default to enabled
    let (magic_link_enabled, google_oauth_enabled): (bool, bool) = match auth_config {
        Some(c) => (c.magic_link_enabled, c.google_oauth_enabled),
        None => (true, true),
    };
    PublicDomainConfig {
        domain_id: domain.id,
        domain: domain.domain,
        magic_link_enabled,
        google_oauth_enabled,
        redirect_url: Some(redirect_url),
    }
}

/// A magic link may be requested only for a domain with stored settings that
/// enable magic links.
pub fn check_magic_link_enabled(auth_config: &Option<DomainAuthConfigProfile>) -> (r: Result<(), AppError>)
    ensures
        auth_config is None ==> (r matches Err(AppError::InvalidInput(m)) && m@
            == "Authentication not configured for this domain"@),
        auth_config matches Some(c) && !c.magic_link_enabled ==> (r matches Err(AppError::InvalidInput(m))
            && m@ == "Magic link login is not enabled for this domain"@),
        auth_config matches Some(c) && c.magic_link_enabled ==> r is Ok,
{
    match auth_config {
        None => Err(AppError::InvalidInput("Authentication not configured for this domain".to_owned())),
        Some(c) => {
            if !c.magic_link_enabled {
                return Err(AppError::InvalidInput(
                    "Magic link login is not enabled for this domain".to_owned(),
                ));
            }
            Ok(())
        },
    }
}

/// Whether Google sign-in is enabled: as stored, else enabled.
pub open spec fn google_enabled(auth_config: Option<DomainAuthConfigProfile>) -> bool {
    match auth_config {
        Some(c) => c.google_oauth_enabled,
        None => true,
    }
}

/// Check if Google OAuth is enabled for a domain
pub fn is_google_oauth_enabled(auth_config: &Option<DomainAuthConfigProfile>) -> (r: bool)
    ensures
        r == google_enabled(*auth_config),
{
    match auth_config {
        Some(c) => c.google_oauth_enabled,
        None => true,
    }
}

/// A Google sign-in may start only where Google sign-in is enabled.
pub fn check_google_oauth_allowed(auth_config: &Option<DomainAuthConfigProfile>) -> (r: Result<(), AppError>)
    ensures
        google_enabled(*auth_config) ==> r is Ok,
        !google_enabled(*auth_config) ==> (r matches Err(AppError::InvalidInput(m)) && m@
            == "Google OAuth is not enabled for this domain"@),
{
    if !is_google_oauth_enabled(auth_config) {
        return Err(AppError::InvalidInput("Google OAuth is not enabled for this domain".to_owned()));
    }
    Ok(())
}

/// The state stored when a Google sign-in starts: pending, never marked.
pub fn new_oauth_state(domain_name: &str, code_verifier: &str) -> (r: OAuthStateData)
    ensures
        r.domain@ == domain_name@,
        r.code_verifier@ == code_verifier@,
        r.status@ == "pending"@,
        r.marked_at is None,
{
    OAuthStateData {
        domain: owned(domain_name),
        code_verifier: owned(code_verifier),
        status: default_pending(),
        marked_at: None,
    }
}

// ============================================================================
// Settings as the owner sees them
// ============================================================================

/// The settings shown for a domain without stored ones: magic links on, Google
/// sign-in off, no redirect, no whitelist, one-day access tokens and thirty-day
/// refresh tokens.
pub fn auth_config_or_default(found: Option<DomainAuthConfigProfile>, domain_id: u128) -> (r: DomainAuthConfigProfile)
    ensures
        found is Some ==> r == found.unwrap(),
        found is None ==> r.id == 0 && r.domain_id == domain_id && r.magic_link_enabled
            && !r.google_oauth_enabled && r.redirect_url is None && !r.whitelist_enabled
            && r.access_token_ttl_secs == 86400 && r.refresh_token_ttl_days == 30
            && r.created_at is None && r.updated_at is None,
{
    match found {
        Some(c) => c,
        None => DomainAuthConfigProfile {
            id: 0,
            domain_id,
            magic_link_enabled: true,
            google_oauth_enabled: false,
            redirect_url: None,
            whitelist_enabled: false,
            access_token_ttl_secs: 86400,
            refresh_token_ttl_days: 30,
            created_at: None,
            updated_at: None,
        },
    }
}

/// The configured sign-in methods per domain: for each domain asked about, whether
/// its stored settings enable magic links or Google sign-in, and `true` for a
/// domain without stored settings. Nothing is reported when no domain is asked
/// about.
pub open spec fn auth_methods_map(domain_ids: Seq<u128>, configs: Seq<DomainAuthConfigProfile>) -> Map<u128, bool> {
    if domain_ids.len() == 0 {
        Map::empty()
    } else {
        let stored = stored_methods(configs);
        Map::new(
            |k: u128| stored.contains_key(k) || domain_ids.contains(k),
            |k: u128| if stored.contains_key(k) {
                stored[k]
            } else {
                true
            },
        )
    }
}

/// Whether each stored configuration enables a sign-in method; a later
/// configuration of the same domain replaces an earlier one.
pub open spec fn stored_methods(configs: Seq<DomainAuthConfigProfile>) -> Map<u128, bool>
    decreases configs.len(),
{
    if configs.len() == 0 {
        Map::empty()
    } else {
        stored_methods(configs.drop_last()).insert(
            configs.last().domain_id,
            configs.last().magic_link_enabled || configs.last().google_oauth_enabled,
        )
    }
}

/// Batch check if domains have auth methods enabled.
///
/// IMPORTANT: This does NOT verify domain ownership. It must only be called with
/// domain IDs that have already been authorized. Domains without explicit config
/// default to `true` (matches get_auth_config).
pub fn has_auth_methods_for_owner_domains(domain_ids: &Vec<u128>, configs: &Vec<DomainAuthConfigProfile>) -> (r: HashMap<u128, bool>)
    ensures
        r@ == auth_methods_map(domain_ids@, configs@),
{
    broadcast use axiom_u128_obeys_hash_table_key_model;
    broadcast use vstd::std_specs::hash::axiom_random_state_builds_valid_hashers;

    let mut result: HashMap<u128, bool> = HashMap::new();
    if domain_ids.len() == 0 {
        assert(result@ =~= auth_methods_map(domain_ids@, configs@));
        return result;
    }
    let mut i: usize = 0;
    while i < configs.len()
        invariant
            i <= configs@.len(),
            result@ == stored_methods(configs@.subrange(0, i as int)),
        decreases configs@.len() - i,
    {
        let c: &DomainAuthConfigProfile = &configs[i];
        result.insert(c.domain_id, c.magic_link_enabled || c.google_oauth_enabled);
        assert(configs@.subrange(0, i + 1).drop_last() =~= configs@.subrange(0, i as int));
        i = i + 1;
    }
    assert(configs@.subrange(0, configs@.len() as int) =~= configs@);
    let ghost stored = stored_methods(configs@);
    let mut j: usize = 0;
    while j < domain_ids.len()
        invariant
            j <= domain_ids@.len(),
            stored == stored_methods(configs@),
            result@ == Map::new(
                |k: u128| stored.contains_key(k) || domain_ids@.subrange(0, j as int).contains(k),
                |k: u128| if stored.contains_key(k) {
                    stored[k]
                } else {
                    true
                },
            ),
        decreases domain_ids@.len() - j,
    {
        let id: u128 = domain_ids[j];
        let ghost before = domain_ids@.subrange(0, j as int);
        let ghost after = domain_ids@.subrange(0, j + 1);
        assert(after =~= before.push(id));
        assert forall|k: u128| after.contains(k) <==> (before.contains(k) || k == id) by {
            if after.contains(k) {
                let x = choose|x: int| 0 <= x < after.len() && after[x] == k;
                if x < before.len() {
                    assert(before[x] == k);
                }
            }
            if before.contains(k) {
                let x = choose|x: int| 0 <= x < before.len() && before[x] == k;
                assert(after[x] == k);
            }
            if k == id {
                assert(after[j as int] == k);
            }
        }
        if !result.contains_key(&id) {
            result.insert(id, true);
        }
        assert(result@ =~= Map::new(
            |k: u128| stored.contains_key(k) || after.contains(k),
            |k: u128| if stored.contains_key(k) {
                stored[k]
            } else {
                true
            },
        ));
        j = j + 1;
    }
    assert(domain_ids@.subrange(0, domain_ids@.len() as int) =~= domain_ids@);
    assert(result@ =~= auth_methods_map(domain_ids@, configs@));
    result
}

// ============================================================================
// Updating the settings
// ============================================================================

/// What becomes of a domain's own e-mail settings when its authentication
/// settings are saved.
#[derive(Debug, Clone)]
pub enum MagicLinkSettingsUpdate {
    /// Both an API key and a sender were given: store both.
    Replace { resend_api_key: String, from_email: String },
    /// Only a sender was given: change the sender of the stored settings.
    SenderOnly { from_email: String },
    /// Only an API key, or neither, was given: leave the settings as they are.
    Keep,
}

/// The steps of saving a domain's authentication settings once they are
/// accepted.
#[derive(Debug, Clone)]
pub struct AuthConfigUpdate {
    /// Whitelist every existing end user first.
    pub whitelist_all_existing: bool,
    pub magic_link: MagicLinkSettingsUpdate,
}

/// The message given for a redirect target outside the domain.
pub open spec fn redirect_message(domain: Seq<char>) -> Seq<char> {
    "Redirect URL must be on "@ + domain + " or a subdomain"@
}

/// Update auth config for a domain (domain owner only): the domain must belong to
/// the owner (else not found, or invalid credentials), be verified, and any
/// redirect target must lie on it or a subdomain.
pub fn plan_auth_config_update(
    found: Option<DomainProfile>,
    owner_end_user_id: u128,
    redirect_url: Option<&str>,
    whitelist_enabled: bool,
    whitelist_all_existing: bool,
    resend_api_key: Option<&str>,
    from_email: Option<&str>,
) -> (r: Result<AuthConfigUpdate, AppError>)
    ensures
        found is None ==> r == Err::<AuthConfigUpdate, AppError>(AppError::NotFound),
        found matches Some(d) ==> {
            if d.owner_end_user_id != Some(owner_end_user_id) {
                r == Err::<AuthConfigUpdate, AppError>(AppError::InvalidCredentials)
            } else if d.status != DomainStatus::Verified {
                r matches Err(AppError::InvalidInput(m)) && m@
                    == "Domain must be verified before configuring authentication"@
            } else if redirect_url matches Some(u) && !redirect_allowed(u@, d.domain@) {
                r matches Err(AppError::InvalidInput(m)) && m@ == redirect_message(d.domain@)
            } else {
                r matches Ok(plan) && plan.whitelist_all_existing == (whitelist_enabled
                    && whitelist_all_existing) && match (resend_api_key, from_email) {
                    (Some(k), Some(f)) => plan.magic_link matches MagicLinkSettingsUpdate::Replace {
                        resend_api_key,
                        from_email,
                    } && resend_api_key@ == k@ && from_email@ == f@,
                    (None, Some(f)) => plan.magic_link matches MagicLinkSettingsUpdate::SenderOnly {
                        from_email,
                    } && from_email@ == f@,
                    _ => plan.magic_link matches MagicLinkSettingsUpdate::Keep,
                }
            }
        },
{
    // Verify ownership
    let domain: DomainProfile = match owned_domain(found, owner_end_user_id) {
        Ok(d) => d,
        Err(e) => return Err(e),
    };
    if domain.status != DomainStatus::Verified {
        return Err(AppError::InvalidInput(
            "Domain must be verified before configuring authentication".to_owned(),
        ));
    }
    // Validate redirect URL is on the domain or a subdomain
    match redirect_url {
        Some(url) => {
            if !is_valid_redirect_url(url, domain.domain.as_str()) {
                return Err(AppError::InvalidInput(concat3(
                    "Redirect URL must be on ",
                    domain.domain.as_str(),
                    " or a subdomain",
                )));
            }
        },
        None => {},
    }
    let magic_link: MagicLinkSettingsUpdate = match (resend_api_key, from_email) {
        // Both provided: upsert full config
        (Some(k), Some(f)) => MagicLinkSettingsUpdate::Replace { resend_api_key: owned(k), from_email: owned(f) },
        // Only from_email provided: update just the from_email (config must exist)
        (None, Some(f)) => MagicLinkSettingsUpdate::SenderOnly { from_email: owned(f) },
        // Only api_key or neither: do nothing
        _ => MagicLinkSettingsUpdate::Keep,
    };
    Ok(AuthConfigUpdate { whitelist_all_existing: whitelist_enabled && whitelist_all_existing, magic_link })
}

// ============================================================================
// E-mail and Google client settings
// ============================================================================

/// Where the e-mail settings of a domain come from.
#[derive(Debug, Clone)]
pub enum EmailSettingsSource {
    /// The domain's own settings: its encrypted API key and its sender.
    Domain { resend_api_key_encrypted: String, from_email: String },
    /// The shared settings, with the sender made from the domain's name.
    Fallback { from_email: String },
}

/// Get email config for a domain: its own settings if stored, otherwise the
/// shared ones with a sender derived from the domain name.
pub fn email_settings_source(
    config: Option<DomainAuthMagicLinkProfile>,
    domain_name: &str,
    fallback_email_domain: &str,
) -> (r: EmailSettingsSource)
    ensures
        config matches Some(c) ==> r == (EmailSettingsSource::Domain {
            resend_api_key_encrypted: c.resend_api_key_encrypted,
            from_email: c.from_email,
        }),
        config is None ==> (r matches EmailSettingsSource::Fallback { from_email } && from_email@
            == fallback_sender(domain_name@, fallback_email_domain@)),
{
    match config {
        Some(c) => EmailSettingsSource::Domain {
            resend_api_key_encrypted: c.resend_api_key_encrypted,
            from_email: c.from_email,
        },
        None => EmailSettingsSource::Fallback {
            from_email: get_fallback_email_info(domain_name, fallback_email_domain),
        },
    }
}

/// Where the Google client of a domain comes from.
#[derive(Debug, Clone)]
pub enum GoogleClientSource {
    /// The domain's own client: its id and encrypted secret.
    Domain { client_id: String, client_secret_encrypted: String },
    /// The shared client.
    Fallback,
}

/// Get Google OAuth config for a domain: its own client if stored, otherwise the
/// shared one.
pub fn google_client_source(config: Option<DomainAuthGoogleOAuthProfile>) -> (r: GoogleClientSource)
    ensures
        config matches Some(c) ==> r == (GoogleClientSource::Domain {
            client_id: c.client_id,
            client_secret_encrypted: c.client_secret_encrypted,
        }),
        config is None ==> r matches GoogleClientSource::Fallback,
{
    match config {
        Some(c) => GoogleClientSource::Domain {
            client_id: c.client_id,
            client_secret_encrypted: c.client_secret_encrypted,
        },
        None => GoogleClientSource::Fallback,
    }
}

/// Get Google OAuth config info for dashboard display: the first ten characters
/// of the client id, and that a secret is stored.
pub fn get_google_oauth_config_info(config: &Option<DomainAuthGoogleOAuthProfile>) -> (r: Option<GoogleOAuthConfigInfo>)
    ensures
        config is None ==> r is None,
        config matches Some(c) ==> (r matches Some(info) && info.client_id_prefix@ == c.client_id@.take(
            if c.client_id@.len() < 10 {
                c.client_id@.len() as int
            } else {
                10
            },
        ) && info.has_client_secret),
{
    match config {
        Some(c) => {
            let v: Vec<char> = chars_of(c.client_id.as_str());
            let n: usize = if v.len() < 10 {
                v.len()
            } else {
                10
            };
            let prefix: String = string_from_char_range(&v, 0, n);
            Some(GoogleOAuthConfigInfo { client_id_prefix: prefix, has_client_secret: true })
        },
        None => None,
    }
}

} // verus!
