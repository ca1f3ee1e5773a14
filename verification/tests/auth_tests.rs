use reauth_api::app_error::AppError;
use reauth_api::auth::config::{
    auth_config_or_default, check_google_oauth_allowed, check_magic_link_enabled,
    email_settings_source, get_google_oauth_config_info, has_auth_methods_for_owner_domains,
    plan_auth_config_update, public_config, verified_domain, EmailSettingsSource,
    MagicLinkSettingsUpdate,
};
use reauth_api::auth::login::{
    check_google_link, check_invite, check_login, google_login_step, login_events,
    magic_link_email, mark_state_in_use, plan_account_action, prepare_magic_link,
    store_oauth_state, AccountAction, GoogleLoginStep,
};
use reauth_api::auth::tokens::{
    generate_token, get_fallback_email_info, hash_domain_token, is_valid_redirect_url,
    sanitize_domain_for_email,
};
use reauth_api::auth::types::{
    DomainAuthConfigProfile, DomainAuthGoogleOAuthProfile, DomainEndUserProfile,
    GoogleLoginResult, MarkStateResult, OAuthStateData,
};
use reauth_api::domains::DomainProfile;
use reauth_api::entities::domain::DomainStatus;
use reauth_api::entities::payment_mode::PaymentMode;
use reauth_api::entities::webhook::WebhookEventType;

fn domain(owner: Option<u128>, status: DomainStatus) -> DomainProfile {
    DomainProfile {
        id: 7,
        owner_end_user_id: owner,
        domain: "example.com".to_string(),
        status,
        active_payment_mode: PaymentMode::Test,
        verification_started_at: None,
        verified_at: None,
        created_at: None,
        updated_at: None,
    }
}

fn config(domain_id: u128, magic: bool, google: bool) -> DomainAuthConfigProfile {
    DomainAuthConfigProfile {
        id: 1,
        domain_id,
        magic_link_enabled: magic,
        google_oauth_enabled: google,
        redirect_url: None,
        whitelist_enabled: false,
        access_token_ttl_secs: 3600,
        refresh_token_ttl_days: 7,
        created_at: None,
        updated_at: None,
    }
}

fn user(id: u128, frozen: bool, whitelisted: bool) -> DomainEndUserProfile {
    DomainEndUserProfile {
        id,
        domain_id: 7,
        email: "u@example.com".to_string(),
        roles: vec![],
        google_id: None,
        email_verified_at: None,
        last_login_at: None,
        is_frozen: frozen,
        is_whitelisted: whitelisted,
        created_at: None,
        updated_at: None,
    }
}

// ---------------------------------------------------------------------------
// Tokens and redirect targets
// ---------------------------------------------------------------------------

#[test]
fn test_is_valid_redirect_url() {
    // Valid: exact domain match
    assert!(is_valid_redirect_url("https://example.com/callback", "example.com"));
    assert!(is_valid_redirect_url("https://example.com", "example.com"));
    assert!(is_valid_redirect_url("http://example.com/path", "example.com"));

    // Valid: subdomain
    assert!(is_valid_redirect_url("https://app.example.com/callback", "example.com"));
    assert!(is_valid_redirect_url("https://login.example.com", "example.com"));
    assert!(is_valid_redirect_url("https://deep.nested.example.com/path", "example.com"));

    // Invalid: different domain
    assert!(!is_valid_redirect_url("https://evil.com/callback", "example.com"));
    assert!(!is_valid_redirect_url("https://notexample.com", "example.com"));

    // Invalid: domain suffix attack (evil.com shouldn't match example.com)
    assert!(!is_valid_redirect_url("https://fakeexample.com", "example.com"));

    // Invalid: malformed URLs
    assert!(!is_valid_redirect_url("not-a-url", "example.com"));
    assert!(!is_valid_redirect_url("", "example.com"));
}

#[test]
fn test_hash_domain_token_avoids_collisions() {
    // "ab" + "c" vs "a" + "bc" both produce "abc" if naively concatenated.
    let raw_a = "ab";
    let domain_a = "c";
    let raw_b = "a";
    let domain_b = "bc";

    let scoped_a = hash_domain_token(raw_a, domain_a);
    let scoped_b = hash_domain_token(raw_b, domain_b);
    assert_ne!(scoped_a, scoped_b);
}

#[test]
fn domain_token_hash_is_sha256_of_framed_parts() {
    // SHA-256 of 00 00 00 00 00 00 00 00 (two empty parts)
    assert_eq!(
        hash_domain_token("", ""),
        "af5570f5a1810b7af78caf4bc70a660f0df51e42baf91d4de5b2328de0e83dfc"
    );
    let h = hash_domain_token("token", "example.com");
    assert_eq!(h.len(), 64);
    assert_ne!(h, hash_domain_token("token", "example.org"));
}

#[test]
fn tokens_are_43_url_safe_characters() {
    let t = generate_token();
    assert_eq!(t.len(), 43);
    assert!(t.chars().all(|c| c.is_ascii_alphanumeric() || c == '-' || c == '_'));
    assert_ne!(t, generate_token());
}

#[test]
fn fallback_sender_addresses() {
    assert_eq!(sanitize_domain_for_email("myapp.com"), "myapp-com");
    assert_eq!(get_fallback_email_info("my.app.io", "mail.reauth.dev"), "my-app-io@mail.reauth.dev");
}

// ---------------------------------------------------------------------------
// Settings
// ---------------------------------------------------------------------------

#[test]
fn public_config_defaults() {
    assert_eq!(verified_domain(Some(domain(None, DomainStatus::Verifying))).unwrap_err(), AppError::NotFound);
    let c = public_config(domain(None, DomainStatus::Verified), &None);
    assert!(c.magic_link_enabled && c.google_oauth_enabled);
    assert_eq!(c.redirect_url.as_deref(), Some("https://example.com"));
    let mut stored = config(7, false, true);
    stored.redirect_url = Some("https://app.example.com/home".to_string());
    let c = public_config(domain(None, DomainStatus::Verified), &Some(stored));
    assert!(!c.magic_link_enabled);
    assert_eq!(c.redirect_url.as_deref(), Some("https://app.example.com/home"));
}

#[test]
fn magic_link_and_google_gates() {
    assert_eq!(
        check_magic_link_enabled(&None),
        Err(AppError::InvalidInput("Authentication not configured for this domain".to_string()))
    );
    assert_eq!(
        check_magic_link_enabled(&Some(config(7, false, true))),
        Err(AppError::InvalidInput("Magic link login is not enabled for this domain".to_string()))
    );
    assert!(check_magic_link_enabled(&Some(config(7, true, false))).is_ok());
    assert!(check_google_oauth_allowed(&None).is_ok());
    assert_eq!(
        check_google_oauth_allowed(&Some(config(7, true, false))),
        Err(AppError::InvalidInput("Google OAuth is not enabled for this domain".to_string()))
    );
}

#[test]
fn default_auth_settings() {
    let c = auth_config_or_default(None, 9);
    assert_eq!(c.domain_id, 9);
    assert!(c.magic_link_enabled && !c.google_oauth_enabled && !c.whitelist_enabled);
    assert_eq!(c.access_token_ttl_secs, 86400);
    assert_eq!(c.refresh_token_ttl_days, 30);
}

#[test]
fn auth_methods_per_domain() {
    assert!(has_auth_methods_for_owner_domains(&vec![], &vec![config(1, true, true)]).is_empty());
    let m = has_auth_methods_for_owner_domains(&vec![1, 2, 3], &vec![config(1, true, false), config(2, false, false)]);
    assert_eq!(m.get(&1), Some(&true));
    assert_eq!(m.get(&2), Some(&false));
    assert_eq!(m.get(&3), Some(&true));
    assert_eq!(m.len(), 3);
}

#[test]
fn saving_auth_settings() {
    assert_eq!(plan_auth_config_update(None, 1, None, false, false, None, None).unwrap_err(), AppError::NotFound);
    assert_eq!(
        plan_auth_config_update(Some(domain(Some(2), DomainStatus::Verified)), 1, None, false, false, None, None).unwrap_err(),
        AppError::InvalidCredentials
    );
    assert_eq!(
        plan_auth_config_update(Some(domain(Some(1), DomainStatus::PendingDns)), 1, None, false, false, None, None).unwrap_err(),
        AppError::InvalidInput("Domain must be verified before configuring authentication".to_string())
    );
    assert_eq!(
        plan_auth_config_update(Some(domain(Some(1), DomainStatus::Verified)), 1, Some("https://evil.com"), false, false, None, None).unwrap_err(),
        AppError::InvalidInput("Redirect URL must be on example.com or a subdomain".to_string())
    );
    let plan = plan_auth_config_update(Some(domain(Some(1), DomainStatus::Verified)), 1, Some("https://app.example.com"), true, true, Some("key"), Some("a@b.c")).unwrap();
    assert!(plan.whitelist_all_existing);
    assert!(matches!(plan.magic_link, MagicLinkSettingsUpdate::Replace { .. }));
    let plan = plan_auth_config_update(Some(domain(Some(1), DomainStatus::Verified)), 1, None, false, true, None, Some("a@b.c")).unwrap();
    assert!(!plan.whitelist_all_existing);
    assert!(matches!(plan.magic_link, MagicLinkSettingsUpdate::SenderOnly { .. }));
    let plan = plan_auth_config_update(Some(domain(Some(1), DomainStatus::Verified)), 1, None, false, false, Some("key"), None).unwrap();
    assert!(matches!(plan.magic_link, MagicLinkSettingsUpdate::Keep));
}

#[test]
fn email_and_google_sources() {
    match email_settings_source(None, "my.app", "mail.reauth.dev") {
        EmailSettingsSource::Fallback { from_email } => assert_eq!(from_email, "my-app@mail.reauth.dev"),
        _ => panic!("expected the shared settings"),
    }
    let info = get_google_oauth_config_info(&Some(DomainAuthGoogleOAuthProfile {
        id: 1,
        domain_id: 7,
        client_id: "1234567890abcdef.apps.googleusercontent.com".to_string(),
        client_secret_encrypted: "x".to_string(),
        created_at: None,
        updated_at: None,
    }))
    .unwrap();
    assert_eq!(info.client_id_prefix, "1234567890");
    assert!(info.has_client_secret);
    assert!(get_google_oauth_config_info(&None).is_none());
}

// ---------------------------------------------------------------------------
// Signing in
// ---------------------------------------------------------------------------

#[test]
fn magic_link_emails() {
    let m = magic_link_email("example.com", "RAW", 15);
    assert_eq!(m.subject, "Sign in to your account");
    assert!(m.html.contains("https://reauth.example.com/magic?token=RAW"));
    assert!(m.html.contains("It expires in 15 minutes."));
    assert!(m.html.contains("reauth - reauth.example.com"));
    assert!(m.html.contains("you requested to sign in to example.com"));
    let r = prepare_magic_link("example.com", 10);
    assert_eq!(r.token_hash, hash_domain_token(&r.raw_token, "example.com"));
    assert!(r.email.html.contains(&r.raw_token));
}

#[test]
fn login_checks_and_events() {
    assert_eq!(check_login(&None), Err(AppError::NotFound));
    assert_eq!(check_login(&Some(user(1, true, false))), Err(AppError::AccountSuspended));
    assert_eq!(check_login(&Some(user(1, false, false))), Ok(true));
    let mut verified = user(1, false, false);
    verified.email_verified_at = Some(5);
    assert_eq!(check_login(&Some(verified)), Ok(false));
    let first = login_events(1, true, "magic_link");
    assert_eq!(first.len(), 2);
    assert_eq!(first[0].event, WebhookEventType::UserCreated);
    assert_eq!(first[1].event, WebhookEventType::UserLogin);
    assert_eq!(login_events(1, false, "google_oauth").len(), 1);
}

#[test]
fn google_login_steps() {
    let mut linked = user(1, false, false);
    linked.google_id = Some("g-1".to_string());
    assert!(matches!(google_login_step(Some(linked.clone()), None, "u@example.com", "g-1"), Ok(GoogleLoginStep::SignIn(_))));
    assert_eq!(
        google_login_step(None, Some(linked), "u@example.com", "g-2").unwrap_err(),
        AppError::InvalidInput("This email is already linked to a different Google account".to_string())
    );
    match google_login_step(None, Some(user(4, false, false)), "u@example.com", "g-2") {
        Ok(GoogleLoginStep::ConfirmLink(GoogleLoginResult::NeedsLinkConfirmation { existing_user_id, email, google_id })) => {
            assert_eq!(existing_user_id, 4);
            assert_eq!(email, "u@example.com");
            assert_eq!(google_id, "g-2");
        }
        _ => panic!("expected a link confirmation"),
    }
    assert!(matches!(google_login_step(None, None, "u@example.com", "g-2"), Ok(GoogleLoginStep::CreateUser)));
    assert_eq!(check_google_link(&None, &None, 4), Err(AppError::NotFound));
    assert_eq!(
        check_google_link(&Some(user(4, false, false)), &Some(user(5, false, false)), 4),
        Err(AppError::InvalidInput("This Google account is already linked to a different user".to_string()))
    );
    assert!(check_google_link(&Some(user(4, false, false)), &Some(user(4, false, false)), 4).is_ok());
}

fn state() -> OAuthStateData {
    OAuthStateData {
        domain: "example.com".to_string(),
        code_verifier: "verifier".to_string(),
        status: "pending".to_string(),
        marked_at: None,
    }
}

#[test]
fn two_phase_exchange_of_a_sign_in_state() {
    let stored = store_oauth_state(state(), 1000, 10);
    assert_eq!(stored.expires_at, 1600);
    let (slot, r) = mark_state_in_use(Some(stored), 1000, 90);
    assert!(matches!(r, MarkStateResult::Success(_)));
    let slot = slot.unwrap();
    assert_eq!(slot.data.status, "in_use");
    assert_eq!(slot.data.marked_at, Some(1000));
    assert_eq!(slot.expires_at, 1120);
    // a retry within the window succeeds and refreshes the expiry
    let (slot2, r) = mark_state_in_use(Some(slot.clone()), 1030, 90);
    assert!(matches!(r, MarkStateResult::Success(_)));
    assert_eq!(slot2.unwrap().expires_at, 1150);
    // after the window the retry is refused, the state kept
    let (slot3, r) = mark_state_in_use(Some(slot.clone()), 1100, 90);
    assert!(matches!(r, MarkStateResult::RetryWindowExpired));
    assert!(slot3.is_some());
    // an expired state is gone
    let (slot4, r) = mark_state_in_use(Some(slot), 1200, 90);
    assert!(matches!(r, MarkStateResult::NotFound));
    assert!(slot4.is_none());
    assert!(matches!(mark_state_in_use(None, 0, 90).1, MarkStateResult::NotFound));
}

// ---------------------------------------------------------------------------
// Owners managing end users
// ---------------------------------------------------------------------------

#[test]
fn account_actions_notify_only_on_change() {
    let c = plan_account_action(AccountAction::Freeze, &user(1, false, false), "example.com");
    assert_eq!(c.set_frozen, Some(true));
    assert_eq!(c.event, Some(WebhookEventType::UserFrozen));
    assert_eq!(c.email.unwrap().subject, "Your example.com account has been suspended");
    let c = plan_account_action(AccountAction::Freeze, &user(1, true, false), "example.com");
    assert!(c.email.is_none() && c.event.is_none());
    let c = plan_account_action(AccountAction::Unfreeze, &user(1, true, false), "example.com");
    assert!(c.email.unwrap().html.contains("https://reauth.example.com/"));
    let c = plan_account_action(AccountAction::Whitelist, &user(1, false, false), "example.com");
    assert_eq!(c.set_whitelisted, Some(true));
    assert_eq!(c.email.unwrap().subject, "You're approved! Access example.com now");
    let c = plan_account_action(AccountAction::Unwhitelist, &user(1, false, true), "example.com");
    assert!(c.email.is_none());
    assert_eq!(c.event, Some(WebhookEventType::UserUnwhitelisted));
    assert_eq!(check_invite(&Some(user(1, false, false))), Err(AppError::InvalidInput("User already exists".to_string())));
    assert!(check_invite(&None).is_ok());
}
