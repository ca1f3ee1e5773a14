use reauth_api::api_keys::{
    check_key_in_domain, create_api_key, hash_api_key, normalize_api_key_name, validated_key,
    ApiKeyProfile, ApiKeyWithDomain, ApiKeyWithRaw,
};
use reauth_api::app_error::AppError;
use reauth_api::billing::types::SubscriptionClaims;
use reauth_api::domains::DomainProfile;
use reauth_api::entities::domain::DomainStatus;
use reauth_api::entities::payment_mode::PaymentMode;
use reauth_api::entities::webhook::WebhookEventType;
use reauth_api::jwt::{domain_end_user_claims, key_try_order, user_claims};
use reauth_api::roles::{check_assignable_roles, check_new_role, check_role_exists, is_valid_role_name};
use reauth_api::webhooks::{
    backoff_base_delay, calculate_backoff_delay, check_endpoint_quota, check_host_under_domain,
    check_in_domain, check_webhook_url_form, envelope_header, generate_secret,
    plan_delivery_failure, truncate_response_body, validate_event_types, DeliveryFailureStep,
};

// ---------------------------------------------------------------------------
// Roles
// ---------------------------------------------------------------------------

#[test]
fn test_is_valid_role_name() {
    // Valid names
    assert!(is_valid_role_name("admin"));
    assert!(is_valid_role_name("super-admin"));
    assert!(is_valid_role_name("user123"));
    assert!(is_valid_role_name("a"));
    assert!(is_valid_role_name("admin-user-role"));

    // Invalid names
    assert!(!is_valid_role_name("")); // empty
    assert!(!is_valid_role_name("Admin")); // uppercase
    assert!(!is_valid_role_name("123admin")); // starts with number
    assert!(!is_valid_role_name("-admin")); // starts with hyphen
    assert!(!is_valid_role_name("admin_user")); // underscore
    assert!(!is_valid_role_name("admin user")); // space
    assert!(!is_valid_role_name(&"a".repeat(51))); // too long
}

#[test]
fn new_roles_are_normalized() {
    assert_eq!(check_new_role("  Admin ", false), Ok("admin".to_string()));
    assert_eq!(check_new_role("admin", true), Err(AppError::InvalidInput("Role already exists".to_string())));
    assert_eq!(
        check_new_role("9lives", false),
        Err(AppError::InvalidInput(
            "Role name must be lowercase alphanumeric with hyphens, start with a letter, max 50 chars".to_string()
        ))
    );
    assert_eq!(check_role_exists(false), Err(AppError::NotFound));
    let roles = vec!["admin".to_string(), "ghost".to_string(), "other".to_string()];
    assert_eq!(
        check_assignable_roles(&roles, &vec![true, false, false]),
        Err(AppError::InvalidInput("Role 'ghost' does not exist".to_string()))
    );
    assert!(check_assignable_roles(&roles, &vec![true, true, true]).is_ok());
}

// ---------------------------------------------------------------------------
// Webhooks
// ---------------------------------------------------------------------------

#[test]
fn backoff_delay_increases_exponentially() {
    let d1 = calculate_backoff_delay(0);
    let d2 = calculate_backoff_delay(1);
    let d3 = calculate_backoff_delay(2);

    assert!(d1 >= 300 && d1 < 360);
    assert!(d2 >= 1200 && d2 < 1260);
    assert!(d3 >= 4800 && d3 < 4860);
}

#[test]
fn backoff_delay_is_capped() {
    let d = calculate_backoff_delay(10);
    assert!(d <= 20_060);
}

#[test]
fn backoff_base_values() {
    assert_eq!(backoff_base_delay(3), 19_200);
    assert_eq!(backoff_base_delay(4), 20_000);
    assert_eq!(backoff_base_delay(-1), 20_000);
    assert_eq!(backoff_base_delay(i32::MAX), 20_000);
}

fn domain() -> DomainProfile {
    DomainProfile {
        id: 7,
        owner_end_user_id: Some(1),
        domain: "example.com".to_string(),
        status: DomainStatus::Verified,
        active_payment_mode: PaymentMode::Test,
        verification_started_at: None,
        verified_at: None,
        created_at: None,
        updated_at: None,
    }
}

#[test]
fn endpoint_urls_must_be_https_under_the_domain() {
    assert_eq!(check_webhook_url_form("nope"), Err(AppError::InvalidInput("invalid URL format".to_string())));
    assert_eq!(
        check_webhook_url_form("http://hooks.example.com/x"),
        Err(AppError::InvalidInput("webhook URL must use HTTPS".to_string()))
    );
    assert_eq!(check_webhook_url_form("https://hooks.example.com/x"), Ok("hooks.example.com".to_string()));
    assert!(check_host_under_domain("hooks.example.com", &Some(domain())).is_ok());
    assert!(check_host_under_domain("example.com", &Some(domain())).is_ok());
    assert_eq!(
        check_host_under_domain("evilexample.com", &Some(domain())),
        Err(AppError::InvalidInput("webhook URL must be under your verified domain (example.com)".to_string()))
    );
    assert_eq!(check_host_under_domain("example.com", &None), Err(AppError::NotFound));
    assert_eq!(
        check_endpoint_quota(10),
        Err(AppError::InvalidInput("Maximum of 10 webhook endpoints per domain".to_string()))
    );
    assert!(check_endpoint_quota(9).is_ok());
    assert_eq!(check_in_domain(None, 1), Err(AppError::NotFound));
    assert_eq!(check_in_domain(Some(2), 1), Err(AppError::Forbidden));
    assert_eq!(check_in_domain(Some(1), 1), Ok(()));
}

#[test]
fn event_type_lists() {
    assert_eq!(validate_event_types(None), Ok(vec!["*".to_string()]));
    assert_eq!(
        validate_event_types(Some(vec![])),
        Err(AppError::InvalidInput("at least one event type is required".to_string()))
    );
    assert_eq!(
        validate_event_types(Some(vec!["user.login".to_string(), "*".to_string()])),
        Ok(vec!["*".to_string()])
    );
    assert_eq!(
        validate_event_types(Some(vec!["user.login".to_string(), "user.nope".to_string(), "x".to_string()])),
        Err(AppError::InvalidInput("unknown event type: user.nope".to_string()))
    );
    let ok = vec!["user.login".to_string(), "payment.failed".to_string()];
    assert_eq!(validate_event_types(Some(ok.clone())), Ok(ok));
}

#[test]
fn secrets_and_envelopes() {
    let s = generate_secret();
    assert!(s.starts_with("whsec_"));
    assert_eq!(s.len(), 49);
    let h = envelope_header(1, WebhookEventType::UserLogin, 2);
    assert_eq!(h.id, "evt_00000000-0000-0000-0000-000000000001");
    assert_eq!(h.event_type, "user.login");
    assert_eq!(h.api_version, "2026-01-29");
    assert_eq!(h.domain_id, "00000000-0000-0000-0000-000000000002");
}

#[test]
fn failed_deliveries_are_retried_or_abandoned() {
    let long = "x".repeat(2000);
    match plan_delivery_failure(1, false, Some(&long), 1_000_000_000_000) {
        DeliveryFailureStep::Retry { next_attempt_at, response_body } => {
            assert!(next_attempt_at >= 1_000_000_000_000 + 1200 * 1_000_000_000);
            assert!(next_attempt_at < 1_000_000_000_000 + 1260 * 1_000_000_000);
            assert_eq!(response_body.unwrap().len(), 1024);
        }
        _ => panic!("expected a retry"),
    }
    assert!(matches!(plan_delivery_failure(5, false, None, 0), DeliveryFailureStep::Abandon { response_body: None }));
    assert!(matches!(plan_delivery_failure(1, true, Some("ok"), 0), DeliveryFailureStep::Abandon { .. }));
    assert_eq!(truncate_response_body("short"), "short");
}

// ---------------------------------------------------------------------------
// API keys
// ---------------------------------------------------------------------------

#[test]
fn api_keys_are_made_hashed_and_named() {
    let k = create_api_key("  ");
    assert!(k.raw_key.starts_with("sk_live_"));
    assert_eq!(k.raw_key.len(), 40);
    assert_eq!(k.key_prefix, &k.raw_key[..16]);
    assert_eq!(k.key_hash, hash_api_key(&k.raw_key));
    assert_eq!(k.name, "Default");
    assert_eq!(normalize_api_key_name("  ci key "), "ci key");
    assert_eq!(hash_api_key("abc"), "ba7816bf8f01cfea414140de5dae2223b00361a396177a9cb410ff61f20015ad");
}

#[test]
fn api_key_checks() {
    let keys = vec![ApiKeyProfile {
        id: 3,
        domain_id: 7,
        key_prefix: "sk_live_abcdefgh".to_string(),
        name: "k".to_string(),
        last_used_at: None,
        revoked_at: None,
        created_at: None,
    }];
    assert!(check_key_in_domain(&keys, 3).is_ok());
    assert_eq!(check_key_in_domain(&keys, 4), Err(AppError::NotFound));
    let found = ApiKeyWithDomain { id: 3, domain_id: 7, domain_name: "example.com".to_string(), revoked_at: None };
    assert_eq!(validated_key(Some(found.clone())), Some((7, "example.com".to_string(), 3)));
    let mut revoked = found;
    revoked.revoked_at = Some(1);
    assert_eq!(validated_key(Some(revoked)), None);
    assert_eq!(validated_key(None), None);
}

// ---------------------------------------------------------------------------
// Token claims
// ---------------------------------------------------------------------------

#[test]
fn token_claims() {
    let c = user_claims(1, 1000, 3600);
    assert_eq!(c.sub, "00000000-0000-0000-0000-000000000001");
    assert_eq!(c.exp, 4600);
    let d = domain_end_user_claims(1, 2, "login.example.co.uk", vec!["admin".to_string()], SubscriptionClaims::none(), 10, 5);
    assert_eq!(d.domain, "example.co.uk");
    assert_eq!(d.domain_id, "00000000-0000-0000-0000-000000000002");
    assert_eq!(d.subscription.status, "none");
    assert_eq!(d.iat, 10);
    assert_eq!(d.exp, 15);
}

fn raw_key(id: u128) -> ApiKeyWithRaw {
    ApiKeyWithRaw { id, domain_id: 7, raw_key: "sk_live_x".to_string() }
}

#[test]
fn keys_are_tried_named_key_first() {
    assert_eq!(key_try_order(&vec![], None), Err(AppError::InvalidCredentials));
    let keys = vec![raw_key(1), raw_key(2), raw_key(3)];
    assert_eq!(key_try_order(&keys, None), Ok(vec![0, 1, 2]));
    assert_eq!(key_try_order(&keys, Some("00000000-0000-0000-0000-000000000003")), Ok(vec![2, 0, 1, 2]));
    assert_eq!(key_try_order(&keys, Some("not-a-uuid")), Ok(vec![0, 1, 2]));
    assert_eq!(key_try_order(&keys, Some("00000000-0000-0000-0000-000000000009")), Ok(vec![0, 1, 2]));
}
