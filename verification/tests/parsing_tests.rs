use reauth_api::domain_parsing::{extract_root_from_reauth_hostname, get_root_domain, is_root_domain};
use reauth_api::domains::{
    check_domain_deletable, dns_check_passed, domain_allowed, get_dns_records, normalize_new_domain,
    owned_domain, DomainProfile,
};
use reauth_api::entities::domain::DomainStatus;
use reauth_api::entities::payment_mode::PaymentMode;
use reauth_api::app_error::AppError;
use reauth_api::validators::{is_valid_email, is_valid_plan_code};

// ---------------------------------------------------------------------------
// Domain parsing
// ---------------------------------------------------------------------------

#[test]
fn test_is_root_domain() {
    // Standard TLDs
    assert!(is_root_domain("example.com"));
    assert!(is_root_domain("reauth.dev"));
    assert!(!is_root_domain("sub.example.com"));
    assert!(!is_root_domain("deep.sub.example.com"));

    // Multi-part TLDs
    assert!(is_root_domain("example.co.uk"));
    assert!(!is_root_domain("sub.example.co.uk"));
    assert!(is_root_domain("example.com.au"));
}

#[test]
fn test_get_root_domain() {
    // Standard TLDs
    assert_eq!(get_root_domain("login.example.com"), "example.com");
    assert_eq!(get_root_domain("app.staging.example.com"), "example.com");
    assert_eq!(get_root_domain("example.com"), "example.com");

    // Multi-part TLDs
    assert_eq!(get_root_domain("login.example.co.uk"), "example.co.uk");
    assert_eq!(get_root_domain("app.example.co.uk"), "example.co.uk");
    assert_eq!(get_root_domain("example.co.uk"), "example.co.uk");
}

#[test]
fn test_extract_root_from_reauth_hostname() {
    // Normal subdomain extraction
    assert_eq!(extract_root_from_reauth_hostname("reauth.example.com"), "example.com");
    assert_eq!(extract_root_from_reauth_hostname("reauth.foo.co.uk"), "foo.co.uk");

    // Special case: reauth.dev is the actual domain
    assert_eq!(extract_root_from_reauth_hostname("reauth.dev"), "reauth.dev");

    // Non-reauth hostnames pass through
    assert_eq!(extract_root_from_reauth_hostname("example.com"), "example.com");
}

#[test]
fn root_domain_edge_cases() {
    assert!(!is_root_domain("localhost"));
    assert!(!is_root_domain(""));
    assert!(is_root_domain("EXAMPLE.CO.ZA"));
    assert_eq!(get_root_domain("localhost"), "localhost");
    assert_eq!(get_root_domain("a.b.example.co.za"), "example.co.za");
    assert_eq!(get_root_domain("co.uk"), "co.uk");
}

// ---------------------------------------------------------------------------
// Validators
// ---------------------------------------------------------------------------

#[test]
fn test_valid_emails() {
    assert!(is_valid_email("test@example.com"));
    assert!(is_valid_email("user.name@domain.co.uk"));
    assert!(is_valid_email("user+tag@example.org"));
}

#[test]
fn test_invalid_emails() {
    assert!(!is_valid_email(""));
    assert!(!is_valid_email("   "));
    assert!(!is_valid_email("notanemail"));
    assert!(!is_valid_email("@nodomain.com"));
    assert!(!is_valid_email("spaces in@email.com"));
}

#[test]
fn email_is_trimmed_before_validation() {
    assert!(is_valid_email("  test@example.com  "));
}

#[test]
fn test_valid_plan_codes() {
    assert!(is_valid_plan_code("basic"));
    assert!(is_valid_plan_code("pro-plan"));
    assert!(is_valid_plan_code("tier_1"));
    assert!(is_valid_plan_code("plan-with-dashes"));
    assert!(is_valid_plan_code("plan_with_underscores"));
    assert!(is_valid_plan_code("plan123"));
    assert!(is_valid_plan_code("123plan"));
    assert!(is_valid_plan_code("a")); // minimum length
    assert!(is_valid_plan_code(&"a".repeat(50))); // maximum length
}

#[test]
fn test_invalid_plan_codes_empty_and_too_long() {
    assert!(!is_valid_plan_code(""));
    assert!(!is_valid_plan_code(&"a".repeat(51)));
}

#[test]
fn test_invalid_plan_codes_whitespace() {
    assert!(!is_valid_plan_code(" basic"));
    assert!(!is_valid_plan_code("basic "));
    assert!(!is_valid_plan_code("basic plan"));
    assert!(!is_valid_plan_code("\tbasic"));
    assert!(!is_valid_plan_code("basic\n"));
}

#[test]
fn test_invalid_plan_codes_leading_separator() {
    assert!(!is_valid_plan_code("-basic"));
    assert!(!is_valid_plan_code("_basic"));
}

#[test]
fn test_invalid_plan_codes_special_characters() {
    assert!(!is_valid_plan_code("plan@code"));
    assert!(!is_valid_plan_code("plan.code"));
    assert!(!is_valid_plan_code("plan/code"));
    assert!(!is_valid_plan_code("plan!"));
    assert!(!is_valid_plan_code("plan$"));
    assert!(!is_valid_plan_code("plan#tag"));
    assert!(!is_valid_plan_code("plan%off"));
}

#[test]
fn test_invalid_plan_codes_uppercase() {
    // Validator expects lowercase (caller should normalize first)
    assert!(!is_valid_plan_code("BASIC"));
    assert!(!is_valid_plan_code("Basic"));
    assert!(!is_valid_plan_code("bAsIc"));
}

#[test]
fn test_invalid_plan_codes_unicode() {
    assert!(!is_valid_plan_code("plän"));
    assert!(!is_valid_plan_code("план")); // Cyrillic
    assert!(!is_valid_plan_code("计划")); // Chinese
    assert!(!is_valid_plan_code("プラン")); // Japanese
}

// ---------------------------------------------------------------------------
// Domains
// ---------------------------------------------------------------------------

fn domain(owner: Option<u128>, status: DomainStatus) -> DomainProfile {
    DomainProfile {
        id: 7,
        owner_end_user_id: owner,
        domain: "example.com".to_string(),
        status,
        active_payment_mode: PaymentMode::Test,
        verification_started_at: None,
        verified_at: None,
        created_at: None,
        updated_at: None,
    }
}

#[test]
fn new_domains_are_lowercased_trimmed_and_must_be_root() {
    assert_eq!(normalize_new_domain("  Example.COM "), Ok("example.com".to_string()));
    assert_eq!(normalize_new_domain("shop.example.co.uk"), Err(AppError::InvalidInput(
        "Please enter your root domain (e.g., example.com), not a subdomain".to_string()
    )));
    // co.za is not among the multi-part TLDs recognised when a domain is added
    assert!(normalize_new_domain("example.co.za").is_err());
    assert!(normalize_new_domain("example.co.uk").is_ok());
}

#[test]
fn domain_ownership_and_deletion() {
    assert_eq!(owned_domain(None, 1).unwrap_err(), AppError::NotFound);
    assert_eq!(owned_domain(Some(domain(Some(2), DomainStatus::Verified)), 1).unwrap_err(), AppError::InvalidCredentials);
    assert_eq!(owned_domain(Some(domain(Some(1), DomainStatus::Verified)), 1).unwrap().id, 7);
    assert!(check_domain_deletable(&domain(Some(1), DomainStatus::Verified)).is_ok());
    assert_eq!(
        check_domain_deletable(&domain(None, DomainStatus::Verified)),
        Err(AppError::InvalidInput("System domains cannot be deleted".to_string()))
    );
}

#[test]
fn dns_records_and_checks() {
    let r = get_dns_records("ingress.reauth.dev", "example.com", 0x0123456789abcdef0123456789abcdef);
    assert_eq!(r.cname_name, "reauth.example.com");
    assert_eq!(r.cname_value, "ingress.reauth.dev");
    assert_eq!(r.txt_name, "_reauth.example.com");
    assert_eq!(r.txt_value, "project=01234567-89ab-cdef-0123-456789abcdef");
    assert!(dns_check_passed(Some(true), Some(true)));
    assert!(!dns_check_passed(None, Some(true)));
    assert!(!dns_check_passed(Some(true), Some(false)));
    assert!(domain_allowed(Some(domain(Some(1), DomainStatus::Verified))));
    assert!(!domain_allowed(Some(domain(Some(1), DomainStatus::Verifying))));
    assert!(!domain_allowed(None));
}

#[test]
fn domain_status_names() {
    assert_eq!(DomainStatus::from_str("verified"), DomainStatus::Verified);
    assert_eq!(DomainStatus::from_str("whatever"), DomainStatus::PendingDns);
    assert_eq!(DomainStatus::PendingDns.as_str(), "pending_dns");
}
