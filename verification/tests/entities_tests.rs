use reauth_api::app_error::ErrorCode;
use reauth_api::entities::billing_state::BillingState;
use reauth_api::entities::subscription_plan::BillingInterval;
use reauth_api::entities::user_subscription::SubscriptionStatus;
use reauth_api::entities::payment_mode::PaymentMode;
use reauth_api::entities::payment_provider::{PaymentProvider, ProviderConfig};
use reauth_api::entities::payment_scenario::PaymentScenario;
use reauth_api::entities::payment_status::PaymentStatus;
use reauth_api::entities::stripe_mode::StripeMode;
use reauth_api::entities::webhook::WebhookEventType;

// ---------------------------------------------------------------------------
// BillingState
// ---------------------------------------------------------------------------

#[test]
fn test_state_properties() {
    assert!(BillingState::Active.is_healthy());
    assert!(!BillingState::Active.is_transitional());
    assert!(!BillingState::Active.needs_attention());

    assert!(!BillingState::PendingSwitch.is_healthy());
    assert!(BillingState::PendingSwitch.is_transitional());

    assert!(BillingState::SwitchFailed.needs_attention());
}

#[test]
fn test_valid_transitions() {
    // From Active, can only go to PendingSwitch
    assert!(BillingState::Active.can_transition_to(BillingState::PendingSwitch));
    assert!(!BillingState::Active.can_transition_to(BillingState::SwitchFailed));

    // From PendingSwitch, can go to Active or SwitchFailed
    assert!(BillingState::PendingSwitch.can_transition_to(BillingState::Active));
    assert!(BillingState::PendingSwitch.can_transition_to(BillingState::SwitchFailed));

    // From SwitchFailed, can retry (PendingSwitch) or recover (Active)
    assert!(BillingState::SwitchFailed.can_transition_to(BillingState::Active));
    assert!(BillingState::SwitchFailed.can_transition_to(BillingState::PendingSwitch));
}

#[test]
fn billing_state_test_from_str() {
    assert_eq!("active".parse::<BillingState>().unwrap(), BillingState::Active);
    assert_eq!("pending_switch".parse::<BillingState>().unwrap(), BillingState::PendingSwitch);
    assert_eq!("switch_failed".parse::<BillingState>().unwrap(), BillingState::SwitchFailed);
    assert!("invalid".parse::<BillingState>().is_err());
}

#[test]
fn billing_state_test_as_str_all_variants() {
    assert_eq!(BillingState::Active.as_str(), "active");
    assert_eq!(BillingState::PendingSwitch.as_str(), "pending_switch");
    assert_eq!(BillingState::SwitchFailed.as_str(), "switch_failed");
}

#[test]
fn billing_state_test_display_matches_as_str() {
    for variant in [BillingState::Active, BillingState::PendingSwitch, BillingState::SwitchFailed] {
        assert_eq!(variant.to_string(), variant.as_str());
    }
}

#[test]
fn billing_state_test_from_str_case_insensitive() {
    assert_eq!("ACTIVE".parse::<BillingState>().unwrap(), BillingState::Active);
    assert_eq!("Active".parse::<BillingState>().unwrap(), BillingState::Active);
    assert_eq!("PENDING_SWITCH".parse::<BillingState>().unwrap(), BillingState::PendingSwitch);
    assert_eq!("SWITCH_FAILED".parse::<BillingState>().unwrap(), BillingState::SwitchFailed);
}

#[test]
fn billing_state_switch_is_reachable_from_every_state() {
    for s in [BillingState::Active, BillingState::PendingSwitch, BillingState::SwitchFailed] {
        assert!(!s.can_transition_to(s));
    }
    assert_eq!(BillingState::Active.valid_transitions(), &[BillingState::PendingSwitch]);
}

// ---------------------------------------------------------------------------
// PaymentMode
// ---------------------------------------------------------------------------

#[test]
fn test_from_stripe_key_prefix() {
    assert_eq!(PaymentMode::from_stripe_key_prefix("sk_test_abc123"), PaymentMode::Test);
    assert_eq!(PaymentMode::from_stripe_key_prefix("pk_test_abc123"), PaymentMode::Test);
    assert_eq!(PaymentMode::from_stripe_key_prefix("sk_live_abc123"), PaymentMode::Live);
    assert_eq!(PaymentMode::from_stripe_key_prefix("pk_live_abc123"), PaymentMode::Live);
    // Restricted keys follow live/test prefixes
    assert_eq!(PaymentMode::from_stripe_key_prefix("rk_test_abc123"), PaymentMode::Test);
    assert_eq!(PaymentMode::from_stripe_key_prefix("rk_live_abc123"), PaymentMode::Live);
}

#[test]
fn test_validate_stripe_key_prefix() {
    let test_mode = PaymentMode::Test;
    let live_mode = PaymentMode::Live;

    assert!(test_mode.validate_stripe_key_prefix("sk_test_abc", "secret_key").is_ok());
    assert!(test_mode.validate_stripe_key_prefix("sk_live_abc", "secret_key").is_err());
    assert!(test_mode.validate_stripe_key_prefix("rk_test_abc", "secret_key").is_ok());
    assert!(test_mode.validate_stripe_key_prefix("rk_live_abc", "secret_key").is_err());
    assert!(live_mode.validate_stripe_key_prefix("sk_live_abc", "secret_key").is_ok());
    assert!(live_mode.validate_stripe_key_prefix("sk_test_abc", "secret_key").is_err());
    assert!(live_mode.validate_stripe_key_prefix("rk_live_abc", "secret_key").is_ok());
}

#[test]
fn payment_mode_key_mismatch_message() {
    assert_eq!(
        PaymentMode::Test.validate_stripe_key_prefix("sk_live_abc", "Secret key"),
        Err("Secret key has live prefix but test mode was expected".to_string())
    );
}

#[test]
fn payment_mode_test_from_str() {
    assert_eq!("test".parse::<PaymentMode>().unwrap(), PaymentMode::Test);
    assert_eq!("live".parse::<PaymentMode>().unwrap(), PaymentMode::Live);
    assert!("sandbox".parse::<PaymentMode>().is_err());
    assert!("production".parse::<PaymentMode>().is_err());
    assert!("invalid".parse::<PaymentMode>().is_err());
}

#[test]
fn test_is_production() {
    assert!(!PaymentMode::Test.is_production());
    assert!(PaymentMode::Live.is_production());
    assert!(PaymentMode::Test.is_test());
    assert!(!PaymentMode::Live.is_test());
}

#[test]
fn payment_mode_test_as_str_all_variants() {
    assert_eq!(PaymentMode::Test.as_str(), "test");
    assert_eq!(PaymentMode::Live.as_str(), "live");
}

#[test]
fn payment_mode_test_display_matches_as_str() {
    for variant in [PaymentMode::Test, PaymentMode::Live] {
        assert_eq!(variant.to_string(), variant.as_str());
    }
}

#[test]
fn payment_mode_test_from_str_case_insensitive() {
    assert_eq!("TEST".parse::<PaymentMode>().unwrap(), PaymentMode::Test);
    assert_eq!("Test".parse::<PaymentMode>().unwrap(), PaymentMode::Test);
    assert_eq!("LIVE".parse::<PaymentMode>().unwrap(), PaymentMode::Live);
    assert_eq!("Live".parse::<PaymentMode>().unwrap(), PaymentMode::Live);
}

#[test]
fn payment_mode_default_is_test() {
    assert_eq!(PaymentMode::default(), PaymentMode::Test);
}

// ---------------------------------------------------------------------------
// PaymentProvider
// ---------------------------------------------------------------------------

#[test]
fn test_provider_modes() {
    assert!(PaymentProvider::Stripe.supports_mode(PaymentMode::Test));
    assert!(PaymentProvider::Stripe.supports_mode(PaymentMode::Live));
    assert!(PaymentProvider::Dummy.supports_mode(PaymentMode::Test));
    assert!(!PaymentProvider::Dummy.supports_mode(PaymentMode::Live));
    assert!(PaymentProvider::Coinbase.supports_mode(PaymentMode::Test));
    assert!(PaymentProvider::Coinbase.supports_mode(PaymentMode::Live));
}

#[test]
fn test_provider_config_new() {
    assert!(ProviderConfig::new(PaymentProvider::Stripe, PaymentMode::Test).is_ok());
    assert!(ProviderConfig::new(PaymentProvider::Stripe, PaymentMode::Live).is_ok());
    assert!(ProviderConfig::new(PaymentProvider::Dummy, PaymentMode::Test).is_ok());
    assert!(ProviderConfig::new(PaymentProvider::Dummy, PaymentMode::Live).is_err());
}

#[test]
fn test_provider_config_display() {
    assert_eq!(ProviderConfig::stripe_test().display_name(), "Stripe (Test)");
    assert_eq!(ProviderConfig::stripe_live().display_name(), "Stripe");
    assert_eq!(ProviderConfig::dummy().display_name(), "Test Provider (Test)");
}

#[test]
fn payment_provider_test_from_str() {
    assert_eq!("stripe".parse::<PaymentProvider>().unwrap(), PaymentProvider::Stripe);
    assert_eq!("dummy".parse::<PaymentProvider>().unwrap(), PaymentProvider::Dummy);
    assert!("test".parse::<PaymentProvider>().is_err());
    assert!("invalid".parse::<PaymentProvider>().is_err());
}

#[test]
fn provider_default_modes_are_supported() {
    for p in [PaymentProvider::Stripe, PaymentProvider::Dummy, PaymentProvider::Coinbase] {
        assert!(p.supports_mode(p.default_mode()));
    }
}

// ---------------------------------------------------------------------------
// PaymentScenario
// ---------------------------------------------------------------------------

#[test]
fn test_from_card_number() {
    assert_eq!(PaymentScenario::from_card_number("4242424242424242"), PaymentScenario::Success);
    assert_eq!(PaymentScenario::from_card_number("4242 4242 4242 4242"), PaymentScenario::Success);
    assert_eq!(PaymentScenario::from_card_number("4000000000000002"), PaymentScenario::Decline);
    assert_eq!(PaymentScenario::from_card_number("4000000000003220"), PaymentScenario::ThreeDSecure);
}

#[test]
fn test_scenario_properties() {
    assert!(PaymentScenario::Success.is_success());
    assert!(!PaymentScenario::Success.is_failure());
    assert!(!PaymentScenario::Success.requires_confirmation());

    assert!(!PaymentScenario::Decline.is_success());
    assert!(PaymentScenario::Decline.is_failure());

    assert!(PaymentScenario::ThreeDSecure.requires_confirmation());
    assert!(!PaymentScenario::ThreeDSecure.is_failure());
}

#[test]
fn test_error_messages() {
    assert!(PaymentScenario::Success.error_message().is_none());
    assert!(PaymentScenario::Decline.error_message().is_some());
    assert!(PaymentScenario::InsufficientFunds.error_message().is_some());
}

#[test]
fn payment_scenario_test_from_str() {
    assert_eq!("success".parse::<PaymentScenario>().unwrap(), PaymentScenario::Success);
    assert_eq!("decline".parse::<PaymentScenario>().unwrap(), PaymentScenario::Decline);
    assert_eq!("three_d_secure".parse::<PaymentScenario>().unwrap(), PaymentScenario::ThreeDSecure);
    assert!("3ds".parse::<PaymentScenario>().is_err());
    assert!("invalid".parse::<PaymentScenario>().is_err());
}

#[test]
fn payment_scenario_test_as_ref_all_variants() {
    assert_eq!(PaymentScenario::Success.as_ref(), "success");
    assert_eq!(PaymentScenario::Decline.as_ref(), "decline");
    assert_eq!(PaymentScenario::InsufficientFunds.as_ref(), "insufficient_funds");
    assert_eq!(PaymentScenario::ThreeDSecure.as_ref(), "three_d_secure");
    assert_eq!(PaymentScenario::ExpiredCard.as_ref(), "expired_card");
    assert_eq!(PaymentScenario::ProcessingError.as_ref(), "processing_error");
}

#[test]
fn test_display_matches_as_ref() {
    for variant in PaymentScenario::all() {
        assert_eq!(variant.to_string(), variant.as_ref());
    }
}

#[test]
fn payment_scenario_test_from_str_case_insensitive() {
    assert_eq!("SUCCESS".parse::<PaymentScenario>().unwrap(), PaymentScenario::Success);
    assert_eq!("Decline".parse::<PaymentScenario>().unwrap(), PaymentScenario::Decline);
    assert_eq!("THREE_D_SECURE".parse::<PaymentScenario>().unwrap(), PaymentScenario::ThreeDSecure);
}

#[test]
fn every_test_card_selects_its_scenario() {
    for sc in PaymentScenario::all() {
        assert_eq!(PaymentScenario::from_card_number(sc.test_card_number()), *sc);
    }
}

#[test]
fn card_prefixes_pick_default_scenarios() {
    assert_eq!(PaymentScenario::from_card_number("4242-0000-1111-2222"), PaymentScenario::Success);
    assert_eq!(PaymentScenario::from_card_number("4000 1234 5678 9999"), PaymentScenario::Decline);
    assert_eq!(PaymentScenario::from_card_number("5555555555554444"), PaymentScenario::Success);
    assert_eq!(
        PaymentScenario::ProcessingError.error_message(),
        Some("An error occurred while processing your card.")
    );
}

// ---------------------------------------------------------------------------
// PaymentStatus
// ---------------------------------------------------------------------------

#[test]
fn test_from_stripe_invoice_status() {
    assert_eq!(PaymentStatus::from_stripe_invoice_status("paid"), PaymentStatus::Paid);
    assert_eq!(PaymentStatus::from_stripe_invoice_status("open"), PaymentStatus::Pending);
    assert_eq!(PaymentStatus::from_stripe_invoice_status("draft"), PaymentStatus::Pending);
    assert_eq!(PaymentStatus::from_stripe_invoice_status("void"), PaymentStatus::Void);
    assert_eq!(PaymentStatus::from_stripe_invoice_status("uncollectible"), PaymentStatus::Uncollectible);
    assert_eq!(PaymentStatus::from_stripe_invoice_status("unknown"), PaymentStatus::Pending);
}

#[test]
fn test_status_checks() {
    assert!(PaymentStatus::Paid.is_successful());
    assert!(!PaymentStatus::Failed.is_successful());

    assert!(PaymentStatus::Failed.is_failed());
    assert!(PaymentStatus::Void.is_failed());
    assert!(!PaymentStatus::Paid.is_failed());

    assert!(PaymentStatus::Refunded.is_refunded());
    assert!(PaymentStatus::PartialRefund.is_refunded());
    assert!(!PaymentStatus::Paid.is_refunded());
}

#[test]
fn test_is_terminal() {
    // Terminal states - should not be overwritten
    assert!(PaymentStatus::Paid.is_terminal());
    assert!(PaymentStatus::Refunded.is_terminal());
    assert!(PaymentStatus::PartialRefund.is_terminal());
    assert!(PaymentStatus::Void.is_terminal());

    // Non-terminal states - can still transition
    assert!(!PaymentStatus::Pending.is_terminal());
    assert!(!PaymentStatus::Failed.is_terminal());
    assert!(!PaymentStatus::Uncollectible.is_terminal());
}

#[test]
fn payment_status_test_as_str_all_variants() {
    assert_eq!(PaymentStatus::Pending.as_str(), "pending");
    assert_eq!(PaymentStatus::Paid.as_str(), "paid");
    assert_eq!(PaymentStatus::Failed.as_str(), "failed");
    assert_eq!(PaymentStatus::Refunded.as_str(), "refunded");
    assert_eq!(PaymentStatus::PartialRefund.as_str(), "partial_refund");
    assert_eq!(PaymentStatus::Uncollectible.as_str(), "uncollectible");
    assert_eq!(PaymentStatus::Void.as_str(), "void");
}

#[test]
fn payment_status_test_display_matches_as_str() {
    for variant in [
        PaymentStatus::Pending,
        PaymentStatus::Paid,
        PaymentStatus::Failed,
        PaymentStatus::Refunded,
        PaymentStatus::PartialRefund,
        PaymentStatus::Uncollectible,
        PaymentStatus::Void,
    ] {
        assert_eq!(variant.to_string(), variant.as_str());
    }
}

#[test]
fn payment_status_test_from_str() {
    assert_eq!("pending".parse::<PaymentStatus>().unwrap(), PaymentStatus::Pending);
    assert_eq!("paid".parse::<PaymentStatus>().unwrap(), PaymentStatus::Paid);
    assert_eq!("failed".parse::<PaymentStatus>().unwrap(), PaymentStatus::Failed);
    assert_eq!("refunded".parse::<PaymentStatus>().unwrap(), PaymentStatus::Refunded);
    assert_eq!("partial_refund".parse::<PaymentStatus>().unwrap(), PaymentStatus::PartialRefund);
    assert_eq!("uncollectible".parse::<PaymentStatus>().unwrap(), PaymentStatus::Uncollectible);
    assert_eq!("void".parse::<PaymentStatus>().unwrap(), PaymentStatus::Void);
    assert!("invalid".parse::<PaymentStatus>().is_err());
}

#[test]
fn payment_status_test_from_str_case_insensitive() {
    assert_eq!("PENDING".parse::<PaymentStatus>().unwrap(), PaymentStatus::Pending);
    assert_eq!("Paid".parse::<PaymentStatus>().unwrap(), PaymentStatus::Paid);
    assert_eq!("PARTIAL_REFUND".parse::<PaymentStatus>().unwrap(), PaymentStatus::PartialRefund);
}

// ---------------------------------------------------------------------------
// StripeMode
// ---------------------------------------------------------------------------

#[test]
fn test_from_key_prefix() {
    assert_eq!(StripeMode::from_key_prefix("sk_test_abc123"), StripeMode::Test);
    assert_eq!(StripeMode::from_key_prefix("pk_test_abc123"), StripeMode::Test);
    assert_eq!(StripeMode::from_key_prefix("sk_live_abc123"), StripeMode::Live);
    assert_eq!(StripeMode::from_key_prefix("pk_live_abc123"), StripeMode::Live);
    // Restricted keys follow live/test prefixes
    assert_eq!(StripeMode::from_key_prefix("rk_test_abc123"), StripeMode::Test);
    assert_eq!(StripeMode::from_key_prefix("rk_live_abc123"), StripeMode::Live);
}

#[test]
fn test_validate_key_prefix() {
    let test_mode = StripeMode::Test;
    let live_mode = StripeMode::Live;

    assert!(test_mode.validate_key_prefix("sk_test_abc", "secret_key").is_ok());
    assert!(test_mode.validate_key_prefix("sk_live_abc", "secret_key").is_err());
    assert!(test_mode.validate_key_prefix("rk_test_abc", "secret_key").is_ok());
    assert!(test_mode.validate_key_prefix("rk_live_abc", "secret_key").is_err());
    assert!(live_mode.validate_key_prefix("sk_live_abc", "secret_key").is_ok());
    assert!(live_mode.validate_key_prefix("sk_test_abc", "secret_key").is_err());
    assert!(live_mode.validate_key_prefix("rk_live_abc", "secret_key").is_ok());
}

#[test]
fn test_stripe_mode_from_payment_mode() {
    assert_eq!(StripeMode::from(PaymentMode::Test), StripeMode::Test);
    assert_eq!(StripeMode::from(PaymentMode::Live), StripeMode::Live);
}

// ---------------------------------------------------------------------------
// WebhookEventType
// ---------------------------------------------------------------------------

#[test]
fn as_str_roundtrips_through_from_str() {
    for event_type in WebhookEventType::all_types() {
        let s = event_type.as_str();
        let parsed: WebhookEventType = s.parse().unwrap();
        assert_eq!(*event_type, parsed);
    }
}

#[test]
fn display_matches_as_str() {
    for event_type in WebhookEventType::all_types() {
        assert_eq!(event_type.to_string(), event_type.as_str());
    }
}

#[test]
fn from_str_rejects_unknown() {
    assert!("unknown.event".parse::<WebhookEventType>().is_err());
}

#[test]
fn all_types_is_exhaustive() {
    assert_eq!(WebhookEventType::all_types().len(), 15);
}

#[test]
fn all_type_strings_matches_all_types() {
    let strings = WebhookEventType::all_type_strings();
    let types = WebhookEventType::all_types();
    assert_eq!(strings.len(), types.len());
    for (s, t) in strings.iter().zip(types.iter()) {
        assert_eq!(*s, t.as_str());
    }
}

#[test]
fn unknown_event_type_message() {
    assert_eq!(
        "user.nope".parse::<WebhookEventType>(),
        Err("unknown webhook event type: user.nope".to_string())
    );
}

#[test]
fn error_codes_are_distinct_capitalised_names() {
    let codes = [
        ErrorCode::DatabaseError, ErrorCode::InvalidCredentials, ErrorCode::InvalidApiKey, ErrorCode::RateLimited,
        ErrorCode::InvalidInput, ErrorCode::OAuthRetryExpired, ErrorCode::ValidationError,
        ErrorCode::AccountSuspended, ErrorCode::TooManyDocuments, ErrorCode::TooManyApiKeys,
        ErrorCode::NoApiKeyConfigured, ErrorCode::NotFound, ErrorCode::Forbidden, ErrorCode::SessionMismatch,
        ErrorCode::PaymentDeclined, ErrorCode::ProviderNotConfigured, ErrorCode::ProviderNotSupported,
        ErrorCode::InternalError,
    ];
    for (i, a) in codes.iter().enumerate() {
        let name = a.as_str();
        assert!(!name.is_empty());
        assert!(name.chars().all(|c| c.is_ascii_uppercase() || c == '_'));
        for b in &codes[i + 1..] {
            assert_ne!(name, b.as_str());
        }
    }
    assert_eq!(ErrorCode::OAuthRetryExpired.as_str(), "OAUTH_RETRY_EXPIRED");
}

#[test]
fn card_separators_are_ignored() {
    for sc in PaymentScenario::all() {
        assert_eq!(PaymentScenario::from_card_number(sc.test_card_number()), *sc);
    }
    assert_eq!(PaymentScenario::from_card_number("4000-0000 0000-0002"), PaymentScenario::Decline);
    assert_eq!(
        PaymentScenario::from_card_number("4242 4242 4242 4242"),
        PaymentScenario::from_card_number("4242424242424242")
    );
    assert_eq!(PaymentScenario::from_card_number("4000 1234"), PaymentScenario::Decline);
    assert_eq!(PaymentScenario::from_card_number("5555"), PaymentScenario::Success);
}

#[test]
fn intervals_and_statuses_read_without_case() {
    for iv in [BillingInterval::Monthly, BillingInterval::Yearly, BillingInterval::Custom] {
        assert_eq!(BillingInterval::from_str(iv.as_str()), iv);
        assert_eq!(BillingInterval::from_str(&iv.as_str().to_uppercase()), iv);
    }
    assert_eq!(BillingInterval::from_str("Yearly"), BillingInterval::Yearly);
    assert_eq!(BillingInterval::from_str("month"), BillingInterval::Custom);
    assert_eq!(BillingInterval::from_str(""), BillingInterval::Custom);
    assert_eq!(SubscriptionStatus::from_str("PAST_DUE"), SubscriptionStatus::PastDue);
    assert_eq!(SubscriptionStatus::from_str("cancelled"), SubscriptionStatus::Canceled);
    assert_eq!(SubscriptionStatus::from_str("bogus"), SubscriptionStatus::Incomplete);
    for s in ["active", "past_due", "canceled", "trialing", "incomplete_expired", "unpaid", "paused"] {
        assert_eq!(SubscriptionStatus::from_str(s), SubscriptionStatus::from_stripe(s));
        assert_eq!(SubscriptionStatus::from_str(&s.to_uppercase()), SubscriptionStatus::from_stripe(s));
    }
}

#[test]
fn event_type_names_have_one_dot() {
    let names = WebhookEventType::all_type_strings();
    for (i, n) in names.iter().enumerate() {
        assert_eq!(n.matches('.').count(), 1);
        assert!(!n.starts_with('.') && !n.ends_with('.'));
        for m in &names[i + 1..] {
            assert_ne!(n, m);
        }
    }
    assert!(!names.contains(&"unknown.event"));
    assert!(WebhookEventType::parse("unknown.event").is_err());
}
