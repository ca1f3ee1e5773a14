use chrono::{DateTime, Duration, Utc};
use reauth_api::app_error::AppError;
use reauth_api::billing::analytics::{monthly_divisor, mrr_terms, tally_active_plans};
use reauth_api::billing::config::{
    check_config_deletable, check_disable_provider, check_enable_provider, check_mode_switch,
    mask_key, next_display_order, select_active_provider,
};
use reauth_api::billing::payments::{
    create_dummy_payment_input, dummy_payment_input, escape_csv_field, export_payments_csv, format_cents,
    invoice_payment_input, InvoiceFields,
};
use reauth_api::billing::plan_change::{
    calculate_proration, classify_plan_change, current_period_changes, changes_remaining,
    validate_subscription_for_plan_change, MAX_PLAN_CHANGES_PER_PERIOD,
};
use reauth_api::billing::plans::{
    check_grant_plan, check_plan_deletable, check_reorder_entry, display_orders,
    get_domain_verified, prepare_new_plan, subscription_claims,
};
use reauth_api::billing::types::{
    BillingPaymentProfile, BillingPaymentWithUser, CreatePlanInput, EnabledPaymentProviderProfile,
    PlanChangeType, SubscriptionPlanProfile, UserSubscriptionProfile, UserSubscriptionWithPlan,
};
use reauth_api::domains::DomainProfile;
use reauth_api::entities::domain::DomainStatus;
use reauth_api::entities::payment_mode::PaymentMode;
use reauth_api::entities::payment_provider::PaymentProvider;
use reauth_api::entities::payment_status::PaymentStatus;
use reauth_api::entities::user_subscription::SubscriptionStatus;

// ---------------------------------------------------------------------------
// Helpers
// ---------------------------------------------------------------------------

fn nanos(t: DateTime<Utc>) -> i128 {
    t.timestamp() as i128 * 1_000_000_000 + t.timestamp_subsec_nanos() as i128
}

fn proration(current: i64, new: i64, start: DateTime<Utc>, end: DateTime<Utc>, now: DateTime<Utc>, trial: bool) -> i64 {
    calculate_proration(current, new, nanos(start), nanos(end), nanos(now), trial)
}

/// The monthly amount of a price, as the revenue figures sum it.
fn calculate_monthly_amount_cents(price_cents: i64, interval: &str, interval_count: i64) -> f64 {
    price_cents as f64 / monthly_divisor(interval, interval_count) as f64
}

/// Determine change type based on prices.
fn classify_change(current_price: i64, new_price: i64) -> PlanChangeType {
    classify_plan_change(current_price, new_price)
}

fn plan(id: u128, domain_id: u128, price: i32, interval: &str, count: i32) -> SubscriptionPlanProfile {
    SubscriptionPlanProfile {
        id,
        domain_id,
        payment_provider: None,
        payment_mode: PaymentMode::Test,
        code: format!("plan-{}", id),
        name: format!("Plan {}", id),
        description: None,
        price_cents: price,
        currency: "usd".to_string(),
        interval: interval.to_string(),
        interval_count: count,
        trial_days: 0,
        features: vec![],
        is_public: true,
        display_order: 0,
        stripe_product_id: None,
        stripe_price_id: None,
        is_archived: false,
        archived_at: None,
        created_at: None,
        updated_at: None,
    }
}

fn subscription(status: SubscriptionStatus, plan_id: u128) -> UserSubscriptionProfile {
    UserSubscriptionProfile {
        id: 42,
        domain_id: 1,
        payment_provider: None,
        payment_mode: PaymentMode::Test,
        billing_state: None,
        end_user_id: 9,
        plan_id,
        status,
        stripe_customer_id: "cus_1".to_string(),
        stripe_subscription_id: Some("sub_1".to_string()),
        current_period_start: None,
        current_period_end: None,
        trial_start: None,
        trial_end: None,
        cancel_at_period_end: false,
        canceled_at: None,
        manually_granted: false,
        granted_by: None,
        granted_at: None,
        created_at: None,
        updated_at: None,
        changes_this_period: 0,
        period_changes_reset_at: None,
    }
}

fn with_plan(status: SubscriptionStatus, p: SubscriptionPlanProfile) -> UserSubscriptionWithPlan {
    UserSubscriptionWithPlan { subscription: subscription(status, p.id), plan: p, user_email: "u@example.com".to_string() }
}

fn domain(owner: Option<u128>, mode: PaymentMode) -> DomainProfile {
    DomainProfile {
        id: 1,
        owner_end_user_id: owner,
        domain: "example.com".to_string(),
        status: DomainStatus::Verified,
        active_payment_mode: mode,
        verification_started_at: None,
        verified_at: None,
        created_at: None,
        updated_at: None,
    }
}

// ---------------------------------------------------------------------------
// Monthly recurring revenue
// ---------------------------------------------------------------------------

#[test]
fn test_calculate_monthly_amount_yearly_plan() {
    // $119/year = 11900 cents / 12 months = 991.666... cents
    let result = calculate_monthly_amount_cents(11900, "yearly", 1);
    assert!((result - 991.6666666666666).abs() < 0.0001);
    assert_eq!(result.round() as i64, 992); // Rounds to 992, not truncates to 991
}

#[test]
fn test_calculate_monthly_amount_year_alias() {
    // "year" should behave same as "yearly"
    let result = calculate_monthly_amount_cents(11900, "year", 1);
    assert_eq!(result.round() as i64, 992);
}

#[test]
fn test_calculate_monthly_amount_monthly_plan() {
    // $9.99/month = 999 cents, interval_count=1
    let result = calculate_monthly_amount_cents(999, "monthly", 1);
    assert_eq!(result, 999.0);
}

#[test]
fn test_calculate_monthly_amount_month_alias() {
    // "month" should behave same as "monthly"
    let result = calculate_monthly_amount_cents(999, "month", 1);
    assert_eq!(result, 999.0);
}

#[test]
fn test_calculate_monthly_amount_biannual() {
    // $200 every 2 years = 20000 cents / 24 months = 833.333... cents
    let result = calculate_monthly_amount_cents(20000, "yearly", 2);
    assert!((result - 833.3333333333334).abs() < 0.0001);
    assert_eq!(result.round() as i64, 833);
}

#[test]
fn test_calculate_monthly_amount_quarterly() {
    // $30 every 3 months = 3000 cents / 3 = 1000 cents
    let result = calculate_monthly_amount_cents(3000, "monthly", 3);
    assert_eq!(result, 1000.0);
}

#[test]
fn test_calculate_monthly_amount_zero_price() {
    // Free plan
    let result = calculate_monthly_amount_cents(0, "yearly", 1);
    assert_eq!(result, 0.0);
}

#[test]
fn test_calculate_monthly_amount_zero_interval_count() {
    // Edge case: interval_count=0 should be treated as 1 (defensive)
    let result = calculate_monthly_amount_cents(1200, "monthly", 0);
    assert_eq!(result, 1200.0);
}

#[test]
fn test_calculate_monthly_amount_very_small_yearly() {
    // $1.99/year = 199 cents / 12 = 16.583... cents
    let result = calculate_monthly_amount_cents(199, "yearly", 1);
    assert_eq!(result.round() as i64, 17); // Rounds up, not truncates to 16
}

#[test]
fn test_calculate_monthly_amount_unknown_interval() {
    // Unknown intervals default to monthly behavior
    let result = calculate_monthly_amount_cents(1500, "weekly", 1);
    assert_eq!(result, 1500.0); // Treated as monthly
}

#[test]
fn test_mrr_accumulation_precision() {
    let mut total = 0.0;
    for _ in 0..10 {
        total += calculate_monthly_amount_cents(11900, "yearly", 1);
    }
    assert_eq!(total.round() as i64, 9917);
}

#[test]
fn test_mrr_accumulation_mixed_intervals() {
    // 5 yearly at $119 + 3 monthly at $9.99
    let mut total = 0.0;
    for _ in 0..5 {
        total += calculate_monthly_amount_cents(11900, "yearly", 1);
    }
    for _ in 0..3 {
        total += calculate_monthly_amount_cents(999, "monthly", 1);
    }
    assert_eq!(total.round() as i64, 7955);
}

#[test]
fn test_mrr_large_subscriber_count() {
    let mut total = 0.0;
    for _ in 0..1000 {
        total += calculate_monthly_amount_cents(11900, "yearly", 1);
    }
    assert_eq!(total.round() as i64, 991667);
}

#[test]
fn divisor_values() {
    assert_eq!(monthly_divisor("yearly", 1), 12);
    assert_eq!(monthly_divisor("year", 3), 36);
    assert_eq!(monthly_divisor("monthly", -4), 1);
    assert_eq!(monthly_divisor("Yearly", 2), 2);
}

#[test]
fn only_active_and_trialing_subscriptions_count_and_group_by_plan() {
    let yearly = plan(1, 1, 11900, "yearly", 1);
    let monthly = plan(2, 1, 999, "monthly", 1);
    let subs = vec![
        with_plan(SubscriptionStatus::Active, yearly.clone()),
        with_plan(SubscriptionStatus::Canceled, monthly.clone()),
        with_plan(SubscriptionStatus::Trialing, monthly.clone()),
        with_plan(SubscriptionStatus::Active, yearly.clone()),
        with_plan(SubscriptionStatus::PastDue, yearly.clone()),
    ];
    assert_eq!(mrr_terms(&subs), vec![(11900, 12), (999, 1), (11900, 12)]);
    let tallies = tally_active_plans(&subs);
    assert_eq!(tallies.len(), 2);
    assert_eq!(tallies[0].plan_id, 1);
    assert_eq!(tallies[0].plan_name, "Plan 1");
    assert_eq!(tallies[0].subscriber_count, 2);
    assert_eq!(tallies[0].monthly_terms, vec![(11900, 12), (11900, 12)]);
    assert_eq!(tallies[1].plan_id, 2);
    assert_eq!(tallies[1].subscriber_count, 1);
    assert!(tally_active_plans(&vec![with_plan(SubscriptionStatus::Unpaid, yearly)]).is_empty());
}

#[test]
fn plan_tallies_add_up_to_all_counted_subscriptions() {
    let a = plan(7, 1, 500, "monthly", 1);
    let b = plan(3, 1, 2400, "yearly", 2);
    let subs = vec![
        with_plan(SubscriptionStatus::Canceled, b.clone()),
        with_plan(SubscriptionStatus::Active, a.clone()),
        with_plan(SubscriptionStatus::Trialing, b.clone()),
        with_plan(SubscriptionStatus::Active, a.clone()),
        with_plan(SubscriptionStatus::Active, b.clone()),
    ];
    let tallies = tally_active_plans(&subs);
    let ids: Vec<u128> = tallies.iter().map(|t| t.plan_id).collect();
    assert_eq!(ids, vec![7, 3]);
    let total: i64 = tallies.iter().map(|t| t.subscriber_count).sum();
    assert_eq!(total as usize, mrr_terms(&subs).len());
    assert_eq!(total, 4);
}

// ---------------------------------------------------------------------------
// Proration
// ---------------------------------------------------------------------------

#[test]
fn test_upgrade_midway_through_period() {
    let period_start = Utc::now() - Duration::days(5);
    let period_end = period_start + Duration::days(30);
    let now = Utc::now();
    let result = proration(2000, 10000, period_start, period_end, now, false);
    assert!(result > 6600 && result < 6700, "Expected ~6667, got {}", result);
}

#[test]
fn test_downgrade_midway_through_period() {
    let period_start = Utc::now() - Duration::days(5);
    let period_end = period_start + Duration::days(30);
    let now = Utc::now();
    let result = proration(10000, 2000, period_start, period_end, now, false);
    assert!(result < -6600 && result > -6700, "Expected ~-6667, got {}", result);
}

#[test]
fn test_upgrade_during_trial_no_credit() {
    let period_start = Utc::now() - Duration::days(1);
    let period_end = period_start + Duration::days(30);
    let now = Utc::now();
    let result = proration(2000, 10000, period_start, period_end, now, true);
    assert!(result > 9600 && result < 9700, "Expected ~9667, got {}", result);
}

#[test]
fn test_same_price_no_proration() {
    let period_start = Utc::now() - Duration::days(5);
    let period_end = period_start + Duration::days(30);
    let now = Utc::now();
    let result = proration(2000, 2000, period_start, period_end, now, false);
    assert_eq!(result, 0);
}

#[test]
fn test_period_already_ended_returns_zero() {
    let period_start = Utc::now() - Duration::days(35);
    let period_end = period_start + Duration::days(30); // ended 5 days ago
    let now = Utc::now();
    let result = proration(2000, 10000, period_start, period_end, now, false);
    assert_eq!(result, 0);
}

#[test]
fn test_period_just_started_full_proration() {
    let period_start = Utc::now();
    let period_end = period_start + Duration::days(30);
    let now = period_start + Duration::seconds(1); // 1 second in
    let result = proration(2000, 10000, period_start, period_end, now, false);
    assert!(result > 7900 && result < 8100, "Expected ~8000, got {}", result);
}

#[test]
fn test_period_about_to_end_minimal_proration() {
    let period_start = Utc::now() - Duration::days(29);
    let period_end = period_start + Duration::days(30);
    let now = Utc::now(); // 1 day remaining
    let result = proration(2000, 10000, period_start, period_end, now, false);
    assert!(result > 200 && result < 350, "Expected ~267, got {}", result);
}

#[test]
fn test_free_to_paid_upgrade() {
    let period_start = Utc::now() - Duration::days(15);
    let period_end = period_start + Duration::days(30);
    let now = Utc::now();
    let result = proration(0, 10000, period_start, period_end, now, false);
    assert_eq!(result, 5000);
}

#[test]
fn test_paid_to_free_downgrade() {
    let period_start = Utc::now() - Duration::days(15);
    let period_end = period_start + Duration::days(30);
    let now = Utc::now();
    let result = proration(10000, 0, period_start, period_end, now, false);
    assert_eq!(result, -5000);
}

#[test]
fn proration_exact_values() {
    let day: i128 = 86_400 * 1_000_000_000;
    // 25 of 30 days left: (10000 - 2000) * 25 / 30 = 6666.67 -> 6667
    assert_eq!(calculate_proration(2000, 10000, 0, 30 * day, 5 * day, false), 6667);
    assert_eq!(calculate_proration(10000, 2000, 0, 30 * day, 5 * day, false), -6667);
    // halves round away from zero: 1 * 1 / 2
    assert_eq!(calculate_proration(0, 1, 0, 2_000_000_000, 1_000_000_000, false), 1);
    assert_eq!(calculate_proration(1, 0, 0, 2_000_000_000, 1_000_000_000, false), -1);
    // an empty period prorates nothing
    assert_eq!(calculate_proration(0, 1000, 5, 5, 0, false), 0);
}

// ---------------------------------------------------------------------------
// Plan change classification and limits
// ---------------------------------------------------------------------------

#[test]
fn domain_billing_test_as_ref_all_variants() {
    assert_eq!(PlanChangeType::Upgrade.as_ref(), "upgrade");
    assert_eq!(PlanChangeType::Downgrade.as_ref(), "downgrade");
    assert_eq!(PlanChangeType::Lateral.as_ref(), "lateral");
}

#[test]
fn test_higher_price_is_upgrade() {
    assert_eq!(classify_change(2000, 10000), PlanChangeType::Upgrade);
}

#[test]
fn test_lower_price_is_downgrade() {
    assert_eq!(classify_change(10000, 2000), PlanChangeType::Downgrade);
}

#[test]
fn test_same_price_is_lateral() {
    assert_eq!(classify_change(5000, 5000), PlanChangeType::Lateral);
}

#[test]
fn test_free_to_paid_is_upgrade() {
    assert_eq!(classify_change(0, 1000), PlanChangeType::Upgrade);
}

#[test]
fn test_paid_to_free_is_downgrade() {
    assert_eq!(classify_change(1000, 0), PlanChangeType::Downgrade);
}

#[test]
fn test_free_to_free_is_lateral() {
    // Two different free plans
    assert_eq!(classify_change(0, 0), PlanChangeType::Lateral);
}

#[test]
fn test_max_changes_constant() {
    assert_eq!(MAX_PLAN_CHANGES_PER_PERIOD, 5);
}

#[test]
fn test_changes_remaining_calculation() {
    let now = Utc::now();
    let future_reset = now + Duration::days(15);
    let past_reset = now - Duration::days(1);

    // When reset is in future, use current count
    let mut sub = subscription(SubscriptionStatus::Active, 1);
    sub.changes_this_period = 3;
    sub.period_changes_reset_at = Some(nanos(future_reset));
    let current = current_period_changes(&sub, nanos(now));
    assert_eq!(current, 3);
    assert_eq!(MAX_PLAN_CHANGES_PER_PERIOD - current, 2);
    assert_eq!(changes_remaining(&sub, nanos(now)), 2);

    // When reset is in past, counter resets to 0
    sub.period_changes_reset_at = Some(nanos(past_reset));
    let current = current_period_changes(&sub, nanos(now));
    assert_eq!(current, 0);
    assert_eq!(MAX_PLAN_CHANGES_PER_PERIOD - current, 5);

    // When no reset_at, treat as 0
    sub.period_changes_reset_at = None;
    let current = current_period_changes(&sub, nanos(now));
    assert_eq!(current, 0);
}

#[test]
fn test_rate_limit_threshold() {
    // Test that we correctly identify when limit is reached
    let at_limit = MAX_PLAN_CHANGES_PER_PERIOD;
    let below_limit = MAX_PLAN_CHANGES_PER_PERIOD - 1;

    assert!(at_limit >= MAX_PLAN_CHANGES_PER_PERIOD);
    assert!(below_limit < MAX_PLAN_CHANGES_PER_PERIOD);
}

#[test]
fn subscription_plan_change_refusals() {
    let mut sub = subscription(SubscriptionStatus::Active, 1);
    assert!(validate_subscription_for_plan_change(&sub, 0).is_ok());
    sub.status = SubscriptionStatus::PastDue;
    assert_eq!(
        validate_subscription_for_plan_change(&sub, 0),
        Err(AppError::InvalidInput(
            "Cannot change plan while payment is past due. Please update your payment method first.".to_string()
        ))
    );
    sub.status = SubscriptionStatus::Canceled;
    sub.cancel_at_period_end = true;
    assert!(validate_subscription_for_plan_change(&sub, 0).is_ok());
    sub.changes_this_period = 5;
    sub.period_changes_reset_at = Some(10);
    assert_eq!(
        validate_subscription_for_plan_change(&sub, 0),
        Err(AppError::InvalidInput(
            "Maximum plan changes (5) reached for this billing period. Try again after your next billing date.".to_string()
        ))
    );
    sub.manually_granted = true;
    assert_eq!(
        validate_subscription_for_plan_change(&sub, 0),
        Err(AppError::InvalidInput("Cannot change plan for manually granted subscriptions".to_string()))
    );
}

// ---------------------------------------------------------------------------
// Plans and grants
// ---------------------------------------------------------------------------

fn plan_input(code: &str, name: &str, price: i32) -> CreatePlanInput {
    CreatePlanInput {
        code: code.to_string(),
        name: name.to_string(),
        description: None,
        price_cents: price,
        currency: "usd".to_string(),
        interval: "monthly".to_string(),
        interval_count: 1,
        trial_days: 0,
        features: vec!["a".to_string()],
        is_public: true,
    }
}

#[test]
fn new_plans_are_validated_and_lowercased() {
    let ok = prepare_new_plan(plan_input("Pro-Plan", "Pro", 999)).unwrap();
    assert_eq!(ok.code, "pro-plan");
    assert_eq!(ok.features, vec!["a".to_string()]);
    assert_eq!(
        prepare_new_plan(plan_input("\u{212A}elvin", "Pro", 1)).unwrap_err(),
        AppError::InvalidInput("Plan code must contain only ASCII characters.".to_string())
    );
    assert_eq!(
        prepare_new_plan(plan_input("-pro", "Pro", 1)).unwrap_err(),
        AppError::InvalidInput("Plan code must be 1-50 characters using only lowercase letters, numbers, hyphens, and underscores. Must start with a letter or number.".to_string())
    );
    assert_eq!(
        prepare_new_plan(plan_input("pro", "", 1)).unwrap_err(),
        AppError::InvalidInput("Plan name must be 1-100 characters".to_string())
    );
    assert_eq!(
        prepare_new_plan(plan_input("pro", &"n".repeat(101), 1)).unwrap_err(),
        AppError::InvalidInput("Plan name must be 1-100 characters".to_string())
    );
    assert_eq!(
        prepare_new_plan(plan_input("pro", "Pro", -1)).unwrap_err(),
        AppError::InvalidInput("Price cannot be negative".to_string())
    );
}

#[test]
fn plan_ownership_checks() {
    assert_eq!(get_domain_verified(None, 5).unwrap_err(), AppError::NotFound);
    assert_eq!(get_domain_verified(Some(domain(Some(6), PaymentMode::Test)), 5).unwrap_err(), AppError::Forbidden);
    assert!(get_domain_verified(Some(domain(Some(5), PaymentMode::Test)), 5).is_ok());
    assert_eq!(check_reorder_entry(&None, 1), Err(AppError::NotFound));
    assert_eq!(check_reorder_entry(&Some(plan(3, 2, 0, "monthly", 1)), 1), Err(AppError::Forbidden));
    assert_eq!(check_reorder_entry(&Some(plan(3, 1, 0, "monthly", 1)), 1), Ok(()));
    assert_eq!(display_orders(&vec![30, 10, 20]), vec![(30, 0), (10, 1), (20, 2)]);
    assert_eq!(
        check_plan_deletable(2),
        Err(AppError::InvalidInput("Cannot delete plan with active subscribers. Archive it instead.".to_string()))
    );
    assert!(check_plan_deletable(0).is_ok());
}

#[test]
fn grants_must_match_the_active_mode() {
    let d = domain(Some(5), PaymentMode::Live);
    assert_eq!(check_grant_plan(&d, None).unwrap_err(), AppError::NotFound);
    assert_eq!(
        check_grant_plan(&d, Some(plan(3, 1, 100, "monthly", 1))).unwrap_err(),
        AppError::InvalidInput("Cannot grant subscription to a plan in test mode when active mode is live".to_string())
    );
    let mut live = plan(3, 1, 100, "monthly", 1);
    live.payment_mode = PaymentMode::Live;
    assert_eq!(check_grant_plan(&d, Some(live)).unwrap().id, 3);
}

#[test]
fn claims_for_a_subscription() {
    let none = subscription_claims(None, None);
    assert_eq!(none.status, "none");
    assert!(none.plan_code.is_none() && none.subscription_id.is_none());
    let mut sub = subscription(SubscriptionStatus::Trialing, 3);
    sub.current_period_end = Some(1_735_689_600_500_000_000);
    sub.trial_end = Some(-1);
    let c = subscription_claims(Some(sub), Some(plan(3, 1, 100, "monthly", 1)));
    assert_eq!(c.status, "trialing");
    assert_eq!(c.plan_code.as_deref(), Some("plan-3"));
    assert_eq!(c.current_period_end, Some(1_735_689_600));
    assert_eq!(c.trial_ends_at, Some(-1));
    assert_eq!(c.cancel_at_period_end, Some(false));
    assert_eq!(c.subscription_id.as_deref(), Some("00000000-0000-0000-0000-00000000002a"));
}

// ---------------------------------------------------------------------------
// Configuration and providers
// ---------------------------------------------------------------------------

fn enabled(provider: PaymentProvider, mode: PaymentMode, order: i32) -> EnabledPaymentProviderProfile {
    EnabledPaymentProviderProfile {
        id: 0,
        domain_id: 1,
        provider,
        mode,
        is_active: true,
        display_order: order,
        created_at: None,
        updated_at: None,
    }
}

#[test]
fn keys_are_masked() {
    assert_eq!(mask_key("pk_test_abcd1234"), "...1234");
    assert_eq!(mask_key("abc"), "***");
    assert_eq!(mask_key(""), "");
    assert_eq!(mask_key("abcd"), "****");
    assert_eq!(mask_key("abcde"), "...bcde");
}

#[test]
fn provider_selection_and_changes() {
    let list = vec![enabled(PaymentProvider::Dummy, PaymentMode::Test, 3), enabled(PaymentProvider::Stripe, PaymentMode::Test, 7)];
    assert_eq!(select_active_provider(&list, PaymentMode::Test), PaymentProvider::Stripe);
    assert_eq!(select_active_provider(&list[..1].to_vec(), PaymentMode::Test), PaymentProvider::Dummy);
    assert_eq!(select_active_provider(&vec![], PaymentMode::Test), PaymentProvider::Dummy);
    assert_eq!(select_active_provider(&vec![], PaymentMode::Live), PaymentProvider::Stripe);
    assert_eq!(next_display_order(&list), 8);
    assert_eq!(next_display_order(&vec![]), 0);
    assert_eq!(
        check_enable_provider(PaymentProvider::Dummy, PaymentMode::Live, true),
        Err(AppError::InvalidInput("Test Provider does not support live mode".to_string()))
    );
    assert_eq!(
        check_enable_provider(PaymentProvider::Stripe, PaymentMode::Live, false),
        Err(AppError::InvalidInput("Stripe live mode must be configured before enabling".to_string()))
    );
    assert_eq!(check_enable_provider(PaymentProvider::Coinbase, PaymentMode::Live, true), Err(AppError::ProviderNotSupported));
    assert_eq!(
        check_disable_provider(&list[..1].to_vec(), PaymentProvider::Dummy, PaymentMode::Test),
        Err(AppError::InvalidInput("Cannot disable the only active payment provider. Enable another provider first.".to_string()))
    );
    assert!(check_disable_provider(&list, PaymentProvider::Dummy, PaymentMode::Test).is_ok());
    assert_eq!(
        check_mode_switch(PaymentMode::Live, false),
        Err(AppError::InvalidInput("Cannot switch to live mode without configuring Stripe keys first".to_string()))
    );
    assert_eq!(
        check_config_deletable(PaymentMode::Test, PaymentMode::Test, 1, 0),
        Err(AppError::InvalidInput("Cannot delete test mode config while plans or subscriptions exist. Delete or migrate them first.".to_string()))
    );
    assert!(check_config_deletable(PaymentMode::Live, PaymentMode::Test, 1, 0).is_ok());
}

// ---------------------------------------------------------------------------
// Payments and CSV
// ---------------------------------------------------------------------------

#[test]
fn csv_fields_are_escaped() {
    assert_eq!(escape_csv_field("plain"), "plain");
    assert_eq!(escape_csv_field("a,b"), "\"a,b\"");
    assert_eq!(escape_csv_field("say \"hi\""), "\"say \"\"hi\"\"\"");
    assert_eq!(escape_csv_field("=SUM(A1)"), "\"'=SUM(A1)\"");
    assert_eq!(escape_csv_field("-5"), "\"'-5\"");
    assert_eq!(escape_csv_field("line\nbreak"), "\"line\nbreak\"");
    assert_eq!(escape_csv_field(""), "");
}

#[test]
fn cents_are_formatted_with_two_decimals() {
    assert_eq!(format_cents(1999), "19.99");
    assert_eq!(format_cents(5), "0.05");
    assert_eq!(format_cents(0), "0.00");
    assert_eq!(format_cents(-310), "-3.10");
    assert_eq!(format_cents(i32::MIN), "-21474836.48");
}

fn payment(status: PaymentStatus, amount: i32, paid: Option<i128>, created: Option<i128>) -> BillingPaymentProfile {
    BillingPaymentProfile {
        id: 1,
        domain_id: 1,
        payment_provider: None,
        payment_mode: PaymentMode::Test,
        end_user_id: 9,
        subscription_id: None,
        stripe_invoice_id: "in_1".to_string(),
        stripe_payment_intent_id: None,
        stripe_customer_id: "cus_1".to_string(),
        amount_cents: amount,
        amount_paid_cents: amount,
        amount_refunded_cents: 0,
        currency: "USD".to_string(),
        status,
        plan_id: None,
        plan_code: None,
        plan_name: Some("Pro, yearly".to_string()),
        hosted_invoice_url: None,
        invoice_pdf_url: None,
        invoice_number: None,
        billing_reason: Some("subscription_create".to_string()),
        failure_message: None,
        invoice_created_at: None,
        payment_date: paid,
        refunded_at: None,
        created_at: created,
        updated_at: None,
    }
}

#[test]
fn payments_export_as_csv() {
    let rows = vec![
        BillingPaymentWithUser {
            payment: payment(PaymentStatus::Paid, 11900, Some(1_700_000_000_000_000_000), None),
            user_email: "=evil@example.com".to_string(),
        },
        BillingPaymentWithUser { payment: payment(PaymentStatus::Failed, 5, None, Some(0)), user_email: "a@b.c".to_string() },
    ];
    let csv = export_payments_csv(&rows);
    assert_eq!(
        csv,
        "Date,User Email,Plan,Amount,Status,Invoice Number,Billing Reason\n\
         2023-11-14 22:13:20,\"'=evil@example.com\",\"Pro, yearly\",119.00,paid,,subscription_create\n\
         1970-01-01 00:00:00,a@b.c,\"Pro, yearly\",0.05,failed,,subscription_create\n"
    );
    assert_eq!(export_payments_csv(&vec![]), "Date,User Email,Plan,Amount,Status,Invoice Number,Billing Reason\n");
}

fn invoice() -> InvoiceFields {
    InvoiceFields {
        id: Some("in_123".to_string()),
        customer: Some("cus_1".to_string()),
        status: Some("paid".to_string()),
        paid_at: Some(1_700_000_000),
        payment_intent: Some("pi_1".to_string()),
        amount_due: Some(11900),
        amount_paid: Some(11900),
        currency: Some("eur".to_string()),
        hosted_invoice_url: None,
        invoice_pdf: None,
        number: Some("0001".to_string()),
        billing_reason: None,
        created: Some(1_699_999_000),
    }
}

#[test]
fn invoices_become_payment_records() {
    assert_eq!(invoice_payment_input(1, PaymentMode::Live, &invoice(), None, None).unwrap_err(), AppError::NotFound);
    let p = invoice_payment_input(1, PaymentMode::Live, &invoice(), Some(subscription(SubscriptionStatus::Active, 3)), Some(plan(3, 1, 11900, "yearly", 1))).unwrap();
    assert_eq!(p.end_user_id, 9);
    assert_eq!(p.subscription_id, Some(42));
    assert_eq!(p.stripe_invoice_id, "in_123");
    assert_eq!(p.currency, "EUR");
    assert_eq!(p.status, PaymentStatus::Paid);
    assert_eq!(p.payment_date, Some(1_700_000_000_000_000_000));
    assert_eq!(p.invoice_created_at, Some(1_699_999_000_000_000_000));
    assert_eq!(p.plan_code.as_deref(), Some("plan-3"));
    let mut open = invoice();
    open.status = Some("open".to_string());
    open.currency = None;
    open.amount_due = None;
    let p = invoice_payment_input(1, PaymentMode::Live, &open, Some(subscription(SubscriptionStatus::Active, 3)), None).unwrap();
    assert_eq!(p.status, PaymentStatus::Pending);
    assert_eq!(p.payment_date, None);
    assert_eq!(p.currency, "USD");
    assert_eq!(p.amount_cents, 0);
    assert_eq!(p.plan_code, None);
}

#[test]
fn dummy_checkouts_record_a_paid_test_payment() {
    let p = plan(3, 1, 1900, "monthly", 1);
    let now: i128 = 1_700_000_000_123_000_000;
    let r = dummy_payment_input(1, 0x1234, 42, &p, 0xabcd, 0xef, now);
    assert_eq!(r.payment_mode, PaymentMode::Test);
    assert_eq!(r.stripe_invoice_id, "dummy_inv_00000000-0000-0000-0000-00000000abcd");
    assert_eq!(r.stripe_payment_intent_id.as_deref(), Some("dummy_pi_00000000-0000-0000-0000-0000000000ef"));
    assert_eq!(r.stripe_customer_id, "dummy_cus_00000000-0000-0000-0000-000000001234");
    assert_eq!(r.currency, "USD");
    assert_eq!(r.amount_cents, 1900);
    assert_eq!(r.amount_paid_cents, 1900);
    assert_eq!(r.status, PaymentStatus::Paid);
    assert_eq!(r.invoice_number.as_deref(), Some("DUMMY-20231114221320"));
    assert_eq!(r.billing_reason.as_deref(), Some("subscription_create"));
    assert_eq!(r.invoice_created_at, Some(now));
    assert_eq!(r.payment_date, Some(now));
    assert_eq!(r.plan_code.as_deref(), Some("plan-3"));

    let fresh = create_dummy_payment_input(1, 7, 42, &p);
    assert_eq!(fresh.stripe_customer_id, "dummy_cus_00000000-0000-0000-0000-000000000007");
    assert!(fresh.stripe_invoice_id.starts_with("dummy_inv_"));
    assert!(fresh.invoice_number.as_deref().unwrap().starts_with("DUMMY-"));
    assert_eq!(fresh.invoice_number.as_deref().unwrap().len(), "DUMMY-".len() + 14);
}
