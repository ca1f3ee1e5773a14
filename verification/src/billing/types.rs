//! Values the billing rules read and produce.
//!
//! Identifiers are UUIDs given by their 128-bit value; instants are nanoseconds
//! since the Unix epoch (UTC).
use vstd::prelude::*;
use crate::entities::billing_state::BillingState;
use crate::entities::payment_mode::PaymentMode;
use crate::entities::payment_provider::PaymentProvider;
use crate::entities::payment_status::PaymentStatus;
use crate::entities::user_subscription::SubscriptionStatus;
use crate::text::{str_eq_ignore_ascii_case, eq_ignore_ascii_case};

verus! {

#[derive(Debug, Clone)]
pub struct BillingStripeConfigProfile {
    pub id: u128,
    pub domain_id: u128,
    pub payment_mode: PaymentMode,
    pub stripe_secret_key_encrypted: String,
    pub stripe_publishable_key: String,
    pub stripe_webhook_secret_encrypted: String,
    pub created_at: Option<i128>,
    pub updated_at: Option<i128>,
}

#[derive(Debug, Clone)]
pub struct SubscriptionPlanProfile {
    pub id: u128,
    pub domain_id: u128,
    pub payment_provider: Option<PaymentProvider>,
    pub payment_mode: PaymentMode,
    pub code: String,
    pub name: String,
    pub description: Option<String>,
    pub price_cents: i32,
    pub currency: String,
    pub interval: String,
    pub interval_count: i32,
    pub trial_days: i32,
    pub features: Vec<String>,
    pub is_public: bool,
    pub display_order: i32,
    pub stripe_product_id: Option<String>,
    pub stripe_price_id: Option<String>,
    pub is_archived: bool,
    pub archived_at: Option<i128>,
    pub created_at: Option<i128>,
    pub updated_at: Option<i128>,
}

#[derive(Debug, Clone)]
pub struct UserSubscriptionProfile {
    pub id: u128,
    pub domain_id: u128,
    pub payment_provider: Option<PaymentProvider>,
    pub payment_mode: PaymentMode,
    pub billing_state: Option<BillingState>,
    pub end_user_id: u128,
    pub plan_id: u128,
    pub status: SubscriptionStatus,
    pub stripe_customer_id: String,
    pub stripe_subscription_id: Option<String>,
    pub current_period_start: Option<i128>,
    pub current_period_end: Option<i128>,
    pub trial_start: Option<i128>,
    pub trial_end: Option<i128>,
    pub cancel_at_period_end: bool,
    pub canceled_at: Option<i128>,
    pub manually_granted: bool,
    pub granted_by: Option<u128>,
    pub granted_at: Option<i128>,
    pub created_at: Option<i128>,
    pub updated_at: Option<i128>,
    // Rate limiting for plan changes
    pub changes_this_period: i32,
    pub period_changes_reset_at: Option<i128>,
}

#[derive(Debug, Clone)]
pub struct UserSubscriptionWithPlan {
    pub subscription: UserSubscriptionProfile,
    pub plan: SubscriptionPlanProfile,
    pub user_email: String,
}

#[derive(Debug, Clone)]
pub struct CreatePlanInput {
    pub code: String,
    pub name: String,
    pub description: Option<String>,
    pub price_cents: i32,
    pub currency: String,
    pub interval: String,
    pub interval_count: i32,
    pub trial_days: i32,
    pub features: Vec<String>,
    pub is_public: bool,
}

#[derive(Debug, Clone)]
pub struct UpdatePlanInput {
    pub name: Option<String>,
    pub description: Option<String>,
    pub price_cents: Option<i32>,
    pub interval: Option<String>,
    pub interval_count: Option<i32>,
    pub trial_days: Option<i32>,
    pub features: Option<Vec<String>>,
    pub is_public: Option<bool>,
}

#[derive(Debug, Clone)]
pub struct CreateSubscriptionInput {
    pub domain_id: u128,
    pub payment_mode: PaymentMode,
    pub end_user_id: u128,
    pub plan_id: u128,
    pub stripe_customer_id: String,
    pub stripe_subscription_id: Option<String>,
    pub status: SubscriptionStatus,
    pub current_period_start: Option<i128>,
    pub current_period_end: Option<i128>,
    pub trial_start: Option<i128>,
    pub trial_end: Option<i128>,
}

#[derive(Debug, Clone)]
pub struct StripeSubscriptionUpdate {
    pub status: SubscriptionStatus,
    /// To update plan on upgrade/downgrade
    pub plan_id: Option<u128>,
    /// To set/update the Stripe subscription ID
    pub stripe_subscription_id: Option<String>,
    pub current_period_start: Option<i128>,
    pub current_period_end: Option<i128>,
    pub cancel_at_period_end: bool,
    pub canceled_at: Option<i128>,
    pub trial_start: Option<i128>,
    pub trial_end: Option<i128>,
}

/// The JSON metadata recorded with a subscription event, by the kind of event.
#[derive(Debug, Clone)]
pub enum EventMetadata {
    /// `{"granted_by": <owner id>}`
    GrantedBy(u128),
    /// `{"revoked_by": <owner id>}`
    RevokedBy(u128),
    /// JSON text handed over with a payment provider's webhook.
    Raw(String),
    /// The details of a plan change.
    PlanChange {
        change_type: PlanChangeType,
        from_plan: String,
        to_plan: String,
        amount_charged_cents: Option<i64>,
        payment_intent_status: Option<String>,
        schedule_id: Option<String>,
    },
}

/// A recorded subscription event.
#[derive(Debug, Clone)]
pub struct SubscriptionEventProfile {
    pub id: u128,
    pub subscription_id: u128,
    pub event_type: String,
    pub previous_status: Option<SubscriptionStatus>,
    pub new_status: Option<SubscriptionStatus>,
    pub stripe_event_id: Option<String>,
    /// The event's JSON metadata, as text.
    pub metadata: String,
    pub created_by: Option<u128>,
    pub created_at: Option<i128>,
}

#[derive(Debug, Clone)]
pub struct CreateSubscriptionEventInput {
    pub subscription_id: u128,
    pub event_type: String,
    pub previous_status: Option<SubscriptionStatus>,
    pub new_status: Option<SubscriptionStatus>,
    pub stripe_event_id: Option<String>,
    pub metadata: EventMetadata,
    pub created_by: Option<u128>,
}

#[derive(Debug, Clone)]
pub struct CreatePaymentInput {
    pub domain_id: u128,
    pub payment_mode: PaymentMode,
    pub end_user_id: u128,
    pub subscription_id: Option<u128>,
    pub stripe_invoice_id: String,
    pub stripe_payment_intent_id: Option<String>,
    pub stripe_customer_id: String,
    pub amount_cents: i32,
    pub amount_paid_cents: i32,
    pub currency: String,
    pub status: PaymentStatus,
    pub plan_id: Option<u128>,
    pub plan_code: Option<String>,
    pub plan_name: Option<String>,
    pub hosted_invoice_url: Option<String>,
    pub invoice_pdf_url: Option<String>,
    pub invoice_number: Option<String>,
    pub billing_reason: Option<String>,
    pub failure_message: Option<String>,
    pub invoice_created_at: Option<i128>,
    pub payment_date: Option<i128>,
}

#[derive(Debug, Clone)]
pub struct BillingPaymentProfile {
    pub id: u128,
    pub domain_id: u128,
    pub payment_provider: Option<PaymentProvider>,
    pub payment_mode: PaymentMode,
    pub end_user_id: u128,
    pub subscription_id: Option<u128>,
    pub stripe_invoice_id: String,
    pub stripe_payment_intent_id: Option<String>,
    pub stripe_customer_id: String,
    pub amount_cents: i32,
    pub amount_paid_cents: i32,
    pub amount_refunded_cents: i32,
    pub currency: String,
    pub status: PaymentStatus,
    pub plan_id: Option<u128>,
    pub plan_code: Option<String>,
    pub plan_name: Option<String>,
    pub hosted_invoice_url: Option<String>,
    pub invoice_pdf_url: Option<String>,
    pub invoice_number: Option<String>,
    pub billing_reason: Option<String>,
    pub failure_message: Option<String>,
    pub invoice_created_at: Option<i128>,
    pub payment_date: Option<i128>,
    pub refunded_at: Option<i128>,
    pub created_at: Option<i128>,
    pub updated_at: Option<i128>,
}

#[derive(Debug, Clone)]
pub struct BillingPaymentWithUser {
    pub payment: BillingPaymentProfile,
    pub user_email: String,
}

#[derive(Debug, Clone)]
pub struct PaginatedPayments {
    pub payments: Vec<BillingPaymentWithUser>,
    pub total: i64,
    pub page: i32,
    pub per_page: i32,
    pub total_pages: i32,
}

#[derive(Debug, Clone, Copy, PartialEq, Eq)]
pub struct PaymentSummary {
    pub total_revenue_cents: i64,
    pub total_refunded_cents: i64,
    pub payment_count: i64,
    pub successful_payments: i64,
    pub failed_payments: i64,
}

#[derive(Debug, Clone)]
pub struct PaymentListFilters {
    pub status: Option<PaymentStatus>,
    pub date_from: Option<i128>,
    pub date_to: Option<i128>,
    pub plan_code: Option<String>,
    pub user_email: Option<String>,
}

/// A payment provider a domain has enabled for a mode.
#[derive(Debug, Clone)]
pub struct EnabledPaymentProviderProfile {
    pub id: u128,
    pub domain_id: u128,
    pub provider: PaymentProvider,
    pub mode: PaymentMode,
    pub is_active: bool,
    pub display_order: i32,
    pub created_at: Option<i128>,
    pub updated_at: Option<i128>,
}

// ============================================================================
// Plan change types
// ============================================================================

#[derive(Debug, Clone, Copy, PartialEq, Eq, Structural)]
pub enum PlanChangeType {
    /// Immediate with proration
    Upgrade,
    /// Scheduled for period end
    Downgrade,
    /// Same price, scheduled for period end
    Lateral,
}

impl PlanChangeType {
    /// The lowercase name of each change type.
    pub open spec fn name(self) -> Seq<char> {
        match self {
            PlanChangeType::Upgrade => "upgrade"@,
            PlanChangeType::Downgrade => "downgrade"@,
            PlanChangeType::Lateral => "lateral"@,
        }
    }

    /// The change type whose name equals `s` without regard to ASCII case, if any.
    pub open spec fn from_name_ignoring_case(s: Seq<char>) -> Option<PlanChangeType> {
        if eq_ignore_ascii_case(s, "upgrade"@) {
            Some(PlanChangeType::Upgrade)
        } else if eq_ignore_ascii_case(s, "downgrade"@) {
            Some(PlanChangeType::Downgrade)
        } else if eq_ignore_ascii_case(s, "lateral"@) {
            Some(PlanChangeType::Lateral)
        } else {
            None
        }
    }

    /// The lowercase name of the change type (`AsRef<str>`).
    pub fn as_ref(&self) -> (r: &'static str)
        ensures
            r@ == self.name(),
    {
        match self {
            PlanChangeType::Upgrade => "upgrade",
            PlanChangeType::Downgrade => "downgrade",
            PlanChangeType::Lateral => "lateral",
        }
    }

    /// Parse a change type, ASCII case ignored (`FromStr`).
    pub fn parse(s: &str) -> (r: Result<PlanChangeType, String>)
        ensures
            match r {
                Ok(t) => PlanChangeType::from_name_ignoring_case(s@) == Some(t),
                Err(msg) => PlanChangeType::from_name_ignoring_case(s@) is None && msg@
                    == "Matching variant not found"@,
            },
    {
        if str_eq_ignore_ascii_case(s, "upgrade") {
            Ok(PlanChangeType::Upgrade)
        } else if str_eq_ignore_ascii_case(s, "downgrade") {
            Ok(PlanChangeType::Downgrade)
        } else if str_eq_ignore_ascii_case(s, "lateral") {
            Ok(PlanChangeType::Lateral)
        } else {
            Err("Matching variant not found".to_owned())
        }
    }

    /// The name shown to people (`Display`).
    pub fn to_string(&self) -> (r: String)
        ensures
            r@ == self.name(),
    {
        self.as_ref().to_owned()
    }
}

impl std::str::FromStr for PlanChangeType {
    type Err = String;

    fn from_str(s: &str) -> (r: Result<Self, Self::Err>)
        ensures
            match r {
                Ok(t) => PlanChangeType::from_name_ignoring_case(s@) == Some(t),
                Err(msg) => PlanChangeType::from_name_ignoring_case(s@) is None && msg@
                    == "Matching variant not found"@,
            },
    {
        PlanChangeType::parse(s)
    }
}

#[derive(Debug, Clone)]
pub struct PlanChangePreview {
    pub prorated_amount_cents: i64,
    pub currency: String,
    /// Unix seconds
    pub period_end: i64,
    pub new_plan_name: String,
    pub new_plan_price_cents: i64,
    pub change_type: PlanChangeType,
    /// Unix seconds
    pub effective_at: i64,
    pub warnings: Vec<String>,
    /// Number of plan changes remaining in current billing period
    pub changes_remaining_this_period: i32,
}

#[derive(Debug, Clone)]
pub struct PlanChangeResult {
    pub success: bool,
    pub change_type: PlanChangeType,
    pub invoice_id: Option<String>,
    pub amount_charged_cents: Option<i64>,
    pub currency: Option<String>,
    pub client_secret: Option<String>,
    pub hosted_invoice_url: Option<String>,
    pub payment_intent_status: Option<String>,
    pub new_plan: SubscriptionPlanProfile,
    /// Unix seconds
    pub effective_at: i64,
    pub schedule_id: Option<String>,
}

// ============================================================================
// Analytics types
// ============================================================================

#[derive(Debug, Clone)]
pub struct PlanDistribution {
    pub plan_id: u128,
    pub plan_name: String,
    pub subscriber_count: i64,
    pub revenue_cents: i64,
}

#[derive(Debug, Clone)]
pub struct BillingAnalytics {
    pub mrr_cents: i64,
    pub active_subscribers: i64,
    pub trialing_subscribers: i64,
    pub past_due_subscribers: i64,
    pub plan_distribution: Vec<PlanDistribution>,
}

// ============================================================================
// Response types
// ============================================================================

#[derive(Debug, Clone)]
pub struct ModeConfigStatus {
    pub publishable_key_last4: String,
    pub is_connected: bool,
}

#[derive(Debug, Clone)]
pub struct StripeConfigStatusResponse {
    pub active_mode: PaymentMode,
    pub test: Option<ModeConfigStatus>,
    pub live: Option<ModeConfigStatus>,
}

#[derive(Debug, Clone)]
pub struct SubscriptionClaims {
    pub status: String,
    pub plan_code: Option<String>,
    pub plan_name: Option<String>,
    pub current_period_end: Option<i64>,
    pub cancel_at_period_end: Option<bool>,
    pub trial_ends_at: Option<i64>,
    pub subscription_id: Option<String>,
}

impl SubscriptionClaims {
    pub fn none() -> (r: SubscriptionClaims)
        ensures
            r.status@ == "none"@,
            r.plan_code is None,
            r.plan_name is None,
            r.current_period_end is None,
            r.cancel_at_period_end is None,
            r.trial_ends_at is None,
            r.subscription_id is None,
    {
        SubscriptionClaims {
            status: "none".to_owned(),
            plan_code: None,
            plan_name: None,
            current_period_end: None,
            cancel_at_period_end: None,
            trial_ends_at: None,
            subscription_id: None,
        }
    }
}

impl Default for SubscriptionClaims {
    fn default() -> (r: Self)
        ensures
            r.status@.len() == 0,
            r.plan_code is None,
            r.plan_name is None,
            r.current_period_end is None,
            r.cancel_at_period_end is None,
            r.trial_ends_at is None,
            r.subscription_id is None,
    {
        SubscriptionClaims {
            status: String::new(),
            plan_code: None,
            plan_name: None,
            current_period_end: None,
            cancel_at_period_end: None,
            trial_ends_at: None,
            subscription_id: None,
        }
    }
}

} // verus!
