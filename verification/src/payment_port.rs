//! Provider-agnostic values exchanged with payment providers.
//!
//! Instants are nanoseconds since the Unix epoch (UTC).
use vstd::prelude::*;
use crate::entities::user_subscription::SubscriptionStatus;

verus! {

/// Unique identifier for a customer in a payment provider
#[derive(Debug, Clone, PartialEq, Eq, Hash)]
pub struct CustomerId(pub String);

impl CustomerId {
    pub fn new(id: String) -> (r: CustomerId)
        ensures
            r.0@ == id@,
    {
        CustomerId(id)
    }

    pub fn as_str(&self) -> (r: &str)
        ensures
            r@ == self.0@,
    {
        self.0.as_str()
    }

    /// The identifier's text (`Display`).
    pub fn to_string(&self) -> (r: String)
        ensures
            r@ == self.0@,
    {
        self.0.clone()
    }
}

/// Unique identifier for a subscription in a payment provider
#[derive(Debug, Clone, PartialEq, Eq, Hash)]
pub struct SubscriptionId(pub String);

impl SubscriptionId {
    pub fn new(id: String) -> (r: SubscriptionId)
        ensures
            r.0@ == id@,
    {
        SubscriptionId(id)
    }

    pub fn as_str(&self) -> (r: &str)
        ensures
            r@ == self.0@,
    {
        self.0.as_str()
    }

    /// The identifier's text (`Display`).
    pub fn to_string(&self) -> (r: String)
        ensures
            r@ == self.0@,
    {
        self.0.clone()
    }
}

/// Basic plan information for checkout and subscription operations
#[derive(Debug, Clone)]
pub struct PlanInfo {
    pub id: u128,
    pub code: String,
    pub name: String,
    pub price_cents: i32,
    pub currency: String,
    pub interval: String,
    pub interval_count: i32,
    pub trial_days: i32,
    /// Provider-specific price ID (e.g., Stripe price ID)
    pub external_price_id: Option<String>,
    /// Provider-specific product ID (e.g., Stripe product ID)
    pub external_product_id: Option<String>,
}

/// URLs for checkout redirects
#[derive(Debug, Clone)]
pub struct CheckoutUrls {
    pub success_url: String,
    pub cancel_url: String,
}

/// Result of creating a checkout session
#[derive(Debug, Clone)]
pub struct CheckoutResult {
    /// URL to redirect the user to for checkout (for external providers like Stripe)
    pub checkout_url: Option<String>,
    /// Whether the checkout is inline (no redirect needed - for dummy provider)
    pub is_inline: bool,
    /// Session/checkout ID for tracking
    pub session_id: Option<String>,
}

/// Type of plan change a provider carried out
#[derive(Debug, Clone, Copy, PartialEq, Eq, Structural)]
pub enum PlanChangeType {
    /// Immediate change with proration
    Upgrade,
    /// Scheduled change at period end
    Downgrade,
}

impl PlanChangeType {
    pub fn as_str(&self) -> (r: &'static str)
        ensures
            r@ == (match *self {
                PlanChangeType::Upgrade => "upgrade"@,
                PlanChangeType::Downgrade => "downgrade"@,
            }),
    {
        match self {
            PlanChangeType::Upgrade => "upgrade",
            PlanChangeType::Downgrade => "downgrade",
        }
    }
}

/// Subscription status information
#[derive(Debug, Clone)]
pub struct SubscriptionInfo {
    pub subscription_id: SubscriptionId,
    pub customer_id: CustomerId,
    pub status: SubscriptionStatus,
    pub current_period_start: Option<i128>,
    pub current_period_end: Option<i128>,
    pub trial_start: Option<i128>,
    pub trial_end: Option<i128>,
    pub cancel_at_period_end: bool,
    pub canceled_at: Option<i128>,
    /// External price ID to identify the plan
    pub price_id: Option<String>,
    /// Subscription item ID (for upgrades)
    pub subscription_item_id: Option<String>,
}

/// Result of a plan change (upgrade or downgrade) as a provider reports it
#[derive(Debug, Clone)]
pub struct ProviderPlanChangeResult {
    pub success: bool,
    pub change_type: PlanChangeType,
    pub invoice_id: Option<String>,
    pub amount_charged_cents: Option<i64>,
    pub currency: Option<String>,
    pub client_secret: Option<String>,
    pub hosted_invoice_url: Option<String>,
    pub payment_intent_status: Option<String>,
    /// When the change takes effect
    pub effective_at: i128,
    pub schedule_id: Option<String>,
}

/// Invoice PDF result
#[derive(Debug, Clone)]
pub enum InvoicePdfResult {
    /// URL to download the PDF (Stripe)
    Url(String),
    /// PDF bytes generated on-the-fly (Dummy)
    Bytes(Vec<u8>),
    /// No PDF available
    NotAvailable,
}

/// Customer information
#[derive(Debug, Clone)]
pub struct CustomerInfo {
    pub customer_id: CustomerId,
    pub email: Option<String>,
    /// Metadata entries as key/value pairs
    pub metadata: Vec<(String, String)>,
}

/// Result of creating a subscription
#[derive(Debug, Clone)]
pub struct SubscriptionResult {
    /// Provider-specific subscription ID
    pub subscription_id: SubscriptionId,
    /// Provider-specific customer ID
    pub customer_id: CustomerId,
    /// Current status of the subscription
    pub status: SubscriptionStatus,
    /// Start of the current billing period
    pub current_period_start: Option<i128>,
    /// End of the current billing period
    pub current_period_end: Option<i128>,
    /// Trial start (if applicable)
    pub trial_start: Option<i128>,
    /// Trial end (if applicable)
    pub trial_end: Option<i128>,
}

/// Invoice information as a provider reports it
#[derive(Debug, Clone)]
pub struct InvoiceInfo {
    pub invoice_id: String,
    pub customer_id: CustomerId,
    pub amount_cents: i32,
    pub amount_paid_cents: i32,
    pub currency: String,
    pub status: String,
    pub hosted_url: Option<String>,
    pub pdf_url: Option<String>,
    pub invoice_number: Option<String>,
    pub billing_reason: Option<String>,
    pub created_at: Option<i128>,
    pub paid_at: Option<i128>,
}

} // verus!
