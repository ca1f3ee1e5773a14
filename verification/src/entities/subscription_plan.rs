//! Billing interval of a subscription plan.
use vstd::prelude::*;
use crate::text::{
    all_ascii, ascii_lowercase, eq_ignore_ascii_case, lemma_lowercase_ignores_ascii_case, str_eq,
    to_lowercase, unicode_lowercase,
};

verus! {

#[derive(Debug, Clone, Copy, PartialEq, Eq, Structural)]
pub enum BillingInterval {
    Monthly,
    Yearly,
    Custom,
}

impl BillingInterval {
    /// The stored name of each interval.
    pub open spec fn name(self) -> Seq<char> {
        match self {
            BillingInterval::Monthly => "monthly"@,
            BillingInterval::Yearly => "yearly"@,
            BillingInterval::Custom => "custom"@,
        }
    }

    /// The interval a lowercased name reads as; other names read as `Custom`.
    pub open spec fn of_name(s: Seq<char>) -> BillingInterval {
        if s == "monthly"@ {
            BillingInterval::Monthly
        } else if s == "yearly"@ {
            BillingInterval::Yearly
        } else {
            BillingInterval::Custom
        }
    }

    /// The Stripe interval unit of each interval.
    pub open spec fn stripe_unit(self) -> Seq<char> {
        match self {
            BillingInterval::Monthly => "month"@,
            BillingInterval::Yearly => "year"@,
            BillingInterval::Custom => "month"@,
        }
    }

    pub fn as_str(&self) -> (r: &'static str)
        ensures
            r@ == self.name(),
    {
        match self {
            BillingInterval::Monthly => "monthly",
            BillingInterval::Yearly => "yearly",
            BillingInterval::Custom => "custom",
        }
    }

    /// The interval of an already-lowercased name.
    pub fn from_lowercase(lower: &str) -> (r: BillingInterval)
        ensures
            r == BillingInterval::of_name(lower@),
    {
        if str_eq(lower, "monthly") {
            BillingInterval::Monthly
        } else if str_eq(lower, "yearly") {
            BillingInterval::Yearly
        } else {
            BillingInterval::Custom
        }
    }

    pub fn from_str(s: &str) -> (r: BillingInterval)
        ensures
            r == BillingInterval::of_name(unicode_lowercase(s@)),
    {
        let lower: String = to_lowercase(s);
        BillingInterval::from_lowercase(lower.as_str())
    }

    /// Convert to Stripe interval format
    pub fn to_stripe_interval(&self) -> (r: &'static str)
        ensures
            r@ == self.stripe_unit(),
    {
        match self {
            BillingInterval::Monthly => "month",
            BillingInterval::Yearly => "year",
            BillingInterval::Custom => "month",
        }
    }
}

/// Every interval is read back from its stored name.
pub proof fn lemma_billing_interval_name_roundtrip(iv: BillingInterval)
    ensures
        BillingInterval::of_name(iv.name()) == iv,
{
    reveal_strlit("monthly");
    reveal_strlit("yearly");
    reveal_strlit("custom");
    assert("monthly"@.len() == 7);
    assert("yearly"@.len() == 6);
    assert("custom"@.len() == 6);
    assert("custom"@[0] != "yearly"@[0]);
}

/// Reading ignores ASCII case: a name that differs from a stored name only in the
/// case of its letters reads as that interval ("MONTHLY" is monthly).
pub proof fn lemma_billing_interval_parse_ignores_case(iv: BillingInterval, s: Seq<char>)
    requires
        eq_ignore_ascii_case(s, iv.name()),
    ensures
        BillingInterval::of_name(ascii_lowercase(s)) == iv,
{
    reveal_strlit("monthly");
    reveal_strlit("yearly");
    reveal_strlit("custom");
    assert(ascii_lowercase(iv.name()) =~= iv.name());
    lemma_lowercase_ignores_ascii_case(s, iv.name());
    lemma_billing_interval_name_roundtrip(iv);
}

/// A subscription plan as stored.
#[derive(Debug, Clone)]
pub struct SubscriptionPlan {
    pub id: u128,
    pub domain_id: u128,
    pub code: String,
    pub name: String,
    pub description: Option<String>,
    pub price_cents: i32,
    pub currency: String,
    pub interval: BillingInterval,
    pub interval_count: i32,
    pub trial_days: i32,
    pub features: Vec<String>,
    pub is_public: bool,
    pub display_order: i32,
    pub stripe_product_id: Option<String>,
    pub stripe_price_id: Option<String>,
    pub is_archived: bool,
    pub archived_at: Option<i128>,
    pub created_at: Option<i128>,
    pub updated_at: Option<i128>,
}

} // verus!
