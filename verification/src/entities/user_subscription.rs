//! Status of an end user's subscription.
use vstd::prelude::*;
use crate::text::{
    all_ascii, ascii_lowercase, eq_ignore_ascii_case, lemma_lowercase_ignores_ascii_case, str_eq,
    to_lowercase, unicode_lowercase,
};

verus! {

#[derive(Debug, Clone, Copy, PartialEq, Eq, Structural)]
pub enum SubscriptionStatus {
    Active,
    PastDue,
    Canceled,
    Trialing,
    Incomplete,
    IncompleteExpired,
    Unpaid,
    Paused,
}

impl SubscriptionStatus {
    /// The stored name of each status.
    pub open spec fn name(self) -> Seq<char> {
        match self {
            SubscriptionStatus::Active => "active"@,
            SubscriptionStatus::PastDue => "past_due"@,
            SubscriptionStatus::Canceled => "canceled"@,
            SubscriptionStatus::Trialing => "trialing"@,
            SubscriptionStatus::Incomplete => "incomplete"@,
            SubscriptionStatus::IncompleteExpired => "incomplete_expired"@,
            SubscriptionStatus::Unpaid => "unpaid"@,
            SubscriptionStatus::Paused => "paused"@,
        }
    }

    /// The status a Stripe status name maps to; unknown names map to `Incomplete`.
    pub open spec fn of_stripe(s: Seq<char>) -> SubscriptionStatus {
        if s == "active"@ {
            SubscriptionStatus::Active
        } else if s == "past_due"@ {
            SubscriptionStatus::PastDue
        } else if s == "canceled"@ {
            SubscriptionStatus::Canceled
        } else if s == "trialing"@ {
            SubscriptionStatus::Trialing
        } else if s == "incomplete"@ {
            SubscriptionStatus::Incomplete
        } else if s == "incomplete_expired"@ {
            SubscriptionStatus::IncompleteExpired
        } else if s == "unpaid"@ {
            SubscriptionStatus::Unpaid
        } else if s == "paused"@ {
            SubscriptionStatus::Paused
        } else {
            SubscriptionStatus::Incomplete
        }
    }

    /// The status a lowercased stored name reads as; the British spelling
    /// "cancelled" is accepted too.
    pub open spec fn of_name(s: Seq<char>) -> SubscriptionStatus {
        if s == "cancelled"@ {
            SubscriptionStatus::Canceled
        } else {
            SubscriptionStatus::of_stripe(s)
        }
    }

    /// Statuses that give access to subscription features.
    pub open spec fn grants_access(self) -> bool {
        self == SubscriptionStatus::Active || self == SubscriptionStatus::Trialing
    }

    pub fn as_str(&self) -> (r: &'static str)
        ensures
            r@ == self.name(),
    {
        match self {
            SubscriptionStatus::Active => "active",
            SubscriptionStatus::PastDue => "past_due",
            SubscriptionStatus::Canceled => "canceled",
            SubscriptionStatus::Trialing => "trialing",
            SubscriptionStatus::Incomplete => "incomplete",
            SubscriptionStatus::IncompleteExpired => "incomplete_expired",
            SubscriptionStatus::Unpaid => "unpaid",
            SubscriptionStatus::Paused => "paused",
        }
    }

    /// The status of an already-lowercased stored name.
    pub fn from_lowercase(lower: &str) -> (r: SubscriptionStatus)
        ensures
            r == SubscriptionStatus::of_name(lower@),
    {
        if str_eq(lower, "cancelled") {
            SubscriptionStatus::Canceled
        } else {
            SubscriptionStatus::from_stripe(lower)
        }
    }

    pub fn from_str(s: &str) -> (r: SubscriptionStatus)
        ensures
            r == SubscriptionStatus::of_name(unicode_lowercase(s@)),
            all_ascii(s@) ==> r == SubscriptionStatus::of_name(ascii_lowercase(s@)),
    {
        let lower: String = to_lowercase(s);
        SubscriptionStatus::from_lowercase(lower.as_str())
    }

    /// Convert from Stripe subscription status string
    pub fn from_stripe(s: &str) -> (r: SubscriptionStatus)
        ensures
            r == SubscriptionStatus::of_stripe(s@),
    {
        if str_eq(s, "active") {
            SubscriptionStatus::Active
        } else if str_eq(s, "past_due") {
            SubscriptionStatus::PastDue
        } else if str_eq(s, "canceled") {
            SubscriptionStatus::Canceled
        } else if str_eq(s, "trialing") {
            SubscriptionStatus::Trialing
        } else if str_eq(s, "incomplete") {
            SubscriptionStatus::Incomplete
        } else if str_eq(s, "incomplete_expired") {
            SubscriptionStatus::IncompleteExpired
        } else if str_eq(s, "unpaid") {
            SubscriptionStatus::Unpaid
        } else if str_eq(s, "paused") {
            SubscriptionStatus::Paused
        } else {
            SubscriptionStatus::Incomplete
        }
    }

    /// Returns true if user should have access to subscription features
    pub fn is_active(&self) -> (r: bool)
        ensures
            r == self.grants_access(),
    {
        matches!(self, SubscriptionStatus::Active | SubscriptionStatus::Trialing)
    }

    /// Returns true if user is in a grace period (past due but not yet canceled)
    pub fn is_grace_period(&self) -> (r: bool)
        ensures
            r == (*self == SubscriptionStatus::PastDue),
    {
        matches!(self, SubscriptionStatus::PastDue)
    }
}

/// Every status is read back from its own stored name, by both readers.
pub proof fn lemma_subscription_status_name_roundtrip(st: SubscriptionStatus)
    ensures
        SubscriptionStatus::of_stripe(st.name()) == st,
        SubscriptionStatus::of_name(st.name()) == st,
{
    reveal_strlit("active");
    reveal_strlit("past_due");
    reveal_strlit("canceled");
    reveal_strlit("cancelled");
    reveal_strlit("trialing");
    reveal_strlit("incomplete");
    reveal_strlit("incomplete_expired");
    reveal_strlit("unpaid");
    reveal_strlit("paused");
    assert("active"@.len() == 6);
    assert("past_due"@.len() == 8);
    assert("canceled"@.len() == 8);
    assert("cancelled"@.len() == 9);
    assert("trialing"@.len() == 8);
    assert("incomplete"@.len() == 10);
    assert("incomplete_expired"@.len() == 18);
    assert("unpaid"@.len() == 6);
    assert("paused"@.len() == 6);
    assert("past_due"@[0] != "canceled"@[0]);
    assert("past_due"@[0] != "trialing"@[0]);
    assert("canceled"@[0] != "trialing"@[0]);
    assert("active"@[0] != "unpaid"@[0]);
    assert("active"@[0] != "paused"@[0]);
    assert("unpaid"@[0] != "paused"@[0]);
}

/// Reading ignores ASCII case: a name that differs from a status's stored name
/// only in the case of its letters reads as that status ("PAST_DUE" is past due).
pub proof fn lemma_subscription_status_parse_ignores_case(st: SubscriptionStatus, s: Seq<char>)
    requires
        eq_ignore_ascii_case(s, st.name()),
    ensures
        SubscriptionStatus::of_name(ascii_lowercase(s)) == st,
{
    reveal_strlit("active");
    reveal_strlit("past_due");
    reveal_strlit("canceled");
    reveal_strlit("trialing");
    reveal_strlit("incomplete");
    reveal_strlit("incomplete_expired");
    reveal_strlit("unpaid");
    reveal_strlit("paused");
    assert(ascii_lowercase(st.name()) =~= st.name());
    lemma_lowercase_ignores_ascii_case(s, st.name());
    lemma_subscription_status_name_roundtrip(st);
}

/// A Stripe status name that names a status other than the fallback reads as the
/// same status when it is read as a stored name, whatever its ASCII case.
pub proof fn lemma_status_readers_agree(s: Seq<char>)
    requires
        SubscriptionStatus::of_stripe(s) != SubscriptionStatus::Incomplete,
    ensures
        SubscriptionStatus::of_name(ascii_lowercase(s)) == SubscriptionStatus::of_stripe(s),
{
    let st = SubscriptionStatus::of_stripe(s);
    assert(s == st.name());
    lemma_subscription_status_parse_ignores_case(st, s);
}

/// An end user's subscription as stored.
#[derive(Debug, Clone)]
pub struct UserSubscription {
    pub id: u128,
    pub domain_id: u128,
    pub end_user_id: u128,
    pub plan_id: u128,
    pub status: SubscriptionStatus,
    pub stripe_customer_id: String,
    pub stripe_subscription_id: Option<String>,
    pub current_period_start: Option<i128>,
    pub current_period_end: Option<i128>,
    pub trial_start: Option<i128>,
    pub trial_end: Option<i128>,
    pub cancel_at_period_end: bool,
    pub canceled_at: Option<i128>,
    pub manually_granted: bool,
    pub granted_by: Option<u128>,
    pub granted_at: Option<i128>,
    pub created_at: Option<i128>,
    pub updated_at: Option<i128>,
    // Rate limiting for plan changes
    pub changes_this_period: i32,
    pub period_changes_reset_at: Option<i128>,
}

/// A change in a subscription's life, as recorded.
#[derive(Debug, Clone)]
pub struct SubscriptionEvent {
    pub id: u128,
    pub subscription_id: u128,
    pub event_type: String,
    pub previous_status: Option<SubscriptionStatus>,
    pub new_status: Option<SubscriptionStatus>,
    pub stripe_event_id: Option<String>,
    /// The event's JSON metadata, as text.
    pub metadata: String,
    pub created_by: Option<u128>,
    pub created_at: Option<i128>,
}

} // verus!
