//! Subscription plans, manual grants and the subscription facts put in tokens.
use vstd::prelude::*;
use vstd::string::*;
use vstd::utf8::{encode_utf8, is_ascii_chars};
use crate::app_error::AppError;
use crate::billing::plan_change::{timestamp_of, unix_seconds, valid_instant};
use crate::billing::types::{
    CreatePlanInput, CreateSubscriptionEventInput, CreateSubscriptionInput, EventMetadata,
    StripeSubscriptionUpdate, SubscriptionClaims, SubscriptionPlanProfile, UserSubscriptionProfile,
};
use crate::domains::DomainProfile;
use crate::entities::payment_mode::PaymentMode;
use crate::entities::user_subscription::SubscriptionStatus;
use crate::outside::{uuid_text, uuid_to_string};
use crate::text::{all_ascii, ascii_lowercase, concat2, owned, to_lowercase};
use crate::validators::{is_valid_plan_code, plan_code_valid};

verus! {

// ============================================================================
// Domain ownership
// ============================================================================

/// The domain a billing request is about: missing domains are not found, and a
/// domain owned by someone else is forbidden.
pub fn get_domain_verified(found: Option<DomainProfile>, owner_id: u128) -> (r: Result<DomainProfile, AppError>)
    ensures
        found is None ==> r == Err::<DomainProfile, AppError>(AppError::NotFound),
        found is Some && found.unwrap().owner_end_user_id != Some(owner_id) ==> r == Err::<
            DomainProfile,
            AppError,
        >(AppError::Forbidden),
        found is Some && found.unwrap().owner_end_user_id == Some(owner_id) ==> r == Ok::<
            DomainProfile,
            AppError,
        >(found.unwrap()),
{
    match found {
        None => Err(AppError::NotFound),
        Some(domain) => {
            if domain.owner_end_user_id != Some(owner_id) {
                return Err(AppError::Forbidden);
            }
            Ok(domain)
        },
    }
}

// ============================================================================
// Creating plans
// ============================================================================

/// The message given for a plan code that breaks the plan code rules.
pub open spec fn plan_code_message() -> Seq<char> {
    "Plan code must be 1-50 characters using only lowercase letters, numbers, hyphens, and underscores. Must start with a letter or number."@
}

/// Why a new plan is refused, checked in this order: a code that is not ASCII, a
/// lowercased code that breaks the plan code rules, a name that is empty or longer
/// than 100 bytes, a negative price. `None` when the plan is accepted.
pub open spec fn plan_input_refusal(input: CreatePlanInput) -> Option<Seq<char>> {
    let code = ascii_lowercase(input.code@);
    if !is_ascii_chars(input.code@) {
        Some("Plan code must contain only ASCII characters."@)
    } else if !plan_code_valid(code) {
        Some(plan_code_message())
    } else if input.name@.len() == 0 || encode_utf8(input.name@).len() > 100 {
        Some("Plan name must be 1-100 characters"@)
    } else if input.price_cents < 0 {
        Some("Price cannot be negative"@)
    } else {
        None
    }
}

/// Validate a new plan and normalize its code to lowercase; every other field is
/// kept as given.
pub fn prepare_new_plan(input: CreatePlanInput) -> (r: Result<CreatePlanInput, AppError>)
    ensures
        plan_input_refusal(input) matches Some(m) ==> (r matches Err(AppError::InvalidInput(e)) && e@ == m),
        plan_input_refusal(input) is None ==> (r matches Ok(p) && p.code@ == ascii_lowercase(input.code@)
            && p.name == input.name && p.description == input.description && p.price_cents
            == input.price_cents && p.currency == input.currency && p.interval == input.interval
            && p.interval_count == input.interval_count && p.trial_days == input.trial_days
            && p.features == input.features && p.is_public == input.is_public),
{
    let mut input = input;
    // Reject non-ASCII codes before normalization to prevent Unicode case-folding exploits
    // (e.g., Kelvin sign "K" normalizing to ASCII "k")
    if !input.code.is_ascii() {
        return Err(AppError::InvalidInput("Plan code must contain only ASCII characters.".to_owned()));
    }
    proof {
        assert(all_ascii(input.code@)) by {
            assert forall|i: int| 0 <= i < input.code@.len() implies (input.code@[i] as u32) < 128 by {
                assert('\0' <= input.code@[i] <= '\u{7f}');
            }
        }
    }
    // Normalize code to lowercase
    input.code = to_lowercase(input.code.as_str());
    // Validate plan code (must be URL-friendly)
    if !is_valid_plan_code(input.code.as_str()) {
        return Err(AppError::InvalidInput(
            "Plan code must be 1-50 characters using only lowercase letters, numbers, hyphens, and underscores. Must start with a letter or number.".to_owned(),
        ));
    }
    if input.name.as_str().is_empty() || input.name.as_str().as_bytes().len() > 100 {
        return Err(AppError::InvalidInput("Plan name must be 1-100 characters".to_owned()));
    }
    if input.price_cents < 0 {
        return Err(AppError::InvalidInput("Price cannot be negative".to_owned()));
    }
    Ok(input)
}

// ============================================================================
// Existing plans
// ============================================================================

/// The plan a request names, when it belongs to the domain; else not found.
pub fn check_plan_in_domain(found: Option<SubscriptionPlanProfile>, domain_id: u128) -> (r: Result<SubscriptionPlanProfile, AppError>)
    ensures
        found is Some && found.unwrap().domain_id == domain_id ==> r == Ok::<
            SubscriptionPlanProfile,
            AppError,
        >(found.unwrap()),
        !(found is Some && found.unwrap().domain_id == domain_id) ==> r == Err::<
            SubscriptionPlanProfile,
            AppError,
        >(AppError::NotFound),
{
    match found {
        None => Err(AppError::NotFound),
        Some(plan) => {
            if plan.domain_id != domain_id {
                return Err(AppError::NotFound);
            }
            Ok(plan)
        },
    }
}

/// A plan with subscribers cannot be deleted.
pub fn check_plan_deletable(subscriber_count: i64) -> (r: Result<(), AppError>)
    ensures
        subscriber_count <= 0 ==> r is Ok,
        subscriber_count > 0 ==> (r matches Err(AppError::InvalidInput(m)) && m@
            == "Cannot delete plan with active subscribers. Archive it instead."@),
{
    if subscriber_count > 0 {
        return Err(AppError::InvalidInput(
            "Cannot delete plan with active subscribers. Archive it instead.".to_owned(),
        ));
    }
    Ok(())
}

/// One plan named in a reorder request: it must exist (else not found) and belong
/// to the domain (else forbidden).
pub fn check_reorder_entry(found: &Option<SubscriptionPlanProfile>, domain_id: u128) -> (r: Result<(), AppError>)
    ensures
        found is None ==> r == Err::<(), AppError>(AppError::NotFound),
        found is Some && found.unwrap().domain_id != domain_id ==> r == Err::<(), AppError>(
            AppError::Forbidden,
        ),
        found is Some && found.unwrap().domain_id == domain_id ==> r is Ok,
{
    match found {
        None => Err(AppError::NotFound),
        Some(plan) => {
            if plan.domain_id != domain_id {
                return Err(AppError::Forbidden);
            }
            Ok(())
        },
    }
}

/// The display order given to each plan of a reorder request: its position.
pub fn display_orders(plan_ids: &Vec<u128>) -> (r: Vec<(u128, i32)>)
    ensures
        r@.len() == plan_ids@.len(),
        forall|i: int| 0 <= i < r@.len() ==> #[trigger] r@[i] == (plan_ids@[i], i as i32),
{
    let mut r: Vec<(u128, i32)> = Vec::new();
    let mut i: usize = 0;
    while i < plan_ids.len()
        invariant
            i <= plan_ids@.len(),
            r@.len() == i,
            forall|k: int| 0 <= k < i ==> #[trigger] r@[k] == (plan_ids@[k], k as i32),
        decreases plan_ids@.len() - i,
    {
        r.push((plan_ids[i], i as i32));
        i = i + 1;
    }
    r
}

// ============================================================================
// Manual grants
// ============================================================================

/// The message given when a plan of one mode is granted while the domain is in
/// another.
pub open spec fn grant_mode_message(plan_mode: PaymentMode, active_mode: PaymentMode) -> Seq<char> {
    "Cannot grant subscription to a plan in "@ + plan_mode.name() + " mode when active mode is "@
        + active_mode.name()
}

/// The plan a grant names: it must belong to the domain (else not found) and be
/// in the domain's active mode.
pub fn check_grant_plan(domain: &DomainProfile, found: Option<SubscriptionPlanProfile>) -> (r: Result<SubscriptionPlanProfile, AppError>)
    ensures
        !(found is Some && found.unwrap().domain_id == domain.id) ==> r == Err::<
            SubscriptionPlanProfile,
            AppError,
        >(AppError::NotFound),
        found is Some && found.unwrap().domain_id == domain.id && found.unwrap().payment_mode
            != domain.active_payment_mode ==> (r matches Err(AppError::InvalidInput(m)) && m@
            == grant_mode_message(found.unwrap().payment_mode, domain.active_payment_mode)),
        found is Some && found.unwrap().domain_id == domain.id && found.unwrap().payment_mode
            == domain.active_payment_mode ==> r == Ok::<SubscriptionPlanProfile, AppError>(
            found.unwrap(),
        ),
{
    let plan: SubscriptionPlanProfile = match check_plan_in_domain(found, domain.id) {
        Ok(p) => p,
        Err(e) => return Err(e),
    };
    if plan.payment_mode != domain.active_payment_mode {
        let mut m: String = concat2("Cannot grant subscription to a plan in ", plan.payment_mode.as_str());
        m.append(" mode when active mode is ");
        m.append(domain.active_payment_mode.as_str());
        return Err(AppError::InvalidInput(m));
    }
    Ok(plan)
}

/// The event recorded when an owner grants a subscription.
pub fn granted_event(subscription_id: u128, owner_id: u128) -> (r: CreateSubscriptionEventInput)
    ensures
        r.subscription_id == subscription_id,
        r.event_type@ == "granted"@,
        r.previous_status is None,
        r.new_status == Some(SubscriptionStatus::Active),
        r.stripe_event_id is None,
        r.metadata == EventMetadata::GrantedBy(owner_id),
        r.created_by == Some(owner_id),
{
    CreateSubscriptionEventInput {
        subscription_id,
        event_type: "granted".to_owned(),
        previous_status: None,
        new_status: Some(SubscriptionStatus::Active),
        stripe_event_id: None,
        metadata: EventMetadata::GrantedBy(owner_id),
        created_by: Some(owner_id),
    }
}

/// The event recorded, before revoking, when an owner revokes a subscription.
pub fn revoked_event(sub: &UserSubscriptionProfile, owner_id: u128) -> (r: CreateSubscriptionEventInput)
    ensures
        r.subscription_id == sub.id,
        r.event_type@ == "revoked"@,
        r.previous_status == Some(sub.status),
        r.new_status == Some(SubscriptionStatus::Canceled),
        r.stripe_event_id is None,
        r.metadata == EventMetadata::RevokedBy(owner_id),
        r.created_by == Some(owner_id),
{
    CreateSubscriptionEventInput {
        subscription_id: sub.id,
        event_type: "revoked".to_owned(),
        previous_status: Some(sub.status),
        new_status: Some(SubscriptionStatus::Canceled),
        stripe_event_id: None,
        metadata: EventMetadata::RevokedBy(owner_id),
        created_by: Some(owner_id),
    }
}

/// The event recorded for a payment provider's webhook.
pub fn webhook_event(
    subscription_id: u128,
    event_type: &str,
    previous_status: Option<SubscriptionStatus>,
    new_status: Option<SubscriptionStatus>,
    stripe_event_id: &str,
    metadata_json: String,
) -> (r: CreateSubscriptionEventInput)
    ensures
        r.subscription_id == subscription_id,
        r.event_type@ == event_type@,
        r.previous_status == previous_status,
        r.new_status == new_status,
        r.stripe_event_id matches Some(id) && id@ == stripe_event_id@,
        r.metadata == EventMetadata::Raw(metadata_json),
        r.created_by is None,
{
    CreateSubscriptionEventInput {
        subscription_id,
        event_type: owned(event_type),
        previous_status,
        new_status,
        stripe_event_id: Some(owned(stripe_event_id)),
        metadata: EventMetadata::Raw(metadata_json),
        created_by: None,
    }
}

// ============================================================================
// Subscriptions
// ============================================================================

/// A subscription together with its plan; a subscription whose plan is missing is
/// an internal error.
pub fn subscription_with_plan(sub: UserSubscriptionProfile, plan: Option<SubscriptionPlanProfile>) -> (r: Result<(UserSubscriptionProfile, SubscriptionPlanProfile), AppError>)
    ensures
        plan is Some ==> r == Ok::<(UserSubscriptionProfile, SubscriptionPlanProfile), AppError>(
            (sub, plan.unwrap()),
        ),
        plan is None ==> (r matches Err(AppError::Internal(m)) && m@ == "Plan not found"@),
{
    match plan {
        Some(p) => Ok((sub, p)),
        None => Err(AppError::Internal("Plan not found".to_owned())),
    }
}

/// The update applied when a provider reports a subscription for a user who
/// already has one in that mode: the new plan, provider ids, status and periods,
/// with any pending cancellation cleared.
pub fn subscription_update_for(input: &CreateSubscriptionInput) -> (r: StripeSubscriptionUpdate)
    ensures
        r.status == input.status,
        r.plan_id == Some(input.plan_id),
        r.stripe_subscription_id == input.stripe_subscription_id,
        r.current_period_start == input.current_period_start,
        r.current_period_end == input.current_period_end,
        !r.cancel_at_period_end,
        r.canceled_at is None,
        r.trial_start == input.trial_start,
        r.trial_end == input.trial_end,
{
    let sid: Option<String> = match &input.stripe_subscription_id {
        Some(s) => Some(s.clone()),
        None => None,
    };
    StripeSubscriptionUpdate {
        status: input.status,
        plan_id: Some(input.plan_id),
        stripe_subscription_id: sid,
        current_period_start: input.current_period_start,
        current_period_end: input.current_period_end,
        cancel_at_period_end: false,
        canceled_at: None,
        trial_start: input.trial_start,
        trial_end: input.trial_end,
    }
}

/// The Unix timestamp of an optional instant.
pub open spec fn opt_seconds(t: Option<i128>) -> Option<i64> {
    match t {
        Some(v) => Some(unix_seconds(v as int) as i64),
        None => None,
    }
}

fn opt_timestamp(t: Option<i128>) -> (r: Option<i64>)
    requires
        t matches Some(v) ==> valid_instant(v as int),
    ensures
        r == opt_seconds(t),
{
    match t {
        Some(v) => Some(timestamp_of(v)),
        None => None,
    }
}

/// The subscription facts put in a user's token: "none" when the user has no
/// subscription in the active mode, else its status, plan, period end,
/// cancellation flag, trial end and id.
pub fn subscription_claims(sub: Option<UserSubscriptionProfile>, plan: Option<SubscriptionPlanProfile>) -> (r: SubscriptionClaims)
    requires
        sub matches Some(s) ==> (s.current_period_end matches Some(t) ==> valid_instant(t as int)),
        sub matches Some(s) ==> (s.trial_end matches Some(t) ==> valid_instant(t as int)),
    ensures
        sub is None ==> r.status@ == "none"@ && r.plan_code is None && r.plan_name is None
            && r.current_period_end is None && r.cancel_at_period_end is None && r.trial_ends_at is None
            && r.subscription_id is None,
        sub matches Some(s) ==> {
            &&& r.status@ == s.status.name()
            &&& r.plan_code == (match plan {
                Some(p) => Some(p.code),
                None => None::<String>,
            })
            &&& r.plan_name == (match plan {
                Some(p) => Some(p.name),
                None => None::<String>,
            })
            &&& r.current_period_end == opt_seconds(s.current_period_end)
            &&& r.cancel_at_period_end == Some(s.cancel_at_period_end)
            &&& r.trial_ends_at == opt_seconds(s.trial_end)
            &&& r.subscription_id matches Some(id) && id@ == uuid_text(s.id)
        },
{
    match sub {
        None => SubscriptionClaims::none(),
        Some(s) => {
            let (plan_code, plan_name): (Option<String>, Option<String>) = match plan {
                Some(p) => (Some(p.code), Some(p.name)),
                None => (None, None),
            };
            SubscriptionClaims {
                status: owned(s.status.as_str()),
                plan_code,
                plan_name,
                current_period_end: opt_timestamp(s.current_period_end),
                cancel_at_period_end: Some(s.cancel_at_period_end),
                trial_ends_at: opt_timestamp(s.trial_end),
                subscription_id: Some(uuid_to_string(s.id)),
            }
        },
    }
}

/// A new plan is accepted exactly when its code is ASCII and, lowercased, follows
/// the plan code rules, its name has 1 to 100 bytes, and its price is zero or
/// more: a free plan is accepted, and only a price below zero is refused for its
/// price.
pub proof fn lemma_plan_input_acceptance(input: CreatePlanInput)
    ensures
        plan_input_refusal(input) is None <==> (is_ascii_chars(input.code@) && plan_code_valid(
            ascii_lowercase(input.code@),
        ) && input.name@.len() > 0 && encode_utf8(input.name@).len() <= 100 && input.price_cents >= 0),
        is_ascii_chars(input.code@) && plan_code_valid(ascii_lowercase(input.code@)) && input.name@.len() > 0
            && encode_utf8(input.name@).len() <= 100 && input.price_cents < 0 ==> plan_input_refusal(input)
            == Some("Price cannot be negative"@),
{
}

/// The price does not decide whether a plan is accepted, as long as it is not
/// negative: two plans that differ only in such prices are both accepted or both
/// refused, for the same reason.
pub proof fn lemma_plan_price_irrelevant_when_not_negative(a: CreatePlanInput, b: CreatePlanInput)
    requires
        a.code == b.code,
        a.name == b.name,
        a.price_cents >= 0,
        b.price_cents >= 0,
    ensures
        plan_input_refusal(a) == plan_input_refusal(b),
{
}

} // verus!
