//! Plan changes: who may change plan, what a change costs, and how it is recorded.
//!
//! Instants are nanoseconds since the Unix epoch (UTC); durations between
//! instants are counted in whole seconds, truncated toward zero.
use vstd::prelude::*;
use vstd::arithmetic::div_mod::lemma_fundamental_div_mod_converse;
use crate::app_error::AppError;
use crate::billing::types::{
    CreateSubscriptionEventInput, EventMetadata, PlanChangePreview, PlanChangeResult, PlanChangeType,
    SubscriptionPlanProfile, UserSubscriptionProfile,
};
use crate::entities::user_subscription::SubscriptionStatus;
use crate::payment_port::{PlanChangeType as ProviderChangeType, ProviderPlanChangeResult, SubscriptionInfo, PlanInfo};
use crate::text::{concat3, str_eq};

verus! {

/// Maximum number of plan changes allowed per billing period
pub const MAX_PLAN_CHANGES_PER_PERIOD: i32 = 5;

/// Nanoseconds in one second.
pub const NANOS_PER_SECOND: i128 = 1_000_000_000;

/// An instant the service can hold: within ten million years of the epoch.
pub open spec fn valid_instant(t: int) -> bool {
    -10_000_000_000_000_000_000_000_000 <= t <= 10_000_000_000_000_000_000_000_000
}

/// Whole seconds in a duration of `d` nanoseconds, truncated toward zero.
pub open spec fn whole_seconds(d: int) -> int {
    if d >= 0 {
        d / 1_000_000_000
    } else {
        -((-d) / 1_000_000_000)
    }
}

/// The Unix timestamp (whole seconds, rounded down) of an instant.
pub open spec fn unix_seconds(t: int) -> int {
    t / 1_000_000_000
}

/// Whole seconds from `earlier` to `later`.
pub fn seconds_between(later: i128, earlier: i128) -> (r: i64)
    requires
        valid_instant(later as int),
        valid_instant(earlier as int),
    ensures
        r == whole_seconds(later - earlier),
{
    let d: i128 = later - earlier;
    if d >= 0 {
        (d / NANOS_PER_SECOND) as i64
    } else {
        let m: i128 = -d;
        -((m / NANOS_PER_SECOND) as i64)
    }
}

/// The Unix timestamp of an instant.
pub fn timestamp_of(t: i128) -> (r: i64)
    requires
        valid_instant(t as int),
    ensures
        r == unix_seconds(t as int),
{
    if t >= 0 {
        (t / NANOS_PER_SECOND) as i64
    } else {
        let m: i128 = -t;
        let q: i128 = m / NANOS_PER_SECOND;
        let rem: i128 = m % NANOS_PER_SECOND;
        if rem == 0 {
            proof {
                lemma_fundamental_div_mod_converse(t as int, 1_000_000_000, -(q as int), 0);
            }
            -(q as i64)
        } else {
            proof {
                lemma_fundamental_div_mod_converse(
                    t as int,
                    1_000_000_000,
                    -(q as int) - 1,
                    1_000_000_000 - rem as int,
                );
            }
            -(q as i64) - 1
        }
    }
}

// ============================================================================
// Proration
// ============================================================================

/// `n / d` rounded to the nearest integer, halves away from zero (`d > 0`).
pub open spec fn round_div_half_away(n: int, d: int) -> int {
    if n >= 0 {
        (2 * n + d) / (2 * d)
    } else {
        -((-2 * n + d) / (2 * d))
    }
}

/// The prorated charge of a plan change, from the whole seconds of the period and
/// of what remains of it: `charge - credit` where `charge = new * remaining/total`
/// and `credit = current * remaining/total` (no credit on a trial), rounded to a
/// whole cent; nothing when the period is empty or over.
pub open spec fn proration(current: int, new: int, total: int, remaining: int, is_trial: bool) -> int {
    if total <= 0 || remaining <= 0 {
        0
    } else {
        round_div_half_away((new - if is_trial { 0 } else { current }) * remaining, total)
    }
}

/// `v` held to the range of `i64`, as a float-to-integer cast saturates.
pub open spec fn clamp_i64(v: int) -> int {
    if v > i64::MAX {
        i64::MAX as int
    } else if v < i64::MIN {
        i64::MIN as int
    } else {
        v
    }
}

/// The proration of a change at instant `now` within the period `[start, end]`.
pub open spec fn proration_at(
    current: int,
    new: int,
    start: int,
    end: int,
    now: int,
    is_trial: bool,
) -> int {
    clamp_i64(proration(current, new, whole_seconds(end - start), whole_seconds(end - now), is_trial))
}

/// Calculates the prorated amount for a plan change (upgrade or downgrade).
///
/// Standard proration formula:
/// - remaining_ratio = remaining_seconds / total_seconds
/// - credit = current_price * remaining_ratio (0 if on trial)
/// - charge = new_price * remaining_ratio
/// - proration = charge - credit
///
/// For upgrades, result is positive (user pays the difference).
/// For downgrades, result is negative (user would get credit, but we schedule instead).
/// For trials, no credit is given since nothing was paid yet.
pub fn calculate_proration(
    current_price_cents: i64,
    new_price_cents: i64,
    period_start: i128,
    period_end: i128,
    now: i128,
    is_trial: bool,
) -> (r: i64)
    requires
        valid_instant(period_start as int),
        valid_instant(period_end as int),
        valid_instant(now as int),
    ensures
        r == proration_at(
            current_price_cents as int,
            new_price_cents as int,
            period_start as int,
            period_end as int,
            now as int,
            is_trial,
        ),
{
    let total: i64 = seconds_between(period_end, period_start);
    let remaining: i64 = seconds_between(period_end, now);
    if total <= 0 || remaining <= 0 {
        return 0;
    }
    let credit_price: i128 = if is_trial { 0 } else { current_price_cents as i128 };
    let diff: i128 = new_price_cents as i128 - credit_price;
    assert(-36893488147419103232 <= diff <= 36893488147419103232);
    assert(0 < remaining <= 20_000_000_000_000_000);
    assert(-36893488147419103232 * 20_000_000_000_000_000 <= diff * remaining
        <= 36893488147419103232 * 20_000_000_000_000_000) by (nonlinear_arith)
        requires
            -36893488147419103232 <= diff <= 36893488147419103232,
            0 < remaining <= 20_000_000_000_000_000,
    ;
    let n: i128 = diff * (remaining as i128);
    let d: i128 = total as i128;
    let rounded: i128 = if n >= 0 {
        (2 * n + d) / (2 * d)
    } else {
        -((-2 * n + d) / (2 * d))
    };
    assert(rounded == round_div_half_away(n as int, d as int));
    if rounded > i64::MAX as i128 {
        i64::MAX
    } else if rounded < i64::MIN as i128 {
        i64::MIN
    } else {
        rounded as i64
    }
}

/// Proration is antisymmetric outside trials: changing back costs exactly the
/// opposite; a change between equal prices costs nothing; and an upgrade never
/// gives a credit nor a downgrade a charge.
pub proof fn lemma_proration_antisymmetric(current: int, new: int, total: int, remaining: int)
    ensures
        proration(current, new, total, remaining, false) == -proration(
            new,
            current,
            total,
            remaining,
            false,
        ),
        proration(current, current, total, remaining, false) == 0,
        new >= current ==> proration(current, new, total, remaining, false) >= 0,
        new <= current ==> proration(current, new, total, remaining, false) <= 0,
{
    if total > 0 && remaining > 0 {
        let n = (new - current) * remaining;
        assert((current - new) * remaining == -n) by (nonlinear_arith)
            requires
                n == (new - current) * remaining,
        ;
        assert((current - current) * remaining == 0) by (nonlinear_arith);
        assert((2 * 0 + total) / (2 * total) == 0) by (nonlinear_arith)
            requires
                total > 0,
        ;
        assert(new >= current ==> n >= 0) by (nonlinear_arith)
            requires
                n == (new - current) * remaining,
                remaining > 0,
        ;
        assert(new <= current ==> n <= 0) by (nonlinear_arith)
            requires
                n == (new - current) * remaining,
                remaining > 0,
        ;
        if n > 0 {
            assert((2 * n + total) / (2 * total) >= 0) by (nonlinear_arith)
                requires
                    n > 0,
                    total > 0,
            ;
        } else if n < 0 {
            assert((-2 * n + total) / (2 * total) >= 0) by (nonlinear_arith)
                requires
                    n < 0,
                    total > 0,
            ;
        } else {
            assert(total / (2 * total) == 0) by (nonlinear_arith)
                requires
                    total > 0,
            ;
        }
    }
}

/// A change proposed once the period is over, or within an empty period, costs nothing.
pub proof fn lemma_proration_after_period_is_zero(
    current: int,
    new: int,
    start: int,
    end: int,
    now: int,
    is_trial: bool,
)
    requires
        now >= end || end <= start,
    ensures
        proration_at(current, new, start, end, now, is_trial) == 0,
{
}

// ============================================================================
// Classification
// ============================================================================

/// A higher price is an upgrade, a lower one a downgrade, an equal one lateral.
pub open spec fn change_kind(current_price: int, new_price: int) -> PlanChangeType {
    if new_price > current_price {
        PlanChangeType::Upgrade
    } else if new_price < current_price {
        PlanChangeType::Downgrade
    } else {
        PlanChangeType::Lateral
    }
}

/// Determine change type based on price
/// - Higher price = Upgrade (immediate)
/// - Lower price = Downgrade (scheduled)
/// - Same price = Lateral (scheduled)
pub fn classify_plan_change(current_price_cents: i64, new_price_cents: i64) -> (r: PlanChangeType)
    ensures
        r == change_kind(current_price_cents as int, new_price_cents as int),
{
    if new_price_cents > current_price_cents {
        PlanChangeType::Upgrade
    } else if new_price_cents < current_price_cents {
        PlanChangeType::Downgrade
    } else {
        PlanChangeType::Lateral
    }
}

// ============================================================================
// Rate limiting
// ============================================================================

/// The changes counted against the current period: the stored count, unless the
/// period it was counted in has already passed.
pub open spec fn changes_in_period(counted: int, reset_at: Option<i128>, now: int) -> int {
    match reset_at {
        Some(reset) => if (reset as int) < now {
            0
        } else {
            counted
        },
        None => 0,
    }
}

/// The plan changes still allowed this period.
pub open spec fn changes_left(counted: int, reset_at: Option<i128>, now: int) -> int {
    let rest = MAX_PLAN_CHANGES_PER_PERIOD - changes_in_period(counted, reset_at, now);
    if rest > 0 {
        rest
    } else {
        0
    }
}

/// Plan changes already made this period.
pub fn current_period_changes(sub: &UserSubscriptionProfile, now: i128) -> (r: i32)
    ensures
        r == changes_in_period(sub.changes_this_period as int, sub.period_changes_reset_at, now as int),
{
    match sub.period_changes_reset_at {
        Some(reset_at) => if reset_at < now {
            0
        } else {
            sub.changes_this_period
        },
        None => 0,
    }
}

/// Plan changes still allowed this period, never negative.
pub fn changes_remaining(sub: &UserSubscriptionProfile, now: i128) -> (r: i32)
    requires
        MAX_PLAN_CHANGES_PER_PERIOD - sub.changes_this_period <= i32::MAX,
    ensures
        r == changes_left(sub.changes_this_period as int, sub.period_changes_reset_at, now as int),
        0 <= r,
        sub.changes_this_period >= 0 ==> r <= MAX_PLAN_CHANGES_PER_PERIOD,
{
    let current: i32 = current_period_changes(sub, now);
    let rest: i32 = MAX_PLAN_CHANGES_PER_PERIOD - current;
    if rest > 0 {
        rest
    } else {
        0
    }
}

/// The message given once a period's plan changes are used up.
pub open spec fn rate_limit_message() -> Seq<char> {
    "Maximum plan changes (5) reached for this billing period. Try again after your next billing date."@
}

/// The error given once a period's plan changes are used up.
pub fn rate_limit_error() -> (r: AppError)
    ensures
        r matches AppError::InvalidInput(m) && m@ == rate_limit_message(),
{
    AppError::InvalidInput(
        "Maximum plan changes (5) reached for this billing period. Try again after your next billing date.".to_owned(),
    )
}

// ============================================================================
// Validation
// ============================================================================

/// Why a subscription may not change plan, if it may not.
pub open spec fn plan_change_refusal(
    manually_granted: bool,
    has_external_id: bool,
    changes: int,
    status: SubscriptionStatus,
    cancel_at_period_end: bool,
) -> Option<Seq<char>> {
    if manually_granted {
        Some("Cannot change plan for manually granted subscriptions"@)
    } else if !has_external_id {
        Some("Cannot change plan: subscription not linked to Stripe"@)
    } else if changes >= MAX_PLAN_CHANGES_PER_PERIOD {
        Some(rate_limit_message())
    } else {
        match status {
            SubscriptionStatus::Active | SubscriptionStatus::Trialing => None,
            SubscriptionStatus::Canceled => if cancel_at_period_end {
                None
            } else {
                Some(
                    "Cannot change plan on a canceled subscription. Please subscribe again."@,
                )
            },
            SubscriptionStatus::PastDue => Some(
                "Cannot change plan while payment is past due. Please update your payment method first."@,
            ),
            SubscriptionStatus::Incomplete => Some(
                "Cannot change plan: please complete the current payment first."@,
            ),
            SubscriptionStatus::IncompleteExpired => Some(
                "Subscription has expired. Please subscribe again."@,
            ),
            SubscriptionStatus::Unpaid => Some(
                "Cannot change plan while subscription is unpaid. Please update your payment method."@,
            ),
            SubscriptionStatus::Paused => Some("Cannot change plan while subscription is paused."@),
        }
    }
}

/// `plan_change_refusal` for a stored subscription at instant `now`.
pub open spec fn subscription_refusal(sub: UserSubscriptionProfile, now: int) -> Option<Seq<char>> {
    plan_change_refusal(
        sub.manually_granted,
        sub.stripe_subscription_id is Some,
        changes_in_period(sub.changes_this_period as int, sub.period_changes_reset_at, now),
        sub.status,
        sub.cancel_at_period_end,
    )
}

/// A result that is `Ok` exactly when `refusal` is `None`, and otherwise an
/// invalid-input error with the refusal as its message.
pub open spec fn refused_as(r: Result<(), AppError>, refusal: Option<Seq<char>>) -> bool {
    match refusal {
        None => r is Ok,
        Some(msg) => r matches Err(AppError::InvalidInput(m)) && m@ == msg,
    }
}

fn invalid_input(msg: &str) -> (r: AppError)
    ensures
        r matches AppError::InvalidInput(m) && m@ == msg@,
{
    AppError::InvalidInput(msg.to_owned())
}

/// Validate that a subscription is in a state that allows plan changes
pub fn validate_subscription_for_plan_change(sub: &UserSubscriptionProfile, now: i128) -> (r: Result<(), AppError>)
    ensures
        refused_as(r, subscription_refusal(*sub, now as int)),
{
    // Check if manually granted
    if sub.manually_granted {
        return Err(invalid_input("Cannot change plan for manually granted subscriptions"));
    }
    // Check if has Stripe subscription ID
    if sub.stripe_subscription_id.is_none() {
        return Err(invalid_input("Cannot change plan: subscription not linked to Stripe"));
    }
    // Check rate limit - reset if period has passed
    let changes_count: i32 = current_period_changes(sub, now);
    if changes_count >= MAX_PLAN_CHANGES_PER_PERIOD {
        return Err(rate_limit_error());
    }
    // Validate status
    match sub.status {
        SubscriptionStatus::Active | SubscriptionStatus::Trialing => Ok(()),
        SubscriptionStatus::Canceled => {
            if sub.cancel_at_period_end {
                // Allow re-subscribing if just cancel_at_period_end
                Ok(())
            } else {
                Err(invalid_input("Cannot change plan on a canceled subscription. Please subscribe again."))
            }
        },
        SubscriptionStatus::PastDue => Err(invalid_input(
            "Cannot change plan while payment is past due. Please update your payment method first.",
        )),
        SubscriptionStatus::Incomplete => Err(invalid_input(
            "Cannot change plan: please complete the current payment first.",
        )),
        SubscriptionStatus::IncompleteExpired => Err(invalid_input(
            "Subscription has expired. Please subscribe again.",
        )),
        SubscriptionStatus::Unpaid => Err(invalid_input(
            "Cannot change plan while subscription is unpaid. Please update your payment method.",
        )),
        SubscriptionStatus::Paused => Err(invalid_input(
            "Cannot change plan while subscription is paused.",
        )),
    }
}

/// Why a plan may not be switched to, if it may not.
pub open spec fn new_plan_refusal(current: SubscriptionPlanProfile, new: SubscriptionPlanProfile) -> Option<Seq<char>> {
    if current.id == new.id {
        Some("Already subscribed to this plan"@)
    } else if !new.is_public {
        Some("This plan is not available for subscription"@)
    } else if new.is_archived {
        Some("This plan is no longer available"@)
    } else {
        None
    }
}

/// Validate that the new plan is acceptable for a plan change
pub fn validate_new_plan(current_plan: &SubscriptionPlanProfile, new_plan: &SubscriptionPlanProfile) -> (r: Result<(), AppError>)
    ensures
        refused_as(r, new_plan_refusal(*current_plan, *new_plan)),
{
    // Must be different plan
    if current_plan.id == new_plan.id {
        return Err(invalid_input("Already subscribed to this plan"));
    }
    // New plan must be public
    if !new_plan.is_public {
        return Err(invalid_input("This plan is not available for subscription"));
    }
    // New plan must not be archived
    if new_plan.is_archived {
        return Err(invalid_input("This plan is no longer available"));
    }
    Ok(())
}

/// A subscription that may change plan is linked to the provider and has changes
/// left in its period.
pub proof fn lemma_allowed_change_is_linked_and_under_limit(sub: UserSubscriptionProfile, now: int)
    requires
        subscription_refusal(sub, now) is None,
    ensures
        sub.stripe_subscription_id is Some,
        !sub.manually_granted,
        changes_in_period(sub.changes_this_period as int, sub.period_changes_reset_at, now)
            < MAX_PLAN_CHANGES_PER_PERIOD,
        sub.status == SubscriptionStatus::Active || sub.status == SubscriptionStatus::Trialing || (
        sub.status == SubscriptionStatus::Canceled && sub.cancel_at_period_end),
{
}

// ============================================================================
// Steps of a plan change
// ============================================================================

/// The user's subscription in the active mode, required for a plan change, and
/// allowed to change plan now; its provider subscription id comes with it.
pub fn check_subscription_can_change(found: Option<UserSubscriptionProfile>, now: i128) -> (r: Result<(UserSubscriptionProfile, String), AppError>)
    ensures
        match found {
            None => r matches Err(AppError::InvalidInput(m)) && m@ == "No active subscription found"@,
            Some(sub) => match subscription_refusal(sub, now as int) {
                Some(msg) => r matches Err(AppError::InvalidInput(m)) && m@ == msg,
                None => r matches Ok((s, id)) && s == sub && sub.stripe_subscription_id == Some(id),
            },
        },
{
    let sub: UserSubscriptionProfile = match found {
        Some(s) => s,
        None => return Err(invalid_input("No active subscription found")),
    };
    validate_subscription_for_plan_change(&sub, now)?;
    let id: String = match &sub.stripe_subscription_id {
        Some(id) => id.clone(),
        None => return Err(invalid_input("Cannot change plan: subscription not linked to Stripe")),
    };
    Ok((sub, id))
}

/// The message given when the requested plan code is unknown.
pub open spec fn unknown_plan_message(code: Seq<char>) -> Seq<char> {
    "Plan '"@ + code + "' not found"@
}

/// The current and requested plans of a change, both required, the requested one
/// acceptable.
pub fn check_change_target(
    current_found: Option<SubscriptionPlanProfile>,
    new_found: Option<SubscriptionPlanProfile>,
    new_plan_code: &str,
) -> (r: Result<(SubscriptionPlanProfile, SubscriptionPlanProfile), AppError>)
    ensures
        match (current_found, new_found) {
            (None, _) => r matches Err(AppError::Internal(m)) && m@ == "Current plan not found"@,
            (Some(_), None) => r matches Err(AppError::InvalidInput(m)) && m@ == unknown_plan_message(new_plan_code@),
            (Some(cur), Some(new)) => match new_plan_refusal(cur, new) {
                Some(msg) => r matches Err(AppError::InvalidInput(m)) && m@ == msg,
                None => r matches Ok((c, n)) && c == cur && n == new,
            },
        },
{
    let current: SubscriptionPlanProfile = match current_found {
        Some(p) => p,
        None => return Err(AppError::Internal("Current plan not found".to_owned())),
    };
    let new: SubscriptionPlanProfile = match new_found {
        Some(p) => p,
        None => return Err(AppError::InvalidInput(concat3("Plan '", new_plan_code, "' not found"))),
    };
    validate_new_plan(&current, &new)?;
    Ok((current, new))
}

/// Whether a plan already has both of its provider ids.
pub fn has_external_ids(plan: &SubscriptionPlanProfile) -> (r: bool)
    ensures
        r == (plan.stripe_product_id is Some && plan.stripe_price_id is Some),
{
    plan.stripe_product_id.is_some() && plan.stripe_price_id.is_some()
}

/// The plan with the provider ids the provider created for it.
pub fn with_external_ids(plan: SubscriptionPlanProfile, product_id: String, price_id: String) -> (r: SubscriptionPlanProfile)
    ensures
        r == (SubscriptionPlanProfile {
            stripe_product_id: Some(product_id),
            stripe_price_id: Some(price_id),
            ..plan
        }),
{
    SubscriptionPlanProfile { stripe_product_id: Some(product_id), stripe_price_id: Some(price_id), ..plan }
}

/// Convert a plan to the provider port's plan information.
pub fn plan_to_port_info(plan: &SubscriptionPlanProfile) -> (r: PlanInfo)
    ensures
        r.id == plan.id,
        r.code@ == plan.code@,
        r.name@ == plan.name@,
        r.price_cents == plan.price_cents,
        r.currency@ == plan.currency@,
        r.interval@ == plan.interval@,
        r.interval_count == plan.interval_count,
        r.trial_days == plan.trial_days,
        r.external_price_id == plan.stripe_price_id,
        r.external_product_id == plan.stripe_product_id,
{
    PlanInfo {
        id: plan.id,
        code: plan.code.clone(),
        name: plan.name.clone(),
        price_cents: plan.price_cents,
        currency: plan.currency.clone(),
        interval: plan.interval.clone(),
        interval_count: plan.interval_count,
        trial_days: plan.trial_days,
        external_price_id: plan.stripe_price_id.clone(),
        external_product_id: plan.stripe_product_id.clone(),
    }
}

// ============================================================================
// Preview
// ============================================================================

/// The warnings shown with a plan change preview.
pub open spec fn preview_warnings(cancel_at_period_end: bool, is_trial: bool, remaining: int) -> Seq<Seq<char>> {
    (if cancel_at_period_end {
        seq!["If you proceed, your subscription will be reactivated (cancellation removed)."@]
    } else {
        Seq::empty()
    }) + (if is_trial {
        seq!["Your trial will end immediately and you will be charged."@]
    } else {
        Seq::empty()
    }) + (if remaining == 1 {
        seq!["You have 1 plan change(s) remaining this billing period."@]
    } else if remaining == 2 {
        seq!["You have 2 plan change(s) remaining this billing period."@]
    } else {
        Seq::empty()
    })
}

/// The texts of a vector of strings.
pub open spec fn texts(v: Seq<String>) -> Seq<Seq<char>> {
    v.map_values(|s: String| s@)
}

/// Whether a subscription is still in its trial at `now`.
pub open spec fn on_trial(trial_end: Option<i128>, now: int) -> bool {
    match trial_end {
        Some(te) => te as int > now,
        None => false,
    }
}

/// Preview a plan change from the subscription, both plans, the provider's view
/// of the subscription and the current instant.
pub fn build_plan_change_preview(
    sub: &UserSubscriptionProfile,
    current_plan: &SubscriptionPlanProfile,
    new_plan: &SubscriptionPlanProfile,
    sub_info: &SubscriptionInfo,
    now: i128,
) -> (r: Result<PlanChangePreview, AppError>)
    requires
        valid_instant(now as int),
        sub_info.current_period_start matches Some(t) ==> valid_instant(t as int),
        sub_info.current_period_end matches Some(t) ==> valid_instant(t as int),
        MAX_PLAN_CHANGES_PER_PERIOD - sub.changes_this_period <= i32::MAX,
    ensures
        sub_info.current_period_start is None ==> (r matches Err(AppError::Internal(m)) && m@
            == "Subscription missing period start"@),
        sub_info.current_period_start is Some && sub_info.current_period_end is None ==> (r matches Err(
            AppError::Internal(m),
        ) && m@ == "Subscription missing period end"@),
        sub_info.current_period_start is Some && sub_info.current_period_end is Some ==> (r matches Ok(p)
            && {
            let start = sub_info.current_period_start.unwrap() as int;
            let end = sub_info.current_period_end.unwrap() as int;
            let trial = on_trial(sub_info.trial_end, now as int);
            let kind = change_kind(current_plan.price_cents as int, new_plan.price_cents as int);
            let remaining = changes_left(sub.changes_this_period as int, sub.period_changes_reset_at, now as int);
            &&& p.prorated_amount_cents == proration_at(
                current_plan.price_cents as int,
                new_plan.price_cents as int,
                start,
                end,
                now as int,
                trial,
            )
            &&& p.currency@ == current_plan.currency@
            &&& p.period_end == unix_seconds(end)
            &&& p.new_plan_name@ == new_plan.name@
            &&& p.new_plan_price_cents == new_plan.price_cents
            &&& p.change_type == kind
            &&& p.effective_at == unix_seconds(if kind == PlanChangeType::Upgrade { now as int } else { end })
            &&& texts(p.warnings@) == preview_warnings(sub_info.cancel_at_period_end, trial, remaining)
            &&& p.changes_remaining_this_period == remaining
        }),
{
    // Extract period info
    let period_start: i128 = match sub_info.current_period_start {
        Some(t) => t,
        None => return Err(AppError::Internal("Subscription missing period start".to_owned())),
    };
    let period_end: i128 = match sub_info.current_period_end {
        Some(t) => t,
        None => return Err(AppError::Internal("Subscription missing period end".to_owned())),
    };
    // Determine if subscription is on trial
    let is_trial: bool = match sub_info.trial_end {
        Some(te) => te > now,
        None => false,
    };
    // Calculate proration internally (provider-agnostic)
    let current_price_cents: i64 = current_plan.price_cents as i64;
    let new_price_cents: i64 = new_plan.price_cents as i64;
    let prorated_amount: i64 = calculate_proration(
        current_price_cents,
        new_price_cents,
        period_start,
        period_end,
        now,
        is_trial,
    );
    let change_type: PlanChangeType = classify_plan_change(current_price_cents, new_price_cents);
    // Effective date: upgrades are immediate, downgrades/laterals at period end
    let effective_at: i128 = if change_type == PlanChangeType::Upgrade {
        now
    } else {
        period_end
    };
    // Generate warnings based on subscription state
    let mut warnings: Vec<String> = Vec::new();
    let ghost w0 = texts(warnings@);
    if sub_info.cancel_at_period_end {
        warnings.push("If you proceed, your subscription will be reactivated (cancellation removed).".to_owned());
    }
    if is_trial {
        warnings.push("Your trial will end immediately and you will be charged.".to_owned());
    }
    // Calculate changes remaining in this period
    let changes_remaining: i32 = changes_remaining(sub, now);
    // Add warning if near rate limit
    if changes_remaining == 1 {
        warnings.push("You have 1 plan change(s) remaining this billing period.".to_owned());
    } else if changes_remaining == 2 {
        warnings.push("You have 2 plan change(s) remaining this billing period.".to_owned());
    }
    assert(texts(warnings@) =~= preview_warnings(sub_info.cancel_at_period_end, is_trial, changes_remaining as int));
    Ok(PlanChangePreview {
        prorated_amount_cents: prorated_amount,
        currency: current_plan.currency.clone(),
        period_end: timestamp_of(period_end),
        new_plan_name: new_plan.name.clone(),
        new_plan_price_cents: new_price_cents,
        change_type,
        effective_at: timestamp_of(effective_at),
        warnings,
        changes_remaining_this_period: changes_remaining,
    })
}

// ============================================================================
// Executing a change
// ============================================================================

/// Days a billing interval lasts, for the rate-limit window of a subscription
/// without a stored period end.
pub open spec fn interval_days(interval: Seq<char>) -> int {
    if interval == "yearly"@ || interval == "year"@ {
        365
    } else if interval == "weekly"@ || interval == "week"@ {
        7
    } else if interval == "daily"@ || interval == "day"@ {
        1
    } else {
        30
    }
}

/// Nanoseconds in one day.
pub open spec fn nanos_per_day() -> int {
    86_400_000_000_000
}

/// The end of the rate-limit window: the subscription's period end, or one
/// interval of the current plan from now.
pub open spec fn rate_limit_window_end(period_end: Option<i128>, interval: Seq<char>, now: int) -> int {
    match period_end {
        Some(e) => e as int,
        None => now + interval_days(interval) * nanos_per_day(),
    }
}

/// The instant up to which plan changes are counted together.
pub fn rate_limit_period_end(sub: &UserSubscriptionProfile, current_plan: &SubscriptionPlanProfile, now: i128) -> (r: i128)
    requires
        valid_instant(now as int),
    ensures
        r == rate_limit_window_end(sub.current_period_end, current_plan.interval@, now as int),
{
    match sub.current_period_end {
        Some(e) => e,
        None => {
            let iv: &str = current_plan.interval.as_str();
            let days: i128 = if str_eq(iv, "yearly") || str_eq(iv, "year") {
                365
            } else if str_eq(iv, "weekly") || str_eq(iv, "week") {
                7
            } else if str_eq(iv, "daily") || str_eq(iv, "day") {
                1
            } else {
                30
            };
            now + days * 86_400_000_000_000
        },
    }
}

/// The library's change type for what the provider reports.
pub open spec fn from_provider_kind(t: ProviderChangeType) -> PlanChangeType {
    match t {
        ProviderChangeType::Upgrade => PlanChangeType::Upgrade,
        ProviderChangeType::Downgrade => PlanChangeType::Downgrade,
    }
}

/// The outcome of a plan change the provider carried out: the event to log,
/// whether the local plan is switched now, and the result for the caller.
pub struct PlanChangeRecord {
    pub event: CreateSubscriptionEventInput,
    pub update_local_plan: bool,
    pub result: PlanChangeResult,
}

/// Record a plan change the provider carried out.
pub fn record_plan_change(
    sub: &UserSubscriptionProfile,
    current_plan: &SubscriptionPlanProfile,
    new_plan: SubscriptionPlanProfile,
    provider_result: ProviderPlanChangeResult,
    user_id: u128,
) -> (r: PlanChangeRecord)
    requires
        valid_instant(provider_result.effective_at as int),
    ensures
        r.event.subscription_id == sub.id,
        r.event.event_type@ == (if provider_result.schedule_id is Some {
            "plan_change_scheduled"@
        } else {
            "plan_change"@
        }),
        r.event.previous_status == Some(sub.status),
        r.event.new_status == Some(sub.status),
        r.event.stripe_event_id is None,
        r.event.created_by == Some(user_id),
        r.event.metadata matches EventMetadata::PlanChange {
            change_type,
            from_plan,
            to_plan,
            amount_charged_cents,
            payment_intent_status,
            schedule_id,
        } && change_type == from_provider_kind(provider_result.change_type) && from_plan@
            == current_plan.code@ && to_plan@ == new_plan.code@ && amount_charged_cents
            == provider_result.amount_charged_cents && payment_intent_status
            == provider_result.payment_intent_status && schedule_id == provider_result.schedule_id,
        r.update_local_plan == (provider_result.payment_intent_status matches Some(s) && s@
            == "succeeded"@),
        r.result.success == provider_result.success,
        r.result.change_type == from_provider_kind(provider_result.change_type),
        r.result.invoice_id == provider_result.invoice_id,
        r.result.amount_charged_cents == provider_result.amount_charged_cents,
        r.result.currency == provider_result.currency,
        r.result.client_secret == provider_result.client_secret,
        r.result.hosted_invoice_url == provider_result.hosted_invoice_url,
        r.result.payment_intent_status == provider_result.payment_intent_status,
        r.result.new_plan == new_plan,
        r.result.effective_at == unix_seconds(provider_result.effective_at as int),
        r.result.schedule_id == provider_result.schedule_id,
{
    let change_type: PlanChangeType = match provider_result.change_type {
        ProviderChangeType::Upgrade => PlanChangeType::Upgrade,
        ProviderChangeType::Downgrade => PlanChangeType::Downgrade,
    };
    let event_type: String = if provider_result.schedule_id.is_some() {
        "plan_change_scheduled".to_owned()
    } else {
        "plan_change".to_owned()
    };
    let update_local_plan: bool = match &provider_result.payment_intent_status {
        Some(s) => str_eq(s.as_str(), "succeeded"),
        None => false,
    };
    let event = CreateSubscriptionEventInput {
        subscription_id: sub.id,
        event_type,
        previous_status: Some(sub.status),
        new_status: Some(sub.status),
        stripe_event_id: None,
        metadata: EventMetadata::PlanChange {
            change_type,
            from_plan: current_plan.code.clone(),
            to_plan: new_plan.code.clone(),
            amount_charged_cents: provider_result.amount_charged_cents,
            payment_intent_status: provider_result.payment_intent_status.clone(),
            schedule_id: provider_result.schedule_id.clone(),
        },
        created_by: Some(user_id),
    };
    let effective_at: i64 = timestamp_of(provider_result.effective_at);
    let result = PlanChangeResult {
        success: provider_result.success,
        change_type,
        invoice_id: provider_result.invoice_id,
        amount_charged_cents: provider_result.amount_charged_cents,
        currency: provider_result.currency,
        client_secret: provider_result.client_secret,
        hosted_invoice_url: provider_result.hosted_invoice_url,
        payment_intent_status: provider_result.payment_intent_status,
        new_plan,
        effective_at,
        schedule_id: provider_result.schedule_id,
    };
    PlanChangeRecord { event, update_local_plan, result }
}

/// A subscription that is linked to the provider, not manually granted and under
/// its per-period change limit may change plan exactly when it is active,
/// trialing, or canceled only at the end of its period; every other status is
/// refused.
pub proof fn lemma_plan_change_allowed_statuses(sub: UserSubscriptionProfile, now: int)
    requires
        !sub.manually_granted,
        sub.stripe_subscription_id is Some,
        changes_in_period(sub.changes_this_period as int, sub.period_changes_reset_at, now)
            < MAX_PLAN_CHANGES_PER_PERIOD,
    ensures
        subscription_refusal(sub, now) is None <==> (sub.status == SubscriptionStatus::Active || sub.status
            == SubscriptionStatus::Trialing || (sub.status == SubscriptionStatus::Canceled
            && sub.cancel_at_period_end)),
{
}

} // verus!
