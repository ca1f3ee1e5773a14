//! Monthly recurring revenue: which subscriptions count, the monthly share of
//! each, and their grouping by plan.
//!
//! The revenue itself is a sum of fractions `price / divisor` rounded once at the
//! end; this module yields the fractions, exactly, in the order they are summed.
use vstd::prelude::*;
use crate::billing::types::UserSubscriptionWithPlan;
use crate::entities::user_subscription::SubscriptionStatus;
use crate::text::str_eq;

verus! {

/// Number of months in a year, used for MRR calculations.
pub const MONTHS_PER_YEAR: i64 = 12;

/// The number of months a price covers: the interval count (at least one),
/// times twelve for yearly plans; any other interval is taken as monthly.
pub open spec fn divisor_of(interval: Seq<char>, interval_count: int) -> int {
    let count = if interval_count < 1 {
        1
    } else {
        interval_count
    };
    if interval == "yearly"@ || interval == "year"@ {
        count * 12
    } else {
        count
    }
}

/// The number of months a price covers, the divisor that turns a price into its
/// monthly amount.
pub fn monthly_divisor(interval: &str, interval_count: i64) -> (r: i64)
    requires
        (interval@ == "yearly"@ || interval@ == "year"@) ==> interval_count <= i64::MAX / 12,
    ensures
        r == divisor_of(interval@, interval_count as int),
        r >= 1,
{
    // Protect against division by zero (should be prevented upstream, but be defensive)
    let count: i64 = if interval_count < 1 {
        1
    } else {
        interval_count
    };
    if str_eq(interval, "yearly") || str_eq(interval, "year") {
        count * MONTHS_PER_YEAR
    } else {
        // Monthly or any unknown intervals are treated as monthly
        count
    }
}

/// Whether a subscription counts toward recurring revenue: it is active or trialing.
pub open spec fn counted(s: UserSubscriptionWithPlan) -> bool {
    s.subscription.status.grants_access()
}

/// The monthly share of a subscription, as the fraction (price in cents, months).
pub open spec fn mrr_term(s: UserSubscriptionWithPlan) -> (i64, i64) {
    (s.plan.price_cents as i64, divisor_of(s.plan.interval@, s.plan.interval_count as int) as i64)
}

/// The monthly shares of the counted subscriptions, in order.
pub open spec fn all_terms(subs: Seq<UserSubscriptionWithPlan>) -> Seq<(i64, i64)>
    decreases subs.len(),
{
    if subs.len() == 0 {
        Seq::empty()
    } else if counted(subs.last()) {
        all_terms(subs.drop_last()).push(mrr_term(subs.last()))
    } else {
        all_terms(subs.drop_last())
    }
}

/// The monthly shares of the counted subscriptions to one plan, in order.
pub open spec fn plan_terms(subs: Seq<UserSubscriptionWithPlan>, plan_id: u128) -> Seq<(i64, i64)>
    decreases subs.len(),
{
    if subs.len() == 0 {
        Seq::empty()
    } else if counted(subs.last()) && subs.last().plan.id == plan_id {
        plan_terms(subs.drop_last(), plan_id).push(mrr_term(subs.last()))
    } else {
        plan_terms(subs.drop_last(), plan_id)
    }
}

/// The plan name carried by the first counted subscription to a plan, if any.
pub open spec fn first_name(subs: Seq<UserSubscriptionWithPlan>, plan_id: u128) -> Option<String>
    decreases subs.len(),
{
    if subs.len() == 0 {
        None
    } else {
        match first_name(subs.drop_last(), plan_id) {
            Some(n) => Some(n),
            None => if counted(subs.last()) && subs.last().plan.id == plan_id {
                Some(subs.last().plan.name)
            } else {
                None
            },
        }
    }
}

/// A plan has a counted subscriber exactly when it has a monthly share.
pub proof fn lemma_named_plans_have_terms(subs: Seq<UserSubscriptionWithPlan>, plan_id: u128)
    ensures
        first_name(subs, plan_id) is Some <==> plan_terms(subs, plan_id).len() > 0,
    decreases subs.len(),
{
    if subs.len() > 0 {
        lemma_named_plans_have_terms(subs.drop_last(), plan_id);
    }
}

/// The shares of one plan are those of all counted subscriptions that name it.
pub proof fn lemma_plan_terms_within_all(subs: Seq<UserSubscriptionWithPlan>, plan_id: u128)
    ensures
        plan_terms(subs, plan_id).len() <= all_terms(subs).len(),
    decreases subs.len(),
{
    if subs.len() > 0 {
        lemma_plan_terms_within_all(subs.drop_last(), plan_id);
    }
}

/// The plans with counted subscriptions, each once, in the order their first
/// counted subscription appears.
pub open spec fn plan_order(subs: Seq<UserSubscriptionWithPlan>) -> Seq<u128>
    decreases subs.len(),
{
    if subs.len() == 0 {
        Seq::empty()
    } else {
        let p = plan_order(subs.drop_last());
        if counted(subs.last()) && !p.contains(subs.last().plan.id) {
            p.push(subs.last().plan.id)
        } else {
            p
        }
    }
}

/// The number of monthly shares of the listed plans, added up.
pub open spec fn shares_of_plans(subs: Seq<UserSubscriptionWithPlan>, ids: Seq<u128>) -> int
    decreases ids.len(),
{
    if ids.len() == 0 {
        0
    } else {
        shares_of_plans(subs, ids.drop_last()) + plan_terms(subs, ids.last()).len()
    }
}

/// The plans in first-appearance order are distinct, and are exactly the plans
/// with a monthly share.
proof fn lemma_plan_order(subs: Seq<UserSubscriptionWithPlan>)
    ensures
        forall|j: int, k: int|
            0 <= j < k < plan_order(subs).len() ==> plan_order(subs)[j] != plan_order(subs)[k],
        forall|id: u128| #[trigger] plan_order(subs).contains(id) <==> plan_terms(subs, id).len() > 0,
    decreases subs.len(),
{
    if subs.len() > 0 {
        let prev = subs.drop_last();
        lemma_plan_order(prev);
        let p = plan_order(prev);
        let x = subs.last();
        if counted(x) && !p.contains(x.plan.id) {
            let q = p.push(x.plan.id);
            assert forall|id: u128| #[trigger] q.contains(id) <==> plan_terms(subs, id).len() > 0 by {
                if q.contains(id) && id != x.plan.id {
                    let k = choose|k: int| 0 <= k < q.len() && q[k] == id;
                    assert(p[k] == id);
                }
                if p.contains(id) {
                    let k = choose|k: int| 0 <= k < p.len() && p[k] == id;
                    assert(q[k] == id);
                }
                if id == x.plan.id {
                    assert(q[q.len() - 1] == id);
                }
            }
        }
    }
}

/// Adding one more subscription adds one share to the plan it names when it
/// counts, and none to any other plan.
proof fn lemma_shares_grow(subs: Seq<UserSubscriptionWithPlan>, ids: Seq<u128>)
    requires
        subs.len() > 0,
        forall|j: int, k: int| 0 <= j < k < ids.len() ==> ids[j] != ids[k],
    ensures
        shares_of_plans(subs, ids) == shares_of_plans(subs.drop_last(), ids) + (if counted(subs.last())
            && ids.contains(subs.last().plan.id) {
            1int
        } else {
            0int
        }),
    decreases ids.len(),
{
    if ids.len() > 0 {
        let rest = ids.drop_last();
        lemma_shares_grow(subs, rest);
        let id0 = subs.last().plan.id;
        if ids.contains(id0) && ids.last() != id0 {
            let k = choose|k: int| 0 <= k < ids.len() && ids[k] == id0;
            assert(rest[k] == id0);
        }
        if rest.contains(id0) {
            let k = choose|k: int| 0 <= k < rest.len() && rest[k] == id0;
            assert(ids[k] == id0);
            assert(ids.last() != id0);
        }
    }
}

/// The shares of all plans, taken plan by plan, are all the shares.
proof fn lemma_shares_of_all_plans(subs: Seq<UserSubscriptionWithPlan>)
    ensures
        shares_of_plans(subs, plan_order(subs)) == all_terms(subs).len(),
    decreases subs.len(),
{
    if subs.len() > 0 {
        let prev = subs.drop_last();
        let x = subs.last();
        let p = plan_order(prev);
        lemma_shares_of_all_plans(prev);
        lemma_plan_order(prev);
        lemma_plan_order(subs);
        lemma_shares_grow(subs, p);
        if counted(x) && !p.contains(x.plan.id) {
            let q = p.push(x.plan.id);
            assert(q.drop_last() =~= p);
            assert(plan_terms(prev, x.plan.id).len() == 0);
        }
    }
}

/// The number of monthly shares over all tallies.
pub open spec fn tallied_shares(r: Seq<PlanTally>) -> int
    decreases r.len(),
{
    if r.len() == 0 {
        0
    } else {
        tallied_shares(r.drop_last()) + r.last().monthly_terms@.len()
    }
}

/// Tallies that follow a list of plans hold the shares of those plans.
proof fn lemma_tallies_shares(subs: Seq<UserSubscriptionWithPlan>, r: Seq<PlanTally>, ids: Seq<u128>)
    requires
        r.len() == ids.len(),
        forall|a: int| 0 <= a < r.len() ==> (#[trigger] r[a]).monthly_terms@ == plan_terms(subs, ids[a]),
    ensures
        tallied_shares(r) == shares_of_plans(subs, ids),
    decreases r.len(),
{
    if r.len() > 0 {
        lemma_tallies_shares(subs, r.drop_last(), ids.drop_last());
    }
}

/// The subscriber counts over all tallies, added up.
pub open spec fn tallied_subscribers(r: Seq<PlanTally>) -> int
    decreases r.len(),
{
    if r.len() == 0 {
        0
    } else {
        tallied_subscribers(r.drop_last()) + r.last().subscriber_count
    }
}

/// Tallies that follow a list of plans hold the shares of those plans.
proof fn lemma_tallies_follow_plans(subs: Seq<UserSubscriptionWithPlan>, r: Seq<PlanTally>, ids: Seq<u128>)
    requires
        r.len() == ids.len(),
        forall|a: int| 0 <= a < r.len() ==> (#[trigger] r[a]).monthly_terms@ == plan_terms(subs, ids[a]),
        forall|a: int| 0 <= a < r.len() ==> (#[trigger] r[a]).subscriber_count == r[a].monthly_terms@.len()
            as i64,
        forall|a: int| 0 <= a < r.len() ==> (#[trigger] r[a]).monthly_terms@.len() <= i64::MAX,
    ensures
        tallied_shares(r) == shares_of_plans(subs, ids),
        tallied_subscribers(r) == tallied_shares(r),
    decreases r.len(),
{
    if r.len() > 0 {
        lemma_tallies_follow_plans(subs, r.drop_last(), ids.drop_last());
    }
}

fn term_of(s: &UserSubscriptionWithPlan) -> (r: (i64, i64))
    ensures
        r == mrr_term(*s),
{
    let count: i64 = s.plan.interval_count as i64;
    (s.plan.price_cents as i64, monthly_divisor(s.plan.interval.as_str(), count))
}

/// The monthly shares that make up the recurring revenue, in subscription order.
pub fn mrr_terms(subs: &Vec<UserSubscriptionWithPlan>) -> (r: Vec<(i64, i64)>)
    ensures
        r@ == all_terms(subs@),
{
    let mut r: Vec<(i64, i64)> = Vec::new();
    let mut i: usize = 0;
    while i < subs.len()
        invariant
            i <= subs@.len(),
            r@ == all_terms(subs@.subrange(0, i as int)),
        decreases subs@.len() - i,
    {
        assert(subs@.subrange(0, i + 1).drop_last() =~= subs@.subrange(0, i as int));
        if subs[i].subscription.status.is_active() {
            r.push(term_of(&subs[i]));
        }
        i = i + 1;
    }
    assert(subs@.subrange(0, subs@.len() as int) =~= subs@);
    r
}

/// The monthly shares of the counted subscriptions to one plan.
pub fn plan_mrr_terms(subs: &Vec<UserSubscriptionWithPlan>, plan_id: u128) -> (r: Vec<(i64, i64)>)
    ensures
        r@ == plan_terms(subs@, plan_id),
{
    let mut r: Vec<(i64, i64)> = Vec::new();
    let mut i: usize = 0;
    while i < subs.len()
        invariant
            i <= subs@.len(),
            r@ == plan_terms(subs@.subrange(0, i as int), plan_id),
        decreases subs@.len() - i,
    {
        assert(subs@.subrange(0, i + 1).drop_last() =~= subs@.subrange(0, i as int));
        if subs[i].subscription.status.is_active() && subs[i].plan.id == plan_id {
            r.push(term_of(&subs[i]));
        }
        i = i + 1;
    }
    assert(subs@.subrange(0, subs@.len() as int) =~= subs@);
    r
}

/// The revenue of one plan: its name, how many counted subscriptions it has, and
/// their monthly shares.
#[derive(Debug, Clone)]
pub struct PlanTally {
    pub plan_id: u128,
    pub plan_name: String,
    pub subscriber_count: i64,
    pub monthly_terms: Vec<(i64, i64)>,
}

fn find_id(ids: &Vec<u128>, id: u128) -> (r: bool)
    ensures
        r == ids@.contains(id),
{
    let mut j: usize = 0;
    while j < ids.len()
        invariant
            j <= ids@.len(),
            forall|k: int| 0 <= k < j ==> ids@[k] != id,
        decreases ids@.len() - j,
    {
        if ids[j] == id {
            assert(ids@[j as int] == id);
            return true;
        }
        j = j + 1;
    }
    false
}

/// The plans with counted subscriptions, each once, in the order their first
/// counted subscription appears, with the name that subscription carries.
fn distinct_plans(subs: &Vec<UserSubscriptionWithPlan>) -> (r: (Vec<u128>, Vec<String>))
    ensures
        r.0@.len() == r.1@.len(),
        forall|j: int, k: int| 0 <= j < k < r.0@.len() ==> r.0@[j] != r.0@[k],
        forall|j: int| 0 <= j < r.0@.len() ==> first_name(subs@, #[trigger] r.0@[j]) == Some(r.1@[j]),
        forall|id: u128| first_name(subs@, id) is Some ==> #[trigger] r.0@.contains(id),
        r.0@ == plan_order(subs@),
{
    let mut ids: Vec<u128> = Vec::new();
    let mut names: Vec<String> = Vec::new();
    let mut i: usize = 0;
    while i < subs.len()
        invariant
            i <= subs@.len(),
            ids@.len() == names@.len(),
            forall|j: int, k: int| 0 <= j < k < ids@.len() ==> ids@[j] != ids@[k],
            forall|j: int|
                0 <= j < ids@.len() ==> first_name(subs@.subrange(0, i as int), #[trigger] ids@[j])
                    == Some(names@[j]),
            forall|id: u128|
                first_name(subs@.subrange(0, i as int), id) is Some <==> #[trigger] ids@.contains(id),
            ids@ == plan_order(subs@.subrange(0, i as int)),
        decreases subs@.len() - i,
    {
        let ghost prev = subs@.subrange(0, i as int);
        let ghost next = subs@.subrange(0, i + 1);
        assert(next.drop_last() =~= prev);
        assert(next.last() == subs@[i as int]);
        if subs[i].subscription.status.is_active() {
            let id: u128 = subs[i].plan.id;
            if !find_id(&ids, id) {
                assert(first_name(prev, id) is None);
                let ghost old_ids = ids@;
                assert(forall|x: u128| first_name(prev, x) is Some <==> #[trigger] old_ids.contains(x));
                ids.push(id);
                names.push(subs[i].plan.name.clone());
                assert forall|x: u128| first_name(next, x) is Some <==> #[trigger] ids@.contains(x) by {
                    if x == id {
                        assert(ids@[ids@.len() - 1] == x);
                    } else {
                        assert(ids@ == old_ids.push(id));
                        if ids@.contains(x) {
                            let k = choose|k: int| 0 <= k < ids@.len() && ids@[k] == x;
                            assert(old_ids[k] == x);
                        }
                        if first_name(prev, x) is Some {
                            assert(old_ids.contains(x));
                            let k = choose|k: int| 0 <= k < old_ids.len() && old_ids[k] == x;
                            assert(ids@[k] == x);
                        }
                    }
                }
            } else {
                assert forall|x: u128| first_name(next, x) is Some <==> #[trigger] ids@.contains(x) by {
                    if x == id {
                    }
                }
            }
        } else {
            assert forall|x: u128| first_name(next, x) is Some <==> #[trigger] ids@.contains(x) by {
            }
        }
        i = i + 1;
    }
    assert(subs@.subrange(0, subs@.len() as int) =~= subs@);
    (ids, names)
}

/// Group the counted subscriptions by plan: one tally per plan that has a counted
/// subscription, in the order such plans first appear, each with the name its
/// first counted subscription carries, its number of counted subscriptions and
/// their monthly shares in order.
pub fn tally_active_plans(subs: &Vec<UserSubscriptionWithPlan>) -> (r: Vec<PlanTally>)
    ensures
        forall|j: int, k: int| 0 <= j < k < r@.len() ==> r@[j].plan_id != r@[k].plan_id,
        forall|j: int|
            0 <= j < r@.len() ==> {
                let t = #[trigger] r@[j];
                &&& first_name(subs@, t.plan_id) == Some(t.plan_name)
                &&& t.monthly_terms@ == plan_terms(subs@, t.plan_id)
                &&& t.subscriber_count == plan_terms(subs@, t.plan_id).len() as i64
            },
        forall|id: u128|
            first_name(subs@, id) is Some ==> exists|j: int| 0 <= j < r@.len() && #[trigger] r@[j].plan_id == id,
        r@.len() == plan_order(subs@).len(),
        forall|j: int| 0 <= j < r@.len() ==> #[trigger] r@[j].plan_id == plan_order(subs@)[j],
        tallied_shares(r@) == all_terms(subs@).len(),
        all_terms(subs@).len() <= i64::MAX ==> tallied_subscribers(r@) == all_terms(subs@).len(),
{
    let (ids, names) = distinct_plans(subs);
    let mut r: Vec<PlanTally> = Vec::new();
    let mut j: usize = 0;
    while j < ids.len()
        invariant
            j <= ids@.len(),
            ids@.len() == names@.len(),
            r@.len() == j,
            forall|a: int, b: int| 0 <= a < b < ids@.len() ==> ids@[a] != ids@[b],
            forall|a: int| 0 <= a < ids@.len() ==> first_name(subs@, #[trigger] ids@[a]) == Some(names@[a]),
            forall|a: int|
                0 <= a < j ==> {
                    let t = #[trigger] r@[a];
                    &&& t.plan_id == ids@[a]
                    &&& t.plan_name == names@[a]
                    &&& t.monthly_terms@ == plan_terms(subs@, t.plan_id)
                    &&& t.subscriber_count == plan_terms(subs@, t.plan_id).len() as i64
                },
        decreases ids@.len() - j,
    {
        let terms: Vec<(i64, i64)> = plan_mrr_terms(subs, ids[j]);
        let count: i64 = terms.len() as i64;
        r.push(PlanTally { plan_id: ids[j], plan_name: names[j].clone(), subscriber_count: count, monthly_terms: terms });
        j = j + 1;
    }
    assert forall|id: u128| first_name(subs@, id) is Some implies exists|a: int| 0 <= a < r@.len() && #[trigger] r@[a].plan_id == id by {
        assert(ids@.contains(id));
        let a = choose|a: int| 0 <= a < ids@.len() && ids@[a] == id;
        assert(r@[a].plan_id == id);
    }
    proof {
        lemma_shares_of_all_plans(subs@);
        if all_terms(subs@).len() <= i64::MAX {
            assert forall|a: int| 0 <= a < r@.len() implies (#[trigger] r@[a]).monthly_terms@.len() <= i64::MAX by {
                lemma_plan_terms_within_all(subs@, ids@[a]);
            }
            lemma_tallies_follow_plans(subs@, r@, ids@);
        } else {
            lemma_tallies_shares(subs@, r@, ids@);
        }
    }
    r
}

/// A subscription counts toward recurring revenue exactly when it is active or
/// trialing: one more subscription in any other status (past due, canceled,
/// incomplete, expired, unpaid, paused) adds no monthly share, overall or to its
/// plan, and an active or trialing one adds its own share.
pub proof fn lemma_only_active_and_trialing_count(
    subs: Seq<UserSubscriptionWithPlan>,
    x: UserSubscriptionWithPlan,
    plan_id: u128,
)
    ensures
        all_terms(subs.push(x)) == if x.subscription.status == SubscriptionStatus::Active
            || x.subscription.status == SubscriptionStatus::Trialing {
            all_terms(subs).push(mrr_term(x))
        } else {
            all_terms(subs)
        },
        plan_terms(subs.push(x), plan_id) == if (x.subscription.status == SubscriptionStatus::Active
            || x.subscription.status == SubscriptionStatus::Trialing) && x.plan.id == plan_id {
            plan_terms(subs, plan_id).push(mrr_term(x))
        } else {
            plan_terms(subs, plan_id)
        },
{
    assert(subs.push(x).drop_last() =~= subs);
    assert(subs.push(x).last() == x);
}

} // verus!
