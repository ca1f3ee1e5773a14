//! The claims carried by access tokens, and the order in which a domain's API
//! keys are tried when a token is checked.
use vstd::prelude::*;
use crate::api_keys::ApiKeyWithRaw;
use crate::app_error::AppError;
use crate::billing::types::SubscriptionClaims;
use crate::domain_parsing::{ends_with_any, get_root_domain, multi_part_tlds, root_domain_of};
use crate::outside::{uuid_of_text, uuid_parse, uuid_text, uuid_to_string};
use crate::text::unicode_lowercase;

verus! {

/// The claims of a workspace user's token.
#[derive(Debug, Clone)]
pub struct Claims {
    pub sub: String,
    pub exp: i64,
    pub iat: i64,
}

/// The claims of a domain end user's token.
#[derive(Debug, Clone)]
pub struct DomainEndUserClaims {
    /// The end user's id.
    pub sub: String,
    pub domain_id: String,
    /// The root domain (e.g., "example.com").
    pub domain: String,
    /// The user's roles (e.g., ["admin", "user"]).
    pub roles: Vec<String>,
    /// Subscription info (always present).
    pub subscription: SubscriptionClaims,
    pub exp: i64,
    pub iat: i64,
}

/// The claims of a workspace user's token issued at `now` (Unix seconds) for
/// `ttl_secs` seconds.
pub fn user_claims(user_id: u128, now: i64, ttl_secs: i64) -> (r: Claims)
    requires
        i64::MIN <= now + ttl_secs <= i64::MAX,
    ensures
        r.sub@ == uuid_text(user_id),
        r.iat == now,
        r.exp == now + ttl_secs,
{
    Claims { sub: uuid_to_string(user_id), iat: now, exp: now + ttl_secs }
}

/// The root domain a hostname belongs to, as put in tokens.
pub open spec fn token_domain(domain: Seq<char>) -> Seq<char> {
    root_domain_of(domain, ends_with_any(unicode_lowercase(domain), multi_part_tlds()))
}

/// The claims of a domain end user's token issued at `now` (Unix seconds) for
/// `ttl_secs` seconds; the domain claim is the root domain of `domain`.
pub fn domain_end_user_claims(
    end_user_id: u128,
    domain_id: u128,
    domain: &str,
    roles: Vec<String>,
    subscription: SubscriptionClaims,
    now: i64,
    ttl_secs: i64,
) -> (r: DomainEndUserClaims)
    requires
        i64::MIN <= now + ttl_secs <= i64::MAX,
    ensures
        r.sub@ == uuid_text(end_user_id),
        r.domain_id@ == uuid_text(domain_id),
        r.domain@ == token_domain(domain@),
        r.roles == roles,
        r.subscription == subscription,
        r.iat == now,
        r.exp == now + ttl_secs,
{
    // Use root domain in claim
    let root_domain: String = get_root_domain(domain);
    DomainEndUserClaims {
        sub: uuid_to_string(end_user_id),
        domain_id: uuid_to_string(domain_id),
        domain: root_domain,
        roles,
        subscription,
        iat: now,
        exp: now + ttl_secs,
    }
}

/// The key id a token names, when its `kid` header is a UUID.
pub open spec fn kid_id(kid: Option<&str>) -> Option<u128> {
    match kid {
        Some(k) => uuid_of_text(k@),
        None => None,
    }
}

/// Whether the token names one of the keys.
pub open spec fn names_key(keys: Seq<ApiKeyWithRaw>, kid: Option<&str>) -> bool {
    kid_id(kid) is Some && exists|p: int| 0 <= p < keys.len() && #[trigger] keys[p].id == kid_id(kid).unwrap()
}

/// Whether position `p` holds the first key with id `id`.
pub open spec fn first_with_id(keys: Seq<ApiKeyWithRaw>, id: u128, p: int) -> bool {
    0 <= p < keys.len() && keys[p].id == id && forall|k: int| 0 <= k < p ==> #[trigger] keys[k].id != id
}

fn find_key(keys: &Vec<ApiKeyWithRaw>, id: u128) -> (r: Option<usize>)
    ensures
        r matches Some(p) ==> first_with_id(keys@, id, p as int),
        r is None ==> forall|k: int| 0 <= k < keys@.len() ==> #[trigger] keys@[k].id != id,
{
    let mut j: usize = 0;
    while j < keys.len()
        invariant
            j <= keys@.len(),
            forall|m: int| 0 <= m < j ==> #[trigger] keys@[m].id != id,
        decreases keys@.len() - j,
    {
        if keys[j].id == id {
            return Some(j);
        }
        j = j + 1;
    }
    None
}

/// The keys, by position, in the order a token is checked against them: the key
/// the token names (`kid`, when it is a UUID of one of the keys) first, then every
/// key in order. A token can be checked only when the domain has keys.
pub fn key_try_order(keys: &Vec<ApiKeyWithRaw>, kid: Option<&str>) -> (r: Result<Vec<usize>, AppError>)
    ensures
        keys@.len() == 0 ==> r == Err::<Vec<usize>, AppError>(AppError::InvalidCredentials),
        keys@.len() > 0 ==> (r matches Ok(order) && {
            let offset: int = if names_key(keys@, kid) {
                1
            } else {
                0
            };
            &&& order@.len() == keys@.len() + offset
            &&& names_key(keys@, kid) ==> first_with_id(keys@, kid_id(kid).unwrap(), order@[0] as int)
            &&& forall|i: int| 0 <= i < keys@.len() ==> #[trigger] order@[i + offset] == i
        }),
{
    if keys.len() == 0 {
        return Err(AppError::InvalidCredentials);
    }
    let mut order: Vec<usize> = Vec::new();
    // If kid is present, try that key first
    let named: Option<usize> = match kid {
        Some(k) => match uuid_parse(k) {
            Some(id) => find_key(keys, id),
            None => None,
        },
        None => None,
    };
    match named {
        Some(p) => order.push(p),
        None => {},
    }
    let ghost first = order@;
    assert(named is Some <==> names_key(keys@, kid));
    let ghost offset: int = if names_key(keys@, kid) {
        1
    } else {
        0
    };
    // Fall back to trying all keys
    let mut i: usize = 0;
    while i < keys.len()
        invariant
            i <= keys@.len(),
            first.len() == offset,
            order@.len() == offset + i,
            order@.subrange(0, offset) == first,
            forall|m: int| 0 <= m < i ==> #[trigger] order@[m + offset] == m,
        decreases keys@.len() - i,
    {
        order.push(i);
        assert(order@.subrange(0, offset) =~= first);
        i = i + 1;
    }
    assert(offset == 1 ==> order@[0] == first[0]);
    Ok(order)
}

} // verus!
