//! Outgoing webhooks of a domain: endpoint rules, event envelopes, and the
//! retry schedule of failed deliveries.
use vstd::prelude::*;
use vstd::string::*;
use vstd::utf8::{encode_utf8, is_char_boundary};
use crate::app_error::AppError;
use crate::domains::DomainProfile;
use crate::entities::webhook::WebhookEventType;
use crate::outside::{
    base64_no_pad_len, base64_url_encode, base64_url_no_pad, os_random_bytes, parsed_url,
    random_u64, url_scheme_and_host, uuid_text, uuid_to_string,
};
use crate::text::{concat2, concat3, ends_with, owned, seq_ends_with, str_eq};

verus! {

/// The most endpoints a domain may have.
pub const MAX_WEBHOOK_ENDPOINTS_PER_DOMAIN: i64 = 10;

/// The most times a delivery is attempted.
pub const MAX_DELIVERY_ATTEMPTS: i32 = 5;

/// How long a delivery may stay locked before it is released, in seconds.
pub const STALE_LOCK_THRESHOLD_SECS: i64 = 300;

/// The version stamped on every event envelope.
pub const WEBHOOK_API_VERSION: &'static str = "2026-01-29";

// ============================================================================
// Endpoints
// ============================================================================

/// A domain may add an endpoint only while it has fewer than the maximum.
pub fn check_endpoint_quota(count: i64) -> (r: Result<(), AppError>)
    ensures
        count < MAX_WEBHOOK_ENDPOINTS_PER_DOMAIN ==> r is Ok,
        count >= MAX_WEBHOOK_ENDPOINTS_PER_DOMAIN ==> (r matches Err(AppError::InvalidInput(m)) && m@
            == "Maximum of 10 webhook endpoints per domain"@),
{
    if count >= MAX_WEBHOOK_ENDPOINTS_PER_DOMAIN {
        return Err(AppError::InvalidInput("Maximum of 10 webhook endpoints per domain".to_owned()));
    }
    Ok(())
}

/// Why an endpoint URL is refused before its domain is consulted: it does not
/// parse, is not HTTPS, or has no host. `None` when it passes.
pub open spec fn url_form_refusal(url: Seq<char>) -> Option<Seq<char>> {
    match parsed_url(url) {
        None => Some("invalid URL format"@),
        Some((scheme, host)) => if scheme != "https"@ {
            Some("webhook URL must use HTTPS"@)
        } else if host is None {
            Some("webhook URL must have a host"@)
        } else {
            None
        },
    }
}

/// The host of an endpoint URL, once the URL parses as HTTPS with a host.
pub fn check_webhook_url_form(url: &str) -> (r: Result<String, AppError>)
    ensures
        url_form_refusal(url@) matches Some(m) ==> (r matches Err(AppError::InvalidInput(e)) && e@ == m),
        url_form_refusal(url@) is None ==> (r matches Ok(h) && parsed_url(url@) matches Some((_, Some(
            host,
        ))) && host == h@),
{
    match url_scheme_and_host(url) {
        None => Err(AppError::InvalidInput("invalid URL format".to_owned())),
        Some((scheme, host)) => {
            if !str_eq(scheme.as_str(), "https") {
                return Err(AppError::InvalidInput("webhook URL must use HTTPS".to_owned()));
            }
            match host {
                None => Err(AppError::InvalidInput("webhook URL must have a host".to_owned())),
                Some(h) => Ok(h),
            }
        },
    }
}

/// Whether a host is the domain itself or one of its subdomains.
pub open spec fn host_under(host: Seq<char>, domain: Seq<char>) -> bool {
    host == domain || seq_ends_with(host, seq!['.'] + domain)
}

/// The message given for an endpoint outside the domain.
pub open spec fn outside_domain_message(domain: Seq<char>) -> Seq<char> {
    "webhook URL must be under your verified domain ("@ + domain + ")"@
}

/// An endpoint's host must lie under the domain it is registered for.
pub fn check_host_under_domain(host: &str, domain: &Option<DomainProfile>) -> (r: Result<(), AppError>)
    ensures
        domain is None ==> r == Err::<(), AppError>(AppError::NotFound),
        domain is Some && host_under(host@, domain.unwrap().domain@) ==> r is Ok,
        domain is Some && !host_under(host@, domain.unwrap().domain@) ==> (r matches Err(
            AppError::InvalidInput(m),
        ) && m@ == outside_domain_message(domain.unwrap().domain@)),
{
    match domain {
        None => Err(AppError::NotFound),
        Some(d) => {
            let verified_domain: &str = d.domain.as_str();
            let dotted: String = concat2(".", verified_domain);
            proof {
                reveal_strlit(".");
                assert(dotted@ =~= seq!['.'] + verified_domain@);
            }
            let is_under_domain: bool = str_eq(host, verified_domain) || ends_with(host, dotted.as_str());
            if !is_under_domain {
                return Err(AppError::InvalidInput(concat3(
                    "webhook URL must be under your verified domain (",
                    verified_domain,
                    ")",
                )));
            }
            Ok(())
        },
    }
}

/// Endpoints and events can be reached only through their own domain: a missing
/// one is not found, one of another domain is forbidden.
pub fn check_in_domain(found_domain_id: Option<u128>, domain_id: u128) -> (r: Result<(), AppError>)
    ensures
        found_domain_id is None ==> r == Err::<(), AppError>(AppError::NotFound),
        found_domain_id is Some && found_domain_id.unwrap() != domain_id ==> r == Err::<(), AppError>(
            AppError::Forbidden,
        ),
        found_domain_id == Some(domain_id) ==> r is Ok,
{
    match found_domain_id {
        None => Err(AppError::NotFound),
        Some(d) => {
            if d != domain_id {
                return Err(AppError::Forbidden);
            }
            Ok(())
        },
    }
}

/// Whether an event type name is one of the known event types.
pub open spec fn known_event_type(t: Seq<char>) -> bool {
    WebhookEventType::from_name(t) is Some
}

/// Whether a list of event types holds the wildcard "*".
pub open spec fn has_wildcard(ts: Seq<String>) -> bool {
    exists|i: int| 0 <= i < ts.len() && (#[trigger] ts[i])@ == "*"@
}

/// Whether every listed event type is known.
pub open spec fn all_known(ts: Seq<String>) -> bool {
    forall|i: int| 0 <= i < ts.len() ==> known_event_type((#[trigger] ts[i])@)
}

/// Whether `ts[i]` is the first unknown event type of the list.
pub open spec fn first_unknown(ts: Seq<String>, i: int) -> bool {
    0 <= i < ts.len() && !known_event_type(ts[i]@) && forall|k: int| 0 <= k < i ==> known_event_type(
        (#[trigger] ts[k])@,
    )
}

/// The event types an endpoint subscribes to: all ("*") when none are given; an
/// empty list is refused; a list holding "*" means all; otherwise each must be a
/// known type, the first unknown one being reported.
pub fn validate_event_types(event_types: Option<Vec<String>>) -> (r: Result<Vec<String>, AppError>)
    ensures
        event_types is None ==> (r matches Ok(v) && v@.len() == 1 && v@[0]@ == "*"@),
        event_types is Some && event_types.unwrap()@.len() == 0 ==> (r matches Err(
            AppError::InvalidInput(m),
        ) && m@ == "at least one event type is required"@),
        event_types is Some && event_types.unwrap()@.len() > 0 && has_wildcard(event_types.unwrap()@)
            ==> (r matches Ok(v) && v@.len() == 1 && v@[0]@ == "*"@),
        event_types is Some && event_types.unwrap()@.len() > 0 && !has_wildcard(event_types.unwrap()@)
            && all_known(event_types.unwrap()@) ==> r == Ok::<Vec<String>, AppError>(event_types.unwrap()),
        forall|i: int|
            event_types is Some && event_types.unwrap()@.len() > 0 && !has_wildcard(event_types.unwrap()@)
                && #[trigger] first_unknown(event_types.unwrap()@, i) ==> (r matches Err(
                AppError::InvalidInput(m),
            ) && m@ == "unknown event type: "@ + event_types.unwrap()@[i]@),
{
    let types: Vec<String> = match event_types {
        Some(ts) => ts,
        None => {
            let mut all: Vec<String> = Vec::new();
            all.push("*".to_owned());
            proof {
                reveal_strlit("*");
            }
            return Ok(all);
        },
    };
    let ghost given = types;
    assert(event_types == Some(given));
    if types.len() == 0 {
        return Err(AppError::InvalidInput("at least one event type is required".to_owned()));
    }
    let mut i: usize = 0;
    while i < types.len()
        invariant
            types == given,
            event_types == Some(given),
            given@.len() > 0,
            i <= types@.len(),
            forall|k: int| 0 <= k < i ==> (#[trigger] types@[k])@ != "*"@,
        decreases types@.len() - i,
    {
        if str_eq(types[i].as_str(), "*") {
            let mut all: Vec<String> = Vec::new();
            all.push("*".to_owned());
            return Ok(all);
        }
        i = i + 1;
    }
    assert(!has_wildcard(given@));
    let mut j: usize = 0;
    while j < types.len()
        invariant
            types == given,
            event_types == Some(given),
            given@.len() > 0,
            !has_wildcard(given@),
            j <= types@.len(),
            forall|k: int| 0 <= k < j ==> known_event_type((#[trigger] types@[k])@),
        decreases types@.len() - j,
    {
        match WebhookEventType::parse(types[j].as_str()) {
            Ok(_) => {},
            Err(_) => {
                return Err(AppError::InvalidInput(concat2("unknown event type: ", types[j].as_str())));
            },
        }
        j = j + 1;
    }
    Ok(types)
}

/// A fresh signing secret: "whsec_" followed by 32 random bytes as unpadded
/// URL-safe Base64.
pub fn generate_secret() -> (r: String)
    ensures
        exists|b: Seq<u8>| b.len() == 32 && r@ == "whsec_"@ + #[trigger] base64_url_no_pad(b),
        r@.len() == 49,
{
    let bytes: Vec<u8> = os_random_bytes(32);
    let encoded: String = base64_url_encode(bytes.as_slice());
    assert(base64_no_pad_len(32) == 43);
    let r: String = concat2("whsec_", encoded.as_str());
    proof {
        reveal_strlit("whsec_");
    }
    r
}

// ============================================================================
// Events
// ============================================================================

/// The fixed fields of an event envelope.
#[derive(Debug, Clone)]
pub struct EnvelopeHeader {
    pub id: String,
    pub event_type: String,
    pub api_version: String,
    pub domain_id: String,
}

/// The fixed fields of the envelope of an event: its id `evt_<uuid>`, its type's
/// wire name, the API version and the domain's id.
pub fn envelope_header(event_id: u128, event_type: WebhookEventType, domain_id: u128) -> (r: EnvelopeHeader)
    ensures
        r.id@ == "evt_"@ + uuid_text(event_id),
        r.event_type@ == event_type.name(),
        r.api_version@ == WEBHOOK_API_VERSION@,
        r.domain_id@ == uuid_text(domain_id),
{
    let id: String = uuid_to_string(event_id);
    EnvelopeHeader {
        id: concat2("evt_", id.as_str()),
        event_type: owned(event_type.as_str()),
        api_version: owned(WEBHOOK_API_VERSION),
        domain_id: uuid_to_string(domain_id),
    }
}

// ============================================================================
// Retries
// ============================================================================

/// The delay before retrying a delivery, before jitter: five minutes times four
/// per attempt made, capped at 20,000 seconds (a negative count reads as a huge
/// one, so it gets the cap).
pub open spec fn backoff_base(attempt_count: int) -> int {
    if attempt_count == 0 {
        300
    } else if attempt_count == 1 {
        1200
    } else if attempt_count == 2 {
        4800
    } else if attempt_count == 3 {
        19200
    } else {
        20000
    }
}

/// The capped exponential part of the retry delay
/// (`min(300 * 4^attempt_count, 20_000)`, the power saturating).
pub fn backoff_base_delay(attempt_count: i32) -> (r: i64)
    ensures
        r == backoff_base(attempt_count as int),
{
    let base_delay: i64 = 300;
    // 5 minutes in seconds
    let max_delay: i64 = 20_000;
    // ~5.5 hours cap
    if attempt_count < 0 || attempt_count > 3 {
        // 4^attempt_count saturates or exceeds the cap
        return max_delay;
    }
    let mut exponential: i64 = base_delay;
    let mut k: i32 = 0;
    while k < attempt_count
        invariant
            0 <= k <= attempt_count <= 3,
            exponential == 300 * (if k == 0 {
                1int
            } else if k == 1 {
                4
            } else if k == 2 {
                16
            } else {
                64
            }),
        decreases attempt_count - k,
    {
        exponential = exponential * 4;
        k = k + 1;
    }
    if exponential < max_delay {
        exponential
    } else {
        max_delay
    }
}

/// The retry delay in seconds: the capped exponential delay plus a random jitter
/// of less than a minute.
pub fn calculate_backoff_delay(attempt_count: i32) -> (r: i64)
    ensures
        backoff_base(attempt_count as int) <= r < backoff_base(attempt_count as int) + 60,
{
    let capped: i64 = backoff_base_delay(attempt_count);
    let jitter: i64 = (random_u64() % 60) as i64;
    capped + jitter
}

/// Later attempts never wait less: the base delay does not decrease from one
/// attempt to the next, for attempt counts from zero up.
pub proof fn lemma_backoff_monotone(a: int, b: int)
    requires
        0 <= a <= b,
    ensures
        backoff_base(a) <= backoff_base(b),
{
}

/// The delay is at least five minutes and never more than the cap plus a minute.
pub proof fn lemma_backoff_bounds(a: int)
    ensures
        300 <= backoff_base(a) <= 20000,
        a >= 4 || a < 0 ==> backoff_base(a) == 20000,
{
}

/// Whether the first 1024 bytes of a response body end at a character boundary,
/// so that they can be kept.
pub open spec fn truncatable(body: Seq<char>) -> bool {
    encode_utf8(body).len() <= 1024 || is_char_boundary(encode_utf8(body), 1024)
}

/// The part of a response body that is stored: its first 1024 bytes.
pub open spec fn kept_body(body: Seq<char>) -> Seq<u8> {
    let b = encode_utf8(body);
    if b.len() <= 1024 {
        b
    } else {
        b.subrange(0, 1024)
    }
}

/// The stored part of a response body (`&b[..b.len().min(1024)]`).
pub fn truncate_response_body(body: &str) -> (r: &str)
    requires
        truncatable(body@),
    ensures
        encode_utf8(r@) == kept_body(body@),
{
    let n: usize = body.as_bytes().len();
    if n <= 1024 {
        body
    } else {
        let (head, _) = body.split_at(1024);
        head
    }
}

/// What becomes of a delivery that failed.
#[derive(Debug, Clone)]
pub enum DeliveryFailureStep {
    /// Give up: the failure was terminal or the attempts are used up.
    Abandon { response_body: Option<String> },
    /// Try again at `next_attempt_at` (nanoseconds since the Unix epoch).
    Retry { next_attempt_at: i128, response_body: Option<String> },
}

/// The stored part of an optional response body.
pub open spec fn kept_body_opt(body: Option<&str>, kept: Option<String>) -> bool {
    match body {
        None => kept is None,
        Some(b) => kept matches Some(k) && encode_utf8(k@) == kept_body(b@),
    }
}

fn keep_body(response_body: Option<&str>) -> (r: Option<String>)
    requires
        response_body matches Some(b) ==> truncatable(b@),
    ensures
        kept_body_opt(response_body, r),
{
    match response_body {
        Some(b) => Some(owned(truncate_response_body(b))),
        None => None,
    }
}

/// A failed delivery is abandoned when the failure is terminal or the attempts
/// are used up; otherwise it is retried after the backoff delay, counted from
/// `now`. The stored body is cut to its first 1024 bytes either way.
pub fn plan_delivery_failure(
    attempt_count: i32,
    is_terminal: bool,
    response_body: Option<&str>,
    now: i128,
) -> (r: DeliveryFailureStep)
    requires
        response_body matches Some(b) ==> truncatable(b@),
        i128::MIN + 100_000_000_000_000 <= now <= i128::MAX - 100_000_000_000_000,
    ensures
        is_terminal || attempt_count >= MAX_DELIVERY_ATTEMPTS ==> (r matches DeliveryFailureStep::Abandon {
            response_body: kept,
        } && kept_body_opt(response_body, kept)),
        !(is_terminal || attempt_count >= MAX_DELIVERY_ATTEMPTS) ==> (r matches DeliveryFailureStep::Retry {
            next_attempt_at,
            response_body: kept,
        } && kept_body_opt(response_body, kept) && now + backoff_base(attempt_count as int)
            * 1_000_000_000 <= next_attempt_at < now + (backoff_base(attempt_count as int) + 60)
            * 1_000_000_000),
{
    let kept: Option<String> = keep_body(response_body);
    if is_terminal || attempt_count >= MAX_DELIVERY_ATTEMPTS {
        DeliveryFailureStep::Abandon { response_body: kept }
    } else {
        let delay: i64 = calculate_backoff_delay(attempt_count);
        let next_attempt_at: i128 = now + (delay as i128) * 1_000_000_000;
        DeliveryFailureStep::Retry { next_attempt_at, response_body: kept }
    }
}

} // verus!
