//! The calls this library makes into outside crates, each behind one trusted
//! function whose contract states what the crate's source and documentation show.
use vstd::prelude::*;
use base64::Engine;
use rand::RngCore;
use sha2::Digest;
use validator::ValidateEmail;

verus! {

// ---------------------------------------------------------------------------
// url
// ---------------------------------------------------------------------------

/// The scheme and host (`Url::scheme`, `Url::host_str`) of `s` as `url::Url::parse`
/// reads it, or `None` when the parse fails.
pub uninterp spec fn parsed_url(s: Seq<char>) -> Option<(Seq<char>, Option<Seq<char>>)>;

/// `url::Url::parse`, then `scheme()` and `host_str()`. The result is named by
/// `parsed_url`; the WHATWG parsing rules themselves are not restated here.
#[verifier::external_body]
pub(crate) fn url_scheme_and_host(s: &str) -> (r: Option<(String, Option<String>)>)
    ensures
        match r {
            Some((scheme, host)) => parsed_url(s@) == Some(
                (scheme@, match host {
                    Some(h) => Some(h@),
                    None => None,
                }),
            ),
            None => parsed_url(s@) is None,
        },
{
    match url::Url::parse(s) {
        Ok(u) => Some((u.scheme().to_string(), u.host_str().map(|h| h.to_string()))),
        Err(_) => None,
    }
}

// ---------------------------------------------------------------------------
// validator
// ---------------------------------------------------------------------------

/// Whether `s` is an e-mail address by the HTML5 rules that
/// `validator::ValidateEmail::validate_email` implements.
pub uninterp spec fn html5_email(s: Seq<char>) -> bool;

/// `validator::ValidateEmail::validate_email` on a string slice. Named by
/// `html5_email`; as its source shows, an address it accepts is non-empty and
/// holds an `@`.
#[verifier::external_body]
pub(crate) fn validate_email(s: &str) -> (r: bool)
    ensures
        r == html5_email(s@),
        r ==> s@.len() > 0 && s@.contains('@'),
{
    s.validate_email()
}

// ---------------------------------------------------------------------------
// sha2, hex, base64
// ---------------------------------------------------------------------------

/// The SHA-256 digest of a byte sequence.
pub uninterp spec fn sha256_digest(b: Seq<u8>) -> Seq<u8>;

/// `sha2::Sha256::digest`. Named by `sha256_digest`; the digest is 32 bytes long.
#[verifier::external_body]
pub(crate) fn sha256(b: &[u8]) -> (r: Vec<u8>)
    ensures
        r@ == sha256_digest(b@),
        r@.len() == 32,
{
    sha2::Sha256::digest(b).to_vec()
}

/// The lowercase hexadecimal digit of a value below 16.
pub open spec fn hex_digit(v: int) -> char {
    if v < 10 {
        (('0' as u32) + v) as char
    } else {
        (('a' as u32) + v - 10) as char
    }
}

/// Two lowercase hexadecimal digits per byte, high nibble first.
pub open spec fn hex_lower(b: Seq<u8>) -> Seq<char>
    decreases b.len(),
{
    if b.len() == 0 {
        Seq::empty()
    } else {
        hex_lower(b.drop_last()) + seq![hex_digit((b.last() / 16) as int), hex_digit((b.last() % 16) as int)]
    }
}

/// `hex::encode`: each byte as two lowercase hexadecimal digits, high nibble first,
/// as the crate documents.
#[verifier::external_body]
pub(crate) fn hex_encode(b: &[u8]) -> (r: String)
    ensures
        r@ == hex_lower(b@),
{
    hex::encode(b)
}

/// The URL-safe, unpadded Base64 text of a byte sequence.
pub uninterp spec fn base64_url_no_pad(b: Seq<u8>) -> Seq<char>;

/// The characters of the URL-safe Base64 alphabet.
pub open spec fn is_base64_url_char(c: char) -> bool {
    ('A' <= c <= 'Z') || ('a' <= c <= 'z') || ('0' <= c <= '9') || c == '-' || c == '_'
}

/// The length of unpadded Base64 text for `n` bytes (`base64::encoded_len`).
pub open spec fn base64_no_pad_len(n: int) -> int {
    4 * (n / 3) + if n % 3 == 0 {
        0int
    } else if n % 3 == 1 {
        2int
    } else {
        3int
    }
}

/// `base64::engine::general_purpose::URL_SAFE_NO_PAD.encode`. Named by
/// `base64_url_no_pad`; as the crate's source shows, the text has the unpadded
/// length and uses only the URL-safe alphabet.
#[verifier::external_body]
pub(crate) fn base64_url_encode(b: &[u8]) -> (r: String)
    ensures
        r@ == base64_url_no_pad(b@),
        r@.len() == base64_no_pad_len(b@.len() as int),
        forall|i: int| 0 <= i < r@.len() ==> is_base64_url_char(#[trigger] r@[i]),
{
    base64::engine::general_purpose::URL_SAFE_NO_PAD.encode(b)
}

// ---------------------------------------------------------------------------
// rand
// ---------------------------------------------------------------------------

/// `rand::rngs::OsRng::fill_bytes` into a fresh buffer of `n` bytes. The bytes
/// come from the operating system's generator: only their number is stated.
#[verifier::external_body]
pub(crate) fn os_random_bytes(n: usize) -> (r: Vec<u8>)
    ensures
        r@.len() == n,
{
    let mut b = vec![0u8; n];
    rand::rngs::OsRng.fill_bytes(&mut b);
    b
}

/// `rand::random::<u64>()`: any value may come back.
#[verifier::external_body]
pub(crate) fn random_u64() -> (r: u64) {
    rand::random::<u64>()
}

// ---------------------------------------------------------------------------
// uuid
// ---------------------------------------------------------------------------

/// `uuid::Uuid::new_v4()`, by its 128-bit value: random, so nothing is claimed.
#[verifier::external_body]
pub(crate) fn random_uuid() -> u128 {
    uuid::Uuid::new_v4().as_u128()
}

/// The hyphenated lowercase text of a UUID given by its 128-bit value.
pub uninterp spec fn uuid_text(id: u128) -> Seq<char>;

/// The 128-bit value of a UUID text, as `uuid::Uuid::parse_str` reads it.
pub uninterp spec fn uuid_of_text(s: Seq<char>) -> Option<u128>;

/// `uuid::Uuid::from_u128(id).to_string()`. Named by `uuid_text`; the text is
/// 36 characters long, and `Uuid::parse_str` reads it back as the same id.
#[verifier::external_body]
pub(crate) fn uuid_to_string(id: u128) -> (r: String)
    ensures
        r@ == uuid_text(id),
        r@.len() == 36,
        uuid_of_text(r@) == Some(id),
{
    uuid::Uuid::from_u128(id).to_string()
}

/// `uuid::Uuid::parse_str`, keeping the 128-bit value. Named by `uuid_of_text`.
#[verifier::external_body]
pub(crate) fn uuid_parse(s: &str) -> (r: Option<u128>)
    ensures
        r == uuid_of_text(s@),
{
    match uuid::Uuid::parse_str(s) {
        Ok(u) => Some(u.as_u128()),
        Err(_) => None,
    }
}

// ---------------------------------------------------------------------------
// chrono
// ---------------------------------------------------------------------------

/// The date-time patterns the service formats with: `%Y-%m-%d %H:%M:%S` and
/// `%Y%m%d%H%M%S`, both made of specifiers chrono knows.
pub open spec fn known_pattern(pattern: Seq<char>) -> bool {
    pattern == "%Y-%m-%d %H:%M:%S"@ || pattern == "%Y%m%d%H%M%S"@
}

/// The text of a UTC instant, given in whole seconds since the Unix epoch, in a
/// chrono `strftime` pattern, or `None` when chrono cannot represent the instant.
pub uninterp spec fn datetime_text(secs: i64, pattern: Seq<char>) -> Option<Seq<char>>;

/// `chrono::DateTime::from_timestamp(secs, 0)` formatted with `pattern`. Named by
/// `datetime_text`; `None` exactly when chrono cannot represent the instant. The
/// pattern is one whose specifiers chrono knows, so formatting cannot fail.
#[verifier::external_body]
pub(crate) fn format_timestamp(secs: i64, pattern: &str) -> (r: Option<String>)
    requires
        known_pattern(pattern@),
    ensures
        match r {
            Some(t) => datetime_text(secs, pattern@) == Some(t@),
            None => datetime_text(secs, pattern@) is None,
        },
        r is Some <==> timestamp_representable(secs),
{
    chrono::DateTime::from_timestamp(secs, 0).map(|dt| dt.naive_utc().format(pattern).to_string())
}

/// `chrono::Utc::now()`, as whole seconds since the Unix epoch and the
/// nanoseconds since the last whole second. chrono's `DateTime` lies within
/// about 262,000 years of the epoch, fewer than 10^13 seconds, and the
/// nanoseconds stay under two seconds' worth (a leap second may add one).
#[verifier::external_body]
pub(crate) fn clock_now() -> (r: (i64, u32))
    ensures
        -10_000_000_000_000 <= r.0 <= 10_000_000_000_000,
        r.1 < 2_000_000_000,
{
    let now = chrono::Utc::now();
    (now.timestamp(), now.timestamp_subsec_nanos())
}

/// The current instant, in nanoseconds since the Unix epoch.
pub(crate) fn now_nanos() -> (r: i128)
    ensures
        crate::billing::plan_change::valid_instant(r as int),
{
    let (secs, nanos) = clock_now();
    (secs as i128) * 1_000_000_000 + (nanos as i128)
}

/// Whether chrono can represent the instant `secs` seconds after the Unix epoch.
pub uninterp spec fn timestamp_representable(secs: i64) -> bool;

/// `chrono::DateTime::from_timestamp(secs, 0).is_some()`. Named by
/// `timestamp_representable`; the Unix epoch itself is representable.
#[verifier::external_body]
pub(crate) fn timestamp_in_range(secs: i64) -> (r: bool)
    ensures
        r == timestamp_representable(secs),
        secs == 0 ==> r,
{
    chrono::DateTime::from_timestamp(secs, 0).is_some()
}

} // verus!
