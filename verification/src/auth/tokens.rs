//! Sign-in tokens: their generation, their domain-bound hashes, and the checks on
//! redirect targets and sender addresses.
use vstd::prelude::*;
use vstd::string::*;
use vstd::utf8::encode_utf8;
use crate::outside::{
    base64_no_pad_len, base64_url_encode, base64_url_no_pad, hex_encode, hex_lower,
    is_base64_url_char, os_random_bytes, parsed_url, sha256, sha256_digest, url_scheme_and_host,
};
use crate::text::{concat2, concat3, ends_with, replace_char, replace_char_in, seq_ends_with, str_eq};

verus! {

// ============================================================================
// Tokens
// ============================================================================

/// A fresh sign-in token: 32 random bytes as unpadded URL-safe Base64, so 43
/// characters of the URL-safe alphabet.
pub fn generate_token() -> (r: String)
    ensures
        exists|b: Seq<u8>| b.len() == 32 && r@ == #[trigger] base64_url_no_pad(b),
        r@.len() == 43,
        forall|i: int| 0 <= i < r@.len() ==> is_base64_url_char(#[trigger] r@[i]),
{
    let bytes: Vec<u8> = os_random_bytes(32);
    let r: String = base64_url_encode(bytes.as_slice());
    assert(base64_no_pad_len(32) == 43);
    r
}

/// The four big-endian bytes of a 32-bit length.
pub open spec fn be32(n: u32) -> Seq<u8> {
    seq![(n >> 24u32) as u8, (n >> 16u32) as u8, (n >> 8u32) as u8, n as u8]
}

/// A byte length as the 32-bit value the hash frames it with (wrapping, as
/// `as u32` does).
pub open spec fn frame_len(n: int) -> u32 {
    n as u32
}

/// The bytes hashed for a token of a domain: each part's UTF-8 bytes preceded by
/// its length as four big-endian bytes.
pub open spec fn domain_token_message(raw: Seq<char>, domain: Seq<char>) -> Seq<u8> {
    let r = encode_utf8(raw);
    let d = encode_utf8(domain);
    be32(frame_len(r.len() as int)) + r + be32(frame_len(d.len() as int)) + d
}

proof fn lemma_be32_injective(a: u32, b: u32)
    requires
        be32(a) == be32(b),
    ensures
        a == b,
{
    assert(be32(a)[0] == be32(b)[0]);
    assert(be32(a)[1] == be32(b)[1]);
    assert(be32(a)[2] == be32(b)[2]);
    assert(be32(a)[3] == be32(b)[3]);
    let (a0, a1, a2, a3) = ((a >> 24u32) as u8, (a >> 16u32) as u8, (a >> 8u32) as u8, a as u8);
    let (b0, b1, b2, b3) = ((b >> 24u32) as u8, (b >> 16u32) as u8, (b >> 8u32) as u8, b as u8);
    assert(a0 == b0 && a1 == b1 && a2 == b2 && a3 == b3);
    assert(a == b) by (bit_vector)
        requires
            (a >> 24u32) as u8 == (b >> 24u32) as u8,
            (a >> 16u32) as u8 == (b >> 16u32) as u8,
            (a >> 8u32) as u8 == (b >> 8u32) as u8,
            a as u8 == b as u8,
    ;
}

proof fn lemma_small_frame_len(n: int)
    requires
        0 <= n < 0x1_0000_0000,
    ensures
        frame_len(n) == n,
{
}

/// The framing of a token and its domain is unambiguous: as long as each part
/// has fewer than 2^32 bytes, two different pairs never give the same bytes, so
/// a token of one domain can never hash like a token of another.
pub proof fn lemma_domain_token_message_injective(r1: Seq<char>, d1: Seq<char>, r2: Seq<char>, d2: Seq<char>)
    requires
        encode_utf8(r1).len() < 0x1_0000_0000,
        encode_utf8(d1).len() < 0x1_0000_0000,
        encode_utf8(r2).len() < 0x1_0000_0000,
        encode_utf8(d2).len() < 0x1_0000_0000,
        domain_token_message(r1, d1) == domain_token_message(r2, d2),
    ensures
        r1 == r2,
        d1 == d2,
{
    broadcast use vstd::utf8::encode_utf8_decode_utf8;

    let (b1, e1, b2, e2) = (encode_utf8(r1), encode_utf8(d1), encode_utf8(r2), encode_utf8(d2));
    let m = domain_token_message(r1, d1);
    lemma_small_frame_len(b1.len() as int);
    lemma_small_frame_len(b2.len() as int);
    lemma_small_frame_len(e1.len() as int);
    lemma_small_frame_len(e2.len() as int);
    let m1 = be32(frame_len(b1.len() as int)) + b1 + be32(frame_len(e1.len() as int)) + e1;
    let m2 = be32(frame_len(b2.len() as int)) + b2 + be32(frame_len(e2.len() as int)) + e2;
    assert(m1 == m2);
    assert(m1.subrange(0, 4) =~= be32(frame_len(b1.len() as int)));
    assert(m2.subrange(0, 4) =~= be32(frame_len(b2.len() as int)));
    lemma_be32_injective(frame_len(b1.len() as int), frame_len(b2.len() as int));
    assert(b1.len() == b2.len());
    let n = b1.len() as int;
    assert(m1.subrange(4, 4 + n) =~= b1);
    assert(m2.subrange(4, 4 + n) =~= b2);
    assert(m1.subrange(4 + n, 8 + n) =~= be32(frame_len(e1.len() as int)));
    assert(m2.subrange(4 + n, 8 + n) =~= be32(frame_len(e2.len() as int)));
    lemma_be32_injective(frame_len(e1.len() as int), frame_len(e2.len() as int));
    assert(m1.subrange(8 + n, m1.len() as int) =~= e1);
    assert(m2.subrange(8 + n, m2.len() as int) =~= e2);
    assert(vstd::utf8::decode_utf8(b1) == r1);
    assert(vstd::utf8::decode_utf8(e1) == d1);
}

fn push_be32(v: &mut Vec<u8>, n: u32)
    ensures
        final(v)@ == old(v)@ + be32(n),
{
    v.push((n >> 24u32) as u8);
    v.push((n >> 16u32) as u8);
    v.push((n >> 8u32) as u8);
    v.push(n as u8);
    assert(final(v)@ =~= old(v)@ + be32(n));
}

fn push_bytes(v: &mut Vec<u8>, b: &[u8])
    ensures
        final(v)@ == old(v)@ + b@,
{
    let mut i: usize = 0;
    while i < b.len()
        invariant
            i <= b@.len(),
            v@ == old(v)@ + b@.subrange(0, i as int),
        decreases b@.len() - i,
    {
        v.push(b[i]);
        assert(b@.subrange(0, i + 1) =~= b@.subrange(0, i as int).push(b@[i as int]));
        i = i + 1;
    }
    assert(b@.subrange(0, b@.len() as int) =~= b@);
}

/// Hash token bound to domain to prevent cross-domain reuse: the lowercase hex
/// SHA-256 of the framed token and domain.
/// Note: session_id is stored separately in Redis for verification, not in the hash
pub fn hash_domain_token(raw: &str, domain: &str) -> (r: String)
    ensures
        r@ == hex_lower(sha256_digest(domain_token_message(raw@, domain@))),
{
    let raw_bytes: &[u8] = raw.as_bytes();
    let domain_bytes: &[u8] = domain.as_bytes();
    let mut message: Vec<u8> = Vec::new();
    push_be32(&mut message, raw_bytes.len() as u32);
    push_bytes(&mut message, raw_bytes);
    push_be32(&mut message, domain_bytes.len() as u32);
    push_bytes(&mut message, domain_bytes);
    assert(message@ =~= domain_token_message(raw@, domain@));
    let digest: Vec<u8> = sha256(message.as_slice());
    hex_encode(digest.as_slice())
}

// ============================================================================
// Redirect targets and sender addresses
// ============================================================================

/// A redirect target is allowed when it parses as a URL whose host is the domain
/// itself or ends with a dot followed by the domain.
pub open spec fn redirect_allowed(url: Seq<char>, domain: Seq<char>) -> bool {
    match parsed_url(url) {
        Some((_, Some(host))) => host == domain || seq_ends_with(host, seq!['.'] + domain),
        _ => false,
    }
}

/// Validate that a redirect URL is on the specified domain or a subdomain
pub fn is_valid_redirect_url(url: &str, domain: &str) -> (r: bool)
    ensures
        r == redirect_allowed(url@, domain@),
{
    match url_scheme_and_host(url) {
        None => false,
        Some((_, None)) => false,
        Some((_, Some(host))) => {
            // Check if host matches domain exactly or is a subdomain
            let dotted: String = concat2(".", domain);
            proof {
                reveal_strlit(".");
                assert(dotted@ =~= seq!['.'] + domain@);
            }
            str_eq(host.as_str(), domain) || ends_with(host.as_str(), dotted.as_str())
        },
    }
}

/// Sanitize a domain name for use in email local part.
/// Replaces dots with hyphens: "myapp.com" -> "myapp-com"
pub fn sanitize_domain_for_email(domain: &str) -> (r: String)
    ensures
        r@ == replace_char(domain@, '.', '-'),
{
    replace_char_in(domain, '.', '-')
}

/// The shared sender address used for a domain without its own e-mail settings.
pub open spec fn fallback_sender(domain_name: Seq<char>, fallback_email_domain: Seq<char>) -> Seq<char> {
    replace_char(domain_name, '.', '-') + "@"@ + fallback_email_domain
}

/// Get the generated from_email for fallback email config.
pub fn get_fallback_email_info(domain_name: &str, fallback_email_domain: &str) -> (r: String)
    ensures
        r@ == fallback_sender(domain_name@, fallback_email_domain@),
{
    let sanitized: String = sanitize_domain_for_email(domain_name);
    concat3(sanitized.as_str(), "@", fallback_email_domain)
}

/// A sanitized name holds no dot, so it is a single label of the shared domain.
pub proof fn lemma_sanitized_has_no_dot(domain: Seq<char>)
    ensures
        !replace_char(domain, '.', '-').contains('.'),
{
    let s = replace_char(domain, '.', '-');
    if s.contains('.') {
        let i = choose|i: int| 0 <= i < s.len() && s[i] == '.';
        assert(s[i] == (if domain[i] == '.' { '-' } else { domain[i] }));
    }
}

} // verus!
