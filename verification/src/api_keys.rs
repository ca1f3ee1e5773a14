//! API keys of a domain: how they are made, stored, named and checked.
use vstd::prelude::*;
use crate::app_error::AppError;
use crate::outside::{
    base64_no_pad_len, base64_url_encode, base64_url_no_pad, hex_encode, hex_lower,
    is_base64_url_char, os_random_bytes, sha256, sha256_digest,
};
use crate::text::{concat2, owned, string_from_char_range, chars_of, trim, trim_ws};
use vstd::utf8::encode_utf8;

verus! {

/// An API key as listed to its domain's owner.
#[derive(Debug, Clone)]
pub struct ApiKeyProfile {
    pub id: u128,
    pub domain_id: u128,
    pub key_prefix: String,
    pub name: String,
    pub last_used_at: Option<i128>,
    pub revoked_at: Option<i128>,
    pub created_at: Option<i128>,
}

/// An API key found by its hash, with the domain it belongs to.
#[derive(Debug, Clone)]
pub struct ApiKeyWithDomain {
    pub id: u128,
    pub domain_id: u128,
    pub domain_name: String,
    pub revoked_at: Option<i128>,
}

/// An API key with its raw text, from which token secrets are derived.
#[derive(Debug, Clone)]
pub struct ApiKeyWithRaw {
    pub id: u128,
    pub domain_id: u128,
    pub raw_key: String,
}

/// The text every API key begins with.
pub open spec fn api_key_prefix() -> Seq<char> {
    "sk_live_"@
}

/// A fresh API key: "sk_live_" followed by 24 random bytes as unpadded URL-safe
/// Base64, 40 characters in all.
pub fn generate_api_key() -> (r: String)
    ensures
        exists|b: Seq<u8>| b.len() == 24 && r@ == api_key_prefix() + #[trigger] base64_url_no_pad(b),
        r@.len() == 40,
        forall|i: int| 8 <= i < r@.len() ==> is_base64_url_char(#[trigger] r@[i]),
{
    // 24 bytes = 32 chars base64
    let bytes: Vec<u8> = os_random_bytes(24);
    let random_part: String = base64_url_encode(bytes.as_slice());
    assert(base64_no_pad_len(24) == 32);
    let r: String = concat2("sk_live_", random_part.as_str());
    proof {
        reveal_strlit("sk_live_");
        assert forall|i: int| 8 <= i < r@.len() implies is_base64_url_char(#[trigger] r@[i]) by {
            assert(r@[i] == random_part@[i - 8]);
        }
    }
    r
}

/// The stored hash of an API key: lowercase hex SHA-256 of its UTF-8 bytes.
pub fn hash_api_key(raw_key: &str) -> (r: String)
    ensures
        r@ == hex_lower(sha256_digest(encode_utf8(raw_key@))),
{
    let digest: Vec<u8> = sha256(raw_key.as_bytes());
    hex_encode(digest.as_slice())
}

/// The name an API key is stored under: the given name trimmed, or "Default"
/// when nothing is left.
pub open spec fn api_key_name(name: Seq<char>) -> Seq<char> {
    if trim_ws(name).len() == 0 {
        "Default"@
    } else {
        trim_ws(name)
    }
}

/// The name an API key is stored under.
pub fn normalize_api_key_name(name: &str) -> (r: String)
    ensures
        r@ == api_key_name(name@),
{
    let t: String = trim(name);
    if t.as_str().is_empty() {
        owned("Default")
    } else {
        t
    }
}

/// A new API key: its raw text (shown once), the prefix kept for display (its
/// first 16 characters), its hash and its name.
#[derive(Debug, Clone)]
pub struct NewApiKey {
    pub raw_key: String,
    pub key_prefix: String,
    pub key_hash: String,
    pub name: String,
}

/// Create an API key for a domain: a fresh key, its display prefix, its hash and
/// its normalized name.
pub fn create_api_key(name: &str) -> (r: NewApiKey)
    ensures
        exists|b: Seq<u8>| b.len() == 24 && r.raw_key@ == api_key_prefix() + #[trigger] base64_url_no_pad(b),
        r.raw_key@.len() == 40,
        r.key_prefix@ == r.raw_key@.subrange(0, 16),
        r.key_hash@ == hex_lower(sha256_digest(encode_utf8(r.raw_key@))),
        r.name@ == api_key_name(name@),
{
    let raw_key: String = generate_api_key();
    // "sk_live_" + first 8 chars of random
    let chars: Vec<char> = chars_of(raw_key.as_str());
    let key_prefix: String = string_from_char_range(&chars, 0, 16);
    let key_hash: String = hash_api_key(raw_key.as_str());
    NewApiKey { raw_key, key_prefix, key_hash, name: normalize_api_key_name(name) }
}

/// A key can be revoked only through the domain it belongs to.
pub fn check_key_in_domain(keys: &Vec<ApiKeyProfile>, key_id: u128) -> (r: Result<(), AppError>)
    ensures
        (exists|i: int| 0 <= i < keys@.len() && #[trigger] keys@[i].id == key_id) ==> r is Ok,
        !(exists|i: int| 0 <= i < keys@.len() && #[trigger] keys@[i].id == key_id) ==> r == Err::<
            (),
            AppError,
        >(AppError::NotFound),
{
    let mut i: usize = 0;
    while i < keys.len()
        invariant
            i <= keys@.len(),
            forall|k: int| 0 <= k < i ==> keys@[k].id != key_id,
        decreases keys@.len() - i,
    {
        if keys[i].id == key_id {
            return Ok(());
        }
        i = i + 1;
    }
    Err(AppError::NotFound)
}

/// Validate an API key: a key found by its hash and not revoked gives its
/// domain's id and name and its own id.
pub fn validated_key(found: Option<ApiKeyWithDomain>) -> (r: Option<(u128, String, u128)>)
    ensures
        found is None ==> r is None,
        found is Some && found.unwrap().revoked_at is Some ==> r is None,
        found is Some && found.unwrap().revoked_at is None ==> r == Some(
            (found.unwrap().domain_id, found.unwrap().domain_name, found.unwrap().id),
        ),
{
    match found {
        None => None,
        Some(k) => {
            if k.revoked_at.is_some() {
                return None;
            }
            Some((k.domain_id, k.domain_name, k.id))
        },
    }
}

} // verus!
