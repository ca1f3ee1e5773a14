//! Customer domains: adding, owning, DNS verification and deletion.
use vstd::prelude::*;
use crate::app_error::AppError;
use crate::domain_parsing::{
    ends_with_any, ends_with_listed, root_domain_check, root_domain_rule, split_dots,
};
use crate::entities::domain::DomainStatus;
use crate::entities::payment_mode::PaymentMode;
use crate::outside::{uuid_text, uuid_to_string};
use crate::text::{concat2, owned, to_lowercase, trim, trim_ws, unicode_lowercase};

verus! {

/// A customer domain as stored.
#[derive(Debug, Clone)]
pub struct DomainProfile {
    pub id: u128,
    /// `None` for system domains such as reauth.dev.
    pub owner_end_user_id: Option<u128>,
    pub domain: String,
    pub status: DomainStatus,
    pub active_payment_mode: PaymentMode,
    pub verification_started_at: Option<i128>,
    pub verified_at: Option<i128>,
    pub created_at: Option<i128>,
    pub updated_at: Option<i128>,
}

/// The DNS records a domain owner must publish.
#[derive(Debug, Clone)]
pub struct DnsRecords {
    pub cname_name: String,
    pub cname_value: String,
    pub txt_name: String,
    pub txt_value: String,
}

/// Multi-part TLDs recognised when a domain is added.
pub open spec fn domain_multi_part_tlds() -> Seq<Seq<char>> {
    seq!["co.uk"@, "com.au"@, "co.nz"@, "com.br"@, "co.jp"@, "org.uk"@, "net.au"@]
}

fn domain_tld_list() -> (r: &'static [&'static str])
    ensures
        r@.len() == domain_multi_part_tlds().len(),
        forall|i: int| 0 <= i < r@.len() ==> r@[i]@ == domain_multi_part_tlds()[i],
{
    let r: &'static [&'static str] = &["co.uk", "com.au", "co.nz", "com.br", "co.jp", "org.uk", "net.au"];
    assert(r@.len() == 7);
    r
}

/// Whether a domain may be added: a root domain by the rules for added domains.
pub open spec fn addable_root(domain: Seq<char>) -> bool {
    root_domain_rule(
        split_dots(domain).len() as int,
        ends_with_any(unicode_lowercase(domain), domain_multi_part_tlds()),
    )
}

/// Check if a domain is a root domain (not a subdomain)
/// Handles multi-part TLDs like .co.uk, .com.au, etc.
fn is_root_domain(domain: &str) -> (r: bool)
    ensures
        r == addable_root(domain@),
{
    let lower: String = to_lowercase(domain);
    root_domain_check(domain, lower.as_str(), domain_tld_list(), Ghost(domain_multi_part_tlds()))
}

/// The form a new domain is stored in: lowercased, then trimmed.
pub open spec fn normalized_domain(domain: Seq<char>) -> Seq<char> {
    trim_ws(unicode_lowercase(domain))
}

/// The message given for a domain that is not a root domain.
pub open spec fn not_root_message() -> Seq<char> {
    "Please enter your root domain (e.g., example.com), not a subdomain"@
}

/// The normalized form of a domain being added, refused unless it is a root domain.
pub fn normalize_new_domain(domain: &str) -> (r: Result<String, AppError>)
    ensures
        addable_root(normalized_domain(domain@)) ==> (r matches Ok(n) && n@ == normalized_domain(domain@)),
        !addable_root(normalized_domain(domain@)) ==> (r matches Err(AppError::InvalidInput(m)) && m@
            == not_root_message()),
{
    let lower: String = to_lowercase(domain);
    let normalized: String = trim(lower.as_str());
    // Validate that this is a root domain (not a subdomain)
    if !is_root_domain(normalized.as_str()) {
        return Err(AppError::InvalidInput(
            "Please enter your root domain (e.g., example.com), not a subdomain".to_owned(),
        ));
    }
    Ok(normalized)
}

/// The domain an owner asked for: missing domains are not found, and a domain
/// owned by someone else is refused as invalid credentials.
pub fn owned_domain(found: Option<DomainProfile>, owner_end_user_id: u128) -> (r: Result<DomainProfile, AppError>)
    ensures
        found is None ==> r == Err::<DomainProfile, AppError>(AppError::NotFound),
        found is Some && found.unwrap().owner_end_user_id != Some(owner_end_user_id) ==> r == Err::<
            DomainProfile,
            AppError,
        >(AppError::InvalidCredentials),
        found is Some && found.unwrap().owner_end_user_id == Some(owner_end_user_id) ==> r == Ok::<
            DomainProfile,
            AppError,
        >(found.unwrap()),
{
    match found {
        None => Err(AppError::NotFound),
        Some(d) => {
            if d.owner_end_user_id != Some(owner_end_user_id) {
                return Err(AppError::InvalidCredentials);
            }
            Ok(d)
        },
    }
}

/// System domains (those without an owner) cannot be deleted.
pub fn check_domain_deletable(domain: &DomainProfile) -> (r: Result<(), AppError>)
    ensures
        domain.owner_end_user_id is Some ==> r is Ok,
        domain.owner_end_user_id is None ==> (r matches Err(AppError::InvalidInput(m)) && m@
            == "System domains cannot be deleted"@),
{
    if domain.owner_end_user_id.is_none() {
        return Err(AppError::InvalidInput("System domains cannot be deleted".to_owned()));
    }
    Ok(())
}

/// The records for `domain`: a CNAME from `reauth.<domain>` to the ingress domain
/// and a TXT record `_reauth.<domain>` holding `project=<domain id>`.
pub open spec fn dns_records_for(ingress_domain: Seq<char>, domain: Seq<char>, domain_id: u128) -> (Seq<char>, Seq<char>, Seq<char>, Seq<char>) {
    ("reauth."@ + domain, ingress_domain, "_reauth."@ + domain, "project="@ + uuid_text(domain_id))
}

/// The DNS records to publish for a domain.
pub fn get_dns_records(ingress_domain: &str, domain: &str, domain_id: u128) -> (r: DnsRecords)
    ensures
        (r.cname_name@, r.cname_value@, r.txt_name@, r.txt_value@) == dns_records_for(
            ingress_domain@,
            domain@,
            domain_id,
        ),
{
    let id: String = uuid_to_string(domain_id);
    DnsRecords {
        cname_name: concat2("reauth.", domain),
        cname_value: owned(ingress_domain),
        txt_name: concat2("_reauth.", domain),
        txt_value: concat2("project=", id.as_str()),
    }
}

/// A domain passes DNS verification when both lookups succeeded and matched; a
/// failed lookup (`None`) counts as no match.
pub fn dns_check_passed(cname_ok: Option<bool>, txt_ok: Option<bool>) -> (r: bool)
    ensures
        r == (cname_ok == Some(true) && txt_ok == Some(true)),
{
    let c: bool = match cname_ok {
        Some(b) => b,
        None => false,
    };
    let t: bool = match txt_ok {
        Some(b) => b,
        None => false,
    };
    c && t
}

/// A hostname may get a certificate only when its domain is known and verified.
pub fn domain_allowed(found: Option<DomainProfile>) -> (r: bool)
    ensures
        r == (found matches Some(d) && d.status == DomainStatus::Verified),
{
    match found {
        Some(d) => d.status == DomainStatus::Verified,
        None => false,
    }
}

} // verus!
