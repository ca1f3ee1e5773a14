//! Verification status of a customer domain.
use vstd::prelude::*;
use crate::text::str_eq;

verus! {

/// Where a domain stands in DNS verification.
#[derive(Debug, Clone, Copy, PartialEq, Eq, Structural)]
pub enum DomainStatus {
    PendingDns,
    Verifying,
    Verified,
    Failed,
}

impl DomainStatus {
    /// The stored name of each status.
    pub open spec fn name(self) -> Seq<char> {
        match self {
            DomainStatus::PendingDns => "pending_dns"@,
            DomainStatus::Verifying => "verifying"@,
            DomainStatus::Verified => "verified"@,
            DomainStatus::Failed => "failed"@,
        }
    }

    /// The status a stored name reads as; unknown names read as `PendingDns`.
    pub open spec fn of_name(s: Seq<char>) -> DomainStatus {
        if s == "pending_dns"@ {
            DomainStatus::PendingDns
        } else if s == "verifying"@ {
            DomainStatus::Verifying
        } else if s == "verified"@ {
            DomainStatus::Verified
        } else if s == "failed"@ {
            DomainStatus::Failed
        } else {
            DomainStatus::PendingDns
        }
    }

    pub fn as_str(&self) -> (r: &'static str)
        ensures
            r@ == self.name(),
    {
        match self {
            DomainStatus::PendingDns => "pending_dns",
            DomainStatus::Verifying => "verifying",
            DomainStatus::Verified => "verified",
            DomainStatus::Failed => "failed",
        }
    }

    pub fn from_str(s: &str) -> (r: DomainStatus)
        ensures
            r == DomainStatus::of_name(s@),
    {
        if str_eq(s, "pending_dns") {
            DomainStatus::PendingDns
        } else if str_eq(s, "verifying") {
            DomainStatus::Verifying
        } else if str_eq(s, "verified") {
            DomainStatus::Verified
        } else if str_eq(s, "failed") {
            DomainStatus::Failed
        } else {
            DomainStatus::PendingDns
        }
    }
}

/// Every status is read back from its own stored name.
pub proof fn lemma_domain_status_name_roundtrip(st: DomainStatus)
    ensures
        DomainStatus::of_name(st.name()) == st,
{
    reveal_strlit("pending_dns");
    reveal_strlit("verifying");
    reveal_strlit("verified");
    reveal_strlit("failed");
    assert("pending_dns"@.len() == 11);
    assert("verifying"@.len() == 9);
    assert("verified"@.len() == 8);
    assert("failed"@.len() == 6);
}

/// A customer domain as stored.
#[derive(Debug, Clone)]
pub struct Domain {
    pub id: u128,
    pub user_id: u128,
    pub domain: String,
    pub status: DomainStatus,
    pub verification_started_at: Option<i128>,
    pub verified_at: Option<i128>,
    pub created_at: Option<i128>,
    pub updated_at: Option<i128>,
}

} // verus!
