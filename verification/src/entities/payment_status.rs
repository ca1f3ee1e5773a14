//! Status of a billing payment.
use vstd::prelude::*;
use crate::text::{concat2, str_eq, to_lowercase, unicode_lowercase, ascii_lowercase, all_ascii, eq_ignore_ascii_case, lemma_lowercase_ignores_ascii_case};

verus! {

/// Payment status for billing payments
#[derive(Debug, Clone, Copy, PartialEq, Eq, Structural)]
pub enum PaymentStatus {
    Pending,
    Paid,
    Failed,
    Refunded,
    PartialRefund,
    Uncollectible,
    Void,
}

impl Default for PaymentStatus {
    fn default() -> (r: Self)
        ensures
            r == PaymentStatus::Pending,
    {
        PaymentStatus::Pending
    }
}

impl PaymentStatus {
    /// The stored name of each status.
    pub open spec fn name(self) -> Seq<char> {
        match self {
            PaymentStatus::Pending => "pending"@,
            PaymentStatus::Paid => "paid"@,
            PaymentStatus::Failed => "failed"@,
            PaymentStatus::Refunded => "refunded"@,
            PaymentStatus::PartialRefund => "partial_refund"@,
            PaymentStatus::Uncollectible => "uncollectible"@,
            PaymentStatus::Void => "void"@,
        }
    }

    /// The status whose stored name is `s`, if any.
    pub open spec fn from_name(s: Seq<char>) -> Option<PaymentStatus> {
        if s == "pending"@ {
            Some(PaymentStatus::Pending)
        } else if s == "paid"@ {
            Some(PaymentStatus::Paid)
        } else if s == "failed"@ {
            Some(PaymentStatus::Failed)
        } else if s == "refunded"@ {
            Some(PaymentStatus::Refunded)
        } else if s == "partial_refund"@ {
            Some(PaymentStatus::PartialRefund)
        } else if s == "uncollectible"@ {
            Some(PaymentStatus::Uncollectible)
        } else if s == "void"@ {
            Some(PaymentStatus::Void)
        } else {
            None
        }
    }

    /// The status a Stripe invoice status maps to.
    pub open spec fn of_invoice_status(s: Seq<char>) -> PaymentStatus {
        if s == "paid"@ {
            PaymentStatus::Paid
        } else if s == "open"@ || s == "draft"@ {
            PaymentStatus::Pending
        } else if s == "uncollectible"@ {
            PaymentStatus::Uncollectible
        } else if s == "void"@ {
            PaymentStatus::Void
        } else {
            PaymentStatus::Pending
        }
    }

    /// Statuses that webhooks must not overwrite.
    pub open spec fn terminal(self) -> bool {
        self == PaymentStatus::Paid || self == PaymentStatus::Refunded || self
            == PaymentStatus::PartialRefund || self == PaymentStatus::Void
    }

    pub fn as_str(&self) -> (r: &'static str)
        ensures
            r@ == self.name(),
    {
        match self {
            PaymentStatus::Pending => "pending",
            PaymentStatus::Paid => "paid",
            PaymentStatus::Failed => "failed",
            PaymentStatus::Refunded => "refunded",
            PaymentStatus::PartialRefund => "partial_refund",
            PaymentStatus::Uncollectible => "uncollectible",
            PaymentStatus::Void => "void",
        }
    }

    /// Convert from Stripe invoice status string
    pub fn from_stripe_invoice_status(s: &str) -> (r: PaymentStatus)
        ensures
            r == PaymentStatus::of_invoice_status(s@),
    {
        if str_eq(s, "paid") {
            PaymentStatus::Paid
        } else if str_eq(s, "open") || str_eq(s, "draft") {
            PaymentStatus::Pending
        } else if str_eq(s, "uncollectible") {
            PaymentStatus::Uncollectible
        } else if str_eq(s, "void") {
            PaymentStatus::Void
        } else {
            PaymentStatus::Pending
        }
    }

    /// Check if this status represents a successful payment
    pub fn is_successful(&self) -> (r: bool)
        ensures
            r == (*self == PaymentStatus::Paid),
    {
        matches!(self, PaymentStatus::Paid)
    }

    /// Check if this status represents a failed or problematic payment
    pub fn is_failed(&self) -> (r: bool)
        ensures
            r == (*self == PaymentStatus::Failed || *self == PaymentStatus::Uncollectible || *self
                == PaymentStatus::Void),
    {
        matches!(self, PaymentStatus::Failed | PaymentStatus::Uncollectible | PaymentStatus::Void)
    }

    /// Check if this status represents a refund (full or partial)
    pub fn is_refunded(&self) -> (r: bool)
        ensures
            r == (*self == PaymentStatus::Refunded || *self == PaymentStatus::PartialRefund),
    {
        matches!(self, PaymentStatus::Refunded | PaymentStatus::PartialRefund)
    }

    /// Check if this status is terminal (should not be overwritten by webhooks)
    /// Terminal states: paid, refunded, partial_refund, void
    /// Non-terminal states: pending, failed, uncollectible (can still transition)
    pub fn is_terminal(&self) -> (r: bool)
        ensures
            r == self.terminal(),
    {
        matches!(
            self,
            PaymentStatus::Paid | PaymentStatus::Refunded | PaymentStatus::PartialRefund
                | PaymentStatus::Void
        )
    }

    /// The status named by an already-lowercased name.
    pub fn from_lowercase(lower: &str) -> (r: Option<PaymentStatus>)
        ensures
            r == PaymentStatus::from_name(lower@),
    {
        if str_eq(lower, "pending") {
            Some(PaymentStatus::Pending)
        } else if str_eq(lower, "paid") {
            Some(PaymentStatus::Paid)
        } else if str_eq(lower, "failed") {
            Some(PaymentStatus::Failed)
        } else if str_eq(lower, "refunded") {
            Some(PaymentStatus::Refunded)
        } else if str_eq(lower, "partial_refund") {
            Some(PaymentStatus::PartialRefund)
        } else if str_eq(lower, "uncollectible") {
            Some(PaymentStatus::Uncollectible)
        } else if str_eq(lower, "void") {
            Some(PaymentStatus::Void)
        } else {
            None
        }
    }

    /// Parse a status name, ignoring case (`FromStr`).
    pub fn parse(s: &str) -> (r: Result<PaymentStatus, String>)
        ensures
            match r {
                Ok(st) => PaymentStatus::from_name(unicode_lowercase(s@)) == Some(st),
                Err(msg) => PaymentStatus::from_name(unicode_lowercase(s@)) is None && msg@
                    == "Invalid payment status: "@ + s@,
            },
            all_ascii(s@) ==> match r {
                Ok(st) => PaymentStatus::from_name(ascii_lowercase(s@)) == Some(st),
                Err(_) => PaymentStatus::from_name(ascii_lowercase(s@)) is None,
            },
    {
        let lower: String = to_lowercase(s);
        match PaymentStatus::from_lowercase(lower.as_str()) {
            Some(st) => Ok(st),
            None => Err(concat2("Invalid payment status: ", s)),
        }
    }

    /// The name shown to people (`Display`).
    pub fn to_string(&self) -> (r: String)
        ensures
            r@ == self.name(),
    {
        self.as_str().to_owned()
    }
}

impl std::str::FromStr for PaymentStatus {
    type Err = String;

    fn from_str(s: &str) -> (r: Result<Self, Self::Err>)
        ensures
            match r {
                Ok(st) => PaymentStatus::from_name(unicode_lowercase(s@)) == Some(st),
                Err(msg) => PaymentStatus::from_name(unicode_lowercase(s@)) is None && msg@
                    == "Invalid payment status: "@ + s@,
            },
            all_ascii(s@) ==> match r {
                Ok(st) => PaymentStatus::from_name(ascii_lowercase(s@)) == Some(st),
                Err(_) => PaymentStatus::from_name(ascii_lowercase(s@)) is None,
            },
    {
        PaymentStatus::parse(s)
    }
}

/// A successful payment is terminal, and no status is both failed and terminal
/// except a voided one.
pub proof fn lemma_payment_status_classes(st: PaymentStatus)
    ensures
        st == PaymentStatus::Paid ==> st.terminal(),
        (st == PaymentStatus::Failed || st == PaymentStatus::Uncollectible || st
            == PaymentStatus::Void) && st.terminal() ==> st == PaymentStatus::Void,
        (st == PaymentStatus::Refunded || st == PaymentStatus::PartialRefund) ==> st.terminal(),
{
}

/// Every status is found again from its own stored name.
pub proof fn lemma_payment_status_name_roundtrip(st: PaymentStatus)
    ensures
        PaymentStatus::from_name(st.name()) == Some(st),
{
    reveal_strlit("pending");
    reveal_strlit("paid");
    reveal_strlit("failed");
    reveal_strlit("refunded");
    reveal_strlit("partial_refund");
    reveal_strlit("uncollectible");
    reveal_strlit("void");
    assert("pending"@.len() == 7);
    assert("paid"@.len() == 4);
    assert("failed"@.len() == 6);
    assert("refunded"@.len() == 8);
    assert("partial_refund"@.len() == 14);
    assert("uncollectible"@.len() == 13);
    assert("void"@.len() == 4);
    assert("paid"@[0] != "void"@[0]);
}


/// Parsing ignores ASCII case: a name that differs from a status's own name only
/// in the case of its letters reads as that status.
pub proof fn lemma_payment_status_parse_ignores_case(st: PaymentStatus, s: Seq<char>)
    requires
        all_ascii(s),
        eq_ignore_ascii_case(s, st.name()),
    ensures
        PaymentStatus::from_name(ascii_lowercase(s)) == Some(st),
{
    reveal_strlit("pending");
    reveal_strlit("paid");
    reveal_strlit("failed");
    reveal_strlit("refunded");
    reveal_strlit("partial_refund");
    reveal_strlit("uncollectible");
    reveal_strlit("void");
    assert(ascii_lowercase(st.name()) =~= st.name());
    lemma_lowercase_ignores_ascii_case(s, st.name());
    lemma_payment_status_name_roundtrip(st);
}

} // verus!
