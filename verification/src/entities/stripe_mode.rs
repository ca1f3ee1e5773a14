//! Stripe environment mode, kept for stored data; `PaymentMode` supersedes it.
use vstd::prelude::*;
use crate::entities::payment_mode::{PaymentMode, is_live_key, key_mismatch, key_mismatch_message};
use crate::text::{concat2, starts_with, str_eq, to_lowercase, unicode_lowercase};

verus! {

/// Stripe environment mode - test (sandbox) or live (production).
///
/// Deprecated: use `PaymentMode` instead.
#[derive(Debug, Clone, Copy, PartialEq, Eq, Structural)]
pub enum StripeMode {
    Test,
    Live,
}

impl StripeMode {
    /// The stored name of each mode.
    pub open spec fn name(self) -> Seq<char> {
        match self {
            StripeMode::Test => "test"@,
            StripeMode::Live => "live"@,
        }
    }

    /// The mode whose stored name is `s`, if any.
    pub open spec fn from_name(s: Seq<char>) -> Option<StripeMode> {
        if s == "test"@ {
            Some(StripeMode::Test)
        } else if s == "live"@ {
            Some(StripeMode::Live)
        } else {
            None
        }
    }

    /// The mode a Stripe key's prefix announces.
    pub open spec fn of_key(key: Seq<char>) -> StripeMode {
        if is_live_key(key) {
            StripeMode::Live
        } else {
            StripeMode::Test
        }
    }

    pub fn as_str(&self) -> (r: &'static str)
        ensures
            r@ == self.name(),
    {
        match self {
            StripeMode::Test => "test",
            StripeMode::Live => "live",
        }
    }

    /// Detect mode from Stripe key prefix.
    pub fn from_key_prefix(key: &str) -> (r: StripeMode)
        ensures
            r == StripeMode::of_key(key@),
    {
        if starts_with(key, "sk_live_") || starts_with(key, "pk_live_") || starts_with(
            key,
            "rk_live_",
        ) {
            StripeMode::Live
        } else {
            StripeMode::Test
        }
    }

    /// Validate that a key's prefix matches the expected mode.
    pub fn validate_key_prefix(&self, key: &str, key_name: &str) -> (r: Result<(), String>)
        ensures
            r is Ok <==> StripeMode::of_key(key@) == *self,
            r matches Err(m) ==> m@ == key_mismatch_message(
                key_name@,
                StripeMode::of_key(key@).name(),
                self.name(),
            ),
    {
        let detected: StripeMode = StripeMode::from_key_prefix(key);
        if detected != *self {
            Err(key_mismatch(key_name, detected.as_str(), self.as_str()))
        } else {
            Ok(())
        }
    }

    /// Parse a mode name, ignoring case (`FromStr`).
    pub fn parse(s: &str) -> (r: Result<StripeMode, String>)
        ensures
            match r {
                Ok(m) => StripeMode::from_name(unicode_lowercase(s@)) == Some(m),
                Err(msg) => StripeMode::from_name(unicode_lowercase(s@)) is None && msg@
                    == "Invalid stripe mode: "@ + s@ + ". Must be 'test' or 'live'"@,
            },
    {
        let lower: String = to_lowercase(s);
        if str_eq(lower.as_str(), "test") {
            Ok(StripeMode::Test)
        } else if str_eq(lower.as_str(), "live") {
            Ok(StripeMode::Live)
        } else {
            let mut msg: String = concat2("Invalid stripe mode: ", s);
            msg.append(". Must be 'test' or 'live'");
            Err(msg)
        }
    }

    /// The name shown to people (`Display`).
    pub fn to_string(&self) -> (r: String)
        ensures
            r@ == self.name(),
    {
        self.as_str().to_owned()
    }
}

impl Default for StripeMode {
    fn default() -> (r: Self)
        ensures
            r == StripeMode::Test,
    {
        StripeMode::Test
    }
}

impl std::str::FromStr for StripeMode {
    type Err = String;

    fn from_str(s: &str) -> (r: Result<Self, Self::Err>)
        ensures
            match r {
                Ok(m) => StripeMode::from_name(unicode_lowercase(s@)) == Some(m),
                Err(msg) => StripeMode::from_name(unicode_lowercase(s@)) is None && msg@
                    == "Invalid stripe mode: "@ + s@ + ". Must be 'test' or 'live'"@,
            },
    {
        StripeMode::parse(s)
    }
}

impl From<PaymentMode> for StripeMode {
    fn from(mode: PaymentMode) -> (r: Self) {
        match mode {
            PaymentMode::Test => StripeMode::Test,
            PaymentMode::Live => StripeMode::Live,
        }
    }
}

impl vstd::std_specs::convert::FromSpecImpl<PaymentMode> for StripeMode {
    open spec fn obeys_from_spec() -> bool {
        true
    }

    open spec fn from_spec(mode: PaymentMode) -> StripeMode {
        match mode {
            PaymentMode::Test => StripeMode::Test,
            PaymentMode::Live => StripeMode::Live,
        }
    }
}

/// Converting a payment mode keeps its name, and both mode types read a key's
/// prefix the same way.
pub proof fn lemma_stripe_mode_agrees_with_payment_mode(m: PaymentMode, key: Seq<char>)
    ensures
        <StripeMode as vstd::std_specs::convert::FromSpec<PaymentMode>>::from_spec(m).name() == m.name(),
        <StripeMode as vstd::std_specs::convert::FromSpec<PaymentMode>>::from_spec(PaymentMode::of_key(key)) == StripeMode::of_key(key),
{
}

} // verus!
