//! Test (sandbox) or live (production) payment environment.
use vstd::prelude::*;
use crate::text::{concat2, starts_with, seq_starts_with, str_eq, to_lowercase, unicode_lowercase, ascii_lowercase, all_ascii, eq_ignore_ascii_case, lemma_lowercase_ignores_ascii_case};

verus! {

/// Payment mode - test (sandbox) or live (production) environment
#[derive(Debug, Clone, Copy, PartialEq, Eq, Hash, Structural)]
pub enum PaymentMode {
    Test,
    Live,
}

impl Default for PaymentMode {
    fn default() -> (r: Self)
        ensures
            r == PaymentMode::Test,
    {
        PaymentMode::Test
    }
}

/// A Stripe key whose prefix marks it as a live-mode key.
pub open spec fn is_live_key(key: Seq<char>) -> bool {
    seq_starts_with(key, "sk_live_"@) || seq_starts_with(key, "pk_live_"@) || seq_starts_with(
        key,
        "rk_live_"@,
    )
}

/// The message given when a key's prefix does not match the expected mode.
pub open spec fn key_mismatch_message(
    key_name: Seq<char>,
    detected: Seq<char>,
    expected: Seq<char>,
) -> Seq<char> {
    key_name + " has "@ + detected + " prefix but "@ + expected + " mode was expected"@
}

/// Builds `key_mismatch_message`.
pub fn key_mismatch(key_name: &str, detected: &str, expected: &str) -> (r: String)
    ensures
        r@ == key_mismatch_message(key_name@, detected@, expected@),
{
    let mut m: String = key_name.to_owned();
    m.append(" has ");
    m.append(detected);
    m.append(" prefix but ");
    m.append(expected);
    m.append(" mode was expected");
    m
}

impl PaymentMode {
    /// The stored name of each mode.
    pub open spec fn name(self) -> Seq<char> {
        match self {
            PaymentMode::Test => "test"@,
            PaymentMode::Live => "live"@,
        }
    }

    /// The mode whose stored name is `s`, if any.
    pub open spec fn from_name(s: Seq<char>) -> Option<PaymentMode> {
        if s == "test"@ {
            Some(PaymentMode::Test)
        } else if s == "live"@ {
            Some(PaymentMode::Live)
        } else {
            None
        }
    }

    /// The mode a Stripe key's prefix announces.
    pub open spec fn of_key(key: Seq<char>) -> PaymentMode {
        if is_live_key(key) {
            PaymentMode::Live
        } else {
            PaymentMode::Test
        }
    }

    pub fn as_str(&self) -> (r: &'static str)
        ensures
            r@ == self.name(),
    {
        match self {
            PaymentMode::Test => "test",
            PaymentMode::Live => "live",
        }
    }

    /// Whether this mode is production (live)
    pub fn is_production(&self) -> (r: bool)
        ensures
            r == (*self == PaymentMode::Live),
    {
        matches!(self, PaymentMode::Live)
    }

    /// Whether this mode is test (sandbox)
    pub fn is_test(&self) -> (r: bool)
        ensures
            r == (*self == PaymentMode::Test),
    {
        matches!(self, PaymentMode::Test)
    }

    /// Detect mode from Stripe key prefix.
    /// Test keys start with sk_test_ or pk_test_.
    /// Live keys start with sk_live_ or pk_live_.
    /// Restricted keys follow the same live/test prefix rules.
    pub fn from_stripe_key_prefix(key: &str) -> (r: PaymentMode)
        ensures
            r == PaymentMode::of_key(key@),
    {
        if starts_with(key, "sk_live_") || starts_with(key, "pk_live_") || starts_with(
            key,
            "rk_live_",
        ) {
            PaymentMode::Live
        } else {
            PaymentMode::Test
        }
    }

    /// Validate that a Stripe key's prefix matches the expected mode.
    /// Returns Ok(()) if the key matches, Err with message otherwise.
    pub fn validate_stripe_key_prefix(&self, key: &str, key_name: &str) -> (r: Result<(), String>)
        ensures
            r is Ok <==> PaymentMode::of_key(key@) == *self,
            r matches Err(m) ==> m@ == key_mismatch_message(
                key_name@,
                PaymentMode::of_key(key@).name(),
                self.name(),
            ),
    {
        let detected: PaymentMode = PaymentMode::from_stripe_key_prefix(key);
        if detected != *self {
            Err(key_mismatch(key_name, detected.as_str(), self.as_str()))
        } else {
            Ok(())
        }
    }

    /// The mode named by an already-lowercased name.
    pub fn from_lowercase(lower: &str) -> (r: Option<PaymentMode>)
        ensures
            r == PaymentMode::from_name(lower@),
    {
        if str_eq(lower, "test") {
            Some(PaymentMode::Test)
        } else if str_eq(lower, "live") {
            Some(PaymentMode::Live)
        } else {
            None
        }
    }

    /// Parse a mode name, ignoring case (`FromStr`).
    pub fn parse(s: &str) -> (r: Result<PaymentMode, String>)
        ensures
            match r {
                Ok(m) => PaymentMode::from_name(unicode_lowercase(s@)) == Some(m),
                Err(msg) => PaymentMode::from_name(unicode_lowercase(s@)) is None && msg@
                    == "Invalid payment mode: "@ + s@ + ". Must be 'test' or 'live'"@,
            },
            all_ascii(s@) ==> match r {
                Ok(m) => PaymentMode::from_name(ascii_lowercase(s@)) == Some(m),
                Err(_) => PaymentMode::from_name(ascii_lowercase(s@)) is None,
            },
    {
        let lower: String = to_lowercase(s);
        match PaymentMode::from_lowercase(lower.as_str()) {
            Some(m) => Ok(m),
            None => {
                let mut msg: String = concat2("Invalid payment mode: ", s);
                msg.append(". Must be 'test' or 'live'");
                Err(msg)
            },
        }
    }

    /// The name shown to people (`Display`).
    pub fn to_string(&self) -> (r: String)
        ensures
            r@ == self.name(),
    {
        self.as_str().to_owned()
    }
}

impl std::str::FromStr for PaymentMode {
    type Err = String;

    fn from_str(s: &str) -> (r: Result<Self, Self::Err>)
        ensures
            match r {
                Ok(m) => PaymentMode::from_name(unicode_lowercase(s@)) == Some(m),
                Err(msg) => PaymentMode::from_name(unicode_lowercase(s@)) is None && msg@
                    == "Invalid payment mode: "@ + s@ + ". Must be 'test' or 'live'"@,
            },
            all_ascii(s@) ==> match r {
                Ok(m) => PaymentMode::from_name(ascii_lowercase(s@)) == Some(m),
                Err(_) => PaymentMode::from_name(ascii_lowercase(s@)) is None,
            },
    {
        PaymentMode::parse(s)
    }
}

/// A key is accepted for exactly the mode its prefix announces: a live-looking key
/// is rejected in test mode and every other key is rejected in live mode.
pub proof fn lemma_key_prefix_accepted_by_one_mode(key: Seq<char>)
    ensures
        PaymentMode::of_key(key) == PaymentMode::Live <==> is_live_key(key),
        PaymentMode::of_key(key) == PaymentMode::Test <==> !is_live_key(key),
{
}

/// Every mode is found again from its own stored name.
pub proof fn lemma_payment_mode_name_roundtrip(m: PaymentMode)
    ensures
        PaymentMode::from_name(m.name()) == Some(m),
{
    reveal_strlit("test");
    reveal_strlit("live");
    assert("test"@[0] != "live"@[0]);
}


/// Parsing ignores ASCII case: a name that differs from a mode's own name only
/// in the case of its letters reads as that mode.
pub proof fn lemma_payment_mode_parse_ignores_case(m: PaymentMode, s: Seq<char>)
    requires
        all_ascii(s),
        eq_ignore_ascii_case(s, m.name()),
    ensures
        PaymentMode::from_name(ascii_lowercase(s)) == Some(m),
{
    reveal_strlit("test");
    reveal_strlit("live");
    assert(ascii_lowercase(m.name()) =~= m.name());
    lemma_lowercase_ignores_ascii_case(s, m.name());
    lemma_payment_mode_name_roundtrip(m);
}

} // verus!
