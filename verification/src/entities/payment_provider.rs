//! The payment processors the service can bill through.
use vstd::prelude::*;
use crate::entities::payment_mode::PaymentMode;
use crate::text::{concat2, str_eq, to_lowercase, unicode_lowercase, ascii_lowercase, all_ascii, eq_ignore_ascii_case, lemma_lowercase_ignores_ascii_case};

verus! {

/// Payment provider type - the payment processor used for billing
#[derive(Debug, Clone, Copy, PartialEq, Eq, Hash, Structural)]
pub enum PaymentProvider {
    Stripe,
    Dummy,
    Coinbase,
}

impl Default for PaymentProvider {
    fn default() -> (r: Self)
        ensures
            r == PaymentProvider::Stripe,
    {
        PaymentProvider::Stripe
    }
}

impl PaymentProvider {
    /// The stored name of each provider.
    pub open spec fn name(self) -> Seq<char> {
        match self {
            PaymentProvider::Stripe => "stripe"@,
            PaymentProvider::Dummy => "dummy"@,
            PaymentProvider::Coinbase => "coinbase"@,
        }
    }

    /// The human-readable name of each provider.
    pub open spec fn label(self) -> Seq<char> {
        match self {
            PaymentProvider::Stripe => "Stripe"@,
            PaymentProvider::Dummy => "Test Provider"@,
            PaymentProvider::Coinbase => "Coinbase Commerce"@,
        }
    }

    /// The provider whose stored name is `s`, if any.
    pub open spec fn from_name(s: Seq<char>) -> Option<PaymentProvider> {
        if s == "stripe"@ {
            Some(PaymentProvider::Stripe)
        } else if s == "dummy"@ {
            Some(PaymentProvider::Dummy)
        } else if s == "coinbase"@ {
            Some(PaymentProvider::Coinbase)
        } else {
            None
        }
    }

    /// Which modes each provider can operate in.
    pub open spec fn supports(self, mode: PaymentMode) -> bool {
        match self {
            PaymentProvider::Stripe | PaymentProvider::Coinbase => true,
            PaymentProvider::Dummy => mode == PaymentMode::Test,
        }
    }

    pub fn as_str(&self) -> (r: &'static str)
        ensures
            r@ == self.name(),
    {
        match self {
            PaymentProvider::Stripe => "stripe",
            PaymentProvider::Dummy => "dummy",
            PaymentProvider::Coinbase => "coinbase",
        }
    }

    /// Human-readable display name for the provider
    pub fn display_name(&self) -> (r: &'static str)
        ensures
            r@ == self.label(),
    {
        match self {
            PaymentProvider::Stripe => "Stripe",
            PaymentProvider::Dummy => "Test Provider",
            PaymentProvider::Coinbase => "Coinbase Commerce",
        }
    }

    /// Whether this provider requires external checkout (redirect to provider's hosted page)
    pub fn requires_external_checkout(&self) -> (r: bool)
        ensures
            r == (*self == PaymentProvider::Stripe || *self == PaymentProvider::Coinbase),
    {
        matches!(self, PaymentProvider::Stripe | PaymentProvider::Coinbase)
    }

    /// Whether this provider supports the given payment mode
    pub fn supports_mode(&self, mode: PaymentMode) -> (r: bool)
        ensures
            r == self.supports(mode),
    {
        match self {
            PaymentProvider::Stripe | PaymentProvider::Coinbase => true,
            PaymentProvider::Dummy => mode == PaymentMode::Test,
        }
    }

    /// Get the default mode for this provider
    pub fn default_mode(&self) -> (r: PaymentMode)
        ensures
            r == PaymentMode::Test,
    {
        match self {
            PaymentProvider::Dummy => PaymentMode::Test,
            _ => PaymentMode::Test,
        }
    }

    /// Whether this provider is the dummy/test provider
    pub fn is_dummy(&self) -> (r: bool)
        ensures
            r == (*self == PaymentProvider::Dummy),
    {
        matches!(self, PaymentProvider::Dummy)
    }

    /// Whether this provider is Stripe
    pub fn is_stripe(&self) -> (r: bool)
        ensures
            r == (*self == PaymentProvider::Stripe),
    {
        matches!(self, PaymentProvider::Stripe)
    }

    /// Whether this provider is Coinbase
    pub fn is_coinbase(&self) -> (r: bool)
        ensures
            r == (*self == PaymentProvider::Coinbase),
    {
        matches!(self, PaymentProvider::Coinbase)
    }

    /// All available providers
    pub fn all() -> (r: &'static [PaymentProvider])
        ensures
            r@ == seq![PaymentProvider::Stripe, PaymentProvider::Dummy, PaymentProvider::Coinbase],
    {
        &[PaymentProvider::Stripe, PaymentProvider::Dummy, PaymentProvider::Coinbase]
    }

    /// Providers that are currently implemented
    pub fn implemented() -> (r: &'static [PaymentProvider])
        ensures
            r@ == seq![PaymentProvider::Stripe, PaymentProvider::Dummy],
    {
        &[PaymentProvider::Stripe, PaymentProvider::Dummy]
    }

    /// The provider named by an already-lowercased name.
    pub fn from_lowercase(lower: &str) -> (r: Option<PaymentProvider>)
        ensures
            r == PaymentProvider::from_name(lower@),
    {
        if str_eq(lower, "stripe") {
            Some(PaymentProvider::Stripe)
        } else if str_eq(lower, "dummy") {
            Some(PaymentProvider::Dummy)
        } else if str_eq(lower, "coinbase") {
            Some(PaymentProvider::Coinbase)
        } else {
            None
        }
    }

    /// Parse a provider name, ignoring case (`FromStr`).
    pub fn parse(s: &str) -> (r: Result<PaymentProvider, String>)
        ensures
            match r {
                Ok(p) => PaymentProvider::from_name(unicode_lowercase(s@)) == Some(p),
                Err(msg) => PaymentProvider::from_name(unicode_lowercase(s@)) is None && msg@
                    == "Invalid payment provider: "@ + s@
                    + ". Must be 'stripe', 'dummy', or 'coinbase'"@,
            },
            all_ascii(s@) ==> match r {
                Ok(p) => PaymentProvider::from_name(ascii_lowercase(s@)) == Some(p),
                Err(_) => PaymentProvider::from_name(ascii_lowercase(s@)) is None,
            },
    {
        let lower: String = to_lowercase(s);
        match PaymentProvider::from_lowercase(lower.as_str()) {
            Some(p) => Ok(p),
            None => {
                let mut msg: String = concat2("Invalid payment provider: ", s);
                msg.append(". Must be 'stripe', 'dummy', or 'coinbase'");
                Err(msg)
            },
        }
    }

    /// The name shown to people (`Display`).
    pub fn to_string(&self) -> (r: String)
        ensures
            r@ == self.name(),
    {
        self.as_str().to_owned()
    }
}

impl std::str::FromStr for PaymentProvider {
    type Err = String;

    fn from_str(s: &str) -> (r: Result<Self, Self::Err>)
        ensures
            match r {
                Ok(p) => PaymentProvider::from_name(unicode_lowercase(s@)) == Some(p),
                Err(msg) => PaymentProvider::from_name(unicode_lowercase(s@)) is None && msg@
                    == "Invalid payment provider: "@ + s@
                    + ". Must be 'stripe', 'dummy', or 'coinbase'"@,
            },
            all_ascii(s@) ==> match r {
                Ok(p) => PaymentProvider::from_name(ascii_lowercase(s@)) == Some(p),
                Err(_) => PaymentProvider::from_name(ascii_lowercase(s@)) is None,
            },
    {
        PaymentProvider::parse(s)
    }
}

/// Represents a specific provider configuration (provider + mode combination)
#[derive(Debug, Clone, Copy, PartialEq, Eq, Hash, Structural)]
pub struct ProviderConfig {
    pub provider: PaymentProvider,
    pub mode: PaymentMode,
}

/// The message given when a provider cannot run in a mode.
pub open spec fn unsupported_mode_message(provider: PaymentProvider, mode: PaymentMode) -> Seq<
    char,
> {
    "Provider "@ + provider.label() + " does not support "@ + mode.name() + " mode"@
}

impl ProviderConfig {
    /// The human-readable name of a configuration.
    pub open spec fn label(self) -> Seq<char> {
        if self.mode == PaymentMode::Live {
            self.provider.label()
        } else {
            self.provider.label() + " (Test)"@
        }
    }

    pub fn new(provider: PaymentProvider, mode: PaymentMode) -> (r: Result<ProviderConfig, String>)
        ensures
            r is Ok <==> provider.supports(mode),
            r matches Ok(c) ==> c.provider == provider && c.mode == mode,
            r matches Err(m) ==> m@ == unsupported_mode_message(provider, mode),
    {
        if !provider.supports_mode(mode) {
            let mut m: String = concat2("Provider ", provider.display_name());
            m.append(" does not support ");
            m.append(mode.as_str());
            m.append(" mode");
            return Err(m);
        }
        Ok(ProviderConfig { provider, mode })
    }

    /// Create a Stripe test configuration
    pub fn stripe_test() -> (r: ProviderConfig)
        ensures
            r.provider == PaymentProvider::Stripe && r.mode == PaymentMode::Test,
    {
        ProviderConfig { provider: PaymentProvider::Stripe, mode: PaymentMode::Test }
    }

    /// Create a Stripe live configuration
    pub fn stripe_live() -> (r: ProviderConfig)
        ensures
            r.provider == PaymentProvider::Stripe && r.mode == PaymentMode::Live,
    {
        ProviderConfig { provider: PaymentProvider::Stripe, mode: PaymentMode::Live }
    }

    /// Create a dummy provider configuration (always test mode)
    pub fn dummy() -> (r: ProviderConfig)
        ensures
            r.provider == PaymentProvider::Dummy && r.mode == PaymentMode::Test,
    {
        ProviderConfig { provider: PaymentProvider::Dummy, mode: PaymentMode::Test }
    }

    /// Human-readable display name
    pub fn display_name(&self) -> (r: String)
        ensures
            r@ == self.label(),
    {
        if self.mode.is_production() {
            self.provider.display_name().to_owned()
        } else {
            concat2(self.provider.display_name(), " (Test)")
        }
    }

    /// Whether this is a production configuration
    pub fn is_production(&self) -> (r: bool)
        ensures
            r == (self.mode == PaymentMode::Live),
    {
        self.mode.is_production()
    }

    /// Whether this is a test configuration
    pub fn is_test(&self) -> (r: bool)
        ensures
            r == (self.mode == PaymentMode::Test),
    {
        self.mode.is_test()
    }

    /// `provider_mode`, the form used in logs (`Display`).
    pub fn to_string(&self) -> (r: String)
        ensures
            r@ == self.provider.name() + "_"@ + self.mode.name(),
    {
        let mut s: String = concat2(self.provider.as_str(), "_");
        s.append(self.mode.as_str());
        s
    }
}

/// Every provider supports its own default mode, and the implemented providers are
/// among all providers.
pub proof fn lemma_provider_defaults_supported(p: PaymentProvider)
    ensures
        p.supports(PaymentMode::Test),
        p != PaymentProvider::Dummy ==> p.supports(PaymentMode::Live),
        seq![PaymentProvider::Stripe, PaymentProvider::Dummy, PaymentProvider::Coinbase].contains(p),
{
    let all: Seq<PaymentProvider> = seq![PaymentProvider::Stripe, PaymentProvider::Dummy, PaymentProvider::Coinbase];
    match p {
        PaymentProvider::Stripe => assert(all[0] == p),
        PaymentProvider::Dummy => assert(all[1] == p),
        PaymentProvider::Coinbase => assert(all[2] == p),
    }
}

/// A configuration can be made exactly for the combinations the provider supports.
pub proof fn lemma_provider_config_valid_combinations(p: PaymentProvider, m: PaymentMode)
    ensures
        p.supports(m) <==> !(p == PaymentProvider::Dummy && m == PaymentMode::Live),
{
}

/// Every provider is found again from its own stored name.
pub proof fn lemma_payment_provider_name_roundtrip(p: PaymentProvider)
    ensures
        PaymentProvider::from_name(p.name()) == Some(p),
{
    reveal_strlit("stripe");
    reveal_strlit("dummy");
    reveal_strlit("coinbase");
    assert("stripe"@[0] != "dummy"@[0]);
    assert("stripe"@[0] != "coinbase"@[0]);
}


/// Parsing ignores ASCII case: a name that differs from a provider's own name only
/// in the case of its letters reads as that provider.
pub proof fn lemma_payment_provider_parse_ignores_case(p: PaymentProvider, s: Seq<char>)
    requires
        all_ascii(s),
        eq_ignore_ascii_case(s, p.name()),
    ensures
        PaymentProvider::from_name(ascii_lowercase(s)) == Some(p),
{
    reveal_strlit("stripe");
    reveal_strlit("dummy");
    reveal_strlit("coinbase");
    assert(ascii_lowercase(p.name()) =~= p.name());
    lemma_lowercase_ignores_ascii_case(s, p.name());
    lemma_payment_provider_name_roundtrip(p);
}

} // verus!
