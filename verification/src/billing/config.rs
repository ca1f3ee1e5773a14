//! Payment configuration of a domain: Stripe keys, active mode and providers.
use vstd::prelude::*;
use vstd::string::*;
use vstd::utf8::encode_utf8;
use crate::app_error::AppError;
use crate::billing::types::{
    BillingStripeConfigProfile, EnabledPaymentProviderProfile, ModeConfigStatus,
    StripeConfigStatusResponse,
};
use crate::entities::payment_mode::{PaymentMode, key_mismatch_message};
use crate::entities::payment_provider::PaymentProvider;
use crate::text::{concat2, concat3, push_char};

verus! {

// ============================================================================
// Key masking
// ============================================================================

/// Encoding two character sequences one after the other encodes each in turn.
pub proof fn lemma_encode_utf8_concat(a: Seq<char>, b: Seq<char>)
    ensures
        encode_utf8(a + b) == encode_utf8(a) + encode_utf8(b),
    decreases a.len(),
{
    if a.len() > 0 {
        assert((a + b).drop_first() =~= a.drop_first() + b);
        lemma_encode_utf8_concat(a.drop_first(), b);
        assert(encode_utf8(a + b) =~= encode_utf8(a) + encode_utf8(b));
    } else {
        assert(a + b =~= b);
    }
}

/// `n` asterisks.
pub open spec fn stars(n: int) -> Seq<char> {
    Seq::new(n as nat, |i: int| '*')
}

/// Whether a key can be masked: it has at most four bytes, or its last four
/// bytes start at a character boundary.
pub open spec fn maskable(key: Seq<char>) -> bool {
    encode_utf8(key).len() <= 4 || vstd::utf8::is_char_boundary(encode_utf8(key), encode_utf8(key).len() - 4)
}

/// `shown` is the masked form of `key`: as many asterisks as the key has bytes
/// when it has at most four, else "..." followed by its last four bytes.
pub open spec fn masked(key: Seq<char>, shown: Seq<char>) -> bool {
    let b = encode_utf8(key);
    &&& b.len() <= 4 ==> shown == stars(b.len() as int)
    &&& b.len() > 4 ==> encode_utf8(shown) == encode_utf8("..."@) + b.subrange(b.len() - 4, b.len() as int)
}

/// Mask a key to show only last 4 characters: keys of at most four bytes become
/// as many asterisks; longer keys become "..." followed by their last four bytes.
pub fn mask_key(key: &str) -> (r: String)
    requires
        maskable(key@),
    ensures
        masked(key@, r@),
{
    let n: usize = key.as_bytes().len();
    if n <= 4 {
        let mut s: String = String::new();
        let mut i: usize = 0;
        while i < n
            invariant
                i <= n,
                s@ == stars(i as int),
            decreases n - i,
        {
            push_char(&mut s, '*');
            assert(s@ =~= stars(i + 1));
            i = i + 1;
        }
        s
    } else {
        let (_, tail) = key.split_at(n - 4);
        let r: String = concat2("...", tail);
        proof {
            lemma_encode_utf8_concat("..."@, tail@);
        }
        r
    }
}

// ============================================================================
// Stripe configuration
// ============================================================================

/// Validate key prefixes match the declared mode.
pub fn check_stripe_keys(mode: PaymentMode, secret_key: &str, publishable_key: &str) -> (r: Result<(), AppError>)
    ensures
        PaymentMode::of_key(secret_key@) != mode ==> (r matches Err(AppError::InvalidInput(m)) && m@
            == key_mismatch_message("Secret key"@, PaymentMode::of_key(secret_key@).name(), mode.name())),
        PaymentMode::of_key(secret_key@) == mode && PaymentMode::of_key(publishable_key@) != mode ==> (
        r matches Err(AppError::InvalidInput(m)) && m@ == key_mismatch_message(
            "Publishable key"@,
            PaymentMode::of_key(publishable_key@).name(),
            mode.name(),
        )),
        PaymentMode::of_key(secret_key@) == mode && PaymentMode::of_key(publishable_key@) == mode
            ==> r is Ok,
{
    match mode.validate_stripe_key_prefix(secret_key, "Secret key") {
        Err(m) => return Err(AppError::InvalidInput(m)),
        Ok(()) => {},
    }
    match mode.validate_stripe_key_prefix(publishable_key, "Publishable key") {
        Err(m) => return Err(AppError::InvalidInput(m)),
        Ok(()) => {},
    }
    Ok(())
}

/// The status shown for a stored configuration.
pub fn mode_config_status(publishable_key: &str) -> (r: ModeConfigStatus)
    requires
        maskable(publishable_key@),
    ensures
        r.is_connected,
        masked(publishable_key@, r.publishable_key_last4@),
{
    ModeConfigStatus { publishable_key_last4: mask_key(publishable_key), is_connected: true }
}

fn find_config(configs: &Vec<BillingStripeConfigProfile>, mode: PaymentMode) -> (r: Option<usize>)
    ensures
        match r {
            Some(i) => i < configs@.len() && configs@[i as int].payment_mode == mode && forall|j: int|
                0 <= j < i ==> configs@[j].payment_mode != mode,
            None => forall|j: int| 0 <= j < configs@.len() ==> configs@[j].payment_mode != mode,
        },
{
    let mut i: usize = 0;
    while i < configs.len()
        invariant
            i <= configs@.len(),
            forall|j: int| 0 <= j < i ==> configs@[j].payment_mode != mode,
        decreases configs@.len() - i,
    {
        if configs[i].payment_mode == mode {
            return Some(i);
        }
        i = i + 1;
    }
    None
}

/// `status` reports the first stored configuration of `mode`, or is absent when
/// no configuration of that mode is stored.
pub open spec fn reports_mode(status: Option<ModeConfigStatus>, configs: Seq<BillingStripeConfigProfile>, mode: PaymentMode) -> bool {
    match status {
        None => forall|j: int| 0 <= j < configs.len() ==> configs[j].payment_mode != mode,
        Some(st) => st.is_connected && exists|i: int|
            0 <= i < configs.len() && configs[i].payment_mode == mode && (forall|j: int|
                0 <= j < i ==> configs[j].payment_mode != mode) && masked(
                configs[i].stripe_publishable_key@,
                st.publishable_key_last4@,
            ),
    }
}

fn status_of_mode(configs: &Vec<BillingStripeConfigProfile>, mode: PaymentMode) -> (r: Option<ModeConfigStatus>)
    requires
        forall|i: int| 0 <= i < configs@.len() ==> maskable(configs@[i].stripe_publishable_key@),
    ensures
        reports_mode(r, configs@, mode),
{
    match find_config(configs, mode) {
        Some(i) => {
            let st: ModeConfigStatus = mode_config_status(configs[i].stripe_publishable_key.as_str());
            assert(masked(configs@[i as int].stripe_publishable_key@, st.publishable_key_last4@));
            Some(st)
        },
        None => None,
    }
}

/// Stripe config status for both modes: the first stored configuration of each
/// mode, its publishable key masked.
pub fn stripe_config_status(active_mode: PaymentMode, configs: &Vec<BillingStripeConfigProfile>) -> (r: StripeConfigStatusResponse)
    requires
        forall|i: int| 0 <= i < configs@.len() ==> maskable(configs@[i].stripe_publishable_key@),
    ensures
        r.active_mode == active_mode,
        reports_mode(r.test, configs@, PaymentMode::Test),
        reports_mode(r.live, configs@, PaymentMode::Live),
{
    let test: Option<ModeConfigStatus> = status_of_mode(configs, PaymentMode::Test);
    let live: Option<ModeConfigStatus> = status_of_mode(configs, PaymentMode::Live);
    StripeConfigStatusResponse { active_mode, test, live }
}

/// A mode's configuration may be deleted unless it is the active mode and plans or
/// subscriptions exist in it.
pub fn check_config_deletable(active_mode: PaymentMode, mode: PaymentMode, plan_count: i64, sub_count: i64) -> (r: Result<(), AppError>)
    ensures
        r is Ok <==> !(active_mode == mode && (plan_count > 0 || sub_count > 0)),
        r matches Err(e) ==> e matches AppError::InvalidInput(m) && m@ == "Cannot delete "@ + mode.name()
            + " mode config while plans or subscriptions exist. Delete or migrate them first."@,
{
    if active_mode == mode && (plan_count > 0 || sub_count > 0) {
        return Err(AppError::InvalidInput(concat3(
            "Cannot delete ",
            mode.as_str(),
            " mode config while plans or subscriptions exist. Delete or migrate them first.",
        )));
    }
    Ok(())
}

/// A domain may switch to a mode only once that mode's Stripe keys are configured.
pub fn check_mode_switch(mode: PaymentMode, config_present: bool) -> (r: Result<PaymentMode, AppError>)
    ensures
        config_present ==> r == Ok::<PaymentMode, AppError>(mode),
        !config_present ==> (r matches Err(AppError::InvalidInput(m)) && m@ == "Cannot switch to "@
            + mode.name() + " mode without configuring Stripe keys first"@),
{
    if !config_present {
        return Err(AppError::InvalidInput(concat3(
            "Cannot switch to ",
            mode.as_str(),
            " mode without configuring Stripe keys first",
        )));
    }
    Ok(mode)
}

/// The stored configuration a secret is read from: for the active mode when
/// `for_mode` is `None`, else for the given mode.
pub fn require_stripe_config(found: Option<BillingStripeConfigProfile>, for_mode: Option<PaymentMode>) -> (r: Result<BillingStripeConfigProfile, AppError>)
    ensures
        found is Some ==> r == Ok::<BillingStripeConfigProfile, AppError>(found.unwrap()),
        found is None && for_mode is None ==> (r matches Err(AppError::InvalidInput(m)) && m@
            == "Billing not configured for this domain. Please configure Stripe in the dashboard."@),
        found is None && for_mode is Some ==> (r matches Err(AppError::InvalidInput(m)) && m@
            == "Stripe "@ + for_mode.unwrap().name() + " mode not configured for this domain."@),
{
    match found {
        Some(c) => Ok(c),
        None => match for_mode {
            None => Err(AppError::InvalidInput(
                "Billing not configured for this domain. Please configure Stripe in the dashboard.".to_owned(),
            )),
            Some(mode) => Err(AppError::InvalidInput(concat3(
                "Stripe ",
                mode.as_str(),
                " mode not configured for this domain.",
            ))),
        },
    }
}

// ============================================================================
// Payment providers
// ============================================================================

/// The provider of the first enabled entry for `mode`, if any.
pub open spec fn first_for_mode(enabled: Seq<EnabledPaymentProviderProfile>, mode: PaymentMode) -> Option<PaymentProvider>
    decreases enabled.len(),
{
    if enabled.len() == 0 {
        None
    } else if enabled[0].mode == mode {
        Some(enabled[0].provider)
    } else {
        first_for_mode(enabled.drop_first(), mode)
    }
}

/// The provider used for a domain's active mode: Stripe when it is enabled for the
/// mode, else the first provider enabled for the mode, else the dummy provider in
/// test mode and Stripe in live mode.
pub open spec fn active_provider_for(enabled: Seq<EnabledPaymentProviderProfile>, mode: PaymentMode) -> PaymentProvider {
    if exists|i: int| 0 <= i < enabled.len() && enabled[i].mode == mode && enabled[i].provider == PaymentProvider::Stripe {
        PaymentProvider::Stripe
    } else {
        match first_for_mode(enabled, mode) {
            Some(p) => p,
            None => if mode == PaymentMode::Test {
                PaymentProvider::Dummy
            } else {
                PaymentProvider::Stripe
            },
        }
    }
}

/// Select the payment provider for a domain's active mode.
pub fn select_active_provider(enabled: &Vec<EnabledPaymentProviderProfile>, mode: PaymentMode) -> (r: PaymentProvider)
    ensures
        r == active_provider_for(enabled@, mode),
{
    let n: usize = enabled.len();
    let mut i: usize = 0;
    while i < n
        invariant
            n == enabled@.len(),
            i <= n,
            forall|j: int| 0 <= j < i ==> !(enabled@[j].mode == mode && enabled@[j].provider == PaymentProvider::Stripe),
        decreases n - i,
    {
        if enabled[i].mode == mode && enabled[i].provider == PaymentProvider::Stripe {
            return PaymentProvider::Stripe;
        }
        i = i + 1;
    }
    let mut k: usize = 0;
    assert(enabled@.subrange(0, n as int) =~= enabled@);
    while k < n
        invariant
            n == enabled@.len(),
            k <= n,
            forall|j: int| 0 <= j < n ==> !(enabled@[j].mode == mode && enabled@[j].provider == PaymentProvider::Stripe),
            first_for_mode(enabled@.subrange(k as int, n as int), mode) == first_for_mode(enabled@, mode),
        decreases n - k,
    {
        assert(enabled@.subrange(k as int, n as int)[0] == enabled@[k as int]);
        if enabled[k].mode == mode {
            return enabled[k].provider;
        }
        assert(enabled@.subrange(k as int, n as int).drop_first() =~= enabled@.subrange(k + 1, n as int));
        k = k + 1;
    }
    assert(enabled@.subrange(n as int, n as int).len() == 0);
    if mode == PaymentMode::Test {
        PaymentProvider::Dummy
    } else {
        PaymentProvider::Stripe
    }
}

/// The message given when a provider cannot run in a mode.
pub open spec fn mode_unsupported_message(provider: PaymentProvider, mode: PaymentMode) -> Seq<char> {
    provider.label() + " does not support "@ + mode.name() + " mode"@
}

fn mode_unsupported(provider: PaymentProvider, mode: PaymentMode) -> (r: AppError)
    ensures
        r matches AppError::InvalidInput(m) && m@ == mode_unsupported_message(provider, mode),
{
    let mut m: String = concat2(provider.display_name(), " does not support ");
    m.append(mode.as_str());
    m.append(" mode");
    AppError::InvalidInput(m)
}

/// Whether a provider may be enabled for a mode: it must support the mode, Stripe
/// must have its keys for the mode (`stripe_configured`, consulted for Stripe
/// only), and Coinbase is not implemented yet.
pub fn check_enable_provider(provider: PaymentProvider, mode: PaymentMode, stripe_configured: bool) -> (r: Result<(), AppError>)
    ensures
        !provider.supports(mode) ==> (r matches Err(AppError::InvalidInput(m)) && m@
            == mode_unsupported_message(provider, mode)),
        provider.supports(mode) && provider == PaymentProvider::Stripe && !stripe_configured ==> (r matches Err(
            AppError::InvalidInput(m),
        ) && m@ == "Stripe "@ + mode.name() + " mode must be configured before enabling"@),
        provider.supports(mode) && provider == PaymentProvider::Coinbase ==> r matches Err(
            AppError::ProviderNotSupported,
        ),
        r is Ok <==> provider.supports(mode) && provider != PaymentProvider::Coinbase && (provider
            == PaymentProvider::Stripe ==> stripe_configured),
{
    // Validate provider supports this mode
    if !provider.supports_mode(mode) {
        return Err(mode_unsupported(provider, mode));
    }
    // For Stripe, ensure it's configured for the mode
    if provider == PaymentProvider::Stripe && !stripe_configured {
        return Err(AppError::InvalidInput(concat3(
            "Stripe ",
            mode.as_str(),
            " mode must be configured before enabling",
        )));
    }
    // Coinbase is not yet implemented
    if provider == PaymentProvider::Coinbase {
        return Err(AppError::ProviderNotSupported);
    }
    Ok(())
}

/// The display order given to a newly enabled provider: one past the largest
/// in use, or 0 when none is enabled.
pub open spec fn next_order(existing: Seq<EnabledPaymentProviderProfile>) -> int
    decreases existing.len(),
{
    if existing.len() == 0 {
        0
    } else {
        let rest = next_order(existing.drop_last());
        let candidate = existing.last().display_order + 1;
        if existing.len() == 1 || candidate > rest {
            candidate
        } else {
            rest
        }
    }
}

/// Get current max display_order, plus one.
pub fn next_display_order(existing: &Vec<EnabledPaymentProviderProfile>) -> (r: i32)
    requires
        forall|i: int| 0 <= i < existing@.len() ==> existing@[i].display_order < i32::MAX,
    ensures
        r == next_order(existing@),
{
    let mut best: i32 = 0;
    let mut i: usize = 0;
    assert(existing@.subrange(0, 0) =~= Seq::<EnabledPaymentProviderProfile>::empty());
    while i < existing.len()
        invariant
            i <= existing@.len(),
            forall|k: int| 0 <= k < existing@.len() ==> existing@[k].display_order < i32::MAX,
            best == next_order(existing@.subrange(0, i as int)),
        decreases existing@.len() - i,
    {
        let candidate: i32 = existing[i].display_order + 1;
        assert(existing@.subrange(0, i + 1).drop_last() =~= existing@.subrange(0, i as int));
        if i == 0 || candidate > best {
            best = candidate;
        }
        i = i + 1;
    }
    assert(existing@.subrange(0, existing@.len() as int) =~= existing@);
    best
}

/// Whether the given provider and mode are the only active provider.
pub open spec fn is_only_active(active: Seq<EnabledPaymentProviderProfile>, provider: PaymentProvider, mode: PaymentMode) -> bool {
    active.len() == 1 && active[0].provider == provider && active[0].mode == mode
}

/// Check if this is the only active provider.
pub fn only_active_provider(active: &Vec<EnabledPaymentProviderProfile>, provider: PaymentProvider, mode: PaymentMode) -> (r: bool)
    ensures
        r == is_only_active(active@, provider, mode),
{
    active.len() == 1 && active[0].provider == provider && active[0].mode == mode
}

/// A provider may be disabled unless it is the only active one.
pub fn check_disable_provider(active: &Vec<EnabledPaymentProviderProfile>, provider: PaymentProvider, mode: PaymentMode) -> (r: Result<(), AppError>)
    ensures
        is_only_active(active@, provider, mode) ==> (r matches Err(AppError::InvalidInput(m)) && m@
            == "Cannot disable the only active payment provider. Enable another provider first."@),
        !is_only_active(active@, provider, mode) ==> r is Ok,
{
    if only_active_provider(active, provider, mode) {
        return Err(AppError::InvalidInput(
            "Cannot disable the only active payment provider. Enable another provider first.".to_owned(),
        ));
    }
    Ok(())
}

/// A provider may be deactivated unless it is the only active one; activating is
/// always allowed.
pub fn check_set_provider_active(active: &Vec<EnabledPaymentProviderProfile>, provider: PaymentProvider, mode: PaymentMode, is_active: bool) -> (r: Result<(), AppError>)
    ensures
        !is_active && is_only_active(active@, provider, mode) ==> (r matches Err(AppError::InvalidInput(m))
            && m@ == "Cannot deactivate the only active payment provider"@),
        is_active || !is_only_active(active@, provider, mode) ==> r is Ok,
{
    if !is_active && only_active_provider(active, provider, mode) {
        return Err(AppError::InvalidInput("Cannot deactivate the only active payment provider".to_owned()));
    }
    Ok(())
}

/// How the provider factory serves a provider.
#[derive(Debug, Clone, Copy, PartialEq, Eq, Structural)]
pub enum ProviderRoute {
    /// Built from the domain's Stripe configuration for the mode.
    StripeWithConfig,
    /// The dummy provider, which needs no configuration.
    Dummy,
}

/// Which provider implementation the factory builds for a provider and mode.
pub fn provider_factory_route(provider: PaymentProvider, mode: PaymentMode) -> (r: Result<ProviderRoute, AppError>)
    ensures
        !provider.supports(mode) ==> (r matches Err(AppError::InvalidInput(m)) && m@
            == mode_unsupported_message(provider, mode)),
        provider.supports(mode) ==> r == match provider {
            PaymentProvider::Stripe => Ok::<ProviderRoute, AppError>(ProviderRoute::StripeWithConfig),
            PaymentProvider::Dummy => Ok(ProviderRoute::Dummy),
            PaymentProvider::Coinbase => Err(AppError::ProviderNotSupported),
        },
{
    if !provider.supports_mode(mode) {
        return Err(mode_unsupported(provider, mode));
    }
    match provider {
        PaymentProvider::Stripe => Ok(ProviderRoute::StripeWithConfig),
        PaymentProvider::Dummy => Ok(ProviderRoute::Dummy),
        PaymentProvider::Coinbase => Err(AppError::ProviderNotSupported),
    }
}

/// Whether a provider counts as configured for a domain: the dummy provider
/// whenever it supports the mode, Stripe when its keys are stored
/// (`stripe_config_present`), Coinbase never.
pub fn provider_is_configured(provider: PaymentProvider, mode: PaymentMode, stripe_config_present: bool) -> (r: bool)
    ensures
        r == match provider {
            PaymentProvider::Dummy => provider.supports(mode),
            PaymentProvider::Stripe => stripe_config_present,
            PaymentProvider::Coinbase => false,
        },
{
    match provider {
        PaymentProvider::Dummy => provider.supports_mode(mode),
        PaymentProvider::Stripe => stripe_config_present,
        PaymentProvider::Coinbase => false,
    }
}

/// The provider chosen for a mode can always be built for that mode.
pub proof fn lemma_active_provider_supports_mode(enabled: Seq<EnabledPaymentProviderProfile>, mode: PaymentMode)
    requires
        forall|i: int| 0 <= i < enabled.len() ==> enabled[i].provider.supports(enabled[i].mode),
    ensures
        active_provider_for(enabled, mode).supports(mode),
    decreases enabled.len(),
{
    lemma_first_for_mode_supports(enabled, mode);
}

proof fn lemma_first_for_mode_supports(enabled: Seq<EnabledPaymentProviderProfile>, mode: PaymentMode)
    requires
        forall|i: int| 0 <= i < enabled.len() ==> enabled[i].provider.supports(enabled[i].mode),
    ensures
        first_for_mode(enabled, mode) matches Some(p) ==> p.supports(mode),
    decreases enabled.len(),
{
    if enabled.len() > 0 && enabled[0].mode != mode {
        assert forall|i: int| 0 <= i < enabled.drop_first().len() implies enabled.drop_first()[i].provider.supports(enabled.drop_first()[i].mode) by {
            assert(enabled.drop_first()[i] == enabled[i + 1]);
        }
        lemma_first_for_mode_supports(enabled.drop_first(), mode);
    }
}

} // verus!
