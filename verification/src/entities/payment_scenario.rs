//! Payment outcomes the dummy provider simulates, after Stripe's test cards.
use vstd::prelude::*;
use crate::text::{
    chars_of, chars_eq, remove_chars, seq_starts_with, str_eq_ignore_ascii_case,
    eq_ignore_ascii_case, chars_match_at, ascii_lower_char,
};

verus! {

/// Payment scenario for the dummy provider.
/// Simulates different payment outcomes for testing purposes.
/// Matches a subset of Stripe's test card behaviors.
#[derive(Debug, Clone, Copy, PartialEq, Eq, Hash, Structural)]
pub enum PaymentScenario {
    /// Payment succeeds immediately (Stripe test card: 4242424242424242)
    Success,
    /// Card is declined (Stripe test card: 4000000000000002)
    Decline,
    /// Insufficient funds (Stripe test card: 4000000000009995)
    InsufficientFunds,
    /// Requires 3D Secure confirmation (Stripe test card: 4000000000003220)
    ThreeDSecure,
    /// Card is expired (Stripe test card: 4000000000000069)
    ExpiredCard,
    /// Processing error (Stripe test card: 4000000000000119)
    ProcessingError,
}

impl Default for PaymentScenario {
    fn default() -> (r: Self)
        ensures
            r == PaymentScenario::Success,
    {
        PaymentScenario::Success
    }
}

/// Spaces and dashes, which card numbers may be written with.
pub open spec fn is_card_separator(c: char) -> bool {
    c == ' ' || c == '-'
}

/// `card` with its spaces and dashes removed.
pub open spec fn card_digits(card: Seq<char>) -> Seq<char> {
    remove_chars(card, |c: char| is_card_separator(c))
}

/// The scenario a card number selects.
pub open spec fn scenario_of_card(card: Seq<char>) -> PaymentScenario {
    let c = card_digits(card);
    if c == "4242424242424242"@ {
        PaymentScenario::Success
    } else if c == "4000000000000002"@ {
        PaymentScenario::Decline
    } else if c == "4000000000009995"@ {
        PaymentScenario::InsufficientFunds
    } else if c == "4000000000003220"@ {
        PaymentScenario::ThreeDSecure
    } else if c == "4000000000000069"@ {
        PaymentScenario::ExpiredCard
    } else if c == "4000000000000119"@ {
        PaymentScenario::ProcessingError
    } else if seq_starts_with(c, "4242"@) {
        PaymentScenario::Success
    } else if seq_starts_with(c, "4000"@) {
        PaymentScenario::Decline
    } else {
        PaymentScenario::Success
    }
}

/// A card number without spaces and dashes.
pub fn strip_card_separators(card: &str) -> (r: Vec<char>)
    ensures
        r@ == card_digits(card@),
{
    let v: Vec<char> = chars_of(card);
    let mut out: Vec<char> = Vec::new();
    let mut i: usize = 0;
    while i < v.len()
        invariant
            v@ == card@,
            i <= v.len(),
            out@ == card_digits(card@.subrange(0, i as int)),
        decreases v.len() - i,
    {
        let c: char = v[i];
        assert(card@.subrange(0, i + 1).drop_last() =~= card@.subrange(0, i as int));
        assert(card@.subrange(0, i + 1).last() == c);
        if !(c == ' ' || c == '-') {
            out.push(c);
        }
        i = i + 1;
    }
    assert(card@.subrange(0, v.len() as int) =~= card@);
    out
}

/// Whether `v` is exactly the characters of `lit`.
fn chars_are(v: &Vec<char>, lit: &str) -> (r: bool)
    ensures
        r == (v@ == lit@),
{
    let l: Vec<char> = chars_of(lit);
    chars_eq(v, &l)
}

/// Whether `v` begins with the characters of `lit`.
fn chars_begin_with(v: &Vec<char>, lit: &str) -> (r: bool)
    ensures
        r == seq_starts_with(v@, lit@),
{
    let l: Vec<char> = chars_of(lit);
    chars_match_at(v, 0, &l)
}

impl PaymentScenario {
    /// The stored name of each scenario.
    pub open spec fn name(self) -> Seq<char> {
        match self {
            PaymentScenario::Success => "success"@,
            PaymentScenario::Decline => "decline"@,
            PaymentScenario::InsufficientFunds => "insufficient_funds"@,
            PaymentScenario::ThreeDSecure => "three_d_secure"@,
            PaymentScenario::ExpiredCard => "expired_card"@,
            PaymentScenario::ProcessingError => "processing_error"@,
        }
    }

    /// The scenario whose name equals `s` without regard to ASCII case, if any.
    pub open spec fn from_name_ignoring_case(s: Seq<char>) -> Option<PaymentScenario> {
        if eq_ignore_ascii_case(s, "success"@) {
            Some(PaymentScenario::Success)
        } else if eq_ignore_ascii_case(s, "decline"@) {
            Some(PaymentScenario::Decline)
        } else if eq_ignore_ascii_case(s, "insufficient_funds"@) {
            Some(PaymentScenario::InsufficientFunds)
        } else if eq_ignore_ascii_case(s, "three_d_secure"@) {
            Some(PaymentScenario::ThreeDSecure)
        } else if eq_ignore_ascii_case(s, "expired_card"@) {
            Some(PaymentScenario::ExpiredCard)
        } else if eq_ignore_ascii_case(s, "processing_error"@) {
            Some(PaymentScenario::ProcessingError)
        } else {
            None
        }
    }

    /// The Stripe test card of each scenario.
    pub open spec fn card(self) -> Seq<char> {
        match self {
            PaymentScenario::Success => "4242424242424242"@,
            PaymentScenario::Decline => "4000000000000002"@,
            PaymentScenario::InsufficientFunds => "4000000000009995"@,
            PaymentScenario::ThreeDSecure => "4000000000003220"@,
            PaymentScenario::ExpiredCard => "4000000000000069"@,
            PaymentScenario::ProcessingError => "4000000000000119"@,
        }
    }

    /// The scenarios that end in a failed payment.
    pub open spec fn fails(self) -> bool {
        self == PaymentScenario::Decline || self == PaymentScenario::InsufficientFunds || self
            == PaymentScenario::ExpiredCard || self == PaymentScenario::ProcessingError
    }

    /// The error message of each failing scenario.
    pub open spec fn message(self) -> Option<Seq<char>> {
        match self {
            PaymentScenario::Success | PaymentScenario::ThreeDSecure => None,
            PaymentScenario::Decline => Some("Your card was declined."@),
            PaymentScenario::InsufficientFunds => Some("Your card has insufficient funds."@),
            PaymentScenario::ExpiredCard => Some("Your card has expired."@),
            PaymentScenario::ProcessingError => Some(
                "An error occurred while processing your card."@,
            ),
        }
    }

    /// The snake_case name of the scenario (`AsRef<str>`).
    pub fn as_ref(&self) -> (r: &'static str)
        ensures
            r@ == self.name(),
    {
        match self {
            PaymentScenario::Success => "success",
            PaymentScenario::Decline => "decline",
            PaymentScenario::InsufficientFunds => "insufficient_funds",
            PaymentScenario::ThreeDSecure => "three_d_secure",
            PaymentScenario::ExpiredCard => "expired_card",
            PaymentScenario::ProcessingError => "processing_error",
        }
    }

    /// Human-readable description of the scenario
    pub fn description(&self) -> (r: &'static str)
        ensures
            r@ == (match *self {
                PaymentScenario::Success => "Payment succeeds immediately"@,
                PaymentScenario::Decline => "Card is declined"@,
                PaymentScenario::InsufficientFunds => "Card has insufficient funds"@,
                PaymentScenario::ThreeDSecure => "Requires 3D Secure confirmation"@,
                PaymentScenario::ExpiredCard => "Card is expired"@,
                PaymentScenario::ProcessingError => "Payment processing error"@,
            }),
    {
        match self {
            PaymentScenario::Success => "Payment succeeds immediately",
            PaymentScenario::Decline => "Card is declined",
            PaymentScenario::InsufficientFunds => "Card has insufficient funds",
            PaymentScenario::ThreeDSecure => "Requires 3D Secure confirmation",
            PaymentScenario::ExpiredCard => "Card is expired",
            PaymentScenario::ProcessingError => "Payment processing error",
        }
    }

    /// Stripe test card number that triggers this scenario
    pub fn test_card_number(&self) -> (r: &'static str)
        ensures
            r@ == self.card(),
    {
        match self {
            PaymentScenario::Success => "4242424242424242",
            PaymentScenario::Decline => "4000000000000002",
            PaymentScenario::InsufficientFunds => "4000000000009995",
            PaymentScenario::ThreeDSecure => "4000000000003220",
            PaymentScenario::ExpiredCard => "4000000000000069",
            PaymentScenario::ProcessingError => "4000000000000119",
        }
    }

    /// Detect scenario from a card number (for compatibility with Stripe test cards)
    pub fn from_card_number(card: &str) -> (r: PaymentScenario)
        ensures
            r == scenario_of_card(card@),
    {
        let c: Vec<char> = strip_card_separators(card);
        if chars_are(&c, "4242424242424242") {
            PaymentScenario::Success
        } else if chars_are(&c, "4000000000000002") {
            PaymentScenario::Decline
        } else if chars_are(&c, "4000000000009995") {
            PaymentScenario::InsufficientFunds
        } else if chars_are(&c, "4000000000003220") {
            PaymentScenario::ThreeDSecure
        } else if chars_are(&c, "4000000000000069") {
            PaymentScenario::ExpiredCard
        } else if chars_are(&c, "4000000000000119") {
            PaymentScenario::ProcessingError
        } else if chars_begin_with(&c, "4242") {
            PaymentScenario::Success
        } else if chars_begin_with(&c, "4000") {
            PaymentScenario::Decline
        } else {
            PaymentScenario::Success
        }
    }

    /// Whether this scenario requires additional user confirmation
    pub fn requires_confirmation(&self) -> (r: bool)
        ensures
            r == (*self == PaymentScenario::ThreeDSecure),
    {
        matches!(self, PaymentScenario::ThreeDSecure)
    }

    /// Whether this scenario results in a successful payment
    pub fn is_success(&self) -> (r: bool)
        ensures
            r == (*self == PaymentScenario::Success),
    {
        matches!(self, PaymentScenario::Success)
    }

    /// Whether this scenario results in a failed payment
    pub fn is_failure(&self) -> (r: bool)
        ensures
            r == self.fails(),
    {
        matches!(
            self,
            PaymentScenario::Decline | PaymentScenario::InsufficientFunds
                | PaymentScenario::ExpiredCard | PaymentScenario::ProcessingError
        )
    }

    /// Get the error message for failed scenarios
    pub fn error_message(&self) -> (r: Option<&'static str>)
        ensures
            r is Some <==> self.message() is Some,
            r matches Some(m) ==> Some(m@) == self.message(),
    {
        match self {
            PaymentScenario::Success | PaymentScenario::ThreeDSecure => None,
            PaymentScenario::Decline => Some("Your card was declined."),
            PaymentScenario::InsufficientFunds => Some("Your card has insufficient funds."),
            PaymentScenario::ExpiredCard => Some("Your card has expired."),
            PaymentScenario::ProcessingError => Some("An error occurred while processing your card."),
        }
    }

    /// All available scenarios
    pub fn all() -> (r: &'static [PaymentScenario])
        ensures
            r@ == seq![
                PaymentScenario::Success,
                PaymentScenario::Decline,
                PaymentScenario::InsufficientFunds,
                PaymentScenario::ThreeDSecure,
                PaymentScenario::ExpiredCard,
                PaymentScenario::ProcessingError,
            ],
    {
        &[
            PaymentScenario::Success,
            PaymentScenario::Decline,
            PaymentScenario::InsufficientFunds,
            PaymentScenario::ThreeDSecure,
            PaymentScenario::ExpiredCard,
            PaymentScenario::ProcessingError,
        ]
    }

    /// Parse a scenario name, ASCII case ignored (`FromStr`).
    pub fn parse(s: &str) -> (r: Result<PaymentScenario, String>)
        ensures
            match r {
                Ok(sc) => PaymentScenario::from_name_ignoring_case(s@) == Some(sc),
                Err(msg) => PaymentScenario::from_name_ignoring_case(s@) is None && msg@
                    == "Matching variant not found"@,
            },
    {
        if str_eq_ignore_ascii_case(s, "success") {
            Ok(PaymentScenario::Success)
        } else if str_eq_ignore_ascii_case(s, "decline") {
            Ok(PaymentScenario::Decline)
        } else if str_eq_ignore_ascii_case(s, "insufficient_funds") {
            Ok(PaymentScenario::InsufficientFunds)
        } else if str_eq_ignore_ascii_case(s, "three_d_secure") {
            Ok(PaymentScenario::ThreeDSecure)
        } else if str_eq_ignore_ascii_case(s, "expired_card") {
            Ok(PaymentScenario::ExpiredCard)
        } else if str_eq_ignore_ascii_case(s, "processing_error") {
            Ok(PaymentScenario::ProcessingError)
        } else {
            Err("Matching variant not found".to_owned())
        }
    }

    /// The name shown to people (`Display`).
    pub fn to_string(&self) -> (r: String)
        ensures
            r@ == self.name(),
    {
        self.as_ref().to_owned()
    }
}

impl std::str::FromStr for PaymentScenario {
    type Err = String;

    fn from_str(s: &str) -> (r: Result<Self, Self::Err>)
        ensures
            match r {
                Ok(sc) => PaymentScenario::from_name_ignoring_case(s@) == Some(sc),
                Err(msg) => PaymentScenario::from_name_ignoring_case(s@) is None && msg@
                    == "Matching variant not found"@,
            },
    {
        PaymentScenario::parse(s)
    }
}

/// A scenario succeeds, fails, or waits for confirmation: exactly one of these, and a
/// scenario carries an error message exactly when it fails.
pub proof fn lemma_scenario_outcomes(sc: PaymentScenario)
    ensures
        (sc == PaymentScenario::Success) as int + sc.fails() as int + (sc
            == PaymentScenario::ThreeDSecure) as int == 1,
        sc.message() is Some <==> sc.fails(),
{
}

/// Each scenario's own test card selects that scenario.
pub proof fn lemma_test_card_selects_scenario(sc: PaymentScenario)
    ensures
        scenario_of_card(sc.card()) == sc,
{
    reveal_strlit("4242424242424242");
    reveal_strlit("4000000000000002");
    reveal_strlit("4000000000009995");
    reveal_strlit("4000000000003220");
    reveal_strlit("4000000000000069");
    reveal_strlit("4000000000000119");
    lemma_card_without_separators(sc.card());
    assert("4242424242424242"@[1] != "4000000000000002"@[1]);
    assert("4000000000000002"@[15] != "4000000000009995"@[15]);
    assert("4000000000000002"@[15] != "4000000000003220"@[15]);
    assert("4000000000000002"@[15] != "4000000000000069"@[15]);
    assert("4000000000000002"@[15] != "4000000000000119"@[15]);
    assert("4000000000009995"@[15] != "4000000000003220"@[15]);
    assert("4000000000009995"@[15] != "4000000000000069"@[15]);
    assert("4000000000009995"@[15] != "4000000000000119"@[15]);
    assert("4000000000003220"@[15] != "4000000000000069"@[15]);
    assert("4000000000003220"@[15] != "4000000000000119"@[15]);
    assert("4000000000000069"@[13] != "4000000000000119"@[13]);
    assert("4242424242424242"@[1] != "4000000000009995"@[1]);
    assert("4242424242424242"@[1] != "4000000000003220"@[1]);
    assert("4242424242424242"@[1] != "4000000000000069"@[1]);
    assert("4242424242424242"@[1] != "4000000000000119"@[1]);
}

/// A string of digits has no separators to remove.
pub proof fn lemma_card_without_separators(s: Seq<char>)
    requires
        forall|i: int| 0 <= i < s.len() ==> '0' <= #[trigger] s[i] <= '9',
    ensures
        card_digits(s) == s,
    decreases s.len(),
{
    if s.len() > 0 {
        lemma_card_without_separators(s.drop_last());
        assert(s.drop_last().push(s.last()) =~= s);
    } else {
        assert(s =~= Seq::<char>::empty());
    }
}


/// A card number without spaces and dashes holds none of them.
proof fn lemma_card_digits_have_no_separators(card: Seq<char>)
    ensures
        forall|i: int| 0 <= i < card_digits(card).len() ==> !is_card_separator(#[trigger] card_digits(card)[i]),
    decreases card.len(),
{
    if card.len() > 0 {
        let rest = card_digits(card.drop_last());
        lemma_card_digits_have_no_separators(card.drop_last());
        if is_card_separator(card.last()) {
            assert(card_digits(card) == rest);
        } else {
            assert(card_digits(card) == rest.push(card.last()));
            assert forall|i: int| 0 <= i < card_digits(card).len() implies !is_card_separator(
                #[trigger] card_digits(card)[i],
            ) by {
                if i < rest.len() {
                    assert(card_digits(card)[i] == rest[i]);
                }
            }
        }
    }
}

/// Text without spaces and dashes is left as it is.
proof fn lemma_card_digits_keep_plain(s: Seq<char>)
    requires
        forall|i: int| 0 <= i < s.len() ==> !is_card_separator(#[trigger] s[i]),
    ensures
        card_digits(s) == s,
    decreases s.len(),
{
    if s.len() > 0 {
        lemma_card_digits_keep_plain(s.drop_last());
        assert(s.drop_last().push(s.last()) =~= s);
    } else {
        assert(s =~= Seq::<char>::empty());
    }
}

/// Removing spaces and dashes twice removes no more than once, so a card number
/// selects the same scenario as its separator-free form ("4242 4242 4242 4242"
/// selects what "4242424242424242" selects).
pub proof fn lemma_card_separators_ignored(card: Seq<char>)
    ensures
        card_digits(card_digits(card)) == card_digits(card),
        scenario_of_card(card_digits(card)) == scenario_of_card(card),
{
    lemma_card_digits_have_no_separators(card);
    lemma_card_digits_keep_plain(card_digits(card));
}


/// Parsing ignores ASCII case: a name that differs from a scenario's own name
/// only in the case of its letters reads as that scenario (no two names share a
/// first letter).
pub proof fn lemma_payment_scenario_parse_ignores_case(sc: PaymentScenario, s: Seq<char>)
    requires
        eq_ignore_ascii_case(s, sc.name()),
    ensures
        PaymentScenario::from_name_ignoring_case(s) == Some(sc),
{
    reveal_strlit("success");
    reveal_strlit("decline");
    reveal_strlit("insufficient_funds");
    reveal_strlit("three_d_secure");
    reveal_strlit("expired_card");
    reveal_strlit("processing_error");
    assert(ascii_lower_char(s[0]) == ascii_lower_char(sc.name()[0]));
}

} // verus!
