//! Billing state of a subscription while its payment provider is switched.
use vstd::prelude::*;
use crate::text::{concat2, str_eq, to_lowercase, unicode_lowercase, ascii_lowercase, all_ascii, eq_ignore_ascii_case, lemma_lowercase_ignores_ascii_case};

verus! {

/// Billing state for tracking provider switching operations.
/// Used as a state machine to handle partial failures during provider switches.
#[derive(Debug, Clone, Copy, PartialEq, Eq, Hash, Structural)]
pub enum BillingState {
    /// Normal active state - subscription is functioning normally
    Active,
    /// Provider switch in progress - old subscription canceled, new one being created
    PendingSwitch,
    /// Provider switch failed - needs manual intervention or retry
    SwitchFailed,
}

impl Default for BillingState {
    fn default() -> (r: Self)
        ensures
            r == BillingState::Active,
    {
        BillingState::Active
    }
}

impl BillingState {
    /// The stored name of each state.
    pub open spec fn name(self) -> Seq<char> {
        match self {
            BillingState::Active => "active"@,
            BillingState::PendingSwitch => "pending_switch"@,
            BillingState::SwitchFailed => "switch_failed"@,
        }
    }

    /// The state whose stored name is `s`, if any.
    pub open spec fn from_name(s: Seq<char>) -> Option<BillingState> {
        if s == "active"@ {
            Some(BillingState::Active)
        } else if s == "pending_switch"@ {
            Some(BillingState::PendingSwitch)
        } else if s == "switch_failed"@ {
            Some(BillingState::SwitchFailed)
        } else {
            None
        }
    }

    /// The states reachable in one step.
    pub open spec fn transitions(self) -> Seq<BillingState> {
        match self {
            BillingState::Active => seq![BillingState::PendingSwitch],
            BillingState::PendingSwitch => seq![BillingState::Active, BillingState::SwitchFailed],
            BillingState::SwitchFailed => seq![BillingState::Active, BillingState::PendingSwitch],
        }
    }

    pub fn as_str(&self) -> (r: &'static str)
        ensures
            r@ == self.name(),
    {
        match self {
            BillingState::Active => "active",
            BillingState::PendingSwitch => "pending_switch",
            BillingState::SwitchFailed => "switch_failed",
        }
    }

    /// Human-readable description of the state
    pub fn description(&self) -> (r: &'static str)
        ensures
            r@ == (match *self {
                BillingState::Active => "Subscription is active"@,
                BillingState::PendingSwitch => "Provider switch in progress"@,
                BillingState::SwitchFailed => "Provider switch failed"@,
            }),
    {
        match self {
            BillingState::Active => "Subscription is active",
            BillingState::PendingSwitch => "Provider switch in progress",
            BillingState::SwitchFailed => "Provider switch failed",
        }
    }

    /// Whether the subscription is in a healthy state
    pub fn is_healthy(&self) -> (r: bool)
        ensures
            r == (*self == BillingState::Active),
    {
        matches!(self, BillingState::Active)
    }

    /// Whether the subscription is in a transitional state
    pub fn is_transitional(&self) -> (r: bool)
        ensures
            r == (*self == BillingState::PendingSwitch),
    {
        matches!(self, BillingState::PendingSwitch)
    }

    /// Whether the subscription needs attention
    pub fn needs_attention(&self) -> (r: bool)
        ensures
            r == (*self == BillingState::SwitchFailed),
    {
        matches!(self, BillingState::SwitchFailed)
    }

    /// Valid transitions from this state
    pub fn valid_transitions(&self) -> (r: &'static [BillingState])
        ensures
            r@ == self.transitions(),
    {
        match self {
            BillingState::Active => &[BillingState::PendingSwitch],
            BillingState::PendingSwitch => &[BillingState::Active, BillingState::SwitchFailed],
            BillingState::SwitchFailed => &[BillingState::Active, BillingState::PendingSwitch],
        }
    }

    /// Check if transition to the given state is valid
    pub fn can_transition_to(&self, new_state: BillingState) -> (r: bool)
        ensures
            r == self.transitions().contains(new_state),
    {
        let ts: &[BillingState] = self.valid_transitions();
        let mut i: usize = 0;
        while i < ts.len()
            invariant
                ts@ == self.transitions(),
                i <= ts@.len(),
                forall|k: int| 0 <= k < i ==> ts@[k] != new_state,
            decreases ts@.len() - i,
        {
            if ts[i] == new_state {
                assert(ts@[i as int] == new_state);
                return true;
            }
            i = i + 1;
        }
        false
    }

    /// The state named by an already-lowercased name.
    pub fn from_lowercase(lower: &str) -> (r: Option<BillingState>)
        ensures
            r == BillingState::from_name(lower@),
    {
        if str_eq(lower, "active") {
            Some(BillingState::Active)
        } else if str_eq(lower, "pending_switch") {
            Some(BillingState::PendingSwitch)
        } else if str_eq(lower, "switch_failed") {
            Some(BillingState::SwitchFailed)
        } else {
            None
        }
    }

    /// Parse a state name, ignoring case (`FromStr`).
    pub fn parse(s: &str) -> (r: Result<BillingState, String>)
        ensures
            match r {
                Ok(st) => BillingState::from_name(unicode_lowercase(s@)) == Some(st),
                Err(msg) => BillingState::from_name(unicode_lowercase(s@)) is None
                    && msg@ == "Invalid billing state: "@ + s@,
            },
            all_ascii(s@) ==> match r {
                Ok(st) => BillingState::from_name(ascii_lowercase(s@)) == Some(st),
                Err(_) => BillingState::from_name(ascii_lowercase(s@)) is None,
            },
    {
        let lower: String = to_lowercase(s);
        match BillingState::from_lowercase(lower.as_str()) {
            Some(st) => Ok(st),
            None => Err(concat2("Invalid billing state: ", s)),
        }
    }

    /// The name shown to people (`Display`).
    pub fn to_string(&self) -> (r: String)
        ensures
            r@ == self.name(),
    {
        self.as_str().to_owned()
    }
}

impl std::str::FromStr for BillingState {
    type Err = String;

    fn from_str(s: &str) -> (r: Result<Self, Self::Err>)
        ensures
            match r {
                Ok(st) => BillingState::from_name(unicode_lowercase(s@)) == Some(st),
                Err(msg) => BillingState::from_name(unicode_lowercase(s@)) is None
                    && msg@ == "Invalid billing state: "@ + s@,
            },
            all_ascii(s@) ==> match r {
                Ok(st) => BillingState::from_name(ascii_lowercase(s@)) == Some(st),
                Err(_) => BillingState::from_name(ascii_lowercase(s@)) is None,
            },
    {
        BillingState::parse(s)
    }
}

/// Every state is found again from its own stored name.
pub proof fn lemma_billing_state_name_roundtrip(st: BillingState)
    ensures
        BillingState::from_name(st.name()) == Some(st),
        all_ascii(st.name()),
        ascii_lowercase(st.name()) == st.name(),
{
    reveal_strlit("active");
    reveal_strlit("pending_switch");
    reveal_strlit("switch_failed");
    assert(ascii_lowercase(st.name()) =~= st.name());
}

/// No state lists itself among its transitions, and every state can reach `Active`
/// in at most two steps.
pub proof fn lemma_billing_state_transitions(st: BillingState)
    ensures
        !st.transitions().contains(st),
        st.transitions().contains(BillingState::Active) || st.transitions().contains(
            BillingState::PendingSwitch,
        ),
        BillingState::PendingSwitch.transitions().contains(BillingState::Active),
{
    assert(BillingState::PendingSwitch.transitions()[0] == BillingState::Active);
    match st {
        BillingState::Active => {
            assert(st.transitions()[0] == BillingState::PendingSwitch);
        },
        BillingState::PendingSwitch => {
            assert(st.transitions()[0] == BillingState::Active);
        },
        BillingState::SwitchFailed => {
            assert(st.transitions()[0] == BillingState::Active);
        },
    }
}

/// Exactly one of healthy, transitional and needs-attention holds of each state.
pub proof fn lemma_billing_state_classes_partition(st: BillingState)
    ensures
        (st == BillingState::Active) as int + (st == BillingState::PendingSwitch) as int + (st
            == BillingState::SwitchFailed) as int == 1,
{
}


/// Parsing ignores ASCII case: a name that differs from a state's own name only
/// in the case of its letters reads as that state.
pub proof fn lemma_billing_state_parse_ignores_case(st: BillingState, s: Seq<char>)
    requires
        all_ascii(s),
        eq_ignore_ascii_case(s, st.name()),
    ensures
        BillingState::from_name(ascii_lowercase(s)) == Some(st),
{
    reveal_strlit("active");
    reveal_strlit("pending_switch");
    reveal_strlit("switch_failed");
    assert(ascii_lowercase(st.name()) =~= st.name());
    lemma_lowercase_ignores_ascii_case(s, st.name());
    lemma_billing_state_name_roundtrip(st);
}

} // verus!
