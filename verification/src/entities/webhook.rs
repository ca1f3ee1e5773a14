//! The events a domain's webhook endpoints can subscribe to.
use vstd::prelude::*;
use crate::text::{concat2, str_eq};

verus! {

#[derive(Debug, Clone, Copy, PartialEq, Eq, Structural)]
pub enum WebhookEventType {
    UserCreated,
    UserDeleted,
    UserLogin,
    UserFrozen,
    UserUnfrozen,
    UserWhitelisted,
    UserUnwhitelisted,
    UserRolesChanged,
    UserInvited,
    SubscriptionCreated,
    SubscriptionUpdated,
    SubscriptionCanceled,
    PaymentSucceeded,
    PaymentFailed,
    WebhookTest,
}

/// All event types, in their listed order.
pub open spec fn all_event_types() -> Seq<WebhookEventType> {
    seq![
        WebhookEventType::UserCreated,
        WebhookEventType::UserDeleted,
        WebhookEventType::UserLogin,
        WebhookEventType::UserFrozen,
        WebhookEventType::UserUnfrozen,
        WebhookEventType::UserWhitelisted,
        WebhookEventType::UserUnwhitelisted,
        WebhookEventType::UserRolesChanged,
        WebhookEventType::UserInvited,
        WebhookEventType::SubscriptionCreated,
        WebhookEventType::SubscriptionUpdated,
        WebhookEventType::SubscriptionCanceled,
        WebhookEventType::PaymentSucceeded,
        WebhookEventType::PaymentFailed,
        WebhookEventType::WebhookTest,
    ]
}

impl WebhookEventType {
    /// The wire name of each event type.
    pub open spec fn name(self) -> Seq<char> {
        match self {
            WebhookEventType::UserCreated => "user.created"@,
            WebhookEventType::UserDeleted => "user.deleted"@,
            WebhookEventType::UserLogin => "user.login"@,
            WebhookEventType::UserFrozen => "user.frozen"@,
            WebhookEventType::UserUnfrozen => "user.unfrozen"@,
            WebhookEventType::UserWhitelisted => "user.whitelisted"@,
            WebhookEventType::UserUnwhitelisted => "user.unwhitelisted"@,
            WebhookEventType::UserRolesChanged => "user.roles_changed"@,
            WebhookEventType::UserInvited => "user.invited"@,
            WebhookEventType::SubscriptionCreated => "subscription.created"@,
            WebhookEventType::SubscriptionUpdated => "subscription.updated"@,
            WebhookEventType::SubscriptionCanceled => "subscription.canceled"@,
            WebhookEventType::PaymentSucceeded => "payment.succeeded"@,
            WebhookEventType::PaymentFailed => "payment.failed"@,
            WebhookEventType::WebhookTest => "webhook.test"@,
        }
    }

    /// The event type whose wire name is `s`, if any.
    pub open spec fn from_name(s: Seq<char>) -> Option<WebhookEventType> {
        if s == "user.created"@ {
            Some(WebhookEventType::UserCreated)
        } else if s == "user.deleted"@ {
            Some(WebhookEventType::UserDeleted)
        } else if s == "user.login"@ {
            Some(WebhookEventType::UserLogin)
        } else if s == "user.frozen"@ {
            Some(WebhookEventType::UserFrozen)
        } else if s == "user.unfrozen"@ {
            Some(WebhookEventType::UserUnfrozen)
        } else if s == "user.whitelisted"@ {
            Some(WebhookEventType::UserWhitelisted)
        } else if s == "user.unwhitelisted"@ {
            Some(WebhookEventType::UserUnwhitelisted)
        } else if s == "user.roles_changed"@ {
            Some(WebhookEventType::UserRolesChanged)
        } else if s == "user.invited"@ {
            Some(WebhookEventType::UserInvited)
        } else if s == "subscription.created"@ {
            Some(WebhookEventType::SubscriptionCreated)
        } else if s == "subscription.updated"@ {
            Some(WebhookEventType::SubscriptionUpdated)
        } else if s == "subscription.canceled"@ {
            Some(WebhookEventType::SubscriptionCanceled)
        } else if s == "payment.succeeded"@ {
            Some(WebhookEventType::PaymentSucceeded)
        } else if s == "payment.failed"@ {
            Some(WebhookEventType::PaymentFailed)
        } else if s == "webhook.test"@ {
            Some(WebhookEventType::WebhookTest)
        } else {
            None
        }
    }

    pub fn as_str(&self) -> (r: &'static str)
        ensures
            r@ == self.name(),
    {
        match self {
            WebhookEventType::UserCreated => "user.created",
            WebhookEventType::UserDeleted => "user.deleted",
            WebhookEventType::UserLogin => "user.login",
            WebhookEventType::UserFrozen => "user.frozen",
            WebhookEventType::UserUnfrozen => "user.unfrozen",
            WebhookEventType::UserWhitelisted => "user.whitelisted",
            WebhookEventType::UserUnwhitelisted => "user.unwhitelisted",
            WebhookEventType::UserRolesChanged => "user.roles_changed",
            WebhookEventType::UserInvited => "user.invited",
            WebhookEventType::SubscriptionCreated => "subscription.created",
            WebhookEventType::SubscriptionUpdated => "subscription.updated",
            WebhookEventType::SubscriptionCanceled => "subscription.canceled",
            WebhookEventType::PaymentSucceeded => "payment.succeeded",
            WebhookEventType::PaymentFailed => "payment.failed",
            WebhookEventType::WebhookTest => "webhook.test",
        }
    }

    pub fn all_types() -> (r: &'static [WebhookEventType])
        ensures
            r@ == all_event_types(),
    {
        &[
            WebhookEventType::UserCreated,
            WebhookEventType::UserDeleted,
            WebhookEventType::UserLogin,
            WebhookEventType::UserFrozen,
            WebhookEventType::UserUnfrozen,
            WebhookEventType::UserWhitelisted,
            WebhookEventType::UserUnwhitelisted,
            WebhookEventType::UserRolesChanged,
            WebhookEventType::UserInvited,
            WebhookEventType::SubscriptionCreated,
            WebhookEventType::SubscriptionUpdated,
            WebhookEventType::SubscriptionCanceled,
            WebhookEventType::PaymentSucceeded,
            WebhookEventType::PaymentFailed,
            WebhookEventType::WebhookTest,
        ]
    }

    pub fn all_type_strings() -> (r: Vec<&'static str>)
        ensures
            r@.len() == all_event_types().len(),
            forall|i: int| 0 <= i < r@.len() ==> r@[i]@ == all_event_types()[i].name(),
    {
        let types: &[WebhookEventType] = WebhookEventType::all_types();
        let mut out: Vec<&'static str> = Vec::new();
        let mut i: usize = 0;
        while i < types.len()
            invariant
                types@ == all_event_types(),
                i <= types@.len(),
                out@.len() == i,
                forall|k: int| 0 <= k < i ==> out@[k]@ == all_event_types()[k].name(),
            decreases types@.len() - i,
        {
            out.push(types[i].as_str());
            i = i + 1;
        }
        out
    }

    /// Parse a wire name exactly (`FromStr`).
    pub fn parse(s: &str) -> (r: Result<WebhookEventType, String>)
        ensures
            match r {
                Ok(t) => WebhookEventType::from_name(s@) == Some(t),
                Err(msg) => WebhookEventType::from_name(s@) is None && msg@
                    == "unknown webhook event type: "@ + s@,
            },
    {
        if str_eq(s, "user.created") {
            Ok(WebhookEventType::UserCreated)
        } else if str_eq(s, "user.deleted") {
            Ok(WebhookEventType::UserDeleted)
        } else if str_eq(s, "user.login") {
            Ok(WebhookEventType::UserLogin)
        } else if str_eq(s, "user.frozen") {
            Ok(WebhookEventType::UserFrozen)
        } else if str_eq(s, "user.unfrozen") {
            Ok(WebhookEventType::UserUnfrozen)
        } else if str_eq(s, "user.whitelisted") {
            Ok(WebhookEventType::UserWhitelisted)
        } else if str_eq(s, "user.unwhitelisted") {
            Ok(WebhookEventType::UserUnwhitelisted)
        } else if str_eq(s, "user.roles_changed") {
            Ok(WebhookEventType::UserRolesChanged)
        } else if str_eq(s, "user.invited") {
            Ok(WebhookEventType::UserInvited)
        } else if str_eq(s, "subscription.created") {
            Ok(WebhookEventType::SubscriptionCreated)
        } else if str_eq(s, "subscription.updated") {
            Ok(WebhookEventType::SubscriptionUpdated)
        } else if str_eq(s, "subscription.canceled") {
            Ok(WebhookEventType::SubscriptionCanceled)
        } else if str_eq(s, "payment.succeeded") {
            Ok(WebhookEventType::PaymentSucceeded)
        } else if str_eq(s, "payment.failed") {
            Ok(WebhookEventType::PaymentFailed)
        } else if str_eq(s, "webhook.test") {
            Ok(WebhookEventType::WebhookTest)
        } else {
            Err(concat2("unknown webhook event type: ", s))
        }
    }

    /// The name shown to people (`Display`).
    pub fn to_string(&self) -> (r: String)
        ensures
            r@ == self.name(),
    {
        self.as_str().to_owned()
    }
}

impl std::str::FromStr for WebhookEventType {
    type Err = String;

    fn from_str(s: &str) -> (r: Result<Self, Self::Err>)
        ensures
            match r {
                Ok(t) => WebhookEventType::from_name(s@) == Some(t),
                Err(msg) => WebhookEventType::from_name(s@) is None && msg@
                    == "unknown webhook event type: "@ + s@,
            },
    {
        WebhookEventType::parse(s)
    }
}

/// Facts about the wire names that tell them apart.
proof fn lemma_event_names_known()
    ensures
        "user.created"@.len() == 12,
        "user.deleted"@.len() == 12,
        "user.login"@.len() == 10,
        "user.frozen"@.len() == 11,
        "user.unfrozen"@.len() == 13,
        "user.whitelisted"@.len() == 16,
        "user.unwhitelisted"@.len() == 18,
        "user.roles_changed"@.len() == 18,
        "user.invited"@.len() == 12,
        "subscription.created"@.len() == 20,
        "subscription.updated"@.len() == 20,
        "subscription.canceled"@.len() == 21,
        "payment.succeeded"@.len() == 17,
        "payment.failed"@.len() == 14,
        "webhook.test"@.len() == 12,
        "user.created"@[5] != "user.deleted"@[5],
        "user.created"@[5] != "user.invited"@[5],
        "user.deleted"@[5] != "user.invited"@[5],
        "user.created"@[0] != "webhook.test"@[0],
        "user.deleted"@[0] != "webhook.test"@[0],
        "user.invited"@[0] != "webhook.test"@[0],
        "user.unwhitelisted"@[5] != "user.roles_changed"@[5],
        "subscription.created"@[13] != "subscription.updated"@[13],
{
    reveal_strlit("user.created");
    reveal_strlit("user.deleted");
    reveal_strlit("user.login");
    reveal_strlit("user.frozen");
    reveal_strlit("user.unfrozen");
    reveal_strlit("user.whitelisted");
    reveal_strlit("user.unwhitelisted");
    reveal_strlit("user.roles_changed");
    reveal_strlit("user.invited");
    reveal_strlit("subscription.created");
    reveal_strlit("subscription.updated");
    reveal_strlit("subscription.canceled");
    reveal_strlit("payment.succeeded");
    reveal_strlit("payment.failed");
    reveal_strlit("webhook.test");
}

/// Every event type is parsed back from its wire name, and no two event types
/// share a wire name.
pub proof fn lemma_webhook_event_name_roundtrip(t: WebhookEventType, u: WebhookEventType)
    ensures
        WebhookEventType::from_name(t.name()) == Some(t),
        t.name() == u.name() ==> t == u,
{
    lemma_event_names_known();
}

/// The list of all event types holds every event type exactly once.
pub proof fn lemma_all_event_types_exhaustive(t: WebhookEventType)
    ensures
        all_event_types().len() == 15,
        all_event_types().contains(t),
        all_event_types().no_duplicates(),
{
    let a = all_event_types();
    match t {
        WebhookEventType::UserCreated => assert(a[0] == t),
        WebhookEventType::UserDeleted => assert(a[1] == t),
        WebhookEventType::UserLogin => assert(a[2] == t),
        WebhookEventType::UserFrozen => assert(a[3] == t),
        WebhookEventType::UserUnfrozen => assert(a[4] == t),
        WebhookEventType::UserWhitelisted => assert(a[5] == t),
        WebhookEventType::UserUnwhitelisted => assert(a[6] == t),
        WebhookEventType::UserRolesChanged => assert(a[7] == t),
        WebhookEventType::UserInvited => assert(a[8] == t),
        WebhookEventType::SubscriptionCreated => assert(a[9] == t),
        WebhookEventType::SubscriptionUpdated => assert(a[10] == t),
        WebhookEventType::SubscriptionCanceled => assert(a[11] == t),
        WebhookEventType::PaymentSucceeded => assert(a[12] == t),
        WebhookEventType::PaymentFailed => assert(a[13] == t),
        WebhookEventType::WebhookTest => assert(a[14] == t),
    }
}

/// A wire name is a group and an event joined by its one dot, both non-empty.
pub open spec fn dotted_once(s: Seq<char>) -> bool {
    exists|k: int|
        0 < k < s.len() - 1 && #[trigger] s[k] == '.' && forall|i: int|
            0 <= i < s.len() && i != k ==> s[i] != '.'
}

/// Every wire name has the form `<group>.<event>` with exactly one dot, and a
/// name outside the list, such as "unknown.event", names no event type.
pub proof fn lemma_webhook_event_name_shape(t: WebhookEventType)
    ensures
        dotted_once(t.name()),
        WebhookEventType::from_name("unknown.event"@) is None,
{
    lemma_event_names_known();
    reveal_strlit("unknown.event");
    reveal_strlit("user.unfrozen");
    assert("unknown.event"@.len() == 13);
    assert("unknown.event"@[1] != "user.unfrozen"@[1]);
    match t {
        WebhookEventType::UserCreated => {
            reveal_strlit("user.created");
            assert(t.name()[4] == '.');
        },
        WebhookEventType::UserDeleted => {
            reveal_strlit("user.deleted");
            assert(t.name()[4] == '.');
        },
        WebhookEventType::UserLogin => {
            reveal_strlit("user.login");
            assert(t.name()[4] == '.');
        },
        WebhookEventType::UserFrozen => {
            reveal_strlit("user.frozen");
            assert(t.name()[4] == '.');
        },
        WebhookEventType::UserUnfrozen => {
            reveal_strlit("user.unfrozen");
            assert(t.name()[4] == '.');
        },
        WebhookEventType::UserWhitelisted => {
            reveal_strlit("user.whitelisted");
            assert(t.name()[4] == '.');
        },
        WebhookEventType::UserUnwhitelisted => {
            reveal_strlit("user.unwhitelisted");
            assert(t.name()[4] == '.');
        },
        WebhookEventType::UserRolesChanged => {
            reveal_strlit("user.roles_changed");
            assert(t.name()[4] == '.');
        },
        WebhookEventType::UserInvited => {
            reveal_strlit("user.invited");
            assert(t.name()[4] == '.');
        },
        WebhookEventType::SubscriptionCreated => {
            reveal_strlit("subscription.created");
            assert(t.name()[12] == '.');
        },
        WebhookEventType::SubscriptionUpdated => {
            reveal_strlit("subscription.updated");
            assert(t.name()[12] == '.');
        },
        WebhookEventType::SubscriptionCanceled => {
            reveal_strlit("subscription.canceled");
            assert(t.name()[12] == '.');
        },
        WebhookEventType::PaymentSucceeded => {
            reveal_strlit("payment.succeeded");
            assert(t.name()[7] == '.');
        },
        WebhookEventType::PaymentFailed => {
            reveal_strlit("payment.failed");
            assert(t.name()[7] == '.');
        },
        WebhookEventType::WebhookTest => {
            reveal_strlit("webhook.test");
            assert(t.name()[7] == '.');
        },
    }
}

} // verus!
