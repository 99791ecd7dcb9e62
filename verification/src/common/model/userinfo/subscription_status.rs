//! Stripe subscription status.
use vstd::prelude::*;
use vstd::string::*;

use crate::text::str_eq;

verus! {

broadcast use vstd::string::group_string_axioms;

/// Lifecycle state of a Stripe subscription.
#[derive(Debug, Clone, Copy, PartialEq, Eq, Hash, Structural)]
pub enum SubscriptionStatus {
    Trialing,
    Active,
    Incomplete,
    IncompleteExpired,
    PastDue,
    Canceled,
    Unpaid,
    Paused,
}

/// The wire name of a status.
pub open spec fn spec_status_name(s: SubscriptionStatus) -> Seq<char> {
    match s {
        SubscriptionStatus::Trialing => "trialing"@,
        SubscriptionStatus::Active => "active"@,
        SubscriptionStatus::Incomplete => "incomplete"@,
        SubscriptionStatus::IncompleteExpired => "incomplete_expired"@,
        SubscriptionStatus::PastDue => "past_due"@,
        SubscriptionStatus::Canceled => "canceled"@,
        SubscriptionStatus::Unpaid => "unpaid"@,
        SubscriptionStatus::Paused => "paused"@,
    }
}

/// The status whose wire name is `s`, if any.
pub open spec fn spec_status_from(s: Seq<char>) -> Option<SubscriptionStatus> {
    if s == "trialing"@ {
        Some(SubscriptionStatus::Trialing)
    } else if s == "active"@ {
        Some(SubscriptionStatus::Active)
    } else if s == "incomplete"@ {
        Some(SubscriptionStatus::Incomplete)
    } else if s == "incomplete_expired"@ {
        Some(SubscriptionStatus::IncompleteExpired)
    } else if s == "past_due"@ {
        Some(SubscriptionStatus::PastDue)
    } else if s == "canceled"@ {
        Some(SubscriptionStatus::Canceled)
    } else if s == "unpaid"@ {
        Some(SubscriptionStatus::Unpaid)
    } else if s == "paused"@ {
        Some(SubscriptionStatus::Paused)
    } else {
        None
    }
}

impl SubscriptionStatus {
    /// The status named `s`, `None` for an unknown name.
    pub fn from_str(s: &str) -> (r: Option<Self>)
        ensures
            r == spec_status_from(s@),
    {
        if str_eq(s, "trialing") {
            Some(Self::Trialing)
        } else if str_eq(s, "active") {
            Some(Self::Active)
        } else if str_eq(s, "incomplete") {
            Some(Self::Incomplete)
        } else if str_eq(s, "incomplete_expired") {
            Some(Self::IncompleteExpired)
        } else if str_eq(s, "past_due") {
            Some(Self::PastDue)
        } else if str_eq(s, "canceled") {
            Some(Self::Canceled)
        } else if str_eq(s, "unpaid") {
            Some(Self::Unpaid)
        } else if str_eq(s, "paused") {
            Some(Self::Paused)
        } else {
            None
        }
    }

    /// The wire name of the status.
    pub fn as_str(&self) -> (r: &'static str)
        ensures
            r@ == spec_status_name(*self),
    {
        match self {
            Self::Trialing => "trialing",
            Self::Active => "active",
            Self::Incomplete => "incomplete",
            Self::IncompleteExpired => "incomplete_expired",
            Self::PastDue => "past_due",
            Self::Canceled => "canceled",
            Self::Unpaid => "unpaid",
            Self::Paused => "paused",
        }
    }
}

/// Reading a status's name gives the status back.
pub proof fn lemma_status_roundtrip(s: SubscriptionStatus)
    ensures
        spec_status_from(spec_status_name(s)) == Some(s),
{
    reveal_strlit("trialing");
    assert("trialing"@.len() == 8 && "trialing"@[0] == 't');
    reveal_strlit("active");
    assert("active"@.len() == 6 && "active"@[0] == 'a');
    reveal_strlit("incomplete");
    assert("incomplete"@.len() == 10 && "incomplete"@[0] == 'i');
    reveal_strlit("incomplete_expired");
    assert("incomplete_expired"@.len() == 18 && "incomplete_expired"@[0] == 'i');
    reveal_strlit("past_due");
    assert("past_due"@.len() == 8 && "past_due"@[0] == 'p');
    reveal_strlit("canceled");
    assert("canceled"@.len() == 8 && "canceled"@[0] == 'c');
    reveal_strlit("unpaid");
    assert("unpaid"@.len() == 6 && "unpaid"@[0] == 'u');
    reveal_strlit("paused");
    assert("paused"@.len() == 6 && "paused"@[0] == 'p');
}

} // verus!
