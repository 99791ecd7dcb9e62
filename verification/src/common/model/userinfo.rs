//! Account information: membership, Stripe profile, sessions and teams.
use vstd::prelude::*;
use vstd::string::*;

use crate::text::str_eq;

pub mod payment_id;
pub mod subscription_status;

pub use payment_id::PaymentId;
pub use subscription_status::SubscriptionStatus;

verus! {

broadcast use vstd::string::group_string_axioms;

/// Membership tier of an account.
#[derive(Debug, Clone, Copy, PartialEq, Eq, Structural)]
pub enum MembershipType {
    Free,
    FreeTrial,
    Pro,
    ProPlus,
    Ultra,
    Enterprise,
}

/// The wire name of a membership tier.
pub open spec fn spec_membership_name(m: MembershipType) -> Seq<char> {
    match m {
        MembershipType::Free => "free"@,
        MembershipType::FreeTrial => "free_trial"@,
        MembershipType::Pro => "pro"@,
        MembershipType::ProPlus => "pro_plus"@,
        MembershipType::Ultra => "ultra"@,
        MembershipType::Enterprise => "enterprise"@,
    }
}

/// The membership tier whose wire name is `s`, if any.
pub open spec fn spec_membership_from(s: Seq<char>) -> Option<MembershipType> {
    if s == "free"@ {
        Some(MembershipType::Free)
    } else if s == "free_trial"@ {
        Some(MembershipType::FreeTrial)
    } else if s == "pro"@ {
        Some(MembershipType::Pro)
    } else if s == "pro_plus"@ {
        Some(MembershipType::ProPlus)
    } else if s == "ultra"@ {
        Some(MembershipType::Ultra)
    } else if s == "enterprise"@ {
        Some(MembershipType::Enterprise)
    } else {
        None
    }
}

impl MembershipType {
    /// The tier named `s`, `None` for an unknown name.
    pub fn from_str(s: &str) -> (r: Option<Self>)
        ensures
            r == spec_membership_from(s@),
    {
        if str_eq(s, "free") {
            Some(MembershipType::Free)
        } else if str_eq(s, "free_trial") {
            Some(MembershipType::FreeTrial)
        } else if str_eq(s, "pro") {
            Some(MembershipType::Pro)
        } else if str_eq(s, "pro_plus") {
            Some(MembershipType::ProPlus)
        } else if str_eq(s, "ultra") {
            Some(MembershipType::Ultra)
        } else if str_eq(s, "enterprise") {
            Some(MembershipType::Enterprise)
        } else {
            None
        }
    }

    /// The wire name of the tier.
    pub fn as_str(&self) -> (r: &'static str)
        ensures
            r@ == spec_membership_name(*self),
    {
        match self {
            MembershipType::Free => "free",
            MembershipType::FreeTrial => "free_trial",
            MembershipType::Pro => "pro",
            MembershipType::ProPlus => "pro_plus",
            MembershipType::Ultra => "ultra",
            MembershipType::Enterprise => "enterprise",
        }
    }
}

/// Reading a tier's name gives the tier back.
pub proof fn lemma_membership_roundtrip(m: MembershipType)
    ensures
        spec_membership_from(spec_membership_name(m)) == Some(m),
{
    reveal_strlit("free");
    assert("free"@.len() == 4 && "free"@[0] == 'f');
    reveal_strlit("free_trial");
    assert("free_trial"@.len() == 10 && "free_trial"@[0] == 'f');
    reveal_strlit("pro");
    assert("pro"@.len() == 3 && "pro"@[0] == 'p');
    reveal_strlit("pro_plus");
    assert("pro_plus"@.len() == 8 && "pro_plus"@[0] == 'p');
    reveal_strlit("ultra");
    assert("ultra"@.len() == 5 && "ultra"@[0] == 'u');
    reveal_strlit("enterprise");
    assert("enterprise"@.len() == 10 && "enterprise"@[0] == 'e');
}

/// Billing profile of an account.
#[derive(Clone, Copy)]
pub struct StripeProfile {
    pub membership_type: MembershipType,
    pub payment_id: Option<PaymentId>,
    pub days_remaining_on_trial: u32,
    pub subscription_status: Option<SubscriptionStatus>,
    pub verified_student: bool,
    pub trial_eligible: bool,
    pub is_on_student_plan: bool,
}

/// Kind of a login session.
#[derive(Debug, Clone, Copy, PartialEq, Eq, Structural)]
pub enum SessionType {
    Unspecified,
    Web,
    Client,
    Bugbot,
    BackgroundAgent,
}

/// A team the account belongs to.
#[derive(Clone, Copy)]
pub struct Team {
    pub has_billing: bool,
    pub subscription_status: Option<SubscriptionStatus>,
}

/// The teams of an account.
pub struct GetTeamsResponse {
    pub teams: Vec<Team>,
}

/// A team with billing and an active subscription.
pub open spec fn is_paying_team(t: Team) -> bool {
    t.has_billing && t.subscription_status == Some(SubscriptionStatus::Active)
}

/// Some team has billing and an active subscription.
pub open spec fn any_paying(ts: Seq<Team>) -> bool {
    exists|i: int| 0 <= i < ts.len() && is_paying_team(#[trigger] ts[i])
}

/// The profile as reported, with the membership raised to enterprise when
/// some team of the account has billing and an active subscription.
pub open spec fn spec_with_team_billing(stripe: Option<StripeProfile>, teams: Option<Seq<Team>>) -> Option<StripeProfile> {
    match stripe {
        Some(p) => match teams {
            Some(ts) => if any_paying(ts) {
                Some(StripeProfile { membership_type: MembershipType::Enterprise, ..p })
            } else {
                Some(p)
            },
            None => Some(p),
        },
        None => None,
    }
}

/// The teams held by an optional list.
pub open spec fn teams_view(teams: Option<Vec<Team>>) -> Option<Seq<Team>> {
    match teams {
        Some(v) => Some(v@),
        None => None,
    }
}

/// Whether some team has billing and an active subscription.
pub fn has_paying_team(teams: &Vec<Team>) -> (r: bool)
    ensures
        r == any_paying(teams@),
{
    let mut i: usize = 0;
    while i < teams.len()
        invariant
            i <= teams.len(),
            forall|j: int| 0 <= j < i ==> !is_paying_team(#[trigger] teams@[j]),
        decreases teams.len() - i,
    {
        let t = teams[i];
        if t.has_billing && t.subscription_status == Some(SubscriptionStatus::Active) {
            assert(is_paying_team(teams@[i as int]));
            return true;
        }
        i = i + 1;
    }
    false
}

/// Applies the team rule to a fetched profile: an account in a paying team is
/// an enterprise account.
pub fn apply_team_billing(stripe: Option<StripeProfile>, teams: Option<Vec<Team>>) -> (r: Option<StripeProfile>)
    ensures
        r == spec_with_team_billing(stripe, teams_view(teams)),
{
    let paying = match &teams {
        Some(ts) => has_paying_team(ts),
        None => false,
    };
    match stripe {
        None => {
            None
        },
        Some(p) => if paying {
            let q = StripeProfile { membership_type: MembershipType::Enterprise, ..p };
            Some(q)
        } else {
            Some(p)
        },
    }
}

} // verus!
