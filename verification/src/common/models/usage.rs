//! A user's request quota.
use vstd::prelude::*;

verus! {

/// A user's quota, or why it could not be read.
pub enum GetUserInfo {
    Usage(UserUsageInfo),
    Error(String),
}

/// How many fast requests a user has made and may make.
pub struct UserUsageInfo {
    pub fast_requests: u32,
    pub max_fast_requests: u32,
    /// The membership type.
    pub mtype: String,
    pub trial_days: u32,
}

/// The membership and trial of a user's billing profile.
pub struct StripeProfile {
    pub membership_type: String,
    pub days_remaining_on_trial: i32,
}

} // verus!
