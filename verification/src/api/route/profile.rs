//! Answers of the profile endpoints.
use vstd::prelude::*;

use crate::common::model::ApiStatus;

verus! {

/// The answer to a request to upgrade a token: the outcome, a message and,
/// on success, the new token.
pub struct TokenUpgradeResponse {
    pub status: ApiStatus,
    pub message: &'static str,
    pub result: Option<String>,
}

} // verus!
