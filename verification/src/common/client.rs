//! Values sent with requests to the upstream service.
use vstd::prelude::*;

verus! {

/// The session cookie for a user and token:
/// `WorkosCursorSessionToken=<user id>%3A%3A<token>`.
pub fn format_workos_cursor_session_token(user_id: &str, auth_token: &str) -> (r: String)
    ensures
        r@ == "WorkosCursorSessionToken="@ + user_id@ + "%3A%3A"@ + auth_token@,
{
    let mut result = String::from_str("WorkosCursorSessionToken=");
    result.append(user_id);
    result.append("%3A%3A");
    result.append(auth_token);
    result
}

} // verus!
