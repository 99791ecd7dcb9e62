//! Which key a request carries, and what that key gives access to. The
//! middlewares look the key up in the service's token stores; the decisions
//! they take on the way stand here.
use vstd::prelude::*;

use crate::text::{has_prefix, strip_prefix};

verus! {

/// The scheme prefix of an `Authorization` header that carries a key.
pub open spec fn bearer_prefix() -> Seq<char> {
    seq!['B', 'e', 'a', 'r', 'e', 'r', ' ']
}

/// The text of an optional header value.
pub open spec fn header_view(h: Option<&str>) -> Option<Seq<char>> {
    match h {
        Some(s) => Some(s@),
        None => None,
    }
}

/// The key a request carries: the API-key header when there is one, else
/// the bearer key of the `Authorization` header.
pub open spec fn key_of(api_key: Option<Seq<char>>, authorization: Option<Seq<char>>) -> Option<Seq<char>> {
    match api_key {
        Some(k) => Some(k),
        None => match authorization {
            Some(h) => if has_prefix(h, bearer_prefix()) {
                Some(h.skip(7))
            } else {
                None
            },
            None => None,
        },
    }
}

/// The key a request carries (see `key_of`). Each argument is the value of
/// its header, where the request has one that is visible ASCII.
pub fn auth<'a>(api_key: Option<&'a str>, authorization: Option<&'a str>) -> (r: Option<&'a str>)
    ensures
        header_view(r) == key_of(header_view(api_key), header_view(authorization)),
{
    if let Some(key) = api_key {
        return Some(key);
    }
    match authorization {
        Some(header) => {
            let prefix = "Bearer ";
            proof {
                reveal_strlit("Bearer ");
                assert(prefix@ =~= bearer_prefix());
            }
            strip_prefix(header, prefix)
        },
        None => None,
    }
}

/// Where a key leads.
#[derive(Debug)]
pub enum AuthRoute {
    /// The admin token alone: the next enabled token, in turn.
    AdminRotation,
    /// The admin token, a dash and an alias: the token of that alias.
    AdminAlias(String),
    /// The shared token: the next enabled token, in turn.
    Shared,
    /// A key of a stored token.
    UserKey,
    /// A dynamic key, which holds its own token.
    Dynamic,
    /// Refused.
    Unauthorized,
}

/// Whether `r` is where the key `token` leads: first the admin token as a
/// prefix, then the shared token, then a stored token's key, then a dynamic
/// key where those are enabled.
pub open spec fn routes_to(
    r: AuthRoute,
    token: Seq<char>,
    admin: Seq<char>,
    share_matches: bool,
    is_token_key: bool,
    dynamic_enabled: bool,
) -> bool {
    if has_prefix(token, admin) {
        let part = token.skip(admin.len() as int);
        if part.len() == 0 {
            r is AdminRotation
        } else if part[0] == '-' {
            r matches AuthRoute::AdminAlias(a) && a@ == part.skip(1)
        } else {
            r is Unauthorized
        }
    } else if share_matches {
        r is Shared
    } else if is_token_key {
        r is UserKey
    } else if dynamic_enabled {
        r is Dynamic
    } else {
        r is Unauthorized
    }
}

/// Where the key `token` leads (see `routes_to`). `share_matches` says
/// whether sharing is on and `token` is the shared token, `is_token_key`
/// whether `token` reads as a stored token's key, and `dynamic_enabled`
/// whether dynamic keys are accepted.
pub fn route_auth_token(
    token: &str,
    admin_token: &str,
    share_matches: bool,
    is_token_key: bool,
    dynamic_enabled: bool,
) -> (r: AuthRoute)
    ensures
        routes_to(r, token@, admin_token@, share_matches, is_token_key, dynamic_enabled),
{
    if let Some(part) = strip_prefix(token, admin_token) {
        if part.unicode_len() == 0 {
            AuthRoute::AdminRotation
        } else if part.get_char(0) == '-' {
            let alias = part.substring_char(1, part.unicode_len());
            assert(alias@ =~= part@.skip(1));
            AuthRoute::AdminAlias(alias.to_owned())
        } else {
            AuthRoute::Unauthorized
        }
    } else if share_matches {
        AuthRoute::Shared
    } else if is_token_key {
        AuthRoute::UserKey
    } else if dynamic_enabled {
        AuthRoute::Dynamic
    } else {
        AuthRoute::Unauthorized
    }
}

/// The position of the token to use among `enabled` enabled tokens, taken
/// in turn by a counter; `None` when no token is enabled, which the service
/// answers as unavailable.
pub fn rotation_index(counter: usize, enabled: usize) -> (r: Option<usize>)
    ensures
        enabled == 0 ==> r is None,
        enabled > 0 ==> r == Some((counter % enabled) as usize),
{
    if enabled == 0 {
        None
    } else {
        Some(counter % enabled)
    }
}

/// What a request gets once its key's route has been looked up in the
/// service's stores.
#[derive(Debug, PartialEq, Eq, Structural)]
pub enum AuthOutcome {
    /// The enabled token at this position, for the admin or shared token.
    Rotated(usize),
    /// The token of the alias.
    Alias,
    /// The stored token of the user's key.
    StoredKey,
    /// The token that the dynamic key holds.
    Dynamic,
    /// Refused with this HTTP status.
    Refused(u16),
}

/// The outcome of a route (see `auth_outcome`).
pub open spec fn spec_auth_outcome(
    route: AuthRoute,
    enabled: usize,
    counter: usize,
    alias_known: bool,
    alias_found: bool,
    key_found: bool,
    dynamic_token: bool,
) -> AuthOutcome {
    match route {
        AuthRoute::AdminRotation | AuthRoute::Shared => if enabled == 0 {
            AuthOutcome::Refused(503)
        } else {
            AuthOutcome::Rotated((counter % enabled) as usize)
        },
        AuthRoute::AdminAlias(_) => if !alias_known {
            AuthOutcome::Refused(404)
        } else if !alias_found {
            AuthOutcome::Refused(401)
        } else {
            AuthOutcome::Alias
        },
        AuthRoute::UserKey => if key_found {
            AuthOutcome::StoredKey
        } else {
            AuthOutcome::Refused(401)
        },
        AuthRoute::Dynamic => if dynamic_token {
            AuthOutcome::Dynamic
        } else {
            AuthOutcome::Refused(401)
        },
        AuthRoute::Unauthorized => AuthOutcome::Refused(401),
    }
}

/// What a request gets on its route, from what the stores answered: the
/// admin or shared token takes the next of `enabled` enabled tokens in turn
/// (503, no tokens, when none is enabled); an alias must be known (else 404)
/// and hold a token (else 401); a user's key must be stored, and a dynamic
/// key must hold a readable token (else 401); any other key is refused with
/// 401.
pub fn auth_outcome(
    route: &AuthRoute,
    enabled: usize,
    counter: usize,
    alias_known: bool,
    alias_found: bool,
    key_found: bool,
    dynamic_token: bool,
) -> (r: AuthOutcome)
    ensures
        r == spec_auth_outcome(*route, enabled, counter, alias_known, alias_found, key_found, dynamic_token),
{
    match route {
        AuthRoute::AdminRotation | AuthRoute::Shared => match rotation_index(counter, enabled) {
            Some(i) => AuthOutcome::Rotated(i),
            None => AuthOutcome::Refused(503),
        },
        AuthRoute::AdminAlias(_) => {
            if !alias_known {
                AuthOutcome::Refused(404)
            } else if !alias_found {
                AuthOutcome::Refused(401)
            } else {
                AuthOutcome::Alias
            }
        },
        AuthRoute::UserKey => {
            if key_found {
                AuthOutcome::StoredKey
            } else {
                AuthOutcome::Refused(401)
            }
        },
        AuthRoute::Dynamic => {
            if dynamic_token {
                AuthOutcome::Dynamic
            } else {
                AuthOutcome::Refused(401)
            }
        },
        AuthRoute::Unauthorized => AuthOutcome::Refused(401),
    }
}

} // verus!
