use cursor_api::api::middleware::auth::{auth, auth_outcome, rotation_index, route_auth_token, AuthOutcome, AuthRoute};

#[test]
fn api_key_header_comes_first() {
    assert_eq!(auth(Some("k1"), Some("Bearer k2")), Some("k1"));
}

#[test]
fn bearer_key_is_read_from_authorization() {
    assert_eq!(auth(None, Some("Bearer k2")), Some("k2"));
    assert_eq!(auth(None, Some("Basic k2")), None);
    assert_eq!(auth(None, Some("bearer k2")), None);
    assert_eq!(auth(None, None), None);
}

#[test]
fn admin_token_routes() {
    assert!(matches!(route_auth_token("admin", "admin", false, false, false), AuthRoute::AdminRotation));
    match route_auth_token("admin-team", "admin", false, false, false) {
        AuthRoute::AdminAlias(a) => assert_eq!(a, "team"),
        other => panic!("unexpected {:?}", other),
    }
    assert!(matches!(route_auth_token("adminx", "admin", true, true, true), AuthRoute::Unauthorized));
}

#[test]
fn other_routes_in_order() {
    assert!(matches!(route_auth_token("s", "admin", true, true, true), AuthRoute::Shared));
    assert!(matches!(route_auth_token("k", "admin", false, true, true), AuthRoute::UserKey));
    assert!(matches!(route_auth_token("d", "admin", false, false, true), AuthRoute::Dynamic));
    assert!(matches!(route_auth_token("x", "admin", false, false, false), AuthRoute::Unauthorized));
}

#[test]
fn rotation_takes_tokens_in_turn() {
    assert_eq!(rotation_index(7, 0), None);
    assert_eq!(rotation_index(7, 3), Some(1));
    assert_eq!(rotation_index(2, 3), Some(2));
}

#[test]
fn answers_for_each_route() {
    assert_eq!(auth_outcome(&AuthRoute::AdminRotation, 0, 5, true, true, true, true), AuthOutcome::Refused(503));
    assert_eq!(auth_outcome(&AuthRoute::Shared, 3, 5, false, false, false, false), AuthOutcome::Rotated(2));
    let alias = AuthRoute::AdminAlias("team".to_string());
    assert_eq!(auth_outcome(&alias, 3, 0, false, true, true, true), AuthOutcome::Refused(404));
    assert_eq!(auth_outcome(&alias, 3, 0, true, false, true, true), AuthOutcome::Refused(401));
    assert_eq!(auth_outcome(&alias, 3, 0, true, true, false, false), AuthOutcome::Alias);
    assert_eq!(auth_outcome(&AuthRoute::UserKey, 0, 0, false, false, true, false), AuthOutcome::StoredKey);
    assert_eq!(auth_outcome(&AuthRoute::UserKey, 0, 0, true, true, false, true), AuthOutcome::Refused(401));
    assert_eq!(auth_outcome(&AuthRoute::Dynamic, 0, 0, false, false, false, true), AuthOutcome::Dynamic);
    assert_eq!(auth_outcome(&AuthRoute::Dynamic, 0, 0, true, true, true, false), AuthOutcome::Refused(401));
    assert_eq!(auth_outcome(&AuthRoute::Unauthorized, 9, 0, true, true, true, true), AuthOutcome::Refused(401));
}
