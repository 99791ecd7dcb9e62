use base64::Engine as _;
use cursor_api::common::utils::tokens::{check_claims, jwt_payload, parse_token, token_file_lines, token_list_entries, user_id_from_sub, ClaimValue, TokenClaims};

#[test]
fn token_without_prefix_is_whole_entry() {
    assert_eq!(parse_token("abc.def.ghi"), Some("abc.def.ghi".to_string()));
    assert_eq!(parse_token(""), Some(String::new()));
}

#[test]
fn token_after_plain_colon() {
    assert_eq!(parse_token("user:abc"), Some("abc".to_string()));
    assert_eq!(parse_token("a:b:c"), Some("c".to_string()));
    assert_eq!(parse_token("prefix:"), Some(String::new()));
}

#[test]
fn token_after_escaped_colon() {
    assert_eq!(parse_token("user%3Aabc"), Some("abc".to_string()));
    assert_eq!(parse_token("x%3A%3Atok"), Some("tok".to_string()));
}

#[test]
fn token_after_the_later_colon() {
    assert_eq!(parse_token("a:b%3Ac"), Some("c".to_string()));
    assert_eq!(parse_token("a%3Ab:c"), Some("c".to_string()));
    assert_eq!(parse_token("a%3a:b"), Some("b".to_string()));
    assert_eq!(parse_token("a%3ab"), Some("a%3ab".to_string()));
}

#[test]
fn reading_a_token_twice_changes_nothing() {
    for entry in ["a:b%3Ac", "x%3A%3Atok", "plain", "a%3a:b", ":"] {
        let once = parse_token(entry).unwrap();
        assert_eq!(parse_token(&once), Some(once.clone()));
    }
}

const HEADER: &str = "eyJhbGciOiJIUzI1NiIsInR5cCI6IkpXVCJ9";

fn claims(time: &str, exp: i64) -> TokenClaims {
    TokenClaims {
        sub: Some(ClaimValue::Str("auth0|user_01".to_string())),
        time: Some(ClaimValue::Str(time.to_string())),
        randomness: Some(ClaimValue::Str("0123abcd-ef01-2345".to_string())),
        exp: Some(ClaimValue::Int(exp)),
        iss: Some(ClaimValue::Str("https://authentication.cursor.sh".to_string())),
        scope: Some(ClaimValue::Str("openid profile email offline_access".to_string())),
        aud: Some(ClaimValue::Str("https://cursor.com".to_string())),
    }
}

#[test]
fn payload_of_a_three_part_token() {
    let body = base64::engine::general_purpose::URL_SAFE_NO_PAD.encode(b"{\"a\":1}");
    let token = format!("{HEADER}.{body}.sig");
    assert_eq!(jwt_payload(&token, true), Some(b"{\"a\":1}".to_vec()));
    let other = format!("xyz.{body}.sig");
    assert_eq!(jwt_payload(&other, true), None);
    assert_eq!(jwt_payload(&other, false), Some(b"{\"a\":1}".to_vec()));
    assert_eq!(jwt_payload(&format!("{HEADER}.{body}"), false), None);
    assert_eq!(jwt_payload(&format!("{HEADER}.{body}.s.t"), false), None);
    assert_eq!(jwt_payload(&format!("{HEADER}.!!.sig"), false), None);
}

#[test]
fn valid_claims() {
    assert!(check_claims(&claims("100", 200), 150));
    assert!(check_claims(&claims("150", 150), 150));
}

#[test]
fn refused_claims() {
    assert!(!check_claims(&claims("151", 200), 150));
    assert!(!check_claims(&claims("100", 149), 150));
    assert!(!check_claims(&claims("1e2", 200), 150));
    let mut c = claims("100", 200);
    c.randomness = Some(ClaimValue::Str("short".to_string()));
    assert!(!check_claims(&c, 150));
    let mut c = claims("100", 200);
    c.aud = Some(ClaimValue::Str("https://example.com".to_string()));
    assert!(!check_claims(&c, 150));
    let mut c = claims("100", 200);
    c.sub = None;
    assert!(!check_claims(&c, 150));
    let mut c = claims("100", 200);
    c.exp = Some(ClaimValue::Str("200".to_string()));
    assert!(!check_claims(&c, 150));
    let mut c = claims("100", 200);
    c.time = Some(ClaimValue::Int(100));
    assert!(!check_claims(&c, 150));
}

#[test]
fn user_ids_from_subjects() {
    assert_eq!(user_id_from_sub("auth0|user_01"), "user_01");
    assert_eq!(user_id_from_sub("a|b|c"), "b");
    assert_eq!(user_id_from_sub("plain"), "plain");
    assert_eq!(user_id_from_sub("x|"), "");
}

#[test]
fn token_file_candidates() {
    let content = "# tokens\r\n  tok1  \r\n\n#skip\nuser:tok2\n   \n";
    assert_eq!(token_file_lines(content), vec!["tok1".to_string(), "user:tok2".to_string()]);
    assert!(token_file_lines("").is_empty());
}

#[test]
fn token_list_lines() {
    let content = "a:tok1,sum1\r\n# c,d\nbad line\ntok2,sum2,extra\n x%3Atok3 , sum3 \n";
    assert_eq!(
        token_list_entries(content),
        vec![
            ("tok1".to_string(), "sum1".to_string()),
            ("tok3 ".to_string(), " sum3".to_string()),
        ]
    );
}
