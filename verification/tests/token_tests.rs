use cursor_api::api::config::{parse_dynamic_token, KeyConfig, RawToken, Subject, Token, TokenDuration, UsageCheckModel};
use cursor_api::common::model::token::{
    StringI64, TokenEntry, TokenField, TokenPayloadError, TokenPayloadReader,
};
use cursor_api::common::utils::base64::to_base64;

#[test]
fn string_i64_text() {
    assert_eq!(StringI64::parse("42").unwrap().0, 42);
    assert_eq!(StringI64::parse("+7").unwrap().0, 7);
    assert_eq!(StringI64::parse("-9223372036854775808").unwrap().0, i64::MIN);
    assert!(StringI64::parse("9223372036854775808").is_none());
    assert!(StringI64::parse("").is_none());
    assert!(StringI64::parse("-").is_none());
    assert!(StringI64::parse("12a").is_none());
    for v in [0i64, 5, -5, 1734915448, i64::MAX, i64::MIN] {
        assert_eq!(StringI64::parse(&StringI64(v).to_string()).unwrap().0, v);
    }
    assert_eq!(StringI64(-120).to_string(), "-120");
}

fn full_reader() -> TokenPayloadReader {
    let mut r = TokenPayloadReader::new();
    r.accept(TokenEntry::Sub("auth0|user_1".to_string())).unwrap();
    r.accept(TokenEntry::Time(StringI64(100))).unwrap();
    r.accept(TokenEntry::Randomness("abc".to_string())).unwrap();
    r.accept(TokenEntry::Exp(200)).unwrap();
    r.accept(TokenEntry::Iss("https://authentication.cursor.sh".to_string())).unwrap();
    r.accept(TokenEntry::Scope("openid profile email offline_access".to_string())).unwrap();
    r.accept(TokenEntry::Aud("https://cursor.com".to_string())).unwrap();
    r
}

#[test]
fn token_payload_reading() {
    let mut r = full_reader();
    r.accept(TokenEntry::Type("session".to_string())).unwrap();
    let p = r.finish().unwrap();
    assert_eq!(p.sub, "auth0|user_1");
    assert_eq!(p.time.0, 100);
    assert_eq!(p.exp, 200);
    assert!(p.is_session);

    let mut r = full_reader();
    assert!(matches!(r.accept(TokenEntry::Exp(1)), Err(TokenPayloadError::DuplicateField(TokenField::Exp))));
    assert!(matches!(r.accept(TokenEntry::Type("other".to_string())), Err(TokenPayloadError::InvalidType)));
    r.accept(TokenEntry::Type("web".to_string())).unwrap();
    assert!(!r.finish().unwrap().is_session);

    let mut r = TokenPayloadReader::new();
    assert!(matches!(r.accept(TokenEntry::Iss("x".to_string())), Err(TokenPayloadError::InvalidIssuer)));
    assert!(matches!(r.accept(TokenEntry::Scope("x".to_string())), Err(TokenPayloadError::InvalidScope)));
    assert!(matches!(r.accept(TokenEntry::Aud("x".to_string())), Err(TokenPayloadError::InvalidAudience)));
    assert!(matches!(r.finish(), Err(TokenPayloadError::MissingField(TokenField::Sub))));

    let r = full_reader();
    assert!(matches!(r.finish(), Err(TokenPayloadError::MissingField(TokenField::Type))));
    assert_eq!(TokenField::from_name("aud"), Some(TokenField::Aud));
    assert_eq!(TokenField::from_name("nbf"), None);
    assert!(full_reader().check_field(TokenField::Sub).is_err());
    assert!(full_reader().check_field(TokenField::Type).is_ok());
}

#[test]
fn stored_tokens() {
    let raw = RawToken {
        subject: Subject { provider: "auth0".to_string(), id: [7u8; 16] },
        randomness: [1u8; 8],
        signature: [9u8; 32],
        duration: TokenDuration { start: 10, end: 20 },
        is_session: true,
    };
    let t = Token::from_raw(raw);
    assert_eq!(t.sub_id, vec![7u8; 16]);
    let back = t.into_raw().unwrap();
    assert_eq!(back.subject.id, [7u8; 16]);
    assert_eq!(back.signature, [9u8; 32]);
    assert_eq!(back.duration.end, 20);

    let bad = Token {
        provider: "x".to_string(),
        sub_id: vec![0; 15],
        randomness: vec![0; 8],
        start: 0,
        end: 0,
        signature: vec![0; 32],
        is_session: false,
    };
    assert!(bad.into_raw().is_none());
}

#[test]
fn key_configs() {
    let global = KeyConfig::new_with_global(true, false, true);
    assert_eq!(global.disable_vision, Some(true));
    assert_eq!(global.enable_slow_pool, Some(false));
    assert_eq!(global.include_web_references, Some(true));
    assert!(global.token_info.is_none() && global.usage_check_models.is_none());

    let from = KeyConfig {
        token_info: None,
        secret: None,
        disable_vision: None,
        enable_slow_pool: Some(true),
        include_web_references: None,
        usage_check_models: Some(UsageCheckModel { check_type: 3, model_ids: vec!["m".to_string()] }),
    };
    let mut into = KeyConfig::new_with_global(true, false, true);
    from.copy_without_auth_token(&mut into);
    assert_eq!(into.disable_vision, Some(true));
    assert_eq!(into.enable_slow_pool, Some(true));
    assert_eq!(into.include_web_references, Some(true));
    assert_eq!(into.usage_check_models.unwrap().model_ids, vec!["m".to_string()]);
}

#[test]
fn dynamic_keys() {
    let key = format!("sk-{}", to_base64(b"config"));
    assert_eq!(parse_dynamic_token(&key, "sk-").unwrap(), b"config");
    assert!(parse_dynamic_token("xx-abc", "sk-").is_none());
    assert!(parse_dynamic_token("sk-!!!!", "sk-").is_none());
}
