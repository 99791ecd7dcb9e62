use cursor_api::api::aiserver::v1::error_details::Error;
use cursor_api::api::aiserver::v1::{CustomErrorDetails, ErrorDetails};
use cursor_api::api::error::{CanonicalError, CursorError, StreamError};
use cursor_api::common::model::error::ChatError;
use cursor_api::common::model::ApiStatus;

fn details(title: &str, detail: &str, info: &[(&str, &str)]) -> CustomErrorDetails {
    CustomErrorDetails {
        title: title.to_string(),
        detail: detail.to_string(),
        additional_info: info.iter().map(|(k, v)| (k.to_string(), v.to_string())).collect(),
    }
}

#[test]
fn error_kind_numbers_round_trip() {
    assert_eq!(Error::from_i32(42), Some(Error::BadUserApiKey));
    assert_eq!(Error::from_i32(51), Some(Error::RateLimitedChangeable));
    assert_eq!(Error::from_i32(52), None);
    assert_eq!(Error::from_i32(-1), None);
    assert_eq!(Error::BadRequest.as_i32(), 36);
    for v in 0..52 {
        assert_eq!(Error::from_i32(v).unwrap().as_i32(), v);
    }
}

#[test]
fn error_status_codes() {
    assert_eq!(ErrorDetails::status_code(36), 400);
    assert_eq!(ErrorDetails::status_code(1), 401);
    assert_eq!(ErrorDetails::status_code(44), 402);
    assert_eq!(ErrorDetails::status_code(2), 403);
    assert_eq!(ErrorDetails::status_code(39), 404);
    assert_eq!(ErrorDetails::status_code(49), 409);
    assert_eq!(ErrorDetails::status_code(40), 410);
    assert_eq!(ErrorDetails::status_code(24), 422);
    assert_eq!(ErrorDetails::status_code(50), 429);
    assert_eq!(ErrorDetails::status_code(21), 499);
    assert_eq!(ErrorDetails::status_code(20), 503);
    assert_eq!(ErrorDetails::status_code(25), 504);
    assert_eq!(ErrorDetails::status_code(0), 533);
    assert_eq!(ErrorDetails::status_code(1000), 500);
}

#[test]
fn error_type_names() {
    assert_eq!(ErrorDetails::error_type(1), "bad_api_key");
    assert_eq!(ErrorDetails::error_type(37), "repository_service_repository_is_not_initialized");
    assert_eq!(ErrorDetails::error_type(28), "gpt4_vision_preview_rate_limit");
    assert_eq!(ErrorDetails::error_type(999), "unknown");
}

#[test]
fn custom_details_merge() {
    let mut a = details("A", "first", &[("k", "1"), ("x", "keep")]);
    let b = details("B", "second", &[("k", "2"), ("y", "new")]);
    a.add(b);
    assert_eq!(a.title, "A&B");
    assert_eq!(a.detail, "first&second");
    let mut info = a.additional_info.clone();
    info.sort();
    assert_eq!(
        info,
        vec![
            ("k".to_string(), "2".to_string()),
            ("x".to_string(), "keep".to_string()),
            ("y".to_string(), "new".to_string())
        ]
    );
}

#[test]
fn canonical_error_basics() {
    let e = CanonicalError::from_details(ErrorDetails { error: 12, details: None, is_expected: None });
    assert_eq!(e.status_code, 401);
    assert_eq!(e.error_type, "auth_token_expired");
    assert!(e.code.is_none());
    let e = e.with_code("resource_exhausted".to_string());
    assert_eq!(e.title().unwrap(), "resource exhausted");
    assert!(e.detail().is_none());

    let u = CanonicalError::unknown();
    assert_eq!(u.status_code, 500);
    assert_eq!(u.error_type, "unknown");

    let d = CanonicalError::from_details(ErrorDetails {
        error: 36,
        details: Some(details("Title", "Detail", &[])),
        is_expected: Some(true),
    });
    assert_eq!(d.title().unwrap(), "Title");
    assert_eq!(d.detail().unwrap(), "Detail");
}

#[test]
fn canonical_error_sum() {
    let a = CanonicalError {
        code: Some("a".to_string()),
        details: Some(details("T1", "D1", &[])),
        status_code: 429,
        error_type: "rate_limited",
    };
    let b = CanonicalError { code: None, details: None, status_code: 503, error_type: "max_tokens" };
    let c = CanonicalError {
        code: Some("c".to_string()),
        details: Some(details("T3", "D3", &[])),
        status_code: 503,
        error_type: "timeout",
    };
    let s = CanonicalError::sum(vec![a, b, c]);
    assert_eq!(s.code.as_deref(), Some("ac"));
    assert_eq!(s.status_code, 503);
    assert_eq!(s.error_type, "max_tokens");
    let d = s.details.unwrap();
    assert_eq!(d.title, "T1&T3");
    assert_eq!(d.detail, "D1&D3");

    let empty = CanonicalError::sum(vec![]);
    assert_eq!(empty.status_code, 0);
    assert_eq!(empty.error_type, "unknown");
    assert!(empty.code.is_none() && empty.details.is_none());
}

#[test]
fn cursor_error_canonical() {
    let none = CursorError { code: "internal".to_string(), details: vec![] }.canonical();
    assert_eq!(none.status_code, 500);
    assert_eq!(none.code.as_deref(), Some("internal"));

    let one = CursorError {
        code: "resource_exhausted".to_string(),
        details: vec![ErrorDetails { error: 41, details: None, is_expected: None }],
    }
    .canonical();
    assert_eq!(one.status_code, 503);
    assert_eq!(one.error_type, "resource_exhausted");

    let two = CursorError {
        code: "mixed".to_string(),
        details: vec![
            ErrorDetails { error: 36, details: None, is_expected: None },
            ErrorDetails { error: 50, details: None, is_expected: None },
        ],
    }
    .canonical();
    assert_eq!(two.status_code, 429);
    assert_eq!(two.error_type, "rate_limited");
    assert_eq!(two.code.as_deref(), Some("mixed"));
}

#[test]
fn stream_error_text() {
    assert_eq!(StreamError::DataLengthLessThan5.to_string(), "data length less than 5");
    assert_eq!(StreamError::EmptyStream.to_string(), "empty stream");
    let up = StreamError::Upstream(CursorError { code: "unauthenticated".to_string(), details: vec![] });
    assert_eq!(up.to_string(), "unauthenticated");
}

#[test]
fn chat_error_json() {
    let e = ChatError::ModelNotSupported("foo".to_string()).to_json();
    assert!(matches!(e.status, ApiStatus::Error));
    assert!(e.code.is_none());
    assert_eq!(e.error.as_deref(), Some("model_not_supported"));
    assert_eq!(e.message.as_deref(), Some("Model 'foo' is not supported"));
    let e = ChatError::RequestFailed("boom".to_string()).to_json();
    assert_eq!(e.message.as_deref(), Some("Request failed: boom"));
    assert_eq!(ChatError::EmptyMessages.to_json().error.as_deref(), Some("empty_messages"));
    assert_eq!(ChatError::NoTokens.to_json().message.as_deref(), Some("No available tokens"));
    assert_eq!(ChatError::Unauthorized.to_json().error.as_deref(), Some("unauthorized"));
}

#[test]
fn error_detail_values_decode() {
    use_detail_bytes();
}

fn use_detail_bytes() {
    assert_eq!(cursor_api::api::error::cursor::error_detail_bytes("CAE").unwrap(), vec![8, 1]);
    assert_eq!(cursor_api::api::error::cursor::error_detail_bytes("").unwrap(), Vec::<u8>::new());
    let e = cursor_api::api::error::cursor::error_detail_bytes("CAE=").unwrap_err();
    assert!(e.starts_with("invalid Base64 string: "));
    assert!(cursor_api::api::error::cursor::error_detail_bytes("C-E").is_err());
}
