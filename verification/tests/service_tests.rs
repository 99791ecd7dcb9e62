use cursor_api::api::service::{book_request, LogStatus, RequestBook, RequestEvent};
use cursor_api::api::constant::Models;
use cursor_api::api::service::{check_chat_request, raw_models_response, thinking_model_name};
use cursor_api::common::model::error::ChatError;

#[test]
fn chat_request_checks() {
    let m = Models::new();
    let e = check_chat_request("gpt-4o-online", 2, &m, false).unwrap();
    assert_eq!(e.id, "gpt-4o");
    assert!(e.web);
    match check_chat_request("unknown-model", 2, &m, false) {
        Err(ChatError::ModelNotSupported(name)) => assert_eq!(name, "unknown-model"),
        _ => panic!("expected an unsupported model"),
    }
    assert!(matches!(check_chat_request("unknown-model", 0, &m, false), Err(ChatError::ModelNotSupported(_))));
    assert!(matches!(check_chat_request("gpt-4o", 0, &m, false), Err(ChatError::EmptyMessages)));
}

#[test]
fn thinking_suffix() {
    assert_eq!(thinking_model_name("some-model".to_string(), true), "some-model-thinking");
    assert_eq!(thinking_model_name("some-model".to_string(), false), "some-model");
}

#[test]
fn raw_models_before_any_fetch() {
    let m = Models::new();
    let e = match raw_models_response(&m) {
        Err(e) => e,
        Ok(_) => panic!("expected an error"),
    };
    assert_eq!(e.code, Some(404));
    assert_eq!(e.error.as_deref(), Some("Models data not available"));
    assert_eq!(e.message.as_deref(), Some("Please request /v1/models first to initialize models data"));
}

#[test]
fn request_bookkeeping() {
    let b = RequestBook { total: 4, active: 1, errors: 0, status: LogStatus::Success };
    let b1 = book_request(b, RequestEvent::Begin);
    assert_eq!(b1, RequestBook { total: 5, active: 2, errors: 0, status: LogStatus::Pending });
    let b2 = book_request(b1, RequestEvent::Sent);
    assert_eq!(b2, RequestBook { total: 5, active: 1, errors: 0, status: LogStatus::Success });
    let b3 = book_request(b2, RequestEvent::EmptyAnswer);
    assert_eq!(b3, RequestBook { total: 5, active: 1, errors: 1, status: LogStatus::Failure });
    let f = book_request(b1, RequestEvent::SendFailed);
    assert_eq!(f, RequestBook { total: 5, active: 1, errors: 1, status: LogStatus::Failure });
}
