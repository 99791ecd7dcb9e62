use cursor_api::api::model::anthropic::{
    anthropic_role, i32_is_zero, ErrorDetail as AnthropicErrorDetail, MediaType, MessageDeltaUsage,
    RawMessageStreamEvent,
};
use cursor_api::api::model::openai::{ImageUrl, MessageContentObject, PromptTokensDetails};
use cursor_api::api::model::{MessageId, Role};
use std::borrow::Cow;

#[test]
fn roles_and_aliases() {
    assert_eq!(Role::from_name("developer"), Some(Role::System));
    assert_eq!(Role::from_name("human"), Some(Role::User));
    assert_eq!(Role::from_name("ai"), Some(Role::Assistant));
    assert_eq!(Role::from_name("tool"), None);
    assert_eq!(Role::Assistant.as_str(), "assistant");
    assert_eq!(anthropic_role("human"), Some(Role::User));
    assert_eq!(anthropic_role("system"), None);
}

#[test]
fn media_types() {
    assert_eq!(MediaType::from_mime("image/png"), Some(MediaType::ImagePng));
    assert_eq!(MediaType::from_mime("image/webp"), Some(MediaType::ImageWebp));
    assert_eq!(MediaType::from_mime("application/pdf"), None);
}

#[test]
fn stream_event_names() {
    assert_eq!(RawMessageStreamEvent::Ping.event_type(), "ping");
    assert_eq!(RawMessageStreamEvent::ContentBlockStop { index: 0 }.event_type(), "content_block_stop");
    let ev = RawMessageStreamEvent::MessageDelta {
        delta: cursor_api::api::model::anthropic::MessageDelta,
        usage: MessageDeltaUsage {
            input_tokens: None,
            output_tokens: 1,
            cache_creation_input_tokens: 0,
            cache_read_input_tokens: 0,
        },
    };
    assert_eq!(ev.event_type(), "message_delta");
    let err = RawMessageStreamEvent::Error {
        error: AnthropicErrorDetail { error_type: "overloaded", message: Cow::Borrowed("busy") },
    };
    assert_eq!(err.event_type(), "error");
    assert!(i32_is_zero(&0));
    assert!(!i32_is_zero(&3));
}

#[test]
fn error_wrappers() {
    let e = AnthropicErrorDetail { error_type: "x", message: Cow::Borrowed("m") }.into_anthropic();
    assert_eq!(e.0.error_type, "x");
    let o = cursor_api::api::model::openai::ErrorDetail { code: None, message: Cow::Borrowed("m") }.into_openai();
    assert_eq!(o.0.message, "m");
}

#[test]
fn openai_parts() {
    assert_eq!(MessageContentObject::Text { text: "hi".to_string() }.into_text(), Some("hi".to_string()));
    assert_eq!(MessageContentObject::ImageUrl { image_url: ImageUrl { url: "u".to_string() } }.into_text(), None);
    assert!(PromptTokensDetails { cached_tokens: 0 }.is_zero());
    assert!(!PromptTokensDetails { cached_tokens: 5 }.is_zero());
}

#[test]
fn message_ids_in_base62() {
    assert_eq!(MessageId::new(0).to_str(), "0000000000000000000000");
    assert_eq!(MessageId::new(61).to_str(), "000000000000000000000z");
    assert_eq!(MessageId::new(62).to_str(), "0000000000000000000010");
    assert_eq!(MessageId::new(u128::MAX).to_str(), "7n42DGM5Tflk9n8mt7Fhc7");
}
