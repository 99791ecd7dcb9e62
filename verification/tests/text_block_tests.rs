use cursor_api::api::model::anthropic::{TextBlockError, TextBlockKey, TextBlockReader};

#[test]
fn text_block_keys() {
    assert_eq!(TextBlockKey::from_name("type"), TextBlockKey::Type);
    assert_eq!(TextBlockKey::from_name("text"), TextBlockKey::Text);
    assert_eq!(TextBlockKey::from_name("cache_control"), TextBlockKey::Other);
}

#[test]
fn text_block_read() {
    let mut r = TextBlockReader::new();
    assert!(r.accept_type("text".to_string()).is_ok());
    assert!(r.accept_text("hello".to_string()).is_ok());
    assert_eq!(r.finish().unwrap().text, "hello");
}

#[test]
fn text_block_refusals() {
    let mut r = TextBlockReader::new();
    match r.accept_type("image".to_string()) {
        Err(TextBlockError::WrongType(v)) => assert_eq!(v, "image"),
        other => panic!("unexpected {:?}", other),
    }
    assert!(r.accept_type("text".to_string()).is_ok());
    assert!(matches!(r.accept_type("text".to_string()), Err(TextBlockError::DuplicateType)));
    assert!(matches!(TextBlockReader::new().finish(), Err(TextBlockError::MissingText)));
    let mut r = TextBlockReader::new();
    assert!(r.accept_text("a".to_string()).is_ok());
    assert!(matches!(r.accept_text("b".to_string()), Err(TextBlockError::DuplicateText)));
    assert_eq!(r.finish().unwrap().text, "a");
}
