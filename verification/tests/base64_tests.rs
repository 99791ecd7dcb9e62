use cursor_api::common::utils::base64::{from_base64, to_base64};

#[test]
fn test_empty() {
    assert_eq!(to_base64(b""), "");
    assert_eq!(from_base64("").unwrap(), b"");
}

#[test]
fn test_basic() {
    let test_cases = [
        (b"f" as &[u8], "Zg"),
        (b"fo", "Zm8"),
        (b"foo", "Zm9v"),
        (b"foob", "Zm9vYg"),
        (b"fooba", "Zm9vYmE"),
        (b"foobar", "Zm9vYmFy"),
    ];

    for (input, expected) in test_cases {
        let encoded = to_base64(input);
        assert_eq!(encoded, expected);
        assert_eq!(from_base64(&encoded).unwrap(), input);
    }
}

#[test]
fn test_invalid_input() {
    assert!(from_base64("!@#$").is_none());
    assert!(from_base64("ABC").is_none());
    assert!(from_base64("测试").is_none());
}

#[test]
fn base64_doc_example_round_trips() {
    assert_eq!(to_base64(b"Hello"), "SGVsbG8");
    assert_eq!(from_base64("SGVsbG8").unwrap(), b"Hello");
    assert!(from_base64("Invalid@Base64").is_none());
    let data = b"Hello, World!";
    assert_eq!(from_base64(&to_base64(data)).unwrap(), data);
}

#[test]
fn base64_url_safe_characters() {
    assert_eq!(to_base64(&[0xfb, 0xff]), "-_8");
    assert_eq!(from_base64("-_8").unwrap(), vec![0xfb, 0xff]);
    assert!(from_base64("AAAAA").is_none());
}
