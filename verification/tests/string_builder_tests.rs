use cursor_api::common::utils::string_builder::StringBuilder;
use std::borrow::Cow;

#[test]
fn test_basic_builder_borrowed_only() {
    let builder = StringBuilder::with_capacity(3).append("Hello").append(", ").append("world!");
    assert!(builder.is_borrowed_state());
    assert_eq!(builder.build(), "Hello, world!");
}

#[test]
fn test_builder_with_string_ref() {
    let owned = String::from("owned");
    let builder = StringBuilder::with_capacity(3).append("prefix: ").append(&owned).append(" suffix");
    assert!(builder.is_borrowed_state());
    assert_eq!(builder.build(), "prefix: owned suffix");
}

#[test]
fn test_mixed_types_transition() {
    let literal = "world";
    let owned = String::from("!");
    let borrowed_owned = String::from(", ");
    let cow: Cow<'_, str> = Cow::Borrowed("Hello");
    let cow_owned: Cow<'_, str> = Cow::Owned(String::from(" start"));

    let builder = StringBuilder::with_capacity(5).append(cow).append(&borrowed_owned).append(literal);
    assert!(builder.is_borrowed_state());

    let builder = builder.append(owned);
    assert!(builder.is_mixed_state());

    let builder = builder.append(cow_owned);
    assert!(builder.is_mixed_state());

    assert_eq!(builder.build(), "Hello, world! start");
}

#[test]
fn test_format() {
    let builder = StringBuilder::with_capacity(3).append("The answer is ").append(42.to_string()).append(".");
    assert!(builder.is_mixed_state());
    assert_eq!(builder.build(), "The answer is 42.");
}

#[test]
fn test_mutable_append() {
    let mut builder = StringBuilder::with_capacity(4);
    builder.append_mut("Start: ");
    assert!(builder.is_borrowed_state());
    for i in 0..3 {
        builder.append_mut(format!("{i} "));
    }
    assert!(builder.is_mixed_state());
    builder.append_mut("done");
    assert!(builder.is_mixed_state());
    assert_eq!(builder.build(), "Start: 0 1 2 done");
}

#[test]
fn test_clone_functionality() {
    let builder1 = StringBuilder::with_capacity(2).append("Hello").append(" World");
    assert!(builder1.is_borrowed_state());

    let builder2 = builder1.clone();
    assert!(builder2.is_borrowed_state());

    assert_eq!(builder1.build(), "Hello World");
    assert_eq!(builder2.build(), "Hello World");
}

#[test]
fn test_clone_mixed_state() {
    let builder1 = StringBuilder::with_capacity(3).append("Hello").append(String::from(" World")).append("!");
    assert!(builder1.is_mixed_state());

    let builder2 = builder1.clone();
    assert!(builder2.is_mixed_state());

    assert_eq!(builder1.build(), "Hello World!");
    assert_eq!(builder2.build(), "Hello World!");
}

#[test]
fn test_maybe_uninit_state_transition() {
    let mut builder = StringBuilder::with_capacity(3);
    assert!(builder.is_borrowed_state());

    builder.append_mut("Hello");
    builder.append_mut(" ");
    assert!(builder.is_borrowed_state());

    builder.append_mut(String::from("World"));
    assert!(builder.is_mixed_state());

    builder.append_mut("!");
    assert!(builder.is_mixed_state());

    assert_eq!(builder.build(), "Hello World!");
}

#[test]
fn test_empty_builder_safety() {
    let empty_builder = StringBuilder::with_capacity(0);
    assert!(empty_builder.is_borrowed_state());
    assert!(empty_builder.is_empty());

    let cloned_empty = empty_builder.clone();
    assert!(cloned_empty.is_borrowed_state());
    assert!(cloned_empty.is_empty());

    assert_eq!(empty_builder.build(), "");
    assert_eq!(cloned_empty.build(), "");
}
