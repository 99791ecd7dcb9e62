use cursor_api::common::model::userinfo::{MembershipType, PaymentId, SubscriptionStatus};
use cursor_api::common::utils::checksum::{extract_time_ks, validate_checksum};
use cursor_api::common::utils::hex::hex_to_byte;

#[test]
fn membership_names() {
    for m in [
        MembershipType::Free,
        MembershipType::FreeTrial,
        MembershipType::Pro,
        MembershipType::ProPlus,
        MembershipType::Ultra,
        MembershipType::Enterprise,
    ] {
        assert_eq!(MembershipType::from_str(m.as_str()), Some(m));
    }
    assert_eq!(MembershipType::from_str("gold"), None);
}

#[test]
fn subscription_names() {
    assert_eq!(SubscriptionStatus::from_str(SubscriptionStatus::Active.as_str()), Some(SubscriptionStatus::Active));
    assert_eq!(SubscriptionStatus::from_str("bogus"), None);
}

#[test]
fn payment_ids() {
    let id = PaymentId::new("cus_ABCDEFGHIJ1234").unwrap();
    assert_eq!(id.as_str(), "ABCDEFGHIJ1234");
    assert_eq!(id.to_string(), "cus_ABCDEFGHIJ1234");
    assert!(PaymentId::new("cus_short").is_none());
    assert!(PaymentId::new("abc_ABCDEFGHIJ1234").is_none());
    assert!(PaymentId::new("cus_ABCDEFGHIJ12-4").is_none());
}

#[test]
fn hex_digits() {
    assert_eq!(hex_to_byte(b'f', b'F'), Some(0xff));
    assert_eq!(hex_to_byte(b'0', b'a'), Some(0x0a));
    assert_eq!(hex_to_byte(b'g', b'0'), None);
}

#[test]
fn checksums() {
    assert!(!validate_checksum("short"));
    let bad = "!".repeat(72);
    assert!(!validate_checksum(&bad));
    assert_eq!(extract_time_ks("!!!!!!!!"), None);
}

#[test]
fn checksum_with_a_readable_timestamp() {
    assert_eq!(extract_time_ks("84ygl8XC"), Some(0x1234_5678));
    let good = format!("84ygl8XC{}", "0123456789abcdef".repeat(4));
    assert_eq!(good.len(), 72);
    assert!(validate_checksum(&good));
    let long = format!("84ygl8XC{}/{}", "a".repeat(64), "B".repeat(64));
    assert_eq!(long.len(), 137);
    assert!(validate_checksum(&long));
    let slash_misplaced = format!("84ygl8XC{}/{}", "a".repeat(63), "B".repeat(65));
    assert!(!validate_checksum(&slash_misplaced));
}
