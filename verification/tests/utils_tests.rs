use cursor_api::api::aiserver::v1::GetFilteredUsageEventsRequest;
use cursor_api::common::utils::FilteredUsageArgs;
use cursor_api::common::client::format_workos_cursor_session_token;
use cursor_api::common::utils::base64::from_base64;
use cursor_api::common::utils::{
    encode_message, generate_pkce_pair, parse_bool_value, parse_string_value, EncodeError, TrimNewlines,
};
use sha2::Digest;

#[test]
fn session_cookie() {
    assert_eq!(format_workos_cursor_session_token("user_1", "tok"), "WorkosCursorSessionToken=user_1%3A%3Atok");
}

#[test]
fn framing() {
    assert_eq!(encode_message(vec![1, 2, 3], false), Ok(vec![1, 2, 3]));
    assert_eq!(encode_message(vec![1, 2, 3], true), Ok(vec![0, 0, 0, 0, 3, 1, 2, 3]));
    let big = vec![b'a'; 4096];
    let framed = encode_message(big.clone(), true).unwrap();
    assert_eq!(framed[0], 1);
    let len = u32::from_be_bytes([framed[1], framed[2], framed[3], framed[4]]) as usize;
    assert_eq!(len, framed.len() - 5);
    assert!(len < big.len());
    let noise: Vec<u8> = (0..2048u32).map(|i| (i.wrapping_mul(2654435761) >> 13) as u8).collect();
    let framed = encode_message(noise.clone(), true);
    match framed {
        Ok(f) => {
            if f[0] == 0 {
                assert_eq!(&f[5..], &noise[..]);
            }
        },
        Err(e) => assert_eq!(e, EncodeError::Compression),
    }
}

#[test]
fn leading_newlines() {
    assert_eq!("\n\nabc".trim_leading_newlines(), "abc");
    assert_eq!("\nabc".trim_leading_newlines(), "\nabc");
    assert_eq!(String::from("\n\n\nx").trim_leading_newlines(), "\nx");
}

#[test]
fn settings_from_values() {
    assert!(parse_bool_value(Some(" TRUE ".to_string()), false));
    assert!(parse_bool_value(Some("1".to_string()), false));
    assert!(!parse_bool_value(Some("False".to_string()), true));
    assert!(parse_bool_value(Some("maybe".to_string()), true));
    assert!(!parse_bool_value(None, false));
    assert_eq!(parse_string_value(Some("  v  ".to_string()), "d"), "v");
    assert_eq!(parse_string_value(Some("   ".to_string()), "d"), "d");
    assert_eq!(parse_string_value(None, "d"), "d");
}

#[test]
fn pkce_pairs() {
    let (verifier, challenge) = generate_pkce_pair().unwrap();
    assert_eq!(verifier.len(), 43);
    assert_eq!(challenge.len(), 43);
    assert_eq!(from_base64(&verifier).unwrap().len(), 32);
    let digest = sha2::Sha256::digest(verifier.as_bytes());
    assert_eq!(from_base64(&challenge).unwrap(), digest.to_vec());
}

#[test]
fn usage_query_default_period() {
    let args = FilteredUsageArgs { start: None, end: None, model_id: Some("m"), size: None };
    let r = GetFilteredUsageEventsRequest::from_args(args, 1_700_000_000);
    assert_eq!(r.team_id, 0);
    assert_eq!(r.start_date, Some(1_699_372_800_000));
    assert_eq!(r.end_date, Some(1_700_063_999_999));
    assert_eq!(r.user_id, None);
    assert_eq!(r.model_id.as_deref(), Some("m"));
    assert_eq!(r.page, Some(1));
    assert_eq!(r.page_size, Some(100));
}

#[test]
fn usage_query_given_bounds_and_early_clock() {
    let args = FilteredUsageArgs { start: Some(5), end: None, model_id: None, size: Some(10) };
    let r = GetFilteredUsageEventsRequest::from_args(args, 0);
    assert_eq!(r.start_date, Some(5));
    assert_eq!(r.end_date, Some(-28_800_000 + 86_399_999));
    assert_eq!(r.model_id, None);
    assert_eq!(r.page_size, Some(10));
    let args = FilteredUsageArgs { start: None, end: Some(7), model_id: None, size: None };
    let r = GetFilteredUsageEventsRequest::from_args(args, 0);
    assert_eq!(r.start_date, Some(-28_800_000 - 604_800_000));
    assert_eq!(r.end_date, Some(7));
}
