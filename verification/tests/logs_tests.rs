use cursor_api::api::route::logs::{filter_logs, logs_precheck, page_indices, LogQuery, LogRecord, LogsPrecheck};
use cursor_api::common::model::userinfo::MembershipType;

#[test]
fn page_in_log_order() {
    assert_eq!(page_indices(5, false, None, None), vec![0, 1, 2, 3, 4]);
    assert_eq!(page_indices(5, false, Some(1), Some(2)), vec![1, 2]);
    assert_eq!(page_indices(5, false, Some(4), Some(10)), vec![4]);
    assert_eq!(page_indices(5, false, Some(9), None), Vec::<usize>::new());
}

#[test]
fn page_newest_first() {
    assert_eq!(page_indices(5, true, None, None), vec![4, 3, 2, 1, 0]);
    assert_eq!(page_indices(5, true, Some(1), Some(2)), vec![3, 2]);
    assert_eq!(page_indices(0, true, None, Some(3)), Vec::<usize>::new());
}

fn record(ts: i64, key: u128, model: &str, error: Option<&str>, tokens: Option<i64>) -> LogRecord {
    LogRecord {
        timestamp: ts,
        token_key: key,
        user_id: key * 10,
        email: Some(format!("user{key}@example.com")),
        membership: if key == 1 { Some(MembershipType::Pro) } else { None },
        status: if error.is_some() { "failure".to_string() } else { "success".to_string() },
        model: model.to_string(),
        stream: ts % 2 == 0,
        has_chain: tokens.is_some(),
        error: error.map(str::to_string),
        tokens,
    }
}

fn no_filter() -> LogQuery {
    LogQuery {
        from_date: None,
        to_date: None,
        user_id: None,
        email: None,
        membership: None,
        status: None,
        model: None,
        include_models: None,
        exclude_models: None,
        stream: None,
        has_chain: None,
        has_error: None,
        error: None,
        min_tokens: None,
        max_tokens: None,
    }
}

fn logs() -> Vec<LogRecord> {
    vec![
        record(10, 1, "gpt-4o", None, Some(100)),
        record(20, 2, "gpt-4.1", Some("timeout upstream"), None),
        record(30, 1, "o3-pro", None, Some(5)),
        record(40, 3, "gpt-4o-mini", None, None),
    ]
}

#[test]
fn filters_scope_and_ranges() {
    let l = logs();
    assert_eq!(filter_logs(&l, &no_filter(), None), vec![0, 1, 2, 3]);
    assert_eq!(filter_logs(&l, &no_filter(), Some(1)), vec![0, 2]);
    let q = LogQuery { from_date: Some(20), to_date: Some(30), ..no_filter() };
    assert_eq!(filter_logs(&l, &q, None), vec![1, 2]);
    let q = LogQuery { model: Some("gpt-4o".to_string()), ..no_filter() };
    assert_eq!(filter_logs(&l, &q, None), vec![0, 3]);
    let q = LogQuery { include_models: Some(vec!["gpt-4o".to_string(), "o3-pro".to_string()]), ..no_filter() };
    assert_eq!(filter_logs(&l, &q, None), vec![0, 2]);
    let q = LogQuery { exclude_models: Some(vec!["gpt-4o".to_string()]), ..no_filter() };
    assert_eq!(filter_logs(&l, &q, None), vec![1, 2, 3]);
}

#[test]
fn filters_on_errors_tokens_and_accounts() {
    let l = logs();
    let q = LogQuery { has_error: Some(true), ..no_filter() };
    assert_eq!(filter_logs(&l, &q, None), vec![1]);
    let q = LogQuery { error: Some("upstream".to_string()), ..no_filter() };
    assert_eq!(filter_logs(&l, &q, None), vec![1]);
    let q = LogQuery { min_tokens: Some(10), ..no_filter() };
    assert_eq!(filter_logs(&l, &q, None), vec![0]);
    let q = LogQuery { max_tokens: Some(10), ..no_filter() };
    assert_eq!(filter_logs(&l, &q, None), vec![2]);
    let q = LogQuery { membership: Some(MembershipType::Pro), status: Some("success".to_string()), ..no_filter() };
    assert_eq!(filter_logs(&l, &q, None), vec![0, 2]);
    let q = LogQuery { user_id: Some(30), email: Some("user3@".to_string()), stream: Some(true), ..no_filter() };
    assert_eq!(filter_logs(&l, &q, None), vec![3]);
    let q = LogQuery { has_chain: Some(false), ..no_filter() };
    assert_eq!(filter_logs(&l, &q, None), vec![1, 3]);
}

#[test]
fn log_query_early_answers() {
    assert_eq!(logs_precheck(Some("bogus"), false, Some("pro"), None, true), LogsPrecheck::Empty);
    assert_eq!(logs_precheck(None, true, Some("gold"), None, true), LogsPrecheck::Empty);
    assert_eq!(logs_precheck(None, true, None, Some("x"), false), LogsPrecheck::BadRequest);
    assert_eq!(logs_precheck(None, true, Some("gold"), Some("x"), false), LogsPrecheck::Empty);
    assert_eq!(logs_precheck(Some("success"), true, Some("pro"), None, false), LogsPrecheck::Proceed(Some(MembershipType::Pro)));
    assert_eq!(logs_precheck(None, false, None, None, false), LogsPrecheck::Proceed(None));
}
