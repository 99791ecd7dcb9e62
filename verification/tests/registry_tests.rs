use cursor_api::api::aiserver::v1::available_models_response::AvailableModel;
use cursor_api::api::constant::{owner_of, Models};
use cursor_api::api::model::parser::ExtModel;
use cursor_api::common::model::config::{FetchMode, UsageCheck};

fn available(name: &str) -> AvailableModel {
    AvailableModel {
        name: name.to_string(),
        default_on: true,
        is_long_context_only: None,
        is_chat_only: None,
        supports_agent: None,
        supports_thinking: Some(true),
        supports_images: Some(false),
        supports_auto_context: None,
        supports_max_mode: Some(true),
        supports_non_max_mode: Some(true),
        context_token_limit: None,
        context_token_limit_for_max_mode: None,
        client_display_name: None,
        server_model_name: None,
    }
}

fn ids(m: &Models) -> Vec<String> {
    m.models.iter().map(|x| x.id.clone()).collect()
}

#[test]
fn owners_from_upstream_ids() {
    assert_eq!(owner_of("gpt-4o"), "openai");
    assert_eq!(owner_of("gemini-2.5-pro"), "google");
    assert_eq!(owner_of("grok-4-0709"), "xai");
    assert_eq!(owner_of("o3-pro"), "openai");
    assert_eq!(owner_of("o2"), "unknown");
    assert_eq!(owner_of("cursor-small"), "cursor");
    assert_eq!(owner_of("deepseek-r1"), "deepseek");
    assert_eq!(owner_of("de"), "unknown");
    assert_eq!(owner_of("accounts/fireworks/models/kimi-k2-instruct"), "fireworks");
    assert_eq!(owner_of("accounts/short"), "unknown");
    assert_eq!(owner_of(""), "unknown");
}

#[test]
fn built_in_registry() {
    let m = Models::new();
    assert_eq!(m.models.len(), 39);
    let gpt = m.find_id("gpt-4.1").unwrap();
    assert!(gpt.is_image && gpt.is_max && gpt.is_non_max && !gpt.is_thinking);
    assert_eq!(gpt.owned_by, "openai");
    let gem = m.find_id("gemini-2.5-pro-preview-05-06").unwrap();
    assert_eq!(gem.client_id, "gemini-2.5-pro");
    assert_eq!(gem.server_id, "gemini-2.5-pro-latest");
    let pro = m.find_id("o3-pro").unwrap();
    assert!(pro.is_max && !pro.is_non_max);
    assert!(m.ids().contains(&"gpt-4.1-max-online".to_string()));
    assert!(m.ids().contains(&"gpt-4o-online".to_string()));
    assert!(!m.ids().contains(&"gpt-4o-max".to_string()));
    assert!(!m.ids().contains(&"o3-pro-max".to_string()));
    assert!(m.find_id("no-such-model").is_none());
}

#[test]
fn update_refuses_empty_list() {
    let mut m = Models::new();
    let before = ids(&m);
    assert_eq!(m.update(vec![], FetchMode::Truncate, false), Err("Models list cannot be empty"));
    assert_eq!(ids(&m), before);
}

#[test]
fn update_throttled_keeps_models() {
    let mut m = Models::new();
    let before = ids(&m);
    assert_eq!(m.update(vec![available("new-model")], FetchMode::Truncate, true), Ok(()));
    assert_eq!(ids(&m), before);
}

#[test]
fn update_truncate_replaces() {
    let mut m = Models::new();
    m.update(vec![available("gpt-4o"), available("alpha-model")], FetchMode::Truncate, false).unwrap();
    assert_eq!(ids(&m), vec!["gpt-4o".to_string(), "alpha-model".to_string()]);
    let ids_cached = m.ids().clone();
    assert!(ids_cached.contains(&"alpha-model-max-online".to_string()));
    assert!(!ids_cached.contains(&"gpt-4.1".to_string()));
    assert!(!ids_cached.contains(&"gpt-4.1-online".to_string()));
    assert_eq!(m.find_id("alpha-model").unwrap().owned_by, "unknown");
}

#[test]
fn update_append_adds_only_new() {
    let mut m = Models::new();
    let n = m.models.len();
    m.update(vec![available("gpt-4o"), available("beta-model")], FetchMode::Append, false).unwrap();
    assert_eq!(m.models.len(), n + 1);
    assert_eq!(m.models.last().unwrap().id, "beta-model");
    assert!(m.ids().contains(&"beta-model-online".to_string()));
}

#[test]
fn update_append_truncate_replaces_named() {
    let mut m = Models::new();
    let n = m.models.len();
    m.update(vec![available("gpt-4o")], FetchMode::AppendTruncate, false).unwrap();
    assert_eq!(m.models.len(), n);
    assert_eq!(m.models.last().unwrap().id, "gpt-4o");
    assert!(m.models.last().unwrap().is_thinking);
}

#[test]
fn repeated_update_changes_nothing() {
    for mode in [FetchMode::Truncate, FetchMode::Append, FetchMode::AppendTruncate] {
        let mut m = Models::new();
        let list = || vec![available("gpt-4o"), available("gamma-model")];
        m.update(list(), mode, false).unwrap();
        let once = ids(&m);
        let cached = m.ids().clone();
        m.update(list(), mode, false).unwrap();
        assert_eq!(ids(&m), once);
        assert_eq!(m.ids(), &cached);
    }
}

#[test]
fn converted_model_ids() {
    let mut a = available("mine");
    a.client_display_name = Some("Mine".to_string());
    a.server_model_name = Some("default".to_string());
    a.supports_images = None;
    let mut m = Models::new();
    m.update(vec![a], FetchMode::Truncate, false).unwrap();
    let x = m.find_id("mine").unwrap();
    assert_eq!(x.client_id, "Mine");
    assert_eq!(x.server_id, "default");
    assert!(x.is_image);
}

#[test]
fn ext_model_parsing() {
    let m = Models::new();
    let e = ExtModel::from_str("gpt-4o", &m, false).unwrap();
    assert_eq!(e.id, "gpt-4o");
    assert!(!e.web && !e.max);
    let e = ExtModel::from_str("gpt-4.1-max-online", &m, false).unwrap();
    assert_eq!(e.id, "gpt-4.1");
    assert!(e.web && e.max);
    let e = ExtModel::from_str("o3-pro", &m, false).unwrap();
    assert!(e.max);
    let e = ExtModel::from_str("grok-4", &m, false).unwrap();
    assert_eq!(e.id, "grok-4-0709");
    assert!(ExtModel::from_str("gpt-4o-max", &m, false).is_none());
    assert!(ExtModel::from_str("unknown-model", &m, false).is_none());
    let e = ExtModel::from_str("o9-lite-online", &m, true).unwrap();
    assert_eq!(e.id, "o9-lite");
    assert!(e.is_thinking && e.is_image && e.web);
    let e = ExtModel::from_str("brand-new", &m, true).unwrap();
    assert!(!e.is_thinking);
    assert!(ExtModel::from_str("-online", &m, true).is_none());
}

#[test]
fn usage_check_rules() {
    let m = Models::new();
    let free = ExtModel::from_str("cursor-small", &m, false).unwrap();
    let paid = ExtModel::from_str("gpt-4.1", &m, false).unwrap();
    assert!(!free.is_usage_check(None, UsageCheck::Default));
    assert!(paid.is_usage_check(None, UsageCheck::Default));
    assert!(!paid.is_usage_check(Some(UsageCheck::Disabled), UsageCheck::All));
    assert!(free.is_usage_check(None, UsageCheck::All));
    assert!(paid.is_usage_check(Some(UsageCheck::Custom(vec!["gpt-4.1".to_string()])), UsageCheck::Disabled));
    assert!(!free.is_usage_check(Some(UsageCheck::Custom(vec!["gpt-4.1".to_string()])), UsageCheck::All));
}

#[test]
fn update_stores_the_raw_list() {
    let mut m = Models::new();
    assert!(m.raw_list().is_none());
    assert!(m.update(vec![], FetchMode::Truncate, false).is_err());
    assert!(m.raw_list().is_none());
    m.update(vec![available("delta-model")], FetchMode::Append, true).unwrap();
    let raw = m.raw_list().unwrap();
    assert_eq!(raw.len(), 1);
    assert_eq!(raw[0].name, "delta-model");
    m.update(vec![available("gpt-4o"), available("eps-model")], FetchMode::Truncate, false).unwrap();
    assert_eq!(m.raw_list().unwrap().len(), 2);
}
