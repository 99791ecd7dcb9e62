//! Service settings as the configuration endpoint shows and changes them.
use std::borrow::Cow;
use vstd::prelude::*;

use super::ApiStatus;

verus! {

/// Which images a request may carry.
#[derive(Clone, Copy, Debug, PartialEq, Eq, Structural)]
pub enum VisionAbility {
    /// No images.
    Disabled,
    /// Only images sent inline as Base64.
    Base64,
    /// Inline images and images behind a URL.
    All,
}

impl VisionAbility {
    /// Whether images are refused.
    pub fn is_disabled(&self) -> (r: bool)
        ensures
            r == (*self == VisionAbility::Disabled),
    {
        match self {
            VisionAbility::Disabled => true,
            _ => false,
        }
    }
}

/// Which models a request's usage is checked for.
pub enum UsageCheck {
    /// No model.
    Disabled,
    /// Every model that is not free.
    Default,
    /// Every model.
    All,
    /// The listed models.
    Custom(Vec<String>),
}

/// How a fetched model list is merged into the known one.
#[derive(Clone, Copy, Debug, PartialEq, Eq, Structural)]
pub enum FetchMode {
    /// The fetched list replaces the known one.
    Truncate,
    /// Known models that the fetched list names again are replaced, the rest kept.
    AppendTruncate,
    /// Only models that are not known yet are added.
    Append,
}

/// The content of a served page.
pub enum PageContent {
    Default,
    Text(String),
    Html(String),
}

/// The settings as the configuration endpoint shows them.
pub struct ConfigData {
    pub content: Option<PageContent>,
    pub vision_ability: VisionAbility,
    pub enable_slow_pool: bool,
    pub enable_long_context: bool,
    pub usage_check_models: UsageCheck,
    pub enable_dynamic_key: bool,
    pub share_token: String,
    pub include_web_references: bool,
    pub fetch_raw_models: FetchMode,
}

/// A request to read, change or reset the settings.
pub struct ConfigUpdateRequest {
    /// `get`, `update` or `reset`.
    pub action: String,
    pub path: String,
    pub content: Option<PageContent>,
    pub vision_ability: Option<VisionAbility>,
    pub enable_slow_pool: Option<bool>,
    pub enable_long_context: Option<bool>,
    pub usage_check_models: Option<UsageCheck>,
    pub enable_dynamic_key: Option<bool>,
    pub share_token: Option<String>,
    pub include_web_references: Option<bool>,
    pub fetch_raw_models: Option<FetchMode>,
}

/// The answer of the configuration endpoint.
pub struct ConfigResponse {
    pub status: ApiStatus,
    pub data: Option<ConfigData>,
    pub message: Option<Cow<'static, str>>,
}

} // verus!
