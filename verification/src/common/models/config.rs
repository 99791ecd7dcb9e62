//! The earlier form of the settings shown by the configuration endpoint.
use vstd::prelude::*;

use crate::common::model::config::{PageContent, UsageCheck, VisionAbility};

verus! {

/// The settings as the configuration endpoint shows them.
pub struct ConfigData {
    pub page_content: Option<PageContent>,
    pub enable_stream_check: bool,
    pub include_stop_stream: bool,
    pub vision_ability: VisionAbility,
    pub enable_slow_pool: bool,
    pub enable_all_claude: bool,
    pub check_usage_models: UsageCheck,
}

/// A request to read, change or reset the settings.
pub struct ConfigUpdateRequest {
    /// `get`, `update` or `reset`.
    pub action: String,
    pub path: String,
    pub content: Option<PageContent>,
    pub enable_stream_check: Option<bool>,
    pub include_stop_stream: Option<bool>,
    pub vision_ability: Option<VisionAbility>,
    pub enable_slow_pool: Option<bool>,
    pub enable_all_claude: Option<bool>,
    pub check_usage_models: Option<UsageCheck>,
}

} // verus!
