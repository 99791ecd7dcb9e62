//! The plain messages of the upstream protocol.
use vstd::prelude::*;

use super::WebReference;

verus! {

/// The `CursorPosition` message.
pub struct CursorPosition {
    pub line: i32,
    pub column: i32,
}

/// The `EnvironmentInfo` message.
pub struct EnvironmentInfo {
    pub exthost_platform: Option<String>,
    pub exthost_arch: Option<String>,
    pub exthost_release: Option<String>,
    pub exthost_shell: Option<String>,
    pub local_timestamp: Option<String>,
    pub workspace_uris: Vec<String>,
}

/// The `SimpleRange` message.
pub struct SimpleRange {
    pub start_line_number: i32,
    pub start_column: i32,
    pub end_line_number_inclusive: i32,
    pub end_column: i32,
}

/// The `LineRange` message.
pub struct LineRange {
    pub start_line_number: i32,
    pub end_line_number_inclusive: i32,
}

/// The `CursorRange` message.
pub struct CursorRange {
    pub start_position: Option<CursorPosition>,
    pub end_position: Option<CursorPosition>,
}

/// The `GitCommit` message.
pub struct GitCommit {
    pub commit: String,
    pub author: String,
    pub date: String,
    pub message: String,
}

/// The `FileGit` message.
pub struct FileGit {
    pub commits: Vec<GitCommit>,
}

/// The `Diagnostic` message.
pub struct Diagnostic {}

/// The `CurrentFileInfo` message.
pub struct CurrentFileInfo {
    pub contents_start_at_line: i32,
    pub cursor_position: Option<CursorPosition>,
    pub total_number_of_lines: i32,
    pub selection: Option<CursorRange>,
}

/// The `AzureState` message.
pub struct AzureState {
    pub api_key: String,
    pub base_url: String,
    pub deployment: String,
    pub use_azure: bool,
}

/// The `ModelDetails` message.
pub struct ModelDetails {
    pub model_name: Option<String>,
    pub azure_state: Option<AzureState>,
    pub enable_slow_pool: Option<bool>,
    pub max_mode: Option<bool>,
}

/// The `CursorRule` message.
pub struct CursorRule {
    pub name: String,
    pub description: String,
    pub body: Option<String>,
    pub is_from_glob: Option<bool>,
    pub always_apply: Option<bool>,
    pub attach_to_background_agents: Option<bool>,
}

/// The `ExplicitContext` message.
pub struct ExplicitContext {
    pub context: String,
    pub repo_context: Option<String>,
    pub rules: Vec<CursorRule>,
    pub mode_specific_context: Option<String>,
}

/// The `CodeChunk` message.
pub struct CodeChunk {
    pub relative_workspace_path: String,
    pub start_line_number: i32,
    pub lines: Vec<String>,
    pub summarization_strategy: Option<i32>,
    pub language_identifier: String,
    pub intent: Option<i32>,
    pub is_final_version: Option<bool>,
    pub is_first_version: Option<bool>,
}

/// The `LspSubgraphPosition` message.
pub struct LspSubgraphPosition {
    pub line: i32,
    pub character: i32,
}

/// The `LspSubgraphRange` message.
pub struct LspSubgraphRange {
    pub start_line: i32,
    pub start_character: i32,
    pub end_line: i32,
    pub end_character: i32,
}

/// The `LspSubgraphContextItem` message.
pub struct LspSubgraphContextItem {
    pub uri: Option<String>,
    pub content: String,
    pub range: Option<LspSubgraphRange>,
}

/// The `FsUploadFileRequest` message.
pub struct FsUploadFileRequest {
    pub uuid: String,
    pub relative_workspace_path: String,
    pub contents: String,
    pub model_version: i32,
    pub sha256_hash: Option<String>,
}

/// The `FsUploadFileResponse` message.
pub struct FsUploadFileResponse {
    pub error: i32,
}

/// The `FilesyncUpdateWithModelVersion` message.
pub struct FilesyncUpdateWithModelVersion {
    pub model_version: i32,
    pub relative_workspace_path: String,
    pub updates: Vec<SingleUpdateRequest>,
    pub expected_file_length: i32,
}

/// The `SingleUpdateRequest` message.
pub struct SingleUpdateRequest {
    pub start_position: i32,
    pub end_position: i32,
    pub change_length: i32,
    pub replaced_string: String,
    pub range: Option<SimpleRange>,
}

/// The `FsSyncFileRequest` message.
pub struct FsSyncFileRequest {
    pub uuid: String,
    pub relative_workspace_path: String,
    pub model_version: i32,
    pub filesync_updates: Vec<FilesyncUpdateWithModelVersion>,
    pub sha256_hash: String,
}

/// The `FsSyncFileResponse` message.
pub struct FsSyncFileResponse {
    pub error: i32,
}

/// The `CppIntentInfo` message.
pub struct CppIntentInfo {
    pub source: String,
}

/// The `LspSuggestion` message.
pub struct LspSuggestion {
    pub label: String,
}

/// The `LspSuggestedItems` message.
pub struct LspSuggestedItems {
    pub suggestions: Vec<LspSuggestion>,
}

/// The `CppConfigRequest` message.
pub struct CppConfigRequest {
    pub is_nightly: Option<bool>,
    pub model: String,
    pub supports_cpt: Option<bool>,
}

/// The `AvailableCppModelsResponse` message.
pub struct AvailableCppModelsResponse {
    pub models: Vec<String>,
    pub default_model: Option<String>,
}

/// The `CppParameterHint` message.
pub struct CppParameterHint {
    pub label: String,
    pub documentation: Option<String>,
}

/// The `IRange` message.
pub struct IRange {
    pub start_line_number: i32,
    pub start_column: i32,
    pub end_line_number: i32,
    pub end_column: i32,
}

/// The `FetchRulesParams` message.
pub struct FetchRulesParams {
    pub rule_names: Vec<String>,
}

/// The `FetchRulesResult` message.
pub struct FetchRulesResult {
    pub rules: Vec<CursorRule>,
}

/// The `NudgeMessage` message.
pub struct NudgeMessage {
    pub raw_message: String,
}

/// The `WebSearchParams` message.
pub struct WebSearchParams {
    pub search_term: String,
}

/// The `McpResult` message.
pub struct McpResult {
    pub selected_tool: String,
    pub result: String,
}

/// The `KnowledgeBaseParams` message.
pub struct KnowledgeBaseParams {
    pub knowledge_to_store: String,
    pub title: String,
    pub existing_knowledge_id: Option<String>,
    pub action: Option<String>,
}

/// The `KnowledgeBaseResult` message.
pub struct KnowledgeBaseResult {
    pub success: bool,
    pub confirmation_message: String,
    pub id: String,
}

/// The `TodoItem` message.
pub struct TodoItem {
    pub content: String,
    pub status: String,
    pub id: String,
    pub dependencies: Vec<String>,
}

/// The `StreamStart` message.
pub struct StreamStart {
    pub padding: String,
}

/// The `WebCitation` message.
pub struct WebCitation {
    pub references: Vec<WebReference>,
}

/// The `ConversationMessageHeader` message.
pub struct ConversationMessageHeader {
    pub bubble_id: String,
    pub server_bubble_id: Option<String>,
}

/// The `AvailableModelsRequest` message.
pub struct AvailableModelsRequest {
    pub is_nightly: bool,
    pub include_long_context_models: bool,
    pub exclude_max_named_models: bool,
    pub additional_model_names: Vec<String>,
}

/// The `GetFilteredUsageEventsRequest` message.
pub struct GetFilteredUsageEventsRequest {
    pub team_id: i32,
    pub start_date: Option<i64>,
    pub end_date: Option<i64>,
    pub user_id: Option<i32>,
    pub model_id: Option<String>,
    pub page: Option<i32>,
    pub page_size: Option<i32>,
}

/// The `GetAggregatedUsageEventsRequest` message.
pub struct GetAggregatedUsageEventsRequest {
    pub team_id: i32,
    pub start_date: Option<i64>,
    pub end_date: Option<i64>,
    pub user_id: Option<i32>,
}

/// The `GetServerConfigResponse` message.
pub struct GetServerConfigResponse {
    pub config_version: String,
}

/// The `FsUploadErrorType` message.
#[derive(Clone, Copy, Debug, PartialEq, Eq, Structural)]
pub enum FsUploadErrorType {
    Unspecified,
    NonExistant,
    HashMismatch,
}

/// The `FsSyncErrorType` message.
#[derive(Clone, Copy, Debug, PartialEq, Eq, Structural)]
pub enum FsSyncErrorType {
    Unspecified,
    NonExistant,
    HashMismatch,
}

/// The `ClientSideToolV2` message.
#[derive(Clone, Copy, Debug, PartialEq, Eq, Structural)]
pub enum ClientSideToolV2 {
    Unspecified,
    ReadSemsearchFiles,
    RipgrepSearch,
    ReadFile,
    ListDir,
    EditFile,
    FileSearch,
    SemanticSearchFull,
    DeleteFile,
    Reapply,
    RunTerminalCommandV2,
    FetchRules,
    WebSearch,
    Mcp,
    SearchSymbols,
    BackgroundComposerFollowup,
    KnowledgeBase,
    FetchPullRequest,
    DeepSearch,
    CreateDiagram,
    FixLints,
    ReadLints,
    GoToDefinition,
    Task,
    AwaitTask,
    TodoRead,
    TodoWrite,
    EditFileV2,
    ListDirV2,
    ReadFileV2,
    RipgrepRawSearch,
    GlobFileSearch,
}

/// The `UsageEventKind` message.
#[derive(Clone, Copy, Debug, PartialEq, Eq, Structural)]
pub enum UsageEventKind {
    Unspecified,
    UsageBased,
    UserApiKey,
    IncludedInPro,
    IncludedInBusiness,
    ErroredNotCharged,
    AbortedNotCharged,
    CustomSubscription,
    IncludedInProPlus,
    IncludedInUltra,
}

} // verus!
