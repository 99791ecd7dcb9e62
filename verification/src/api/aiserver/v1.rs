//! Upstream error details: the HTTP status and name of each error kind, and
//! the merging of custom error details.
use vstd::prelude::*;

pub mod available_models_response;
pub mod conversation_message;
pub mod error_details;
pub mod messages;

use error_details::{Error, code, error_of, lemma_code_roundtrip};
pub use messages::{CursorPosition, EnvironmentInfo, SimpleRange, LineRange, CursorRange, GitCommit, FileGit, Diagnostic, CurrentFileInfo, AzureState, ModelDetails, CursorRule, ExplicitContext, CodeChunk, LspSubgraphPosition, LspSubgraphRange, LspSubgraphContextItem, FsUploadFileRequest, FsUploadFileResponse, FilesyncUpdateWithModelVersion, SingleUpdateRequest, FsSyncFileRequest, FsSyncFileResponse, CppIntentInfo, LspSuggestion, LspSuggestedItems, CppConfigRequest, AvailableCppModelsResponse, CppParameterHint, IRange, FetchRulesParams, FetchRulesResult, NudgeMessage, WebSearchParams, McpResult, KnowledgeBaseParams, KnowledgeBaseResult, TodoItem, StreamStart, WebCitation, ConversationMessageHeader, AvailableModelsRequest, GetFilteredUsageEventsRequest, GetAggregatedUsageEventsRequest, GetServerConfigResponse, FsUploadErrorType, FsSyncErrorType, ClientSideToolV2, UsageEventKind};
use crate::text::push_char;

verus! {

/// The error details that the upstream service attaches to a failure.
pub struct ErrorDetails {
    /// The wire number of the error kind.
    pub error: i32,
    pub details: Option<CustomErrorDetails>,
    pub is_expected: Option<bool>,
}

/// The title, detail and extra key-value information of an error.
pub struct CustomErrorDetails {
    pub title: String,
    pub detail: String,
    /// Extra information; no key occurs twice.
    pub additional_info: Vec<(String, String)>,
}

/// A link to outside content attached to a message.
pub struct ComposerExternalLink {
    pub url: String,
    pub uuid: String,
}

/// A web page that an answer cites.
pub struct WebReference {
    pub title: String,
    pub url: String,
    pub chunk: String,
}

/// The models that the upstream service offers.
pub struct AvailableModelsResponse {
    pub models: Vec<available_models_response::AvailableModel>,
}

/// The HTTP status that answers an error kind.
pub open spec fn status_of(e: Error) -> u16 {
    match e {
        Error::BadRequest | Error::BadModelName | Error::SlashEditFileTooLong | Error::FileUnsupported | Error::ClaudeImageTooLarge | Error::ConversationTooLong => 400,
        Error::BadApiKey | Error::BadUserApiKey | Error::InvalidAuthId | Error::AuthTokenNotFound | Error::AuthTokenExpired | Error::Unauthorized | Error::GithubNoUserCredentials => 401,
        Error::UsagePricingRequired | Error::UsagePricingRequiredChangeable => 402,
        Error::NotLoggedIn | Error::NotHighEnoughPermissions | Error::AgentRequiresLogin | Error::ProUserOnly | Error::TaskNoPermissions | Error::GithubUserNoAccess | Error::GithubAppNoAccess => 403,
        Error::NotFound | Error::UserNotFound | Error::TaskUuidNotFound | Error::AgentEngineNotFound | Error::GitgraphNotFound | Error::FileNotFound => 404,
        Error::GithubMultipleOwners => 409,
        Error::Deprecated | Error::OutdatedClient => 410,
        Error::ApiKeyNotSupported => 422,
        Error::FreeUserRateLimitExceeded | Error::ProUserRateLimitExceeded | Error::OpenaiRateLimitExceeded | Error::OpenaiAccountLimitExceeded | Error::GenericRateLimitExceeded | Error::Gpt4VisionPreviewRateLimit | Error::ApiKeyRateLimit | Error::RateLimited | Error::RateLimitedChangeable => 429,
        Error::UserAbortedRequest => 499,
        Error::FreeUserUsageLimit | Error::ProUserUsageLimit | Error::ResourceExhausted | Error::MaxTokens => 503,
        Error::Timeout => 504,
        Error::Unspecified | Error::Openai | Error::CustomMessage | Error::Debounced | Error::RepositoryServiceRepositoryIsNotInitialized => 533,
    }
}

/// The HTTP status that answers each upstream error number, by number:
/// 400 for bad requests, 401 for bad or missing credentials, 402 when usage
/// pricing is required, 403 for missing permissions, 404 for things not
/// found, 409, 410 for outdated clients, 422, 429 for every rate limit, 499
/// for aborted requests, 503 for exhausted usage, 504 for time-outs, 533 for
/// the service's own errors, and 500 for a number that names no error kind.
pub open spec fn status_by_number(v: i32) -> u16 {
    if v == 5 || v == 26 || v == 27 || v == 31 || v == 36 || v == 43 {
        400
    } else if v == 1 || v == 3 || v == 11 || v == 12 || v == 38 || v == 42 || v == 46 {
        401
    } else if v == 44 || v == 45 {
        402
    } else if v == 2 || v == 4 || v == 17 || v == 18 || v == 23 || v == 47 || v == 48 {
        403
    } else if v == 6 || v == 16 || v == 19 || v == 32 || v == 33 || v == 39 {
        404
    } else if v == 49 {
        409
    } else if v == 30 || v == 40 {
        410
    } else if v == 24 {
        422
    } else if v == 7 || v == 8 || v == 14 || v == 15 || v == 22 || v == 28 || v == 34 || v == 50 || v == 51 {
        429
    } else if v == 21 {
        499
    } else if v == 9 || v == 10 || v == 20 || v == 41 {
        503
    } else if v == 25 {
        504
    } else if v == 0 || v == 13 || v == 29 || v == 35 || v == 37 {
        533
    } else {
        500
    }
}

/// `ErrorDetails::status_code` answers every error number with the status
/// of the table `status_by_number`; in particular every rate-limit error
/// (numbers 7, 8, 14, 15, 22, 28, 34, 50 and 51) is answered with 429.
pub proof fn lemma_status_table(v: i32)
    ensures
        (match error_of(v) {
            Some(e) => status_of(e),
            None => 500u16,
        }) == status_by_number(v),
        (v == 7 || v == 8 || v == 14 || v == 15 || v == 22 || v == 28 || v == 34 || v == 50 || v == 51) ==> (match error_of(v) {
            Some(e) => status_of(e),
            None => 500u16,
        }) == 429u16,
{
}

/// The snake-case name of an error kind.
pub open spec fn type_name_of(e: Error) -> Seq<char> {
    match e {
        Error::Unspecified => "unspecified"@,
        Error::BadApiKey => "bad_api_key"@,
        Error::BadUserApiKey => "bad_user_api_key"@,
        Error::NotLoggedIn => "not_logged_in"@,
        Error::InvalidAuthId => "invalid_auth_id"@,
        Error::NotHighEnoughPermissions => "not_high_enough_permissions"@,
        Error::AgentRequiresLogin => "agent_requires_login"@,
        Error::BadModelName => "bad_model_name"@,
        Error::NotFound => "not_found"@,
        Error::Deprecated => "deprecated"@,
        Error::UserNotFound => "user_not_found"@,
        Error::FreeUserRateLimitExceeded => "free_user_rate_limit_exceeded"@,
        Error::ProUserRateLimitExceeded => "pro_user_rate_limit_exceeded"@,
        Error::FreeUserUsageLimit => "free_user_usage_limit"@,
        Error::ProUserUsageLimit => "pro_user_usage_limit"@,
        Error::ResourceExhausted => "resource_exhausted"@,
        Error::AuthTokenNotFound => "auth_token_not_found"@,
        Error::AuthTokenExpired => "auth_token_expired"@,
        Error::Openai => "openai"@,
        Error::OpenaiRateLimitExceeded => "openai_rate_limit_exceeded"@,
        Error::OpenaiAccountLimitExceeded => "openai_account_limit_exceeded"@,
        Error::TaskUuidNotFound => "task_uuid_not_found"@,
        Error::TaskNoPermissions => "task_no_permissions"@,
        Error::AgentEngineNotFound => "agent_engine_not_found"@,
        Error::MaxTokens => "max_tokens"@,
        Error::ProUserOnly => "pro_user_only"@,
        Error::ApiKeyNotSupported => "api_key_not_supported"@,
        Error::UserAbortedRequest => "user_aborted_request"@,
        Error::Timeout => "timeout"@,
        Error::GenericRateLimitExceeded => "generic_rate_limit_exceeded"@,
        Error::SlashEditFileTooLong => "slash_edit_file_too_long"@,
        Error::FileUnsupported => "file_unsupported"@,
        Error::Gpt4VisionPreviewRateLimit => "gpt4_vision_preview_rate_limit"@,
        Error::CustomMessage => "custom_message"@,
        Error::OutdatedClient => "outdated_client"@,
        Error::ClaudeImageTooLarge => "claude_image_too_large"@,
        Error::GitgraphNotFound => "gitgraph_not_found"@,
        Error::FileNotFound => "file_not_found"@,
        Error::ApiKeyRateLimit => "api_key_rate_limit"@,
        Error::Debounced => "debounced"@,
        Error::BadRequest => "bad_request"@,
        Error::RepositoryServiceRepositoryIsNotInitialized => "repository_service_repository_is_not_initialized"@,
        Error::Unauthorized => "unauthorized"@,
        Error::ConversationTooLong => "conversation_too_long"@,
        Error::UsagePricingRequired => "usage_pricing_required"@,
        Error::UsagePricingRequiredChangeable => "usage_pricing_required_changeable"@,
        Error::GithubNoUserCredentials => "github_no_user_credentials"@,
        Error::GithubUserNoAccess => "github_user_no_access"@,
        Error::GithubAppNoAccess => "github_app_no_access"@,
        Error::GithubMultipleOwners => "github_multiple_owners"@,
        Error::RateLimited => "rate_limited"@,
        Error::RateLimitedChangeable => "rate_limited_changeable"@,
    }
}

/// No error kind is named `unknown`.
proof fn lemma_kind_not_unknown(e: Error)
    ensures
        type_name_of(e) != unknown_name(),
{
    reveal_strlit("unknown");
    match e {
        Error::Unspecified => {
            reveal_strlit("unspecified");
        },
        Error::BadApiKey => {
            reveal_strlit("bad_api_key");
        },
        Error::BadUserApiKey => {
            reveal_strlit("bad_user_api_key");
        },
        Error::NotLoggedIn => {
            reveal_strlit("not_logged_in");
        },
        Error::InvalidAuthId => {
            reveal_strlit("invalid_auth_id");
        },
        Error::NotHighEnoughPermissions => {
            reveal_strlit("not_high_enough_permissions");
        },
        Error::AgentRequiresLogin => {
            reveal_strlit("agent_requires_login");
        },
        Error::BadModelName => {
            reveal_strlit("bad_model_name");
        },
        Error::NotFound => {
            reveal_strlit("not_found");
        },
        Error::Deprecated => {
            reveal_strlit("deprecated");
        },
        Error::UserNotFound => {
            reveal_strlit("user_not_found");
        },
        Error::FreeUserRateLimitExceeded => {
            reveal_strlit("free_user_rate_limit_exceeded");
        },
        Error::ProUserRateLimitExceeded => {
            reveal_strlit("pro_user_rate_limit_exceeded");
        },
        Error::FreeUserUsageLimit => {
            reveal_strlit("free_user_usage_limit");
        },
        Error::ProUserUsageLimit => {
            reveal_strlit("pro_user_usage_limit");
        },
        Error::ResourceExhausted => {
            reveal_strlit("resource_exhausted");
        },
        Error::AuthTokenNotFound => {
            reveal_strlit("auth_token_not_found");
        },
        Error::AuthTokenExpired => {
            reveal_strlit("auth_token_expired");
        },
        Error::Openai => {
            reveal_strlit("openai");
        },
        Error::OpenaiRateLimitExceeded => {
            reveal_strlit("openai_rate_limit_exceeded");
        },
        Error::OpenaiAccountLimitExceeded => {
            reveal_strlit("openai_account_limit_exceeded");
        },
        Error::TaskUuidNotFound => {
            reveal_strlit("task_uuid_not_found");
        },
        Error::TaskNoPermissions => {
            reveal_strlit("task_no_permissions");
        },
        Error::AgentEngineNotFound => {
            reveal_strlit("agent_engine_not_found");
        },
        Error::MaxTokens => {
            reveal_strlit("max_tokens");
        },
        Error::ProUserOnly => {
            reveal_strlit("pro_user_only");
        },
        Error::ApiKeyNotSupported => {
            reveal_strlit("api_key_not_supported");
        },
        Error::UserAbortedRequest => {
            reveal_strlit("user_aborted_request");
        },
        Error::Timeout => {
            reveal_strlit("timeout");
        },
        Error::GenericRateLimitExceeded => {
            reveal_strlit("generic_rate_limit_exceeded");
        },
        Error::SlashEditFileTooLong => {
            reveal_strlit("slash_edit_file_too_long");
        },
        Error::FileUnsupported => {
            reveal_strlit("file_unsupported");
        },
        Error::Gpt4VisionPreviewRateLimit => {
            reveal_strlit("gpt4_vision_preview_rate_limit");
        },
        Error::CustomMessage => {
            reveal_strlit("custom_message");
        },
        Error::OutdatedClient => {
            reveal_strlit("outdated_client");
        },
        Error::ClaudeImageTooLarge => {
            reveal_strlit("claude_image_too_large");
        },
        Error::GitgraphNotFound => {
            reveal_strlit("gitgraph_not_found");
        },
        Error::FileNotFound => {
            reveal_strlit("file_not_found");
        },
        Error::ApiKeyRateLimit => {
            reveal_strlit("api_key_rate_limit");
        },
        Error::Debounced => {
            reveal_strlit("debounced");
        },
        Error::BadRequest => {
            reveal_strlit("bad_request");
        },
        Error::RepositoryServiceRepositoryIsNotInitialized => {
            reveal_strlit("repository_service_repository_is_not_initialized");
        },
        Error::Unauthorized => {
            reveal_strlit("unauthorized");
        },
        Error::ConversationTooLong => {
            reveal_strlit("conversation_too_long");
        },
        Error::UsagePricingRequired => {
            reveal_strlit("usage_pricing_required");
        },
        Error::UsagePricingRequiredChangeable => {
            reveal_strlit("usage_pricing_required_changeable");
        },
        Error::GithubNoUserCredentials => {
            reveal_strlit("github_no_user_credentials");
        },
        Error::GithubUserNoAccess => {
            reveal_strlit("github_user_no_access");
        },
        Error::GithubAppNoAccess => {
            reveal_strlit("github_app_no_access");
        },
        Error::GithubMultipleOwners => {
            reveal_strlit("github_multiple_owners");
        },
        Error::RateLimited => {
            reveal_strlit("rate_limited");
        },
        Error::RateLimitedChangeable => {
            reveal_strlit("rate_limited_changeable");
        },
    }
    assert(type_name_of(e).len() != unknown_name().len() || type_name_of(e)[0] != unknown_name()[0]
        || type_name_of(e)[2] != unknown_name()[2]);
}

/// An upstream error number is named `unknown`, and answered with status
/// 500, exactly when no error kind has that number.
pub proof fn lemma_unknown_exactly_undefined(v: i32)
    ensures
        ((match error_of(v) {
            Some(e) => type_name_of(e),
            None => unknown_name(),
        }) == unknown_name()) <==> (forall|e: Error| #[trigger] code(e) != v),
        ((match error_of(v) {
            Some(e) => status_of(e),
            None => 500u16,
        }) == 500u16) <==> (forall|e: Error| #[trigger] code(e) != v),
{
    match error_of(v) {
        Some(e) => {
            lemma_code_roundtrip(e, v);
            lemma_kind_not_unknown(e);
        },
        None => {
            assert forall|e: Error| #[trigger] code(e) != v by {
                lemma_code_roundtrip(e, v);
            }
        },
    }
}

/// The name given to an error number that names no kind.
pub open spec fn unknown_name() -> Seq<char> {
    "unknown"@
}

/// The key-value map that a list of pairs stands for: a later pair overrides an
/// earlier one with the same key.
pub open spec fn info_map(s: Seq<(String, String)>) -> Map<Seq<char>, Seq<char>>
    decreases s.len(),
{
    if s.len() == 0 {
        Map::empty()
    } else {
        info_map(s.drop_last()).insert(s.last().0@, s.last().1@)
    }
}

/// No key occurs twice among the pairs.
pub open spec fn keys_distinct(s: Seq<(String, String)>) -> bool {
    forall|i: int, j: int| 0 <= i < j < s.len() ==> #[trigger] s[i].0@ != #[trigger] s[j].0@
}

/// With distinct keys, the map holds exactly the pairs' keys, each with its pair's value.
pub proof fn lemma_info_map_distinct(s: Seq<(String, String)>)
    requires
        keys_distinct(s),
    ensures
        forall|k: Seq<char>| #[trigger] info_map(s).contains_key(k) <==> exists|i: int| 0 <= i < s.len() && s[i].0@ == k,
        forall|i: int| 0 <= i < s.len() ==> #[trigger] info_map(s)[s[i].0@] == s[i].1@,
    decreases s.len(),
{
    if s.len() > 0 {
        let t = s.drop_last();
        assert(keys_distinct(t));
        lemma_info_map_distinct(t);
        assert forall|k: Seq<char>| #[trigger] info_map(s).contains_key(k) <==> exists|i: int| 0 <= i < s.len() && s[i].0@ == k by {
            if info_map(s).contains_key(k) {
                if k == s.last().0@ {
                    assert(s[s.len() - 1].0@ == k);
                } else {
                    assert(info_map(t).contains_key(k));
                    let i = choose|i: int| 0 <= i < t.len() && t[i].0@ == k;
                    assert(s[i].0@ == k);
                }
            }
            if exists|i: int| 0 <= i < s.len() && s[i].0@ == k {
                let i = choose|i: int| 0 <= i < s.len() && s[i].0@ == k;
                if i < s.len() - 1 {
                    assert(t[i].0@ == k);
                    assert(info_map(t).contains_key(k));
                }
            }
        }
        assert forall|i: int| 0 <= i < s.len() implies #[trigger] info_map(s)[s[i].0@] == s[i].1@ by {
            if i < s.len() - 1 {
                assert(t[i] == s[i]);
                assert(s[i].0@ != s[s.len() - 1].0@);
                assert(info_map(t)[t[i].0@] == t[i].1@);
            }
        }
    }
}

/// Sets `key` to `value` in a list of distinct-keyed pairs: the pair with that
/// key is replaced, or a new pair is appended.
fn insert_info(v: &mut Vec<(String, String)>, key: String, value: String)
    requires
        keys_distinct(old(v)@),
    ensures
        keys_distinct(final(v)@),
        info_map(final(v)@) == info_map(old(v)@).insert(key@, value@),
{
    let n = v.len();
    let mut i: usize = 0;
    while i < n
        invariant
            n == v.len(),
            i <= n,
            v@ == old(v)@,
            keys_distinct(v@),
            forall|j: int| 0 <= j < i ==> (#[trigger] v@[j]).0@ != key@,
        decreases n - i,
    {
        if v[i].0 == key {
            let ghost old_s = v@;
            proof {
                lemma_info_map_distinct(old_s);
            }
            v.set(i, (key, value));
            proof {
                let s = v@;
                assert(keys_distinct(s)) by {
                    assert forall|a: int, b: int| 0 <= a < b < s.len() implies #[trigger] s[a].0@ != #[trigger] s[b].0@ by {
                        assert(old_s[a].0@ != old_s[b].0@);
                    }
                }
                lemma_info_map_distinct(s);
                let m = info_map(old_s).insert(s[i as int].0@, s[i as int].1@);
                assert forall|k: Seq<char>| #[trigger] info_map(s).contains_key(k) <==> m.contains_key(k) by {
                    if m.contains_key(k) && k != s[i as int].0@ {
                        let j = choose|j: int| 0 <= j < old_s.len() && old_s[j].0@ == k;
                        assert(s[j].0@ == k);
                    }
                    if info_map(s).contains_key(k) {
                        let j = choose|j: int| 0 <= j < s.len() && s[j].0@ == k;
                        if j != i {
                            assert(old_s[j].0@ == k);
                        }
                    }
                }
                assert forall|k: Seq<char>| #[trigger] info_map(s).contains_key(k) implies info_map(s)[k] == m[k] by {
                    let j = choose|j: int| 0 <= j < s.len() && s[j].0@ == k;
                    if j != i {
                        assert(old_s[j] == s[j]);
                    }
                }
                assert(info_map(s) =~= m);
            }
            return;
        }
        i = i + 1;
    }
    let ghost old_s = v@;
    v.push((key, value));
    proof {
        let s = v@;
        assert(s.drop_last() =~= old_s);
        assert(keys_distinct(s)) by {
            assert forall|a: int, b: int| 0 <= a < b < s.len() implies #[trigger] s[a].0@ != #[trigger] s[b].0@ by {
                if b < s.len() - 1 {
                    assert(old_s[a].0@ != old_s[b].0@);
                } else {
                    assert(old_s[a].0@ != key@);
                }
            }
        }
    }
}

impl CustomErrorDetails {
    /// Merges `rhs` into these details: the titles and details are joined by
    /// `&`, and `rhs`'s extra information is added, overriding equal keys.
    pub fn add(&mut self, rhs: Self)
        requires
            keys_distinct(old(self).additional_info@),
        ensures
            final(self).title@ == old(self).title@ + seq!['&'] + rhs.title@,
            final(self).detail@ == old(self).detail@ + seq!['&'] + rhs.detail@,
            keys_distinct(final(self).additional_info@),
            info_map(final(self).additional_info@) == info_map(old(self).additional_info@).union_prefer_right(
                info_map(rhs.additional_info@),
            ),
    {
        push_char(&mut self.title, '&');
        self.title.append(rhs.title.as_str());
        push_char(&mut self.detail, '&');
        self.detail.append(rhs.detail.as_str());
        assert(self.title@ =~= old(self).title@ + seq!['&'] + rhs.title@);
        assert(self.detail@ =~= old(self).detail@ + seq!['&'] + rhs.detail@);
        let other = rhs.additional_info;
        let n = other.len();
        let mut i: usize = 0;
        let ghost base = info_map(self.additional_info@);
        assert(info_map(other@.take(0)) =~= Map::empty());
        assert(base.union_prefer_right(Map::empty()) =~= base);
        while i < n
            invariant
                n == other.len(),
                i <= n,
                keys_distinct(self.additional_info@),
                self.title@ == old(self).title@ + seq!['&'] + rhs.title@,
                self.detail@ == old(self).detail@ + seq!['&'] + rhs.detail@,
                info_map(self.additional_info@) == base.union_prefer_right(info_map(other@.take(i as int))),
            decreases n - i,
        {
            let k = other[i].0.clone();
            let val = other[i].1.clone();
            insert_info(&mut self.additional_info, k, val);
            proof {
                let t = other@.take(i as int + 1);
                assert(t.drop_last() =~= other@.take(i as int));
                let m = info_map(other@.take(i as int));
                assert(base.union_prefer_right(m.insert(other@[i as int].0@, other@[i as int].1@)) =~= base.union_prefer_right(m).insert(other@[i as int].0@, other@[i as int].1@));
            }
            i = i + 1;
        }
        assert(other@.take(n as int) =~= other@);
    }
}

impl ErrorDetails {
    /// The HTTP status for an upstream error number: the status of its kind,
    /// or 500 for a number that names no kind.
    pub fn status_code(error: i32) -> (r: u16)
        ensures
            r == (match error_of(error) {
                Some(e) => status_of(e),
                None => 500u16,
            }),
    {
        match Error::from_i32(error) {
            Some(e) => match e {
                Error::BadRequest | Error::BadModelName | Error::SlashEditFileTooLong | Error::FileUnsupported | Error::ClaudeImageTooLarge | Error::ConversationTooLong => 400,
                Error::BadApiKey | Error::BadUserApiKey | Error::InvalidAuthId | Error::AuthTokenNotFound | Error::AuthTokenExpired | Error::Unauthorized | Error::GithubNoUserCredentials => 401,
                Error::UsagePricingRequired | Error::UsagePricingRequiredChangeable => 402,
                Error::NotLoggedIn | Error::NotHighEnoughPermissions | Error::AgentRequiresLogin | Error::ProUserOnly | Error::TaskNoPermissions | Error::GithubUserNoAccess | Error::GithubAppNoAccess => 403,
                Error::NotFound | Error::UserNotFound | Error::TaskUuidNotFound | Error::AgentEngineNotFound | Error::GitgraphNotFound | Error::FileNotFound => 404,
                Error::GithubMultipleOwners => 409,
                Error::Deprecated | Error::OutdatedClient => 410,
                Error::ApiKeyNotSupported => 422,
                Error::FreeUserRateLimitExceeded | Error::ProUserRateLimitExceeded | Error::OpenaiRateLimitExceeded | Error::OpenaiAccountLimitExceeded | Error::GenericRateLimitExceeded | Error::Gpt4VisionPreviewRateLimit | Error::ApiKeyRateLimit | Error::RateLimited | Error::RateLimitedChangeable => 429,
                Error::UserAbortedRequest => 499,
                Error::FreeUserUsageLimit | Error::ProUserUsageLimit | Error::ResourceExhausted | Error::MaxTokens => 503,
                Error::Timeout => 504,
                Error::Unspecified | Error::Openai | Error::CustomMessage | Error::Debounced | Error::RepositoryServiceRepositoryIsNotInitialized => 533,
            },
            None => 500,
        }
    }

    /// The snake-case name for an upstream error number: the name of its kind,
    /// or `unknown` for a number that names no kind.
    pub fn error_type(error: i32) -> (r: &'static str)
        ensures
            r@ == (match error_of(error) {
                Some(e) => type_name_of(e),
                None => unknown_name(),
            }),
    {
        match Error::from_i32(error) {
            Some(e) => match e {
                Error::Unspecified => "unspecified",
                Error::BadApiKey => "bad_api_key",
                Error::BadUserApiKey => "bad_user_api_key",
                Error::NotLoggedIn => "not_logged_in",
                Error::InvalidAuthId => "invalid_auth_id",
                Error::NotHighEnoughPermissions => "not_high_enough_permissions",
                Error::AgentRequiresLogin => "agent_requires_login",
                Error::BadModelName => "bad_model_name",
                Error::NotFound => "not_found",
                Error::Deprecated => "deprecated",
                Error::UserNotFound => "user_not_found",
                Error::FreeUserRateLimitExceeded => "free_user_rate_limit_exceeded",
                Error::ProUserRateLimitExceeded => "pro_user_rate_limit_exceeded",
                Error::FreeUserUsageLimit => "free_user_usage_limit",
                Error::ProUserUsageLimit => "pro_user_usage_limit",
                Error::ResourceExhausted => "resource_exhausted",
                Error::AuthTokenNotFound => "auth_token_not_found",
                Error::AuthTokenExpired => "auth_token_expired",
                Error::Openai => "openai",
                Error::OpenaiRateLimitExceeded => "openai_rate_limit_exceeded",
                Error::OpenaiAccountLimitExceeded => "openai_account_limit_exceeded",
                Error::TaskUuidNotFound => "task_uuid_not_found",
                Error::TaskNoPermissions => "task_no_permissions",
                Error::AgentEngineNotFound => "agent_engine_not_found",
                Error::MaxTokens => "max_tokens",
                Error::ProUserOnly => "pro_user_only",
                Error::ApiKeyNotSupported => "api_key_not_supported",
                Error::UserAbortedRequest => "user_aborted_request",
                Error::Timeout => "timeout",
                Error::GenericRateLimitExceeded => "generic_rate_limit_exceeded",
                Error::SlashEditFileTooLong => "slash_edit_file_too_long",
                Error::FileUnsupported => "file_unsupported",
                Error::Gpt4VisionPreviewRateLimit => "gpt4_vision_preview_rate_limit",
                Error::CustomMessage => "custom_message",
                Error::OutdatedClient => "outdated_client",
                Error::ClaudeImageTooLarge => "claude_image_too_large",
                Error::GitgraphNotFound => "gitgraph_not_found",
                Error::FileNotFound => "file_not_found",
                Error::ApiKeyRateLimit => "api_key_rate_limit",
                Error::Debounced => "debounced",
                Error::BadRequest => "bad_request",
                Error::RepositoryServiceRepositoryIsNotInitialized => "repository_service_repository_is_not_initialized",
                Error::Unauthorized => "unauthorized",
                Error::ConversationTooLong => "conversation_too_long",
                Error::UsagePricingRequired => "usage_pricing_required",
                Error::UsagePricingRequiredChangeable => "usage_pricing_required_changeable",
                Error::GithubNoUserCredentials => "github_no_user_credentials",
                Error::GithubUserNoAccess => "github_user_no_access",
                Error::GithubAppNoAccess => "github_app_no_access",
                Error::GithubMultipleOwners => "github_multiple_owners",
                Error::RateLimited => "rate_limited",
                Error::RateLimitedChangeable => "rate_limited_changeable",
            },
            None => "unknown",
        }
    }
}

} // verus!
