//! The error kinds that the upstream service reports in its error details.
use vstd::prelude::*;

verus! {

/// An upstream error kind. Each kind travels as its wire number (`code`).
#[derive(Clone, Copy, Debug, PartialEq, Eq, Structural, Hash)]
pub enum Error {
    Unspecified,
    BadApiKey,
    BadUserApiKey,
    NotLoggedIn,
    InvalidAuthId,
    NotHighEnoughPermissions,
    AgentRequiresLogin,
    BadModelName,
    NotFound,
    Deprecated,
    UserNotFound,
    FreeUserRateLimitExceeded,
    ProUserRateLimitExceeded,
    FreeUserUsageLimit,
    ProUserUsageLimit,
    ResourceExhausted,
    AuthTokenNotFound,
    AuthTokenExpired,
    Openai,
    OpenaiRateLimitExceeded,
    OpenaiAccountLimitExceeded,
    TaskUuidNotFound,
    TaskNoPermissions,
    AgentEngineNotFound,
    MaxTokens,
    ProUserOnly,
    ApiKeyNotSupported,
    UserAbortedRequest,
    Timeout,
    GenericRateLimitExceeded,
    SlashEditFileTooLong,
    FileUnsupported,
    Gpt4VisionPreviewRateLimit,
    CustomMessage,
    OutdatedClient,
    ClaudeImageTooLarge,
    GitgraphNotFound,
    FileNotFound,
    ApiKeyRateLimit,
    Debounced,
    BadRequest,
    RepositoryServiceRepositoryIsNotInitialized,
    Unauthorized,
    ConversationTooLong,
    UsagePricingRequired,
    UsagePricingRequiredChangeable,
    GithubNoUserCredentials,
    GithubUserNoAccess,
    GithubAppNoAccess,
    GithubMultipleOwners,
    RateLimited,
    RateLimitedChangeable,
}

/// The wire number of an error kind.
pub open spec fn code(e: Error) -> i32 {
    match e {
        Error::Unspecified => 0,
        Error::BadApiKey => 1,
        Error::BadUserApiKey => 42,
        Error::NotLoggedIn => 2,
        Error::InvalidAuthId => 3,
        Error::NotHighEnoughPermissions => 4,
        Error::AgentRequiresLogin => 18,
        Error::BadModelName => 5,
        Error::NotFound => 39,
        Error::Deprecated => 40,
        Error::UserNotFound => 6,
        Error::FreeUserRateLimitExceeded => 7,
        Error::ProUserRateLimitExceeded => 8,
        Error::FreeUserUsageLimit => 9,
        Error::ProUserUsageLimit => 10,
        Error::ResourceExhausted => 41,
        Error::AuthTokenNotFound => 11,
        Error::AuthTokenExpired => 12,
        Error::Openai => 13,
        Error::OpenaiRateLimitExceeded => 14,
        Error::OpenaiAccountLimitExceeded => 15,
        Error::TaskUuidNotFound => 16,
        Error::TaskNoPermissions => 17,
        Error::AgentEngineNotFound => 19,
        Error::MaxTokens => 20,
        Error::ProUserOnly => 23,
        Error::ApiKeyNotSupported => 24,
        Error::UserAbortedRequest => 21,
        Error::Timeout => 25,
        Error::GenericRateLimitExceeded => 22,
        Error::SlashEditFileTooLong => 26,
        Error::FileUnsupported => 27,
        Error::Gpt4VisionPreviewRateLimit => 28,
        Error::CustomMessage => 29,
        Error::OutdatedClient => 30,
        Error::ClaudeImageTooLarge => 31,
        Error::GitgraphNotFound => 32,
        Error::FileNotFound => 33,
        Error::ApiKeyRateLimit => 34,
        Error::Debounced => 35,
        Error::BadRequest => 36,
        Error::RepositoryServiceRepositoryIsNotInitialized => 37,
        Error::Unauthorized => 38,
        Error::ConversationTooLong => 43,
        Error::UsagePricingRequired => 44,
        Error::UsagePricingRequiredChangeable => 45,
        Error::GithubNoUserCredentials => 46,
        Error::GithubUserNoAccess => 47,
        Error::GithubAppNoAccess => 48,
        Error::GithubMultipleOwners => 49,
        Error::RateLimited => 50,
        Error::RateLimitedChangeable => 51,
    }
}

/// The error kind with wire number `v`, if there is one.
pub open spec fn error_of(v: i32) -> Option<Error> {
    if v == 0 {
        Some(Error::Unspecified)
    } else if v == 1 {
        Some(Error::BadApiKey)
    } else if v == 2 {
        Some(Error::NotLoggedIn)
    } else if v == 3 {
        Some(Error::InvalidAuthId)
    } else if v == 4 {
        Some(Error::NotHighEnoughPermissions)
    } else if v == 5 {
        Some(Error::BadModelName)
    } else if v == 6 {
        Some(Error::UserNotFound)
    } else if v == 7 {
        Some(Error::FreeUserRateLimitExceeded)
    } else if v == 8 {
        Some(Error::ProUserRateLimitExceeded)
    } else if v == 9 {
        Some(Error::FreeUserUsageLimit)
    } else if v == 10 {
        Some(Error::ProUserUsageLimit)
    } else if v == 11 {
        Some(Error::AuthTokenNotFound)
    } else if v == 12 {
        Some(Error::AuthTokenExpired)
    } else if v == 13 {
        Some(Error::Openai)
    } else if v == 14 {
        Some(Error::OpenaiRateLimitExceeded)
    } else if v == 15 {
        Some(Error::OpenaiAccountLimitExceeded)
    } else if v == 16 {
        Some(Error::TaskUuidNotFound)
    } else if v == 17 {
        Some(Error::TaskNoPermissions)
    } else if v == 18 {
        Some(Error::AgentRequiresLogin)
    } else if v == 19 {
        Some(Error::AgentEngineNotFound)
    } else if v == 20 {
        Some(Error::MaxTokens)
    } else if v == 21 {
        Some(Error::UserAbortedRequest)
    } else if v == 22 {
        Some(Error::GenericRateLimitExceeded)
    } else if v == 23 {
        Some(Error::ProUserOnly)
    } else if v == 24 {
        Some(Error::ApiKeyNotSupported)
    } else if v == 25 {
        Some(Error::Timeout)
    } else if v == 26 {
        Some(Error::SlashEditFileTooLong)
    } else if v == 27 {
        Some(Error::FileUnsupported)
    } else if v == 28 {
        Some(Error::Gpt4VisionPreviewRateLimit)
    } else if v == 29 {
        Some(Error::CustomMessage)
    } else if v == 30 {
        Some(Error::OutdatedClient)
    } else if v == 31 {
        Some(Error::ClaudeImageTooLarge)
    } else if v == 32 {
        Some(Error::GitgraphNotFound)
    } else if v == 33 {
        Some(Error::FileNotFound)
    } else if v == 34 {
        Some(Error::ApiKeyRateLimit)
    } else if v == 35 {
        Some(Error::Debounced)
    } else if v == 36 {
        Some(Error::BadRequest)
    } else if v == 37 {
        Some(Error::RepositoryServiceRepositoryIsNotInitialized)
    } else if v == 38 {
        Some(Error::Unauthorized)
    } else if v == 39 {
        Some(Error::NotFound)
    } else if v == 40 {
        Some(Error::Deprecated)
    } else if v == 41 {
        Some(Error::ResourceExhausted)
    } else if v == 42 {
        Some(Error::BadUserApiKey)
    } else if v == 43 {
        Some(Error::ConversationTooLong)
    } else if v == 44 {
        Some(Error::UsagePricingRequired)
    } else if v == 45 {
        Some(Error::UsagePricingRequiredChangeable)
    } else if v == 46 {
        Some(Error::GithubNoUserCredentials)
    } else if v == 47 {
        Some(Error::GithubUserNoAccess)
    } else if v == 48 {
        Some(Error::GithubAppNoAccess)
    } else if v == 49 {
        Some(Error::GithubMultipleOwners)
    } else if v == 50 {
        Some(Error::RateLimited)
    } else if v == 51 {
        Some(Error::RateLimitedChangeable)
    } else {
        None
    }
}

/// Every kind's wire number leads back to it, and a number that names a kind
/// is that kind's number.
pub proof fn lemma_code_roundtrip(e: Error, v: i32)
    ensures
        error_of(code(e)) == Some(e),
        error_of(v) == Some(e) ==> code(e) == v,
{
}

impl Error {
    /// The error kind with wire number `v`; `None` for a number that names no kind.
    pub fn from_i32(v: i32) -> (r: Option<Error>)
        ensures
            r == error_of(v),
    {
        match v {
            0 => Some(Error::Unspecified),
            1 => Some(Error::BadApiKey),
            2 => Some(Error::NotLoggedIn),
            3 => Some(Error::InvalidAuthId),
            4 => Some(Error::NotHighEnoughPermissions),
            5 => Some(Error::BadModelName),
            6 => Some(Error::UserNotFound),
            7 => Some(Error::FreeUserRateLimitExceeded),
            8 => Some(Error::ProUserRateLimitExceeded),
            9 => Some(Error::FreeUserUsageLimit),
            10 => Some(Error::ProUserUsageLimit),
            11 => Some(Error::AuthTokenNotFound),
            12 => Some(Error::AuthTokenExpired),
            13 => Some(Error::Openai),
            14 => Some(Error::OpenaiRateLimitExceeded),
            15 => Some(Error::OpenaiAccountLimitExceeded),
            16 => Some(Error::TaskUuidNotFound),
            17 => Some(Error::TaskNoPermissions),
            18 => Some(Error::AgentRequiresLogin),
            19 => Some(Error::AgentEngineNotFound),
            20 => Some(Error::MaxTokens),
            21 => Some(Error::UserAbortedRequest),
            22 => Some(Error::GenericRateLimitExceeded),
            23 => Some(Error::ProUserOnly),
            24 => Some(Error::ApiKeyNotSupported),
            25 => Some(Error::Timeout),
            26 => Some(Error::SlashEditFileTooLong),
            27 => Some(Error::FileUnsupported),
            28 => Some(Error::Gpt4VisionPreviewRateLimit),
            29 => Some(Error::CustomMessage),
            30 => Some(Error::OutdatedClient),
            31 => Some(Error::ClaudeImageTooLarge),
            32 => Some(Error::GitgraphNotFound),
            33 => Some(Error::FileNotFound),
            34 => Some(Error::ApiKeyRateLimit),
            35 => Some(Error::Debounced),
            36 => Some(Error::BadRequest),
            37 => Some(Error::RepositoryServiceRepositoryIsNotInitialized),
            38 => Some(Error::Unauthorized),
            39 => Some(Error::NotFound),
            40 => Some(Error::Deprecated),
            41 => Some(Error::ResourceExhausted),
            42 => Some(Error::BadUserApiKey),
            43 => Some(Error::ConversationTooLong),
            44 => Some(Error::UsagePricingRequired),
            45 => Some(Error::UsagePricingRequiredChangeable),
            46 => Some(Error::GithubNoUserCredentials),
            47 => Some(Error::GithubUserNoAccess),
            48 => Some(Error::GithubAppNoAccess),
            49 => Some(Error::GithubMultipleOwners),
            50 => Some(Error::RateLimited),
            51 => Some(Error::RateLimitedChangeable),
            _ => None,
        }
    }

    /// The wire number of this kind.
    pub fn as_i32(self) -> (r: i32)
        ensures
            r == code(self),
    {
        match self {
            Error::Unspecified => 0,
            Error::BadApiKey => 1,
            Error::BadUserApiKey => 42,
            Error::NotLoggedIn => 2,
            Error::InvalidAuthId => 3,
            Error::NotHighEnoughPermissions => 4,
            Error::AgentRequiresLogin => 18,
            Error::BadModelName => 5,
            Error::NotFound => 39,
            Error::Deprecated => 40,
            Error::UserNotFound => 6,
            Error::FreeUserRateLimitExceeded => 7,
            Error::ProUserRateLimitExceeded => 8,
            Error::FreeUserUsageLimit => 9,
            Error::ProUserUsageLimit => 10,
            Error::ResourceExhausted => 41,
            Error::AuthTokenNotFound => 11,
            Error::AuthTokenExpired => 12,
            Error::Openai => 13,
            Error::OpenaiRateLimitExceeded => 14,
            Error::OpenaiAccountLimitExceeded => 15,
            Error::TaskUuidNotFound => 16,
            Error::TaskNoPermissions => 17,
            Error::AgentEngineNotFound => 19,
            Error::MaxTokens => 20,
            Error::ProUserOnly => 23,
            Error::ApiKeyNotSupported => 24,
            Error::UserAbortedRequest => 21,
            Error::Timeout => 25,
            Error::GenericRateLimitExceeded => 22,
            Error::SlashEditFileTooLong => 26,
            Error::FileUnsupported => 27,
            Error::Gpt4VisionPreviewRateLimit => 28,
            Error::CustomMessage => 29,
            Error::OutdatedClient => 30,
            Error::ClaudeImageTooLarge => 31,
            Error::GitgraphNotFound => 32,
            Error::FileNotFound => 33,
            Error::ApiKeyRateLimit => 34,
            Error::Debounced => 35,
            Error::BadRequest => 36,
            Error::RepositoryServiceRepositoryIsNotInitialized => 37,
            Error::Unauthorized => 38,
            Error::ConversationTooLong => 43,
            Error::UsagePricingRequired => 44,
            Error::UsagePricingRequiredChangeable => 45,
            Error::GithubNoUserCredentials => 46,
            Error::GithubUserNoAccess => 47,
            Error::GithubAppNoAccess => 48,
            Error::GithubMultipleOwners => 49,
            Error::RateLimited => 50,
            Error::RateLimitedChangeable => 51,
        }
    }
}

} // verus!
