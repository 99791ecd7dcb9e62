//! Errors of the chat endpoints.
use std::borrow::Cow;
use vstd::prelude::*;
use vstd::string::*;

use super::{ApiStatus, GenericError, opt_text};

verus! {

/// A failure of a chat request.
#[derive(Debug)]
pub enum ChatError {
    ModelNotSupported(String),
    EmptyMessages,
    NoTokens,
    RequestFailed(String),
    Unauthorized,
}

/// The error code and message of a chat error.
pub open spec fn spec_chat_error_text(e: ChatError) -> (Seq<char>, Seq<char>) {
    match e {
        ChatError::ModelNotSupported(model) => (
            "model_not_supported"@,
            "Model '"@ + model@ + "' is not supported"@,
        ),
        ChatError::EmptyMessages => ("empty_messages"@, "Message array cannot be empty"@),
        ChatError::NoTokens => ("no_tokens"@, "No available tokens"@),
        ChatError::RequestFailed(err) => ("request_failed"@, "Request failed: "@ + err@),
        ChatError::Unauthorized => ("unauthorized"@, "Invalid authorization token"@),
    }
}

impl ChatError {
    /// The error as a response body: an error status, no HTTP code, and the
    /// error's code and message.
    pub fn to_json(&self) -> (r: GenericError)
        ensures
            r.status == ApiStatus::Error,
            r.code is None,
            opt_text(r.error) == Some(spec_chat_error_text(*self).0),
            opt_text(r.message) == Some(spec_chat_error_text(*self).1),
    {
        let (error, message): (&'static str, String) = match self {
            ChatError::ModelNotSupported(model) => {
                let mut m = String::from_str("Model '");
                m.append(model.as_str());
                m.append("' is not supported");
                ("model_not_supported", m)
            },
            ChatError::EmptyMessages => ("empty_messages", String::from_str("Message array cannot be empty")),
            ChatError::NoTokens => ("no_tokens", String::from_str("No available tokens")),
            ChatError::RequestFailed(err) => {
                let mut m = String::from_str("Request failed: ");
                m.append(err.as_str());
                ("request_failed", m)
            },
            ChatError::Unauthorized => ("unauthorized", String::from_str("Invalid authorization token")),
        };
        GenericError {
            status: ApiStatus::Error,
            code: None,
            error: Some(Cow::Borrowed(error)),
            message: Some(Cow::Owned(message)),
        }
    }
}

} // verus!
