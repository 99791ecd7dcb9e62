//! The OpenAI chat completions API: request and response types.
use std::borrow::Cow;
use vstd::prelude::*;

use super::Role;
use crate::common::model::tri::TriState;

verus! {

/// The content of a message: plain text or a list of parts.
pub enum MessageContent {
    String(String),
    Array(Vec<MessageContentObject>),
}

/// A part of message content.
pub enum MessageContentObject {
    Text { text: String },
    ImageUrl { image_url: ImageUrl },
}

impl MessageContentObject {
    /// The text of a text part; `None` for an image.
    pub fn into_text(self) -> (r: Option<String>)
        ensures
            (match self {
                MessageContentObject::Text { text } => r == Some(text),
                MessageContentObject::ImageUrl { .. } => r is None,
            }),
    {
        match self {
            MessageContentObject::Text { text } => Some(text),
            MessageContentObject::ImageUrl { .. } => None,
        }
    }
}

/// The address of an image.
pub struct ImageUrl {
    pub url: String,
}

/// A chat message.
pub struct Message {
    pub role: Role,
    pub content: MessageContent,
}

/// A chat completion, or a chunk of a streamed one.
pub struct ChatResponse<'a> {
    pub id: &'a str,
    pub object: &'static str,
    pub created: i64,
    pub model: Option<&'static str>,
    pub choices: Option<Choice>,
    pub usage: TriState<Usage>,
}

/// The single choice of a completion.
pub struct Choice {
    pub index: i32,
    pub message: Option<Message>,
    pub delta: Option<Delta>,
    pub finish_reason: bool,
}

/// A piece of a streamed message.
pub struct Delta {
    pub role: Option<Role>,
    pub content: Option<Cow<'static, str>>,
}

/// Details of the prompt token count.
pub struct PromptTokensDetails {
    pub cached_tokens: i32,
}

impl PromptTokensDetails {
    /// Whether no prompt token came from the cache (the details are then left
    /// out of a response).
    pub fn is_zero(&self) -> (r: bool)
        ensures
            r == (self.cached_tokens == 0),
    {
        self.cached_tokens == 0
    }
}

/// Token counts of a completion.
pub struct Usage {
    pub prompt_tokens: i32,
    pub completion_tokens: i32,
    pub total_tokens: i32,
    pub prompt_tokens_details: PromptTokensDetails,
}

/// A chat completion request.
pub struct ChatRequest {
    pub model: String,
    pub messages: Vec<Message>,
    pub stream: bool,
    pub stream_options: Option<StreamOptions>,
}

/// Options of a streamed request.
pub struct StreamOptions {
    pub include_usage: bool,
}

/// An error as the OpenAI API reports it.
pub struct ErrorDetail {
    pub code: Option<Cow<'static, str>>,
    pub message: Cow<'static, str>,
}

/// An error response of the OpenAI API.
pub struct OpenAiError(pub ErrorDetail);

impl ErrorDetail {
    /// The error response that carries this error.
    pub fn into_openai(self) -> (r: OpenAiError)
        ensures
            r.0 == self,
    {
        OpenAiError(self)
    }
}

} // verus!
