//! The Anthropic messages API: request and response types, and the mapping of
//! media types, roles and stream events to their wire names.
use std::borrow::Cow;
use vstd::prelude::*;

use super::Role;
use crate::text::str_eq;

verus! {

/// A request to create a message.
pub struct MessageCreateParams {
    pub model: String,
    pub messages: Vec<MessageParam>,
    pub max_tokens: usize,
    pub stream: bool,
    pub system: Option<SystemContent>,
    pub thinking: Option<ThinkingConfig>,
    pub tools: Vec<Tool>,
}

/// One message of a request.
pub struct MessageParam {
    pub role: Role,
    pub content: MessageContent,
}

/// The role named `s` in a request: only `user` (or `human`) and `assistant`
/// (or `ai`) are accepted.
pub open spec fn anthropic_role_named(s: Seq<char>) -> Option<Role> {
    if s == "user"@ || s == "human"@ {
        Some(Role::User)
    } else if s == "assistant"@ || s == "ai"@ {
        Some(Role::Assistant)
    } else {
        None
    }
}

/// The role named `s` in a request; `None` for any name but the user and
/// assistant names and their aliases.
pub fn anthropic_role(s: &str) -> (r: Option<Role>)
    ensures
        r == anthropic_role_named(s@),
{
    if str_eq(s, "user") || str_eq(s, "human") {
        Some(Role::User)
    } else if str_eq(s, "assistant") || str_eq(s, "ai") {
        Some(Role::Assistant)
    } else {
        None
    }
}

/// The content of a message: plain text or a list of blocks.
pub enum MessageContent {
    String(String),
    Array(Vec<ContentBlockParam>),
}

/// A block of message content.
pub enum ContentBlockParam {
    Text { text: String },
    Image { source: ImageSource },
    Thinking { thinking: String, signature: String },
    RedactedThinking { data: String },
}

/// Where an image comes from.
pub enum ImageSource {
    Base64 { media_type: MediaType, data: String },
    Url { url: String },
}

/// The image types that a request may carry.
#[derive(Clone, Copy, Debug, PartialEq, Eq, Structural)]
pub enum MediaType {
    ImageJpeg,
    ImagePng,
    ImageGif,
    ImageWebp,
}

/// The media type with MIME name `mime`.
pub open spec fn media_type_named(mime: Seq<char>) -> Option<MediaType> {
    if mime == "image/jpeg"@ {
        Some(MediaType::ImageJpeg)
    } else if mime == "image/png"@ {
        Some(MediaType::ImagePng)
    } else if mime == "image/gif"@ {
        Some(MediaType::ImageGif)
    } else if mime == "image/webp"@ {
        Some(MediaType::ImageWebp)
    } else {
        None
    }
}

impl MediaType {
    /// The media type with MIME name `mime`; `None` for an unsupported type.
    pub fn from_mime(mime: &str) -> (r: Option<Self>)
        ensures
            r == media_type_named(mime@),
    {
        if str_eq(mime, "image/jpeg") {
            Some(MediaType::ImageJpeg)
        } else if str_eq(mime, "image/png") {
            Some(MediaType::ImagePng)
        } else if str_eq(mime, "image/gif") {
            Some(MediaType::ImageGif)
        } else if str_eq(mime, "image/webp") {
            Some(MediaType::ImageWebp)
        } else {
            None
        }
    }
}

/// The system prompt: plain text or a list of text blocks.
pub enum SystemContent {
    String(String),
    Array(Vec<TextBlockParam>),
}

/// A text block.
pub struct TextBlockParam {
    pub text: String,
}

/// A key of a text block's JSON object.
#[derive(Clone, Copy, Debug, PartialEq, Eq, Structural)]
pub enum TextBlockKey {
    /// `type`, which must say `text`.
    Type,
    /// `text`, the block's text.
    Text,
    /// Any other key, whose value is ignored.
    Other,
}

impl TextBlockKey {
    /// The key named `s`.
    pub fn from_name(s: &str) -> (r: TextBlockKey)
        ensures
            r == (if s@ == "type"@ {
                TextBlockKey::Type
            } else if s@ == "text"@ {
                TextBlockKey::Text
            } else {
                TextBlockKey::Other
            }),
    {
        if str_eq(s, "type") {
            TextBlockKey::Type
        } else if str_eq(s, "text") {
            TextBlockKey::Text
        } else {
            TextBlockKey::Other
        }
    }
}

/// Why a JSON object is not a text block.
#[derive(Debug)]
pub enum TextBlockError {
    /// `type` occurs twice.
    DuplicateType,
    /// `type` says something other than `text`.
    WrongType(String),
    /// `text` occurs twice.
    DuplicateText,
    /// There is no `text`.
    MissingText,
}

/// What has been read of a text block's JSON object so far.
pub struct TextBlockReader {
    pub type_seen: bool,
    pub text: Option<String>,
}

impl TextBlockReader {
    /// Nothing read yet.
    pub fn new() -> (r: Self)
        ensures
            !r.type_seen,
            r.text is None,
    {
        TextBlockReader { type_seen: false, text: None }
    }

    /// Reads the value of `type`: refused when `type` was read before, or
    /// when the value is not `text`.
    pub fn accept_type(&mut self, value: String) -> (r: Result<(), TextBlockError>)
        ensures
            old(self).type_seen ==> (r matches Err(TextBlockError::DuplicateType) && final(self).type_seen
                && final(self).text == old(self).text),
            !old(self).type_seen && value@ != "text"@ ==> (r matches Err(TextBlockError::WrongType(v)) && v@ == value@
                && final(self).type_seen == old(self).type_seen && final(self).text == old(self).text),
            !old(self).type_seen && value@ == "text"@ ==> (r is Ok && final(self).type_seen && final(self).text
                == old(self).text),
    {
        if self.type_seen {
            return Err(TextBlockError::DuplicateType);
        }
        if !str_eq(value.as_str(), "text") {
            return Err(TextBlockError::WrongType(value));
        }
        self.type_seen = true;
        Ok(())
    }

    /// Reads the value of `text`: refused when `text` was read before.
    pub fn accept_text(&mut self, value: String) -> (r: Result<(), TextBlockError>)
        ensures
            old(self).text is Some ==> (r matches Err(TextBlockError::DuplicateText) && final(self).type_seen
                == old(self).type_seen && final(self).text == old(self).text),
            old(self).text is None ==> (r is Ok && final(self).type_seen == old(self).type_seen
                && final(self).text == Some(value)),
    {
        if self.text.is_some() {
            return Err(TextBlockError::DuplicateText);
        }
        self.text = Some(value);
        Ok(())
    }

    /// The block read: its text, or `MissingText` when there was none.
    pub fn finish(self) -> (r: Result<TextBlockParam, TextBlockError>)
        ensures
            match self.text {
                Some(t) => r matches Ok(b) && b.text == t,
                None => r matches Err(TextBlockError::MissingText),
            },
    {
        match self.text {
            Some(text) => Ok(TextBlockParam { text }),
            None => Err(TextBlockError::MissingText),
        }
    }
}

/// Whether extended thinking is on.
pub enum ThinkingConfig {
    Enabled { budget_tokens: i64 },
    Disabled,
}

/// The JSON schema of a tool's input.
pub struct ToolInputSchema {
    pub schema_type: ToolInputSchemaType,
    /// The properties, each name once.
    pub properties: Vec<(String, PropertySchema)>,
    pub required: Vec<String>,
}

/// The type of a tool input schema.
#[derive(Clone, Copy, Debug, PartialEq, Eq, Structural)]
pub enum ToolInputSchemaType {
    Object,
}

/// The schema of one property.
pub struct PropertySchema {
    pub property_type: String,
    pub description: Option<String>,
}

/// A tool that the model may call.
pub struct Tool {
    pub input_schema: ToolInputSchema,
    pub name: String,
    pub description: Option<String>,
}

/// Token counts of a message.
pub struct Usage {
    pub input_tokens: i32,
    pub output_tokens: i32,
    pub cache_creation_input_tokens: i32,
    pub cache_read_input_tokens: i32,
}

/// Token counts reported with a message delta.
pub struct MessageDeltaUsage {
    pub input_tokens: Option<i32>,
    pub output_tokens: i32,
    pub cache_creation_input_tokens: i32,
    pub cache_read_input_tokens: i32,
}

/// Whether a count is zero (a zero cache count is left out of a response).
pub fn i32_is_zero(i: &i32) -> (r: bool)
    ensures
        r == (*i == 0),
{
    *i == 0
}

/// A complete assistant message.
pub struct Message<'a> {
    pub content: Vec<ContentBlock>,
    pub usage: Usage,
    pub id: &'a str,
    pub model: &'static str,
}

/// The end of a message: it always stops at the end of its turn.
pub struct MessageDelta;

/// A block of response content.
pub enum ContentBlock {
    Text { text: String },
    Thinking { thinking: String, signature: String },
    RedactedThinking { data: String },
}

/// A piece of a content block in a stream.
pub enum RawContentBlockDelta {
    TextDelta { text: String },
    ThinkingDelta { thinking: String },
    SignatureDelta { signature: String },
}

/// An error as the Anthropic API reports it.
pub struct ErrorDetail {
    pub error_type: &'static str,
    pub message: Cow<'static, str>,
}

/// An event of a streamed response.
pub enum RawMessageStreamEvent<'a> {
    MessageStart { message: Message<'a> },
    MessageDelta { delta: MessageDelta, usage: MessageDeltaUsage },
    ContentBlockStart { index: u32, content_block: ContentBlock },
    ContentBlockDelta { index: u32, delta: RawContentBlockDelta },
    ContentBlockStop { index: u32 },
    Ping,
    Error { error: ErrorDetail },
}

/// The wire name of a stream event.
pub open spec fn event_type_name(e: RawMessageStreamEvent) -> Seq<char> {
    match e {
        RawMessageStreamEvent::MessageStart { .. } => "message_start"@,
        RawMessageStreamEvent::MessageDelta { .. } => "message_delta"@,
        RawMessageStreamEvent::ContentBlockStart { .. } => "content_block_start"@,
        RawMessageStreamEvent::ContentBlockDelta { .. } => "content_block_delta"@,
        RawMessageStreamEvent::ContentBlockStop { .. } => "content_block_stop"@,
        RawMessageStreamEvent::Ping => "ping"@,
        RawMessageStreamEvent::Error { .. } => "error"@,
    }
}

impl<'a> RawMessageStreamEvent<'a> {
    /// The wire name of this event.
    pub fn event_type(&self) -> (r: &'static str)
        ensures
            r@ == event_type_name(*self),
    {
        match self {
            RawMessageStreamEvent::MessageStart { .. } => "message_start",
            RawMessageStreamEvent::MessageDelta { .. } => "message_delta",
            RawMessageStreamEvent::ContentBlockStart { .. } => "content_block_start",
            RawMessageStreamEvent::ContentBlockDelta { .. } => "content_block_delta",
            RawMessageStreamEvent::ContentBlockStop { .. } => "content_block_stop",
            RawMessageStreamEvent::Ping => "ping",
            RawMessageStreamEvent::Error { .. } => "error",
        }
    }
}

/// An error response of the Anthropic API.
pub struct AnthropicError(pub ErrorDetail);

impl ErrorDetail {
    /// The error response that carries this error.
    pub fn into_anthropic(self) -> (r: AnthropicError)
        ensures
            r.0 == self,
    {
        AnthropicError(self)
    }
}

} // verus!
