//! Parts of a conversation message.
use vstd::prelude::*;

verus! {

/// A thinking block of an assistant message.
pub struct Thinking {
    pub text: String,
    pub signature: String,
    pub redacted_thinking: String,
    /// Whether the block is the last part of its message.
    pub is_last_thinking_chunk: bool,
}

} // verus!
