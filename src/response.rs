//! Shapes of a language model's streamed response that the assistant reads.
use vstd::prelude::*;

verus! {

/// Token counts that a model reports for one request.
#[derive(Clone, Copy, PartialEq, Eq, Structural, Debug)]
pub struct LanguageModelUsage {
    pub prompt_tokens: u32,
    pub completion_tokens: u32,
    pub total_tokens: u32,
}

/// Who wrote a message.
#[derive(Clone, Copy, PartialEq, Eq, Structural, Debug)]
pub enum Role {
    User,
    Assistant,
    System,
}

/// A piece of a streamed message: the role, where it is given, and the text
/// that arrived.
#[derive(Debug)]
pub struct LanguageModelResponseMessage {
    pub role: Option<Role>,
    pub content: Option<String>,
}

/// One choice's increment in a streamed response.
#[derive(Debug)]
pub struct LanguageModelChoiceDelta {
    pub index: u32,
    pub delta: LanguageModelResponseMessage,
    pub finish_reason: Option<String>,
}

} // verus!
