//! The provider-neutral request and response model.
//!
//! Floating-point values (sampling controls, embedding components) are
//! carried as an opaque type parameter `F`: the mappers move them and
//! never read them.

use vstd::prelude::*;

verus! {

/// One typed part of an array-valued message content.
#[derive(Clone, Debug, PartialEq)]
pub struct ChatMessageContentPart {
    pub part_type: String,
    pub text: String,
}

/// The content of a message: plain text, or an ordered sequence of parts.
#[derive(Clone, Debug, PartialEq)]
pub enum ChatMessageContent {
    String(String),
    Array(Vec<ChatMessageContentPart>),
}

/// A message of a conversation.
#[derive(Clone, Debug, PartialEq)]
pub struct ChatCompletionMessage {
    pub role: String,
    pub content: Option<ChatMessageContent>,
    pub name: Option<String>,
}

/// A chat request: the conversation and optional generation controls.
#[derive(Clone, Debug, PartialEq)]
pub struct ChatCompletionRequest<F> {
    pub model: String,
    pub messages: Vec<ChatCompletionMessage>,
    pub temperature: Option<F>,
    pub top_p: Option<F>,
    pub n: Option<i32>,
    pub max_tokens: Option<u32>,
}

/// Token accounting of a response.
#[derive(Clone, Copy, Debug, PartialEq, Eq)]
pub struct Usage {
    pub prompt_tokens: u32,
    pub completion_tokens: u32,
    pub total_tokens: u32,
}

/// One generated alternative of a chat completion.
#[derive(Clone, Debug, PartialEq)]
pub struct ChatCompletionChoice {
    pub index: usize,
    pub message: ChatCompletionMessage,
    pub finish_reason: Option<String>,
}

/// A complete chat response.
#[derive(Clone, Debug, PartialEq)]
pub struct ChatCompletion {
    pub id: String,
    pub object: Option<String>,
    pub created: Option<u64>,
    pub model: String,
    pub choices: Vec<ChatCompletionChoice>,
    pub usage: Usage,
}

/// The text, or texts, to embed.
#[derive(Clone, Debug, PartialEq)]
pub enum EmbeddingsInput {
    Single(String),
    Multiple(Vec<String>),
}

/// An embeddings request.
#[derive(Clone, Debug, PartialEq)]
pub struct EmbeddingsRequest {
    pub model: String,
    pub input: EmbeddingsInput,
}

/// One embedding vector and its position in the response.
#[derive(Clone, Debug, PartialEq)]
pub struct Embeddings<F> {
    pub object: String,
    pub embedding: Vec<F>,
    pub index: usize,
}

/// An embeddings response: one record per input text.
#[derive(Clone, Debug, PartialEq)]
pub struct EmbeddingsResponse<F> {
    pub object: String,
    pub data: Vec<Embeddings<F>>,
    pub model: String,
    pub usage: Usage,
}

/// The increment that one streamed choice adds.
#[derive(Clone, Debug, PartialEq)]
pub struct ChoiceDelta {
    pub role: Option<String>,
    pub content: Option<String>,
}

/// One choice of a streamed chunk.
#[derive(Clone, Debug, PartialEq)]
pub struct Choice {
    pub index: usize,
    pub delta: ChoiceDelta,
    pub finish_reason: Option<String>,
}

/// One chunk of a streamed chat response.
#[derive(Clone, Debug, PartialEq)]
pub struct ChatCompletionChunk {
    pub id: String,
    pub model: String,
    pub choices: Vec<Choice>,
}

impl Usage {
    /// All three counts zero.
    pub fn zero() -> (r: Usage)
        ensures
            r.prompt_tokens == 0,
            r.completion_tokens == 0,
            r.total_tokens == 0,
    {
        Usage { prompt_tokens: 0, completion_tokens: 0, total_tokens: 0 }
    }
}

} // verus!
