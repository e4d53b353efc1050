//! The Bedrock provider's native request and response shapes.

use vstd::prelude::*;

verus! {

/// Request of a chat completion: the conversation flattened to one string.
#[derive(Clone, Debug, PartialEq)]
pub struct BedrockChatCompletionRequest<F> {
    pub input: String,
    pub model: String,
    pub parameters: Option<BedrockGenerationParameters<F>>,
}

/// Generation parameters of a chat or text completion.
#[derive(Clone, Debug, PartialEq)]
pub struct BedrockGenerationParameters<F> {
    pub temperature: Option<F>,
    pub max_tokens: Option<u32>,
    pub top_p: Option<F>,
    pub n: Option<u32>,
}

/// Response of a chat completion.
#[derive(Clone, Debug, PartialEq)]
pub struct BedrockChatCompletionResponse {
    pub results: Vec<BedrockResult>,
}

/// One generated text of a response.
#[derive(Clone, Debug, PartialEq)]
pub struct BedrockResult {
    pub text: String,
    pub finish_reason: Option<String>,
}

/// Request of embeddings: the texts to embed.
#[derive(Clone, Debug, PartialEq)]
pub struct BedrockEmbeddingsRequest {
    pub input: Vec<String>,
    pub model: String,
}

/// Response of embeddings: one vector per input text.
#[derive(Clone, Debug, PartialEq)]
pub struct BedrockEmbeddingsResponse<F> {
    pub embeddings: Vec<Vec<F>>,
}

/// Request of a text completion.
#[derive(Clone, Debug, PartialEq)]
pub struct BedrockCompletionsRequest<F> {
    pub input: String,
    pub parameters: Option<BedrockGenerationParameters<F>>,
}

/// Response of a text completion.
#[derive(Clone, Debug, PartialEq)]
pub struct BedrockCompletionsResponse {
    pub results: Vec<BedrockResult>,
}

/// One chunk of a streamed response.
#[derive(Clone, Debug, PartialEq)]
pub struct BedrockStreamChunk {
    pub results: Vec<BedrockStreamResult>,
}

/// One partial result of a streamed chunk.
#[derive(Clone, Debug, PartialEq)]
pub struct BedrockStreamResult {
    pub text: String,
    pub finish_reason: Option<String>,
}

/// Token counts as the provider reports them.
#[derive(Clone, Copy, Debug, PartialEq, Eq)]
pub struct BedrockUsageMetadata {
    pub prompt_token_count: i32,
    pub completion_token_count: i32,
    pub total_token_count: i32,
}

} // verus!
