//! Unified requests to Bedrock requests.

use vstd::prelude::*;
use vstd::string::*;

use crate::bedrock::{BedrockChatCompletionRequest, BedrockEmbeddingsRequest, BedrockGenerationParameters};
use crate::config::{MapperConfig, DEFAULT_MAX_TOKENS};
use crate::text::{join, join_strings, texts};
use crate::unified::{
    ChatCompletionMessage, ChatCompletionRequest, ChatMessageContent, ChatMessageContentPart,
    EmbeddingsInput, EmbeddingsRequest,
};

verus! {

/// The texts of the parts, in order.
pub open spec fn part_texts(parts: Seq<ChatMessageContentPart>) -> Seq<Seq<char>> {
    parts.map_values(|p: ChatMessageContentPart| p.text@)
}

/// A message content as plain text: a string as it is, the parts' texts
/// joined by single spaces, and nothing for absent content.
pub open spec fn content_text(content: Option<ChatMessageContent>) -> Seq<char> {
    match content {
        Some(ChatMessageContent::String(s)) => s@,
        Some(ChatMessageContent::Array(parts)) => join(part_texts(parts@), seq![' ']),
        None => Seq::empty(),
    }
}

/// The texts of the messages, in order.
pub open spec fn message_texts(messages: Seq<ChatCompletionMessage>) -> Seq<Seq<char>> {
    messages.map_values(|m: ChatCompletionMessage| content_text(m.content))
}

/// The whole conversation as one string: the messages' texts joined by newlines.
pub open spec fn flattened_input(messages: Seq<ChatCompletionMessage>) -> Seq<char> {
    join(message_texts(messages), seq!['\n'])
}

/// The max-token limit sent: the request's own, else the default.
pub open spec fn effective_max_tokens(requested: Option<u32>, default: u32) -> u32 {
    match requested {
        Some(m) => m,
        None => default,
    }
}

/// The candidate count narrowed to an unsigned integer.
pub open spec fn narrowed_count(n: Option<i32>) -> Option<u32> {
    match n {
        Some(v) => Some(v as u32),
        None => None,
    }
}

/// The texts that an embeddings request asks to embed, in order.
pub open spec fn embeddings_inputs(input: EmbeddingsInput) -> Seq<String> {
    match input {
        EmbeddingsInput::Single(text) => seq![text],
        EmbeddingsInput::Multiple(texts) => texts@,
    }
}

/// Flattens one message content to plain text.
pub fn flatten_content(content: &Option<ChatMessageContent>) -> (r: String)
    ensures
        r@ == content_text(*content),
{
    match content {
        Some(ChatMessageContent::String(text)) => text.clone(),
        Some(ChatMessageContent::Array(parts)) => {
            let mut pieces: Vec<String> = Vec::new();
            let mut i: usize = 0;
            while i < parts.len()
                invariant
                    i <= parts@.len(),
                    texts(pieces@) =~= part_texts(parts@.take(i as int)),
                decreases parts@.len() - i,
            {
                let ghost prev = pieces@;
                let piece = parts[i].text.clone();
                pieces.push(piece);
                proof {
                    assert(texts(pieces@) =~= texts(prev).push(piece@));
                    assert(part_texts(parts@.take(i as int + 1)) =~= part_texts(
                        parts@.take(i as int),
                    ).push(parts@[i as int].text@));
                }
                i = i + 1;
            }
            proof {
                assert(parts@.take(i as int) =~= parts@);
                reveal_strlit(" ");
                assert(" "@ =~= seq![' ']);
            }
            join_strings(&pieces, " ")
        },
        None => String::new(),
    }
}

/// Flattens a conversation to one string, message by message in order.
pub fn flatten_messages(messages: &Vec<ChatCompletionMessage>) -> (r: String)
    ensures
        r@ == flattened_input(messages@),
{
    let mut pieces: Vec<String> = Vec::new();
    let mut i: usize = 0;
    while i < messages.len()
        invariant
            i <= messages@.len(),
            texts(pieces@) =~= message_texts(messages@.take(i as int)),
        decreases messages@.len() - i,
    {
        let ghost prev = pieces@;
        let piece = flatten_content(&messages[i].content);
        pieces.push(piece);
        proof {
            assert(texts(pieces@) =~= texts(prev).push(piece@));
            assert(message_texts(messages@.take(i as int + 1)) =~= message_texts(
                messages@.take(i as int),
            ).push(content_text(messages@[i as int].content)));
        }
        i = i + 1;
    }
    proof {
        assert(messages@.take(i as int) =~= messages@);
        reveal_strlit("\n");
        assert("\n"@ =~= seq!['\n']);
    }
    join_strings(&pieces, "\n")
}

impl<F> BedrockChatCompletionRequest<F> {
    /// Maps a unified chat request: the conversation flattened to one input
    /// string, the parameter bag always present with the max-token default
    /// applied, and the configured chat model attached.
    pub fn from_request(request: ChatCompletionRequest<F>, config: &MapperConfig) -> (r: Self)
        ensures
            r.input@ == flattened_input(request.messages@),
            r.model@ == config.chat_model@,
            r.parameters == Some(
                (BedrockGenerationParameters {
                    temperature: request.temperature,
                    max_tokens: Some(
                        effective_max_tokens(request.max_tokens, config.default_max_tokens),
                    ),
                    top_p: request.top_p,
                    n: narrowed_count(request.n),
                }),
            ),
    {
        let input = flatten_messages(&request.messages);
        let max_tokens = match request.max_tokens {
            Some(m) => m,
            None => config.default_max_tokens,
        };
        let n = match request.n {
            Some(v) => Some(v as u32),
            None => None,
        };
        BedrockChatCompletionRequest {
            input,
            model: config.chat_model.clone(),
            parameters: Some(
                BedrockGenerationParameters {
                    temperature: request.temperature,
                    max_tokens: Some(max_tokens),
                    top_p: request.top_p,
                    n,
                },
            ),
        }
    }
}

/// Maps with the placeholder model and the system max-token default
/// (`MapperConfig::bedrock_defaults`).
impl<F> From<ChatCompletionRequest<F>> for BedrockChatCompletionRequest<F> {
    fn from(request: ChatCompletionRequest<F>) -> (r: Self)
        ensures
            r.input@ == flattened_input(request.messages@),
            r.model@ == "bedrock-model"@,
            r.parameters == Some(
                (BedrockGenerationParameters {
                    temperature: request.temperature,
                    max_tokens: Some(effective_max_tokens(request.max_tokens, DEFAULT_MAX_TOKENS)),
                    top_p: request.top_p,
                    n: narrowed_count(request.n),
                }),
            ),
    {
        let config = MapperConfig::bedrock_defaults();
        BedrockChatCompletionRequest::from_request(request, &config)
    }
}

impl<F> vstd::std_specs::convert::FromSpecImpl<ChatCompletionRequest<F>> for BedrockChatCompletionRequest<F> {
    open spec fn obeys_from_spec() -> bool {
        false
    }

    open spec fn from_spec(v: ChatCompletionRequest<F>) -> Self {
        arbitrary()
    }
}

impl BedrockEmbeddingsRequest {
    /// Maps a unified embeddings request: a single text becomes a sequence of
    /// one, several pass through in order; the configured embedding model is
    /// attached.
    pub fn from_request(request: EmbeddingsRequest, config: &MapperConfig) -> (r: Self)
        ensures
            r.input@ == embeddings_inputs(request.input),
            r.model@ == config.embedding_model@,
    {
        let input = match request.input {
            EmbeddingsInput::Single(text) => vec![text],
            EmbeddingsInput::Multiple(texts) => texts,
        };
        BedrockEmbeddingsRequest { input, model: config.embedding_model.clone() }
    }
}

/// Maps with the placeholder embedding model (`MapperConfig::bedrock_defaults`).
impl From<EmbeddingsRequest> for BedrockEmbeddingsRequest {
    fn from(request: EmbeddingsRequest) -> (r: Self)
        ensures
            r.input@ == embeddings_inputs(request.input),
            r.model@ == "bedrock-embedding-model"@,
    {
        let config = MapperConfig::bedrock_defaults();
        BedrockEmbeddingsRequest::from_request(request, &config)
    }
}

impl vstd::std_specs::convert::FromSpecImpl<EmbeddingsRequest> for BedrockEmbeddingsRequest {
    open spec fn obeys_from_spec() -> bool {
        false
    }

    open spec fn from_spec(v: EmbeddingsRequest) -> Self {
        arbitrary()
    }
}

} // verus!
