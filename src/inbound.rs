//! Bedrock responses to unified responses.

use vstd::prelude::*;
use vstd::string::*;

use crate::bedrock::{BedrockChatCompletionResponse, BedrockEmbeddingsResponse, BedrockResult, BedrockStreamChunk, BedrockStreamResult};
use crate::config::MapperConfig;
use crate::ids::fresh_uuid;
use crate::unified::{
    ChatCompletion, ChatCompletionChoice, ChatCompletionChunk, ChatCompletionMessage,
    ChatMessageContent, Choice, ChoiceDelta, Embeddings, EmbeddingsResponse, Usage,
};

verus! {

/// The role given to generated messages when the caller names none; the
/// provider's results carry no role of their own.
pub const ASSISTANT_ROLE: &'static str = "assistant";

/// `c` is the choice at position `i` made from `res`: the text as plain-string
/// content under `role`, the finish reason carried through as it is.
pub open spec fn choice_of_result(
    c: ChatCompletionChoice,
    res: BedrockResult,
    i: int,
    role: Seq<char>,
) -> bool {
    &&& c.index == i
    &&& c.message.role@ == role
    &&& c.message.content == Some(ChatMessageContent::String(res.text))
    &&& c.message.name.is_none()
    &&& c.finish_reason == res.finish_reason
}

/// `c` is the streamed choice at position `i` made from `res`: the text as
/// the content delta, the finish reason carried through as it is.
pub open spec fn choice_of_stream_result(c: Choice, res: BedrockStreamResult, i: int) -> bool {
    &&& c.index == i
    &&& c.delta.role.is_none()
    &&& c.delta.content == Some(res.text)
    &&& c.finish_reason == res.finish_reason
}

/// All three counts are zero.
pub open spec fn is_zero_usage(u: Usage) -> bool {
    u.prompt_tokens == 0 && u.completion_tokens == 0 && u.total_tokens == 0
}

fn clone_reason(reason: &Option<String>) -> (r: Option<String>)
    ensures
        r == *reason,
{
    match reason {
        Some(s) => Some(s.clone()),
        None => None,
    }
}

impl ChatCompletion {
    /// Maps a provider chat response: one choice per result, at the same
    /// position, under the identifier `id` and the configured chat model,
    /// with no object tag, no creation time and all-zero usage.
    pub fn from_response(
        response: &BedrockChatCompletionResponse,
        id: String,
        role: &str,
        config: &MapperConfig,
    ) -> (r: ChatCompletion)
        ensures
            r.id == id,
            r.object.is_none(),
            r.created.is_none(),
            r.model@ == config.chat_model@,
            r.choices@.len() == response.results@.len(),
            forall|i: int|
                0 <= i < r.choices@.len() ==> choice_of_result(
                    #[trigger] r.choices@[i],
                    response.results@[i],
                    i,
                    role@,
                ),
            is_zero_usage(r.usage),
    {
        let mut choices: Vec<ChatCompletionChoice> = Vec::new();
        let mut i: usize = 0;
        while i < response.results.len()
            invariant
                i <= response.results@.len(),
                choices@.len() == i,
                forall|j: int|
                    0 <= j < i ==> choice_of_result(
                        #[trigger] choices@[j],
                        response.results@[j],
                        j,
                        role@,
                    ),
            decreases response.results@.len() - i,
        {
            let result = &response.results[i];
            let choice = ChatCompletionChoice {
                index: i,
                message: ChatCompletionMessage {
                    role: String::from_str(role),
                    content: Some(ChatMessageContent::String(result.text.clone())),
                    name: None,
                },
                finish_reason: clone_reason(&result.finish_reason),
            };
            choices.push(choice);
            i = i + 1;
        }
        ChatCompletion {
            id,
            object: None,
            created: None,
            model: config.chat_model.clone(),
            choices,
            usage: Usage::zero(),
        }
    }
}

/// Maps under a fresh random identifier, the assistant role and the
/// placeholder chat model (`MapperConfig::bedrock_defaults`).
impl From<BedrockChatCompletionResponse> for ChatCompletion {
    fn from(response: BedrockChatCompletionResponse) -> (r: Self)
        ensures
            r.id@.len() == 36,
            r.id@[8] == '-',
            r.id@[13] == '-',
            r.id@[14] == '4',
            r.id@[18] == '-',
            r.id@[23] == '-',
            r.object.is_none(),
            r.created.is_none(),
            r.model@ == "bedrock-model"@,
            r.choices@.len() == response.results@.len(),
            forall|i: int|
                0 <= i < r.choices@.len() ==> choice_of_result(
                    #[trigger] r.choices@[i],
                    response.results@[i],
                    i,
                    ASSISTANT_ROLE@,
                ),
            is_zero_usage(r.usage),
    {
        let config = MapperConfig::bedrock_defaults();
        ChatCompletion::from_response(&response, fresh_uuid(), ASSISTANT_ROLE, &config)
    }
}

impl vstd::std_specs::convert::FromSpecImpl<BedrockChatCompletionResponse> for ChatCompletion {
    open spec fn obeys_from_spec() -> bool {
        false
    }

    open spec fn from_spec(v: BedrockChatCompletionResponse) -> Self {
        arbitrary()
    }
}

impl ChatCompletionChunk {
    /// Maps a provider stream chunk: one choice per partial result, at the
    /// same position, under the identifier `id` and the configured chat model.
    pub fn from_chunk(chunk: &BedrockStreamChunk, id: String, config: &MapperConfig) -> (r:
        ChatCompletionChunk)
        ensures
            r.id == id,
            r.model@ == config.chat_model@,
            r.choices@.len() == chunk.results@.len(),
            forall|i: int|
                0 <= i < r.choices@.len() ==> choice_of_stream_result(
                    #[trigger] r.choices@[i],
                    chunk.results@[i],
                    i,
                ),
    {
        let mut choices: Vec<Choice> = Vec::new();
        let mut i: usize = 0;
        while i < chunk.results.len()
            invariant
                i <= chunk.results@.len(),
                choices@.len() == i,
                forall|j: int|
                    0 <= j < i ==> choice_of_stream_result(
                        #[trigger] choices@[j],
                        chunk.results@[j],
                        j,
                    ),
            decreases chunk.results@.len() - i,
        {
            let result = &chunk.results[i];
            let choice = Choice {
                index: i,
                delta: ChoiceDelta { role: None, content: Some(result.text.clone()) },
                finish_reason: clone_reason(&result.finish_reason),
            };
            choices.push(choice);
            i = i + 1;
        }
        ChatCompletionChunk { id, model: config.chat_model.clone(), choices }
    }
}

/// Maps under a fresh random identifier and the placeholder chat model
/// (`MapperConfig::bedrock_defaults`).
impl From<BedrockStreamChunk> for ChatCompletionChunk {
    fn from(chunk: BedrockStreamChunk) -> (r: Self)
        ensures
            r.id@.len() == 36,
            r.id@[8] == '-',
            r.id@[13] == '-',
            r.id@[14] == '4',
            r.id@[18] == '-',
            r.id@[23] == '-',
            r.model@ == "bedrock-model"@,
            r.choices@.len() == chunk.results@.len(),
            forall|i: int|
                0 <= i < r.choices@.len() ==> choice_of_stream_result(
                    #[trigger] r.choices@[i],
                    chunk.results@[i],
                    i,
                ),
    {
        let config = MapperConfig::bedrock_defaults();
        ChatCompletionChunk::from_chunk(&chunk, fresh_uuid(), &config)
    }
}

impl vstd::std_specs::convert::FromSpecImpl<BedrockStreamChunk> for ChatCompletionChunk {
    open spec fn obeys_from_spec() -> bool {
        false
    }

    open spec fn from_spec(v: BedrockStreamChunk) -> Self {
        arbitrary()
    }
}

/// The number of components over all the vectors.
pub open spec fn total_components<F>(vectors: Seq<Vec<F>>) -> nat
    decreases vectors.len(),
{
    if vectors.len() == 0 {
        0
    } else {
        total_components(vectors.drop_last()) + vectors.last()@.len()
    }
}

/// A count as a `u32`, saturating at the type's maximum.
pub open spec fn saturated(n: nat) -> u32 {
    if n > u32::MAX {
        u32::MAX
    } else {
        n as u32
    }
}

/// `e` is the record at position `i` made from `vector`, left untransformed.
pub open spec fn record_of_vector<F>(e: Embeddings<F>, vector: Vec<F>, i: int) -> bool {
    &&& e.object@ == "embedding"@
    &&& e.embedding == vector
    &&& e.index == i
}

/// Counts the components of all the vectors, saturating at `u32::MAX`.
pub fn count_components<F>(vectors: &Vec<Vec<F>>) -> (r: u32)
    ensures
        r == saturated(total_components(vectors@)),
{
    let mut count: u32 = 0;
    let mut i: usize = 0;
    while i < vectors.len()
        invariant
            i <= vectors@.len(),
            count == saturated(total_components(vectors@.take(i as int))),
        decreases vectors@.len() - i,
    {
        proof {
            assert(vectors@.take(i as int + 1).drop_last() =~= vectors@.take(i as int));
        }
        let len = vectors[i].len();
        if len >= (u32::MAX - count) as usize {
            count = u32::MAX;
        } else {
            count = count + len as u32;
        }
        i = i + 1;
    }
    proof {
        assert(vectors@.take(i as int) =~= vectors@);
    }
    count
}

/// The same items in reverse order.
fn reversed<T>(v: Vec<T>) -> (r: Vec<T>)
    ensures
        r@ =~= v@.reverse(),
{
    let mut rest = v;
    let mut out: Vec<T> = Vec::new();
    while rest.len() > 0
        invariant
            rest@.len() + out@.len() == v@.len(),
            rest@ =~= v@.take(rest@.len() as int),
            forall|j: int| 0 <= j < out@.len() ==> #[trigger] out@[j] == v@[v@.len() - 1 - j],
        decreases rest@.len(),
    {
        let item = rest.pop().unwrap();
        out.push(item);
    }
    out
}

impl<F> EmbeddingsResponse<F> {
    /// Maps a provider embeddings response: one record per vector, at the
    /// same position, holding the vector untransformed; the configured
    /// embedding model; and usage whose prompt count is the total number of
    /// components (saturating at `u32::MAX`), with no completion tokens.
    pub fn from_response(response: BedrockEmbeddingsResponse<F>, config: &MapperConfig) -> (r:
        EmbeddingsResponse<F>)
        ensures
            r.object@ == "list"@,
            r.model@ == config.embedding_model@,
            r.data@.len() == response.embeddings@.len(),
            forall|i: int|
                0 <= i < r.data@.len() ==> record_of_vector(
                    #[trigger] r.data@[i],
                    response.embeddings@[i],
                    i,
                ),
            r.usage.prompt_tokens == saturated(total_components(response.embeddings@)),
            total_components(response.embeddings@) <= u32::MAX ==> r.usage.prompt_tokens
                == total_components(response.embeddings@),
            r.usage.completion_tokens == 0,
            r.usage.total_tokens == r.usage.prompt_tokens,
    {
        let ghost vectors = response.embeddings@;
        let n = response.embeddings.len();
        let count = count_components(&response.embeddings);
        let mut rest = reversed(response.embeddings);
        let mut data: Vec<Embeddings<F>> = Vec::new();
        let mut i: usize = 0;
        while i < n
            invariant
                n == vectors.len(),
                i <= n,
                rest@.len() == n - i,
                forall|j: int| 0 <= j < n - i ==> #[trigger] rest@[j] == vectors[n - 1 - j],
                data@.len() == i,
                forall|j: int|
                    0 <= j < i ==> record_of_vector(#[trigger] data@[j], vectors[j], j),
            decreases n - i,
        {
            let vector = rest.pop().unwrap();
            proof {
                assert(vector == vectors[i as int]);
            }
            data.push(Embeddings { object: String::from_str("embedding"), embedding: vector, index: i });
            i = i + 1;
        }
        EmbeddingsResponse {
            object: String::from_str("list"),
            data,
            model: config.embedding_model.clone(),
            usage: Usage { prompt_tokens: count, completion_tokens: 0, total_tokens: count },
        }
    }
}

/// Maps with the placeholder embedding model (`MapperConfig::bedrock_defaults`).
impl<F> From<BedrockEmbeddingsResponse<F>> for EmbeddingsResponse<F> {
    fn from(response: BedrockEmbeddingsResponse<F>) -> (r: Self)
        ensures
            r.object@ == "list"@,
            r.model@ == "bedrock-embedding-model"@,
            r.data@.len() == response.embeddings@.len(),
            forall|i: int|
                0 <= i < r.data@.len() ==> record_of_vector(
                    #[trigger] r.data@[i],
                    response.embeddings@[i],
                    i,
                ),
            r.usage.prompt_tokens == saturated(total_components(response.embeddings@)),
            total_components(response.embeddings@) <= u32::MAX ==> r.usage.prompt_tokens
                == total_components(response.embeddings@),
            r.usage.completion_tokens == 0,
            r.usage.total_tokens == r.usage.prompt_tokens,
    {
        let config = MapperConfig::bedrock_defaults();
        EmbeddingsResponse::from_response(response, &config)
    }
}

impl<F> vstd::std_specs::convert::FromSpecImpl<BedrockEmbeddingsResponse<F>> for EmbeddingsResponse<F> {
    open spec fn obeys_from_spec() -> bool {
        false
    }

    open spec fn from_spec(v: BedrockEmbeddingsResponse<F>) -> Self {
        arbitrary()
    }
}

} // verus!
