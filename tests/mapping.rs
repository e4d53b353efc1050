use bedrock_mapping::bedrock::{
    BedrockChatCompletionRequest, BedrockChatCompletionResponse, BedrockEmbeddingsRequest,
    BedrockEmbeddingsResponse, BedrockResult, BedrockStreamChunk, BedrockStreamResult,
};
use bedrock_mapping::config::{MapperConfig, DEFAULT_MAX_TOKENS};
use bedrock_mapping::inbound::ASSISTANT_ROLE;
use bedrock_mapping::outbound::{flatten_content, flatten_messages};
use bedrock_mapping::unified::{
    ChatCompletion, ChatCompletionChunk, ChatCompletionMessage, ChatCompletionRequest,
    ChatMessageContent, ChatMessageContentPart, EmbeddingsInput, EmbeddingsRequest,
    EmbeddingsResponse,
};

fn text_message(text: &str) -> ChatCompletionMessage {
    ChatCompletionMessage {
        role: "user".to_string(),
        content: Some(ChatMessageContent::String(text.to_string())),
        name: None,
    }
}

fn parts_message(texts: &[&str]) -> ChatCompletionMessage {
    ChatCompletionMessage {
        role: "user".to_string(),
        content: Some(ChatMessageContent::Array(
            texts
                .iter()
                .map(|t| ChatMessageContentPart { part_type: "text".to_string(), text: t.to_string() })
                .collect(),
        )),
        name: None,
    }
}

fn request(messages: Vec<ChatCompletionMessage>) -> ChatCompletionRequest<f32> {
    ChatCompletionRequest {
        model: "any".to_string(),
        messages,
        temperature: None,
        top_p: None,
        n: None,
        max_tokens: None,
    }
}

fn result(text: &str, reason: Option<&str>) -> BedrockResult {
    BedrockResult { text: text.to_string(), finish_reason: reason.map(|r| r.to_string()) }
}

fn custom_config() -> MapperConfig {
    MapperConfig {
        chat_model: "chat-x".to_string(),
        embedding_model: "embed-x".to_string(),
        default_max_tokens: 77,
    }
}

#[test]
fn string_and_array_messages_flatten_to_lines() {
    let req = request(vec![text_message("Hello"), parts_message(&["Hi", "there"])]);
    let mapped: BedrockChatCompletionRequest<f32> = req.into();
    assert_eq!(mapped.input, "Hello\nHi there");
    assert_eq!(mapped.model, "bedrock-model");
}

#[test]
fn empty_conversation_gives_empty_input() {
    let mapped = BedrockChatCompletionRequest::from(request(vec![]));
    assert_eq!(mapped.input, "");
}

#[test]
fn absent_content_contributes_empty_line() {
    let silent = ChatCompletionMessage { role: "user".to_string(), content: None, name: None };
    let msgs = vec![text_message("a"), silent, text_message("b")];
    assert_eq!(flatten_messages(&msgs), "a\n\nb");
}

#[test]
fn array_parts_join_with_single_spaces() {
    let m = parts_message(&["one", "two", "three"]);
    assert_eq!(flatten_content(&m.content), "one two three");
    let empty = parts_message(&[]);
    assert_eq!(flatten_content(&empty.content), "");
    assert_eq!(flatten_content(&None), "");
}

#[test]
fn missing_max_tokens_takes_default() {
    let mapped = BedrockChatCompletionRequest::from(request(vec![text_message("x")]));
    let params = mapped.parameters.expect("parameters are always sent");
    assert_eq!(params.max_tokens, Some(DEFAULT_MAX_TOKENS));

    let config = custom_config();
    let mapped = BedrockChatCompletionRequest::from_request(request(vec![]), &config);
    assert_eq!(mapped.parameters.unwrap().max_tokens, Some(77));
    assert_eq!(mapped.model, "chat-x");
}

#[test]
fn explicit_controls_pass_through() {
    let mut req = request(vec![text_message("x")]);
    req.max_tokens = Some(100);
    req.temperature = Some(0.5);
    req.top_p = Some(0.9);
    req.n = Some(3);
    let params = BedrockChatCompletionRequest::from(req).parameters.unwrap();
    assert_eq!(params.max_tokens, Some(100));
    assert_eq!(params.temperature, Some(0.5));
    assert_eq!(params.top_p, Some(0.9));
    assert_eq!(params.n, Some(3));
}

#[test]
fn single_embeddings_input_becomes_one_element() {
    let req = EmbeddingsRequest { model: "m".to_string(), input: EmbeddingsInput::Single("a".to_string()) };
    let mapped = BedrockEmbeddingsRequest::from(req);
    assert_eq!(mapped.input, vec!["a".to_string()]);
    assert_eq!(mapped.model, "bedrock-embedding-model");
}

#[test]
fn multiple_embeddings_inputs_pass_through() {
    let req = EmbeddingsRequest {
        model: "m".to_string(),
        input: EmbeddingsInput::Multiple(vec!["a".to_string(), "b".to_string()]),
    };
    let mapped = BedrockEmbeddingsRequest::from_request(req, &custom_config());
    assert_eq!(mapped.input, vec!["a".to_string(), "b".to_string()]);
    assert_eq!(mapped.model, "embed-x");
}

#[test]
fn single_result_maps_to_one_choice() {
    let response = BedrockChatCompletionResponse { results: vec![result("Paris", Some("stop"))] };
    let completion = ChatCompletion::from(response);
    assert_eq!(completion.choices.len(), 1);
    let choice = &completion.choices[0];
    assert_eq!(choice.index, 0);
    assert_eq!(choice.message.content, Some(ChatMessageContent::String("Paris".to_string())));
    assert_eq!(choice.message.role, ASSISTANT_ROLE);
    assert_eq!(choice.finish_reason, Some("stop".to_string()));
    assert_eq!(completion.usage.prompt_tokens, 0);
    assert_eq!(completion.usage.completion_tokens, 0);
    assert_eq!(completion.usage.total_tokens, 0);
    assert_eq!(completion.model, "bedrock-model");
    assert_eq!(completion.object, None);
    assert_eq!(completion.created, None);
}

#[test]
fn results_map_to_choices_in_order() {
    let response = BedrockChatCompletionResponse {
        results: vec![result("a", Some("length")), result("b", None), result("c", Some("stop"))],
    };
    let completion = ChatCompletion::from_response(&response, "id-1".to_string(), "model", &custom_config());
    assert_eq!(completion.id, "id-1");
    assert_eq!(completion.model, "chat-x");
    assert_eq!(completion.choices.len(), 3);
    for (i, choice) in completion.choices.iter().enumerate() {
        assert_eq!(choice.index, i);
        assert_eq!(choice.message.role, "model");
        assert_eq!(choice.finish_reason, response.results[i].finish_reason);
        assert_eq!(
            choice.message.content,
            Some(ChatMessageContent::String(response.results[i].text.clone()))
        );
    }
}

#[test]
fn empty_response_has_no_choices() {
    let completion = ChatCompletion::from(BedrockChatCompletionResponse { results: vec![] });
    assert!(completion.choices.is_empty());
}

#[test]
fn identical_responses_get_distinct_identifiers() {
    let a = ChatCompletion::from(BedrockChatCompletionResponse { results: vec![result("x", None)] });
    let b = ChatCompletion::from(BedrockChatCompletionResponse { results: vec![result("x", None)] });
    assert_ne!(a.id, b.id);
    assert_eq!(a.id.len(), 36);
    let bytes = a.id.as_bytes();
    assert_eq!((bytes[8], bytes[13], bytes[18], bytes[23]), (b'-', b'-', b'-', b'-'));
    assert_eq!(bytes[14], b'4');
}

#[test]
fn stream_results_map_to_deltas_in_order() {
    let chunk = BedrockStreamChunk {
        results: vec![
            BedrockStreamResult { text: "Hel".to_string(), finish_reason: None },
            BedrockStreamResult { text: "lo".to_string(), finish_reason: Some("stop".to_string()) },
        ],
    };
    let mapped = ChatCompletionChunk::from_chunk(&chunk, "c-1".to_string(), &custom_config());
    assert_eq!(mapped.id, "c-1");
    assert_eq!(mapped.model, "chat-x");
    assert_eq!(mapped.choices.len(), 2);
    assert_eq!(mapped.choices[0].index, 0);
    assert_eq!(mapped.choices[0].delta.content, Some("Hel".to_string()));
    assert_eq!(mapped.choices[0].delta.role, None);
    assert_eq!(mapped.choices[0].finish_reason, None);
    assert_eq!(mapped.choices[1].index, 1);
    assert_eq!(mapped.choices[1].delta.content, Some("lo".to_string()));
    assert_eq!(mapped.choices[1].finish_reason, Some("stop".to_string()));
    let fresh = ChatCompletionChunk::from(chunk);
    assert_eq!(fresh.id.len(), 36);
}

#[test]
fn embedding_usage_counts_components() {
    let response = BedrockEmbeddingsResponse {
        embeddings: vec![vec![0.1f32, 0.2, 0.3], vec![1.0f32, 2.0, 3.0, 4.0, 5.0]],
    };
    let mapped = EmbeddingsResponse::from(response.clone());
    assert_eq!(mapped.usage.prompt_tokens, 8);
    assert_eq!(mapped.usage.completion_tokens, 0);
    assert_eq!(mapped.usage.total_tokens, 8);
    assert_eq!(mapped.data.len(), 2);
    assert_eq!(mapped.data[0].index, 0);
    assert_eq!(mapped.data[1].index, 1);
    assert_eq!(mapped.data[0].embedding, response.embeddings[0]);
    assert_eq!(mapped.data[1].embedding, response.embeddings[1]);
    assert_eq!(mapped.data[0].object, "embedding");
    assert_eq!(mapped.object, "list");
    assert_eq!(mapped.model, "bedrock-embedding-model");
}

#[test]
fn empty_embeddings_response_counts_zero() {
    let response: BedrockEmbeddingsResponse<f32> = BedrockEmbeddingsResponse { embeddings: vec![] };
    let mapped = EmbeddingsResponse::from_response(response, &custom_config());
    assert!(mapped.data.is_empty());
    assert_eq!(mapped.usage.prompt_tokens, 0);
    assert_eq!(mapped.usage.total_tokens, 0);
    assert_eq!(mapped.model, "embed-x");
}

#[test]
fn embedding_count_over_vectors() {
    let vectors: Vec<Vec<u8>> = vec![vec![], vec![1, 2], vec![3]];
    assert_eq!(bedrock_mapping::inbound::count_components(&vectors), 3);
}
