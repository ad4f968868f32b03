use api::backend::BackendReply;
use api::batched::{answer_stage, answer_stage_at, chat, chat_at, reasoning_stage, ReasoningStage};
use api::clock::Timestamp;
use api::config::{
    AnthropicPricing, AppState, Config, DeepSeekPricing, ModelPricing, PricingConfig,
};
use api::credentials::TOKEN_HEADER;
use api::error::{ApiError, Backend, BackendError};
use api::message::{wrap_thinking, BlockKind, ContentBlock, Message, Role};
use api::request::ApiRequest;
use api::response::{shown, ExternalApiResponse, BACKEND_STATUS};
use api::usage::{format_cost, BackendUsage};
use axum::http::{HeaderMap, HeaderValue};
use serde_json::Value;

fn batched_state() -> AppState {
    AppState {
        config: Config {
            pricing: PricingConfig {
                deepseek: DeepSeekPricing {
                    input_cache_hit_price: 140_000,
                    input_cache_miss_price: 550_000,
                    output_price: 2_190_000,
                },
                anthropic: AnthropicPricing {
                    claude_3_sonnet: ModelPricing {
                        input_price: 3_000_000,
                        output_price: 15_000_000,
                        cache_write_price: 3_750_000,
                        cache_read_price: 300_000,
                    },
                },
            },
        },
    }
}

fn batched_headers() -> HeaderMap {
    let mut headers = HeaderMap::new();
    headers.insert(TOKEN_HEADER, HeaderValue::from_static("token"));
    headers
}

fn turn(role: Role, content: &str) -> Message {
    Message { role, content: String::from(content) }
}

fn two_turns() -> Vec<Message> {
    vec![turn(Role::User, "What is 2 + 2?"), turn(Role::User, "Answer briefly.")]
}

fn batched_request(verbose: bool) -> ApiRequest {
    ApiRequest { stream: false, verbose, system: None, messages: two_turns() }
}

fn reply(content: Option<&str>, input_tokens: u32, output_tokens: u32, raw: &str) -> BackendReply {
    BackendReply {
        content: content.map(String::from),
        usage: BackendUsage {
            input_tokens,
            output_tokens,
            total_tokens: input_tokens + output_tokens,
        },
        raw: Value::String(String::from(raw)),
    }
}

fn failure(message: &str) -> BackendError {
    BackendError {
        message: String::from(message),
        type_: String::from("api_error"),
        param: None,
        code: Some(String::from("503")),
    }
}

fn at() -> Timestamp {
    Timestamp { seconds: 1_700_000_000, nanos: 42 }
}

#[test]
fn thinking_is_wrapped_between_its_marks() {
    assert_eq!(wrap_thinking("draft"), "<thinking>\ndraft\n</thinking>");
    assert_eq!(wrap_thinking(""), "<thinking>\n\n</thinking>");
}

#[test]
fn reasoning_stage_appends_the_wrapped_reasoning_as_an_assistant_turn() {
    let stage = reasoning_stage(two_turns(), Ok(reply(Some("draft"), 10, 5, "a"))).unwrap();
    assert_eq!(stage.thinking, "<thinking>\ndraft\n</thinking>");
    assert_eq!(stage.messages.len(), 3);
    assert_eq!(stage.messages[0], turn(Role::User, "What is 2 + 2?"));
    assert_eq!(stage.messages[1], turn(Role::User, "Answer briefly."));
    assert_eq!(stage.messages[2], turn(Role::Assistant, "<thinking>\ndraft\n</thinking>"));
    assert_eq!(stage.usage, BackendUsage { input_tokens: 10, output_tokens: 5, total_tokens: 15 });
    assert_eq!(stage.raw, Value::String(String::from("a")));
}

#[test]
fn reasoning_without_content_is_missing_content() {
    assert_eq!(
        reasoning_stage(two_turns(), Ok(reply(None, 10, 5, "a"))),
        Err(ApiError::MissingContent { backend: Backend::DeepSeek })
    );
    assert_eq!(
        reasoning_stage(two_turns(), Ok(reply(Some(""), 10, 5, "a"))),
        Err(ApiError::MissingContent { backend: Backend::DeepSeek })
    );
}

#[test]
fn reasoning_failure_is_a_deepseek_error() {
    assert_eq!(
        reasoning_stage(two_turns(), Err(failure("overloaded"))),
        Err(ApiError::DeepSeekError { error: failure("overloaded") })
    );
}

#[test]
fn end_to_end_batched_scenario() {
    let state = batched_state();
    let stage = reasoning_stage(two_turns(), Ok(reply(Some("draft"), 1_000_000, 2_000_000, "a")))
        .unwrap();
    // What the answering backend is called with ends in the wrapped draft.
    assert_eq!(
        stage.messages.last(),
        Some(&turn(Role::Assistant, "<thinking>\ndraft\n</thinking>"))
    );
    let response = answer_stage_at(
        &state.config,
        at(),
        false,
        stage,
        Ok(reply(Some("final answer"), 1_000, 500, "b")),
    )
    .unwrap();
    assert_eq!(
        response.content,
        vec![
            ContentBlock {
                kind: BlockKind::Text,
                text: String::from("<thinking>\ndraft\n</thinking>"),
            },
            ContentBlock { kind: BlockKind::Text, text: String::from("final answer") },
        ]
    );
    let deepseek_cost: u128 = 1_000_000 * 550_000 + 2_000_000 * 2_190_000;
    let anthropic_cost: u128 = 1_000 * 3_000_000 + 500 * 15_000_000;
    assert_eq!(response.combined_usage.total_cost, format_cost(deepseek_cost + anthropic_cost));
    assert_eq!(response.combined_usage.total_cost, "$4.941");
    assert_eq!(response.combined_usage.deepseek_usage.total_cost, "$4.930");
    assert_eq!(response.combined_usage.anthropic_usage.total_cost, "$0.011");
    assert_eq!(response.combined_usage.deepseek_usage.input_tokens, 1_000_000);
    assert_eq!(response.combined_usage.deepseek_usage.output_tokens, 2_000_000);
    assert_eq!(response.combined_usage.deepseek_usage.total_tokens, 3_000_000);
    assert_eq!(response.combined_usage.anthropic_usage.input_tokens, 1_000);
    assert_eq!(response.combined_usage.anthropic_usage.output_tokens, 500);
    assert_eq!(response.combined_usage.anthropic_usage.total_tokens, 1_500);
    assert_eq!(response.created, at());
    assert_eq!(response.deepseek_response, None);
    assert_eq!(response.anthropic_response, None);
}

#[test]
fn chat_at_gives_the_same_response_as_the_two_stages() {
    let state = batched_state();
    let response = chat_at(
        &state,
        &batched_headers(),
        &batched_request(false),
        at(),
        Ok(reply(Some("draft"), 1_000_000, 2_000_000, "a")),
        Ok(reply(Some("final answer"), 1_000, 500, "b")),
    )
    .unwrap();
    assert_eq!(response.content.len(), 2);
    assert_eq!(response.content[0].text, "<thinking>\ndraft\n</thinking>");
    assert_eq!(response.content[0].kind, BlockKind::Text);
    assert_eq!(response.content[1].text, "final answer");
    assert_eq!(response.content[1].kind, BlockKind::Text);
    assert_eq!(response.combined_usage.total_cost, "$4.941");
    assert_eq!(response.created, at());
}

#[test]
fn verbose_shows_what_each_backend_sent() {
    let state = batched_state();
    let response = chat_at(
        &state,
        &batched_headers(),
        &batched_request(true),
        at(),
        Ok(reply(Some("draft"), 1, 1, "from deepseek")),
        Ok(reply(Some("final answer"), 1, 1, "from anthropic")),
    )
    .unwrap();
    assert_eq!(
        response.deepseek_response,
        Some(ExternalApiResponse {
            status: 200,
            headers: Vec::new(),
            body: Value::String(String::from("from deepseek")),
        })
    );
    assert_eq!(
        response.anthropic_response,
        Some(ExternalApiResponse {
            status: 200,
            headers: Vec::new(),
            body: Value::String(String::from("from anthropic")),
        })
    );
}

#[test]
fn shown_only_to_a_caller_who_asks() {
    assert_eq!(shown(false, Value::Null), None);
    assert_eq!(
        shown(true, Value::Bool(true)),
        Some(ExternalApiResponse {
            status: BACKEND_STATUS,
            headers: Vec::new(),
            body: Value::Bool(true),
        })
    );
}

#[test]
fn empty_reasoning_fails_whatever_the_answering_backend_would_say() {
    let state = batched_state();
    let with_answer = chat_at(
        &state,
        &batched_headers(),
        &batched_request(false),
        at(),
        Ok(reply(Some(""), 10, 0, "a")),
        Ok(reply(Some("final answer"), 1_000, 500, "b")),
    );
    assert_eq!(with_answer, Err(ApiError::MissingContent { backend: Backend::DeepSeek }));
    let with_failure = chat_at(
        &state,
        &batched_headers(),
        &batched_request(false),
        at(),
        Ok(reply(None, 10, 0, "a")),
        Err(failure("down")),
    );
    assert_eq!(with_failure, Err(ApiError::MissingContent { backend: Backend::DeepSeek }));
}

#[test]
fn answer_without_content_is_missing_content_of_the_answering_backend() {
    let state = batched_state();
    for content in [None, Some("")] {
        let response = chat_at(
            &state,
            &batched_headers(),
            &batched_request(false),
            at(),
            Ok(reply(Some("draft"), 10, 5, "a")),
            Ok(reply(content, 10, 0, "b")),
        );
        assert_eq!(response, Err(ApiError::MissingContent { backend: Backend::Anthropic }));
    }
}

#[test]
fn answering_failure_is_an_anthropic_error() {
    let state = batched_state();
    let response = chat_at(
        &state,
        &batched_headers(),
        &batched_request(false),
        at(),
        Ok(reply(Some("draft"), 10, 5, "a")),
        Err(failure("rate limited")),
    );
    assert_eq!(response, Err(ApiError::AnthropicError { error: failure("rate limited") }));
}

#[test]
fn reasoning_failure_comes_before_the_answering_failure() {
    let state = batched_state();
    let response = chat_at(
        &state,
        &batched_headers(),
        &batched_request(false),
        at(),
        Err(failure("first")),
        Err(failure("second")),
    );
    assert_eq!(response, Err(ApiError::DeepSeekError { error: failure("first") }));
}

#[test]
fn credential_is_checked_before_any_backend_counts() {
    let state = batched_state();
    let response = chat_at(
        &state,
        &HeaderMap::new(),
        &batched_request(false),
        at(),
        Err(failure("first")),
        Ok(reply(Some("final answer"), 1, 1, "b")),
    );
    assert_eq!(
        response,
        Err(ApiError::MissingCredential { header: String::from("X-OpenRouter-API-Token") })
    );
}

#[test]
fn chat_stamps_the_response_and_is_else_chat_at() {
    let state = batched_state();
    let response = chat(
        &state,
        &batched_headers(),
        &batched_request(true),
        Ok(reply(Some("draft"), 1_000_000, 2_000_000, "a")),
        Ok(reply(Some("final answer"), 1_000, 500, "b")),
    )
    .unwrap();
    let same = chat_at(
        &state,
        &batched_headers(),
        &batched_request(true),
        response.created,
        Ok(reply(Some("draft"), 1_000_000, 2_000_000, "a")),
        Ok(reply(Some("final answer"), 1_000, 500, "b")),
    )
    .unwrap();
    assert_eq!(response, same);
    assert!(response.created.seconds > 1_600_000_000);
    assert!(response.created.nanos < 2_000_000_000);
}

#[test]
fn chat_fails_as_chat_at_fails() {
    let state = batched_state();
    let response = chat(
        &state,
        &batched_headers(),
        &batched_request(false),
        Err(failure("down")),
        Ok(reply(Some("final answer"), 1, 1, "b")),
    );
    assert_eq!(response, Err(ApiError::DeepSeekError { error: failure("down") }));
}

#[test]
fn answer_stage_stamps_the_response() {
    let state = batched_state();
    let stage = ReasoningStage {
        thinking: String::from("<thinking>\nr\n</thinking>"),
        messages: Vec::new(),
        usage: BackendUsage { input_tokens: 1, output_tokens: 2, total_tokens: 3 },
        raw: Value::Null,
    };
    let response =
        answer_stage(&state.config, false, stage, Ok(reply(Some("x"), 4, 5, "b"))).unwrap();
    assert_eq!(response.content[0].text, "<thinking>\nr\n</thinking>");
    assert_eq!(response.content[1].text, "x");
    assert!(response.created.seconds > 1_600_000_000);
}

#[test]
fn an_invalid_system_prompt_is_refused_before_the_credential_is_read() {
    let state = batched_state();
    let request = ApiRequest {
        stream: false,
        verbose: false,
        system: Some(String::from("Be kind.")),
        messages: vec![turn(Role::System, "Be brief."), turn(Role::User, "Hi")],
    };
    let response = chat_at(
        &state,
        &HeaderMap::new(),
        &request,
        at(),
        Ok(reply(Some("draft"), 1, 1, "a")),
        Ok(reply(Some("final answer"), 1, 1, "b")),
    );
    assert_eq!(response, Err(ApiError::InvalidSystemPrompt));
}

#[test]
fn the_system_field_leads_the_conversation_of_the_whole_answer() {
    let state = batched_state();
    let request = ApiRequest {
        stream: false,
        verbose: false,
        system: Some(String::from("Be kind.")),
        messages: two_turns(),
    };
    let stage = reasoning_stage(
        request.get_messages_with_system(),
        Ok(reply(Some("draft"), 1, 1, "a")),
    )
    .unwrap();
    assert_eq!(stage.messages.len(), 4);
    assert_eq!(stage.messages[0], turn(Role::System, "Be kind."));
    assert_eq!(stage.messages[3], turn(Role::Assistant, "<thinking>\ndraft\n</thinking>"));
    let response = chat_at(
        &state,
        &batched_headers(),
        &request,
        at(),
        Ok(reply(Some("draft"), 1, 1, "a")),
        Ok(reply(Some("final answer"), 1, 1, "b")),
    )
    .unwrap();
    assert_eq!(response.content[1].text, "final answer");
}
