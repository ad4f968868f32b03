use api::backend::{BackendReply, StreamChunk};
use api::config::{
    AnthropicPricing, AppState, Config, DeepSeekPricing, ModelPricing, PricingConfig,
};
use api::credentials::TOKEN_HEADER;
use api::dispatch::{handle_chat, ChatResponse, ScriptedBackend};
use api::error::{ApiError, Backend, BackendError};
use api::event::StreamEvent;
use api::message::{copy_messages, Message, Role};
use api::request::ApiRequest;
use api::stream::Script;
use api::usage::BackendUsage;
use axum::http::{HeaderMap, HeaderValue};
use serde_json::Value;

fn state() -> AppState {
    AppState {
        config: Config {
            pricing: PricingConfig {
                deepseek: DeepSeekPricing {
                    input_cache_hit_price: 140_000,
                    input_cache_miss_price: 550_000,
                    output_price: 2_190_000,
                },
                anthropic: AnthropicPricing {
                    claude_3_sonnet: ModelPricing {
                        input_price: 3_000_000,
                        output_price: 15_000_000,
                        cache_write_price: 3_750_000,
                        cache_read_price: 300_000,
                    },
                },
            },
        },
    }
}

fn headers() -> HeaderMap {
    let mut headers = HeaderMap::new();
    headers.insert(TOKEN_HEADER, HeaderValue::from_static("token"));
    headers
}

fn request(stream: bool) -> ApiRequest {
    ApiRequest {
        stream,
        verbose: true,
        system: None,
        messages: vec![Message { role: Role::User, content: String::from("Why?") }],
    }
}

fn says(text: &str) -> Result<StreamChunk, BackendError> {
    Ok(StreamChunk { content: Some(String::from(text)), usage: None })
}

fn counts(input_tokens: u32, output_tokens: u32, total_tokens: u32) -> Result<StreamChunk, BackendError> {
    Ok(StreamChunk {
        content: None,
        usage: Some(BackendUsage { input_tokens, output_tokens, total_tokens }),
    })
}

fn breaks(message: &str) -> Result<StreamChunk, BackendError> {
    Err(BackendError {
        message: String::from(message),
        type_: String::from("t"),
        param: Some(String::from("p")),
        code: Some(String::from("c")),
    })
}

fn backend(chunks: Script, raw: &str) -> ScriptedBackend {
    ScriptedBackend { chunks, raw: Value::String(String::from(raw)) }
}

fn reasoning() -> ScriptedBackend {
    backend(vec![says("Be"), counts(10, 1, 11), says("cause."), counts(10, 3, 13)], "r")
}

fn answering() -> ScriptedBackend {
    backend(vec![counts(100, 50, 150), says("So "), counts(90, 80, 170), says("it is.")], "a")
}

#[test]
fn a_stream_gathers_to_one_reply() {
    assert_eq!(
        answering().chat(),
        Ok(BackendReply {
            content: Some(String::from("So it is.")),
            usage: BackendUsage { input_tokens: 100, output_tokens: 80, total_tokens: 170 },
            raw: Value::String(String::from("a")),
        })
    );
}

#[test]
fn an_empty_stream_gathers_to_an_empty_reply() {
    assert_eq!(
        backend(vec![], "e").chat(),
        Ok(BackendReply {
            content: Some(String::new()),
            usage: BackendUsage { input_tokens: 0, output_tokens: 0, total_tokens: 0 },
            raw: Value::String(String::from("e")),
        })
    );
}

#[test]
fn a_stream_with_a_failure_gathers_to_its_first_failure() {
    let reply = backend(vec![says("a"), breaks("first"), says("b"), breaks("second")], "x").chat();
    assert_eq!(
        reply,
        Err(BackendError {
            message: String::from("first"),
            type_: String::from("t"),
            param: Some(String::from("p")),
            code: Some(String::from("c")),
        })
    );
}

#[test]
fn a_request_that_does_not_stream_is_answered_whole() {
    let answer = handle_chat(&state(), &headers(), &request(false), reasoning(), answering());
    match answer {
        Ok(ChatResponse::Whole { response }) => {
            assert_eq!(response.content.len(), 2);
            assert_eq!(response.content[0].text, "<thinking>\nBecause.\n</thinking>");
            assert_eq!(response.content[1].text, "So it is.");
            assert_eq!(response.combined_usage.deepseek_usage.input_tokens, 10);
            assert_eq!(response.combined_usage.deepseek_usage.output_tokens, 3);
            assert_eq!(response.combined_usage.anthropic_usage.input_tokens, 100);
            assert_eq!(response.combined_usage.anthropic_usage.output_tokens, 80);
            assert_eq!(response.deepseek_response.unwrap().body, Value::String(String::from("r")));
            assert_eq!(response.anthropic_response.unwrap().body, Value::String(String::from("a")));
        },
        other => panic!("the answer is {:?}", other),
    }
}

#[test]
fn a_request_that_streams_is_answered_by_events() {
    let answer = handle_chat(&state(), &headers(), &request(true), reasoning(), answering());
    match answer {
        Ok(ChatResponse::Streamed { outcome }) => {
            assert_eq!(outcome.events.len(), 9);
            assert_eq!(outcome.events[8], StreamEvent::Done);
            let sent = copy_messages(&outcome.anthropic_messages.unwrap());
            assert_eq!(sent.len(), 2);
            assert_eq!(sent[1].role, Role::Assistant);
            assert_eq!(sent[1].content, "<thinking>\nBecause.\n</thinking>");
        },
        other => panic!("the answer is {:?}", other),
    }
}

#[test]
fn both_ways_of_answering_give_the_same_text_and_usage() {
    let whole = match handle_chat(&state(), &headers(), &request(false), reasoning(), answering()) {
        Ok(ChatResponse::Whole { response }) => response,
        other => panic!("the answer is {:?}", other),
    };
    let events = match handle_chat(&state(), &headers(), &request(true), reasoning(), answering()) {
        Ok(ChatResponse::Streamed { outcome }) => outcome.events,
        other => panic!("the answer is {:?}", other),
    };
    let mut streamed = String::new();
    for event in &events {
        if let StreamEvent::Content { content } = event {
            for block in content {
                streamed.push_str(&block.text);
            }
        }
    }
    let mut answered = String::new();
    for block in &whole.content {
        answered.push_str(&block.text);
    }
    assert_eq!(streamed, answered);
    assert_eq!(streamed, "<thinking>\nBecause.\n</thinking>So it is.");
    assert_eq!(events[events.len() - 2], StreamEvent::Usage { usage: whole.combined_usage });
}

#[test]
fn both_ways_refuse_a_request_without_credential() {
    for stream in [false, true] {
        let answer = handle_chat(&state(), &HeaderMap::new(), &request(stream), reasoning(), answering());
        assert_eq!(
            answer,
            Err(ApiError::MissingCredential { header: String::from("X-OpenRouter-API-Token") })
        );
    }
}

#[test]
fn answered_whole_an_empty_reasoning_is_an_error_of_the_request() {
    let answer = handle_chat(&state(), &headers(), &request(false), backend(vec![], "r"), answering());
    assert_eq!(answer, Err(ApiError::MissingContent { backend: Backend::DeepSeek }));
}

#[test]
fn streamed_an_empty_reasoning_is_an_error_event() {
    let answer = handle_chat(&state(), &headers(), &request(true), backend(vec![], "r"), answering());
    match answer {
        Ok(ChatResponse::Streamed { outcome }) => {
            assert_eq!(outcome.events.len(), 3);
            assert_eq!(
                outcome.events[2],
                StreamEvent::Error {
                    message: String::from("No reasoning content in response"),
                    code: 500,
                }
            );
            assert_eq!(outcome.anthropic_messages, None);
        },
        other => panic!("the answer is {:?}", other),
    }
}

#[test]
fn answered_whole_a_failure_of_the_answering_backend_is_its_error() {
    let answer = handle_chat(
        &state(),
        &headers(),
        &request(false),
        reasoning(),
        backend(vec![says("a"), breaks("late")], "a"),
    );
    assert_eq!(
        answer,
        Err(ApiError::AnthropicError {
            error: BackendError {
                message: String::from("late"),
                type_: String::from("t"),
                param: Some(String::from("p")),
                code: Some(String::from("c")),
            },
        })
    );
}

#[test]
fn both_ways_refuse_an_invalid_system_prompt() {
    for stream in [false, true] {
        let invalid = ApiRequest {
            stream,
            verbose: false,
            system: Some(String::from("a")),
            messages: vec![Message { role: Role::System, content: String::from("b") }],
        };
        let answer = handle_chat(&state(), &headers(), &invalid, reasoning(), answering());
        assert_eq!(answer, Err(ApiError::InvalidSystemPrompt));
    }
}
