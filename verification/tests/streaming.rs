use api::backend::StreamChunk;
use api::clock::Timestamp;
use api::config::{
    AnthropicPricing, AppState, Config, DeepSeekPricing, ModelPricing, PricingConfig,
};
use api::credentials::TOKEN_HEADER;
use api::error::{ApiError, Backend, BackendError, STREAM_ERROR_CODE};
use api::event::StreamEvent;
use api::message::{delta_block, text_block, BlockKind, ContentBlock, Message, Role};
use api::request::ApiRequest;
use api::session::{Phase, SessionInput, StreamSession};
use api::stream::{run_session, Script};
use api::streamed::{chat_stream, chat_stream_at};
use api::usage::BackendUsage;
use axum::http::{HeaderMap, HeaderValue};

fn stream_config() -> Config {
    Config {
        pricing: PricingConfig {
            deepseek: DeepSeekPricing {
                input_cache_hit_price: 140_000,
                input_cache_miss_price: 550_000,
                output_price: 2_190_000,
            },
            anthropic: AnthropicPricing {
                claude_3_sonnet: ModelPricing {
                    input_price: 3_000_000,
                    output_price: 15_000_000,
                    cache_write_price: 3_750_000,
                    cache_read_price: 300_000,
                },
            },
        },
    }
}

fn stream_headers() -> HeaderMap {
    let mut headers = HeaderMap::new();
    headers.insert(TOKEN_HEADER, HeaderValue::from_static("token"));
    headers
}

fn user(content: &str) -> Message {
    Message { role: Role::User, content: String::from(content) }
}

fn conversation() -> Vec<Message> {
    vec![user("What is 2 + 2?"), user("Answer briefly.")]
}

fn stream_request() -> ApiRequest {
    ApiRequest {
        stream: true,
        verbose: false,
        system: Some(String::from("Be kind.")),
        messages: conversation(),
    }
}

fn delta(text: &str) -> Result<StreamChunk, BackendError> {
    Ok(StreamChunk { content: Some(String::from(text)), usage: None })
}

fn counters(input_tokens: u32, output_tokens: u32) -> Result<StreamChunk, BackendError> {
    Ok(StreamChunk {
        content: None,
        usage: Some(BackendUsage {
            input_tokens,
            output_tokens,
            total_tokens: input_tokens + output_tokens,
        }),
    })
}

fn broken(message: &str) -> Result<StreamChunk, BackendError> {
    Err(BackendError {
        message: String::from(message),
        type_: String::from("stream_error"),
        param: None,
        code: None,
    })
}

fn when() -> Timestamp {
    Timestamp { seconds: 1_700_000_000, nanos: 7 }
}

fn whole(text: &str) -> StreamEvent {
    StreamEvent::Content {
        content: vec![ContentBlock { kind: BlockKind::Text, text: String::from(text) }],
    }
}

fn piece(text: &str) -> StreamEvent {
    StreamEvent::Content {
        content: vec![ContentBlock { kind: BlockKind::TextDelta, text: String::from(text) }],
    }
}

fn error(message: &str) -> StreamEvent {
    StreamEvent::Error { message: String::from(message), code: 500 }
}

fn text_of(events: &[StreamEvent]) -> String {
    let mut text = String::new();
    for event in events {
        if let StreamEvent::Content { content } = event {
            for block in content {
                text.push_str(&block.text);
            }
        }
    }
    text
}

fn run(deepseek: &Script, anthropic: &Script) -> Vec<StreamEvent> {
    run_session(stream_config(), conversation(), None, when(), deepseek, anthropic).events
}

#[test]
fn blocks_and_events_have_their_names() {
    assert_eq!(text_block("a"), ContentBlock { kind: BlockKind::Text, text: String::from("a") });
    assert_eq!(
        delta_block("b"),
        ContentBlock { kind: BlockKind::TextDelta, text: String::from("b") }
    );
    assert_eq!(BlockKind::Text.content_type(), "text");
    assert_eq!(BlockKind::TextDelta.content_type(), "text_delta");
    assert_eq!(StreamEvent::Start { created: when() }.event_name(), "start");
    assert_eq!(piece("x").event_name(), "content");
    assert_eq!(error("x").event_name(), "error");
    assert_eq!(StreamEvent::Done.event_name(), "done");
    assert_eq!(StreamEvent::single(text_block("x")), whole("x"));
    assert!(StreamEvent::Done.is_terminal());
    assert!(error("x").is_terminal());
    assert!(!piece("x").is_terminal());
    assert!(!StreamEvent::Start { created: when() }.is_terminal());
    assert_eq!(STREAM_ERROR_CODE, 500);
}

#[test]
fn a_session_walks_through_every_phase() {
    let mut session = StreamSession::new(stream_config(), conversation(), None);
    assert_eq!(session.phase(), Phase::Idle);
    assert_eq!(session.reading(), None);

    let events = session.begin(when());
    assert_eq!(events, vec![StreamEvent::Start { created: when() }, whole("<thinking>\n")]);
    assert_eq!(session.phase(), Phase::DeepSeekRunning);
    assert_eq!(session.reading(), Some(Backend::DeepSeek));
    assert_eq!(session.messages(), &conversation());

    let chunk = StreamChunk { content: Some(String::from("dra")), usage: None };
    assert_eq!(session.on_chunk(&chunk), vec![piece("dra")]);
    let chunk = StreamChunk { content: Some(String::from("ft")), usage: None };
    assert_eq!(session.on_chunk(&chunk), vec![piece("ft")]);
    assert_eq!(session.reasoning(), "draft");
    assert_eq!(session.messages(), &conversation());

    assert_eq!(session.on_end(), vec![whole("\n</thinking>")]);
    assert_eq!(session.phase(), Phase::DeepSeekDone);
    assert_eq!(session.reading(), None);
    let mut extended = conversation();
    extended.push(Message {
        role: Role::Assistant,
        content: String::from("<thinking>\ndraft\n</thinking>"),
    });
    assert_eq!(session.messages(), &extended);

    assert_eq!(session.advance(), Vec::new());
    assert_eq!(session.phase(), Phase::AnthropicRunning);
    assert_eq!(session.reading(), Some(Backend::Anthropic));

    let chunk = StreamChunk { content: Some(String::from("four")), usage: None };
    assert_eq!(session.on_chunk(&chunk), vec![piece("four")]);
    assert_eq!(session.answer(), "four");
    assert_eq!(session.reasoning(), "draft");

    assert_eq!(session.on_end(), Vec::new());
    assert_eq!(session.phase(), Phase::AnthropicDone);

    let events = session.advance();
    assert_eq!(session.phase(), Phase::Finalizing);
    assert_eq!(events.len(), 1);
    assert_eq!(events[0].event_name(), "usage");

    assert_eq!(session.advance(), vec![StreamEvent::Done]);
    assert_eq!(session.phase(), Phase::Closed);
    assert!(session.is_closed());

    assert_eq!(session.advance(), Vec::new());
    assert_eq!(session.begin(when()), Vec::new());
    assert_eq!(session.on_end(), Vec::new());
    assert!(session.is_closed());
}

#[test]
fn step_takes_each_input_as_its_method_does() {
    let mut session = StreamSession::new(stream_config(), conversation(), None);
    let events = session.step(&SessionInput::Begin { created: when() });
    assert_eq!(events, vec![StreamEvent::Start { created: when() }, whole("<thinking>\n")]);
    let chunk = StreamChunk { content: Some(String::from("r")), usage: None };
    assert_eq!(session.step(&SessionInput::Chunk { chunk }), vec![piece("r")]);
    assert_eq!(session.step(&SessionInput::StreamEnd), vec![whole("\n</thinking>")]);
    assert_eq!(session.step(&SessionInput::Advance), Vec::new());
    let failure = BackendError {
        message: String::from("gone"),
        type_: String::new(),
        param: None,
        code: None,
    };
    assert_eq!(
        session.step(&SessionInput::StreamError { error: failure }),
        vec![error("Anthropic stream error: gone")]
    );
    assert_eq!(session.phase(), Phase::Error);
    assert_eq!(session.step(&SessionInput::Advance), Vec::new());
    assert_eq!(session.phase(), Phase::Closed);
}

#[test]
fn inputs_out_of_place_change_nothing() {
    let mut session = StreamSession::new(stream_config(), conversation(), None);
    let chunk = StreamChunk { content: Some(String::from("early")), usage: None };
    assert_eq!(session.on_chunk(&chunk), Vec::new());
    assert_eq!(session.on_end(), Vec::new());
    assert_eq!(session.advance(), Vec::new());
    assert_eq!(session.phase(), Phase::Idle);
    assert_eq!(session.reasoning(), "");

    session.begin(when());
    assert_eq!(session.begin(when()), Vec::new());
    assert_eq!(session.advance(), Vec::new());
    assert_eq!(session.phase(), Phase::DeepSeekRunning);
}

#[test]
fn empty_and_absent_deltas_send_nothing() {
    let mut session = StreamSession::new(stream_config(), conversation(), None);
    session.begin(when());
    let chunk = StreamChunk { content: Some(String::new()), usage: None };
    assert_eq!(session.on_chunk(&chunk), Vec::new());
    let chunk = StreamChunk { content: None, usage: None };
    assert_eq!(session.on_chunk(&chunk), Vec::new());
    assert_eq!(session.reasoning(), "");
}

#[test]
fn begin_now_starts_with_the_clock() {
    let mut session = StreamSession::new(stream_config(), conversation(), None);
    let events = session.begin_now();
    assert_eq!(events.len(), 2);
    match &events[0] {
        StreamEvent::Start { created } => assert!(created.seconds > 1_600_000_000),
        other => panic!("the first event is {:?}", other),
    }
    assert_eq!(events[1], whole("<thinking>\n"));
    assert_eq!(session.phase(), Phase::DeepSeekRunning);
}

#[test]
fn usage_is_the_watermark_of_the_snapshots() {
    let mut session = StreamSession::new(stream_config(), conversation(), None);
    session.begin(when());
    session.on_chunk(&delta("r").unwrap());
    session.on_chunk(&counters(7, 3).unwrap());
    session.on_chunk(&counters(5, 4).unwrap());
    assert_eq!(
        session.deepseek_usage(),
        BackendUsage { input_tokens: 7, output_tokens: 4, total_tokens: 10 }
    );
    session.on_end();
    session.advance();
    session.on_chunk(&delta("a").unwrap());
    session.on_chunk(&counters(100, 50).unwrap());
    session.on_chunk(&counters(100, 80).unwrap());
    session.on_chunk(&counters(90, 80).unwrap());
    assert_eq!(
        session.anthropic_usage(),
        BackendUsage { input_tokens: 100, output_tokens: 80, total_tokens: 180 }
    );
    assert_eq!(
        session.deepseek_usage(),
        BackendUsage { input_tokens: 7, output_tokens: 4, total_tokens: 10 }
    );
    session.on_end();
    let events = session.advance();
    match &events[0] {
        StreamEvent::Usage { usage } => {
            assert_eq!(usage.anthropic_usage.input_tokens, 100);
            assert_eq!(usage.anthropic_usage.output_tokens, 80);
            assert_eq!(usage.anthropic_usage.total_tokens, 180);
            assert_eq!(usage.deepseek_usage.input_tokens, 7);
            assert_eq!(usage.deepseek_usage.output_tokens, 4);
        },
        other => panic!("the usage event is {:?}", other),
    }
}

#[test]
fn a_whole_run_sends_the_events_in_order() {
    let deepseek: Script = vec![delta("dra"), counters(1_000_000, 2_000_000), delta("ft")];
    let anthropic: Script = vec![delta("four"), delta(""), counters(1_000, 500)];
    let outcome =
        run_session(stream_config(), conversation(), None, when(), &deepseek, &anthropic);
    assert_eq!(outcome.events.len(), 8);
    assert_eq!(outcome.events[0], StreamEvent::Start { created: when() });
    assert_eq!(outcome.events[1], whole("<thinking>\n"));
    assert_eq!(outcome.events[2], piece("dra"));
    assert_eq!(outcome.events[3], piece("ft"));
    assert_eq!(outcome.events[4], whole("\n</thinking>"));
    assert_eq!(outcome.events[5], piece("four"));
    match &outcome.events[6] {
        StreamEvent::Usage { usage } => {
            assert_eq!(usage.total_cost, "$4.941");
            assert_eq!(usage.deepseek_usage.total_cost, "$4.930");
            assert_eq!(usage.anthropic_usage.total_cost, "$0.011");
            assert_eq!(usage.deepseek_usage.total_tokens, 3_000_000);
            assert_eq!(usage.anthropic_usage.total_tokens, 1_500);
        },
        other => panic!("the usage event is {:?}", other),
    }
    assert_eq!(outcome.events[7], StreamEvent::Done);
    let mut extended = conversation();
    extended.push(Message {
        role: Role::Assistant,
        content: String::from("<thinking>\ndraft\n</thinking>"),
    });
    assert_eq!(outcome.anthropic_messages, Some(extended));
}

#[test]
fn every_run_has_one_start_first_and_one_terminal_event_last() {
    let scripts: Vec<(Script, Script)> = vec![
        (vec![delta("r")], vec![delta("a")]),
        (vec![], vec![delta("a")]),
        (vec![delta("r")], vec![]),
        (vec![broken("x")], vec![delta("a")]),
        (vec![delta("r"), broken("x"), delta("s")], vec![delta("a")]),
        (vec![delta("r")], vec![delta("a"), broken("y"), delta("b")]),
        (vec![delta("")], vec![broken("y")]),
    ];
    for (deepseek, anthropic) in &scripts {
        let events = run(deepseek, anthropic);
        let starts = events.iter().filter(|e| matches!(e, StreamEvent::Start { .. })).count();
        let ends = events.iter().filter(|e| e.is_terminal()).count();
        assert_eq!(starts, 1);
        assert_eq!(ends, 1);
        assert!(matches!(events[0], StreamEvent::Start { .. }));
        assert!(events[events.len() - 1].is_terminal());
    }
}

#[test]
fn streamed_text_is_the_text_of_the_whole_answer() {
    let deepseek: Script = vec![delta("Let me "), delta(""), delta("think."), counters(3, 4)];
    let anthropic: Script = vec![delta("It is "), counters(9, 1), delta("four.")];
    let events = run(&deepseek, &anthropic);
    assert_eq!(text_of(&events), "<thinking>\nLet me think.\n</thinking>It is four.");
    assert_eq!(events[events.len() - 1], StreamEvent::Done);
}

#[test]
fn empty_reasoning_ends_the_session_and_the_answering_backend_is_not_called() {
    let answering: Script = vec![delta("never read")];
    for deepseek in [vec![], vec![delta("")], vec![counters(5, 0)]] {
        let outcome =
            run_session(stream_config(), conversation(), None, when(), &deepseek, &answering);
        assert_eq!(
            outcome.events,
            vec![
                StreamEvent::Start { created: when() },
                whole("<thinking>\n"),
                error("No reasoning content in response"),
            ]
        );
        assert_eq!(outcome.anthropic_messages, None);
    }
}

#[test]
fn empty_answer_is_reported_as_the_last_event() {
    let events = run(&vec![delta("r")], &vec![counters(5, 0)]);
    assert_eq!(
        events,
        vec![
            StreamEvent::Start { created: when() },
            whole("<thinking>\n"),
            piece("r"),
            whole("\n</thinking>"),
            error("No content in Anthropic response"),
        ]
    );
}

#[test]
fn a_broken_reasoning_stream_ends_the_run_at_once() {
    let deepseek: Script = vec![delta("par"), broken("connection reset"), delta("tial")];
    let anthropic: Script = vec![delta("never read")];
    let outcome =
        run_session(stream_config(), conversation(), None, when(), &deepseek, &anthropic);
    assert_eq!(
        outcome.events,
        vec![
            StreamEvent::Start { created: when() },
            whole("<thinking>\n"),
            piece("par"),
            error("DeepSeek stream error: connection reset"),
        ]
    );
    assert_eq!(outcome.anthropic_messages, None);
}

#[test]
fn a_broken_answering_stream_is_reported_after_the_reasoning() {
    let deepseek: Script = vec![delta("r")];
    let anthropic: Script = vec![delta("a"), broken("timeout"), delta("b"), broken("later")];
    let outcome =
        run_session(stream_config(), conversation(), None, when(), &deepseek, &anthropic);
    assert_eq!(
        outcome.events,
        vec![
            StreamEvent::Start { created: when() },
            whole("<thinking>\n"),
            piece("r"),
            whole("\n</thinking>"),
            piece("a"),
            error("Anthropic stream error: timeout"),
        ]
    );
    assert!(outcome.anthropic_messages.is_some());
}

#[test]
fn chat_stream_at_refuses_a_request_without_credential_before_any_event() {
    let state = AppState { config: stream_config() };
    let outcome = chat_stream_at(
        &state,
        &HeaderMap::new(),
        &stream_request(),
        when(),
        &vec![delta("r")],
        &vec![delta("a")],
    );
    assert_eq!(
        outcome,
        Err(ApiError::MissingCredential { header: String::from("X-OpenRouter-API-Token") })
    );
}

#[test]
fn chat_stream_at_runs_a_session() {
    let state = AppState { config: stream_config() };
    let deepseek: Script = vec![delta("r")];
    let anthropic: Script = vec![delta("a")];
    let outcome =
        chat_stream_at(&state, &stream_headers(), &stream_request(), when(), &deepseek, &anthropic)
            .unwrap();
    let mut led = vec![Message { role: Role::System, content: String::from("Be kind.") }];
    led.extend(conversation());
    let same = run_session(
        stream_config(),
        led,
        Some(String::from("Be kind.")),
        when(),
        &deepseek,
        &anthropic,
    );
    assert_eq!(outcome, same);
    assert_eq!(outcome.events.len(), 7);
    let sent = outcome.anthropic_messages.unwrap();
    assert_eq!(sent.len(), 4);
    assert_eq!(sent[0], Message { role: Role::System, content: String::from("Be kind.") });
    assert_eq!(sent[3].role, Role::Assistant);
}

#[test]
fn chat_stream_starts_with_the_clock_and_is_else_chat_stream_at() {
    let state = AppState { config: stream_config() };
    let deepseek: Script = vec![delta("r"), counters(1, 2)];
    let anthropic: Script = vec![delta("a"), counters(3, 4)];
    let outcome =
        chat_stream(&state, &stream_headers(), &stream_request(), &deepseek, &anthropic).unwrap();
    let created = match &outcome.events[0] {
        StreamEvent::Start { created } => *created,
        other => panic!("the first event is {:?}", other),
    };
    assert!(created.seconds > 1_600_000_000);
    let same =
        chat_stream_at(&state, &stream_headers(), &stream_request(), created, &deepseek, &anthropic)
            .unwrap();
    assert_eq!(outcome, same);
}

#[test]
fn chat_stream_refuses_a_malformed_credential() {
    let state = AppState { config: stream_config() };
    let mut headers = HeaderMap::new();
    headers.insert(TOKEN_HEADER, HeaderValue::from_bytes(b"\xff").unwrap());
    let outcome = chat_stream(&state, &headers, &stream_request(), &vec![], &vec![]);
    assert_eq!(
        outcome,
        Err(ApiError::MalformedCredential { message: String::from("Invalid DeepSeek API token") })
    );
}

#[test]
fn failure_sentences_name_the_backend() {
    let failure = BackendError {
        message: String::from("boom"),
        type_: String::new(),
        param: None,
        code: None,
    };
    assert_eq!(Backend::DeepSeek.stream_error_message(&failure), "DeepSeek stream error: boom");
    assert_eq!(Backend::Anthropic.stream_error_message(&failure), "Anthropic stream error: boom");
    assert_eq!(Backend::DeepSeek.missing_content_message(), "No reasoning content in response");
    assert_eq!(Backend::Anthropic.missing_content_message(), "No content in Anthropic response");
    assert_eq!(
        Backend::DeepSeek.failure(failure.clone()),
        ApiError::DeepSeekError { error: failure.clone() }
    );
    assert_eq!(
        Backend::Anthropic.failure(failure.clone()),
        ApiError::AnthropicError { error: failure }
    );
}

#[test]
fn chat_stream_at_refuses_an_invalid_system_prompt_before_any_event() {
    let state = AppState { config: stream_config() };
    let request = ApiRequest {
        stream: true,
        verbose: false,
        system: Some(String::from("Be kind.")),
        messages: vec![Message { role: Role::System, content: String::from("Be brief.") }],
    };
    let outcome = chat_stream_at(
        &state,
        &stream_headers(),
        &request,
        when(),
        &vec![delta("r")],
        &vec![delta("a")],
    );
    assert_eq!(outcome, Err(ApiError::InvalidSystemPrompt));
}
