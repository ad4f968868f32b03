//! The pipeline for an answer that is given whole.
//!
//! The two calls come one after the other. The first stage reads the
//! reasoning backend's answer and makes the conversation for the second; the
//! second stage reads the answering backend's answer and makes the response.
//! A failure at any point is the whole result: nothing partial is built.

use crate::backend::{has_content, BackendReply, BackendReplyView};
use crate::clock::{current_time, Timestamp};
use crate::config::{AppState, Config};
use crate::credentials::{credential_header, token_spec};
use crate::error::{
    backend_failure, result_view, ApiError, ApiErrorView, Backend, BackendError, BackendErrorView,
};
use crate::message::{
    thinking_text, thinking_turn, thinking_turn_spec, wrap_thinking, BlockKind, ContentBlock,
    ContentBlockView, Message, MessageView,
};
use crate::request::{messages_with_system, refusal, vet_request, ApiRequest, ApiRequestView};
use crate::response::{shown, shown_spec, ApiResponse, ApiResponseView};
use crate::usage::{combined_usage, combined_usage_spec, BackendUsage};
use axum::http::HeaderMap;
use serde_json::Value;
use vstd::prelude::*;

verus! {

/// Why the answer of `backend` cannot be used, if it cannot: the backend
/// failed, or it answered without text.
pub open spec fn reply_failure(
    backend: Backend,
    reply: Result<BackendReplyView, BackendErrorView>,
) -> Option<ApiErrorView> {
    match reply {
        Err(error) => Some(backend_failure(backend, error)),
        Ok(answer) => if has_content(answer.content) {
            None
        } else {
            Some(ApiErrorView::MissingContent { backend })
        },
    }
}

/// What the first stage hands to the second.
#[derive(Debug, PartialEq, Eq)]
pub struct ReasoningStage {
    /// The reasoning between its two marks.
    pub thinking: String,
    /// The conversation for the answering backend: the one that came in, and
    /// the reasoning as one more assistant turn.
    pub messages: Vec<Message>,
    pub usage: BackendUsage,
    pub raw: Value,
}

/// A `ReasoningStage`, as a value.
pub struct ReasoningStageView {
    pub thinking: Seq<char>,
    pub messages: Seq<MessageView>,
    pub usage: BackendUsage,
    pub raw: Value,
}

impl DeepView for ReasoningStage {
    type V = ReasoningStageView;

    open spec fn deep_view(&self) -> ReasoningStageView {
        ReasoningStageView {
            thinking: self.thinking@,
            messages: self.messages.deep_view(),
            usage: self.usage,
            raw: self.raw,
        }
    }
}

/// The first stage on an answer that holds text.
pub open spec fn reasoning_stage_spec(
    messages: Seq<MessageView>,
    answer: BackendReplyView,
) -> ReasoningStageView {
    let reasoning = answer.content.unwrap();
    ReasoningStageView {
        thinking: thinking_text(reasoning),
        messages: messages.push(thinking_turn_spec(reasoning)),
        usage: answer.usage,
        raw: answer.raw,
    }
}

/// The response, given what the first stage made and an answer of the
/// answering backend that holds text.
pub open spec fn response_spec(
    config: Config,
    created: Timestamp,
    verbose: bool,
    stage: ReasoningStageView,
    answer: BackendReplyView,
) -> ApiResponseView {
    ApiResponseView {
        created,
        content: seq![
            ContentBlockView { kind: BlockKind::Text, text: stage.thinking },
            ContentBlockView { kind: BlockKind::Text, text: answer.content.unwrap() },
        ],
        deepseek_response: shown_spec(verbose, stage.raw),
        anthropic_response: shown_spec(verbose, answer.raw),
        combined_usage: combined_usage_spec(stage.usage, answer.usage, config),
    }
}

/// What the first stage comes to: the failure of the reasoning backend's
/// answer, or what is handed to the second stage.
pub open spec fn reasoning_result(
    messages: Seq<MessageView>,
    reply: Result<BackendReplyView, BackendErrorView>,
) -> Result<ReasoningStageView, ApiErrorView> {
    match reply_failure(Backend::DeepSeek, reply) {
        Some(error) => Err(error),
        None => Ok(reasoning_stage_spec(messages, reply->Ok_0)),
    }
}

/// What the second stage comes to: the failure of the answering backend's
/// answer, or the response.
pub open spec fn answer_result(
    config: Config,
    created: Timestamp,
    verbose: bool,
    stage: ReasoningStageView,
    reply: Result<BackendReplyView, BackendErrorView>,
) -> Result<ApiResponseView, ApiErrorView> {
    match reply_failure(Backend::Anthropic, reply) {
        Some(error) => Err(error),
        None => Ok(response_spec(config, created, verbose, stage, reply->Ok_0)),
    }
}

/// The time that a response is stamped with. A failure bears no time.
pub open spec fn answered_at(response: Result<ApiResponse, ApiError>) -> Timestamp {
    match response {
        Ok(made) => made.created,
        Err(_) => Timestamp { seconds: 0, nanos: 0 },
    }
}

/// The text of an answer, where it holds any.
fn usable_text(content: Option<String>) -> (text: Option<String>)
    ensures
        text is Some <==> has_content(content.deep_view()),
        text matches Some(t) ==> content.deep_view() == Some(t@),
{
    match content {
        Some(text) => if text.as_str().is_empty() {
            None
        } else {
            Some(text)
        },
        None => None,
    }
}

/// The first stage. It takes the conversation and what the reasoning backend
/// answered to it. Where the backend failed, or answered without text, the
/// pipeline ends here and the answering backend is not to be called: only a
/// `ReasoningStage` holds the conversation to call it with.
pub fn reasoning_stage(messages: Vec<Message>, reply: Result<BackendReply, BackendError>) -> (stage:
    Result<ReasoningStage, ApiError>)
    ensures
        result_view(stage) == reasoning_result(messages.deep_view(), result_view(reply)),
{
    match reply {
        Err(error) => Err(Backend::DeepSeek.failure(error)),
        Ok(answer) => {
            let BackendReply { content, usage, raw } = answer;
            match usable_text(content) {
                None => Err(ApiError::MissingContent { backend: Backend::DeepSeek }),
                Some(reasoning) => {
                    let mut extended = messages;
                    extended.push(thinking_turn(reasoning.as_str()));
                    assert(extended.deep_view() =~= messages.deep_view().push(
                        thinking_turn_spec(reasoning@),
                    ));
                    Ok(
                        ReasoningStage {
                            thinking: wrap_thinking(reasoning.as_str()),
                            messages: extended,
                            usage,
                            raw,
                        },
                    )
                },
            }
        },
    }
}

/// The second stage, at a given time. It takes what the first stage made and
/// what the answering backend answered. The response holds exactly two
/// blocks, the reasoning and then the reply; the cost of both calls; and,
/// for a caller who asked, what each backend sent.
pub fn answer_stage_at(
    config: &Config,
    created: Timestamp,
    verbose: bool,
    stage: ReasoningStage,
    reply: Result<BackendReply, BackendError>,
) -> (response: Result<ApiResponse, ApiError>)
    ensures
        result_view(response) == answer_result(
            *config,
            created,
            verbose,
            stage.deep_view(),
            result_view(reply),
        ),
{
    match reply {
        Err(error) => Err(Backend::Anthropic.failure(error)),
        Ok(answer) => {
            let BackendReply { content, usage, raw } = answer;
            match usable_text(content) {
                None => Err(ApiError::MissingContent { backend: Backend::Anthropic }),
                Some(text) => {
                    let ReasoningStage {
                        thinking,
                        messages: _,
                        usage: reasoning_usage,
                        raw: reasoning_raw,
                    } = stage;
                    let mut content: Vec<ContentBlock> = Vec::new();
                    content.push(ContentBlock { kind: BlockKind::Text, text: thinking });
                    content.push(ContentBlock { kind: BlockKind::Text, text });
                    assert(content.deep_view() =~= seq![
                        ContentBlockView { kind: BlockKind::Text, text: thinking@ },
                        ContentBlockView { kind: BlockKind::Text, text: text@ },
                    ]);
                    Ok(
                        ApiResponse {
                            created,
                            content,
                            deepseek_response: shown(verbose, reasoning_raw),
                            anthropic_response: shown(verbose, raw),
                            combined_usage: combined_usage(&reasoning_usage, &usage, config),
                        },
                    )
                },
            }
        },
    }
}

/// The second stage, at the time of the call: the response is stamped with
/// the clock's reading, and is in all else what `answer_stage_at` makes.
pub fn answer_stage(
    config: &Config,
    verbose: bool,
    stage: ReasoningStage,
    reply: Result<BackendReply, BackendError>,
) -> (response: Result<ApiResponse, ApiError>)
    ensures
        result_view(response) == answer_result(
            *config,
            answered_at(response),
            verbose,
            stage.deep_view(),
            result_view(reply),
        ),
{
    answer_stage_at(config, current_time(), verbose, stage, reply)
}

/// What a request that is answered whole comes to. The request is looked
/// at before any backend, the reasoning backend before the answering one,
/// and the first failure is the result; where nothing fails, the result is
/// the response.
pub open spec fn chat_result(
    config: Config,
    created: Timestamp,
    request: ApiRequestView,
    credential: Result<Seq<char>, ApiErrorView>,
    deepseek: Result<BackendReplyView, BackendErrorView>,
    anthropic: Result<BackendReplyView, BackendErrorView>,
) -> Result<ApiResponseView, ApiErrorView> {
    match refusal(request, credential) {
        Some(error) => Err(error),
        None => match reasoning_result(messages_with_system(request), deepseek) {
            Err(error) => Err(error),
            Ok(stage) => answer_result(config, created, request.verbose, stage, anthropic),
        },
    }
}

/// The whole pipeline at a given time, on what the two backends answer. The
/// request is accepted or refused before a backend's answer counts; the
/// reasoning is wrapped and handed on; and the response holds the
/// reasoning, the reply, and what both calls cost.
pub fn chat_at(
    state: &AppState,
    headers: &HeaderMap,
    request: &ApiRequest,
    created: Timestamp,
    deepseek: Result<BackendReply, BackendError>,
    anthropic: Result<BackendReply, BackendError>,
) -> (response: Result<ApiResponse, ApiError>)
    ensures
        result_view(response) == chat_result(
            state.config,
            created,
            request.deep_view(),
            token_spec(credential_header(*headers)),
            result_view(deepseek),
            result_view(anthropic),
        ),
{
    match vet_request(headers, request) {
        Err(error) => Err(error),
        Ok(_) => {
            match reasoning_stage(request.get_messages_with_system(), deepseek) {
                Err(error) => Err(error),
                Ok(stage) => answer_stage_at(
                    &state.config,
                    created,
                    request.verbose,
                    stage,
                    anthropic,
                ),
            }
        },
    }
}

/// Answers a request whole, on what the two backends answer. The response
/// is stamped with the clock's reading, and is in all else what `chat_at`
/// makes at that reading.
pub fn chat(
    state: &AppState,
    headers: &HeaderMap,
    request: &ApiRequest,
    deepseek: Result<BackendReply, BackendError>,
    anthropic: Result<BackendReply, BackendError>,
) -> (response: Result<ApiResponse, ApiError>)
    ensures
        result_view(response) == chat_result(
            state.config,
            answered_at(response),
            request.deep_view(),
            token_spec(credential_header(*headers)),
            result_view(deepseek),
            result_view(anthropic),
        ),
{
    chat_at(state, headers, request, current_time(), deepseek, anthropic)
}

} // verus!
