//! The pipeline for an answer that is streamed, from a request to its
//! events.
//!
//! A request that is not valid, or brings no usable credential, is refused
//! before anything is sent: the refusal is the result, and no event says
//! it. Once `Start` has been sent, every failure is an `Error` event, the
//! last of the stream.

use crate::clock::{current_time, Timestamp};
use crate::config::{AppState, Config};
use crate::credentials::{credential_header, token_spec};
use crate::error::{result_view, ApiError, ApiErrorView};
use crate::event::start_time;
use crate::laws::lemma_run_starts;
use crate::request::{
    messages_with_system, refusal, system_prompt, vet_request, ApiRequest, ApiRequestView,
};
use crate::stream::{
    anthropic_call, run_session, script_view, stream_run, Script, ScriptView, StreamOutcome,
    StreamOutcomeView,
};
use axum::http::HeaderMap;
use vstd::prelude::*;
use vstd::string::StringExecFns;

verus! {

/// What a request that is streamed comes to: a refusal, or the run of a new
/// session on the conversation and the system prompt that are read from the
/// request.
pub open spec fn stream_result(
    config: Config,
    created: Timestamp,
    request: ApiRequestView,
    credential: Result<Seq<char>, ApiErrorView>,
    deepseek: ScriptView,
    anthropic: ScriptView,
) -> Result<StreamOutcomeView, ApiErrorView> {
    match refusal(request, credential) {
        Some(error) => Err(error),
        None => Ok(
            StreamOutcomeView {
                events: stream_run(
                    config,
                    messages_with_system(request),
                    system_prompt(request),
                    created,
                    deepseek,
                    anthropic,
                ).events,
                anthropic_messages: anthropic_call(
                    config,
                    messages_with_system(request),
                    system_prompt(request),
                    created,
                    deepseek,
                ),
            },
        ),
    }
}

/// The time that a stream's `Start` bears. A refusal bears no time.
pub open spec fn started_at(outcome: Result<StreamOutcome, ApiError>) -> Timestamp {
    match outcome {
        Ok(run) => start_time(run.events.deep_view()),
        Err(_) => Timestamp { seconds: 0, nanos: 0 },
    }
}

/// A copy of a text that may be absent.
fn owned(text: Option<&str>) -> (copy: Option<String>)
    ensures
        copy.deep_view() == text.deep_view(),
{
    match text {
        Some(held) => Some(String::from_str(held)),
        None => None,
    }
}

/// The whole streamed pipeline at a given time, on what the two backends
/// stream.
pub fn chat_stream_at(
    state: &AppState,
    headers: &HeaderMap,
    request: &ApiRequest,
    created: Timestamp,
    deepseek: &Script,
    anthropic: &Script,
) -> (outcome: Result<StreamOutcome, ApiError>)
    ensures
        result_view(outcome) == stream_result(
            state.config,
            created,
            request.deep_view(),
            token_spec(credential_header(*headers)),
            script_view(deepseek@),
            script_view(anthropic@),
        ),
{
    match vet_request(headers, request) {
        Err(error) => Err(error),
        Ok(_) => Ok(
            run_session(
                state.config,
                request.get_messages_with_system(),
                owned(request.get_system_prompt()),
                created,
                deepseek,
                anthropic,
            ),
        ),
    }
}

/// Streams the answer to a request, on what the two backends stream. The
/// `Start` event bears the clock's reading, and the outcome is in all else
/// what `chat_stream_at` gives at that reading.
pub fn chat_stream(
    state: &AppState,
    headers: &HeaderMap,
    request: &ApiRequest,
    deepseek: &Script,
    anthropic: &Script,
) -> (outcome: Result<StreamOutcome, ApiError>)
    ensures
        result_view(outcome) == stream_result(
            state.config,
            started_at(outcome),
            request.deep_view(),
            token_spec(credential_header(*headers)),
            script_view(deepseek@),
            script_view(anthropic@),
        ),
{
    let created = current_time();
    proof {
        lemma_run_starts(
            state.config,
            messages_with_system(request.deep_view()),
            system_prompt(request.deep_view()),
            created,
            script_view(deepseek@),
            script_view(anthropic@),
        );
    }
    chat_stream_at(state, headers, request, created, deepseek, anthropic)
}

} // verus!
