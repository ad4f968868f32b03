//! One entry for both ways of answering.
//!
//! A request says whether its answer is to be streamed. Either way the
//! backends are the same: a backend is known here by what it streams, and
//! its blocking answer is that stream gathered into one reply.

use crate::backend::{BackendReply, BackendReplyView};
use crate::batched::{chat, chat_result};
use crate::clock::Timestamp;
use crate::config::{AppState, Config};
use crate::credentials::{credential_header, token_spec};
use crate::error::{result_view, ApiError, ApiErrorView, BackendError, BackendErrorView};
use crate::event::start_time;
use crate::request::{ApiRequest, ApiRequestView};
use crate::response::{ApiResponse, ApiResponseView};
use crate::stream::{
    first_error, joined, lemma_usage_after, script_view, usage_after, Script, ScriptView,
    StreamOutcome, StreamOutcomeView,
};
use crate::streamed::{chat_stream, stream_result};
use crate::usage::BackendUsage;
use axum::http::HeaderMap;
use serde_json::Value;
use vstd::prelude::*;
use vstd::string::StringExecFns;

verus! {

/// A backend whose answer is known: the elements of its stream, in order,
/// and its answer as it would come over the wire.
#[derive(Debug, PartialEq, Eq)]
pub struct ScriptedBackend {
    pub chunks: Script,
    pub raw: Value,
}

/// A stream gathered into one reply. A stream that holds a failure gathers
/// to its first failure. Else the reply holds the text of all chunks,
/// joined, and each counter at the highest value that a chunk reports.
pub open spec fn gathered(script: ScriptView, raw: Value) -> Result<
    BackendReplyView,
    BackendErrorView,
> {
    match first_error(script) {
        Some(error) => Err(error),
        None => Ok(
            BackendReplyView {
                content: Some(joined(script)),
                usage: usage_after(BackendUsage::zero(), script),
                raw,
            },
        ),
    }
}

/// A copy of a text that may be absent.
fn copy_text(text: &Option<String>) -> (copy: Option<String>)
    ensures
        copy.deep_view() == text.deep_view(),
{
    match text {
        Some(held) => Some(held.clone()),
        None => None,
    }
}

/// A copy of a failure.
fn copy_error(error: &BackendError) -> (copy: BackendError)
    ensures
        copy.deep_view() == error.deep_view(),
{
    BackendError {
        message: error.message.clone(),
        type_: error.type_.clone(),
        param: copy_text(&error.param),
        code: copy_text(&error.code),
    }
}

impl ScriptedBackend {
    /// The backend's blocking answer: its stream, gathered.
    pub fn chat(self) -> (reply: Result<BackendReply, BackendError>)
        ensures
            result_view(reply) == gathered(script_view(self.chunks@), self.raw),
    {
        let ScriptedBackend { chunks, raw } = self;
        let ghost script = script_view(chunks@);
        let mut text = String::new();
        let mut usage = BackendUsage::new();
        let mut i: usize = 0;
        proof {
            assert(script.take(0) =~= Seq::empty());
            lemma_usage_after(BackendUsage::zero(), script.take(0));
        }
        while i < chunks.len()
            invariant
                i <= chunks.len(),
                chunks@ == self.chunks@,
                script == script_view(chunks@),
                first_error(script.take(i as int)) is None,
                text@ == joined(script.take(i as int)),
                usage == usage_after(BackendUsage::zero(), script.take(i as int)),
            decreases chunks.len() - i,
        {
            proof {
                assert(script.take(i + 1).drop_last() =~= script.take(i as int));
                assert(script.take(i + 1).last() == result_view(chunks@[i as int]));
                lemma_usage_after(BackendUsage::zero(), script.take(i + 1));
            }
            match &chunks[i] {
                Err(error) => {
                    proof {
                        assert(first_error(script.take(i + 1)) == Some(error.deep_view()));
                        lemma_first_error_stays(script, i + 1);
                    }
                    return Err(copy_error(error));
                },
                Ok(chunk) => {
                    match &chunk.content {
                        Some(delta) => {
                            text.append(delta.as_str());
                        },
                        None => {
                            assert(text@ + Seq::<char>::empty() =~= text@);
                        },
                    }
                    match &chunk.usage {
                        Some(snapshot) => {
                            usage.observe(snapshot);
                        },
                        None => {},
                    }
                },
            }
            i += 1;
        }
        assert(script.take(i as int) =~= script);
        Ok(BackendReply { content: Some(text), usage, raw })
    }
}

/// The first failure among the first `n` elements of a stream is the first
/// failure of the stream.
proof fn lemma_first_error_stays(script: ScriptView, n: int)
    requires
        0 <= n <= script.len(),
        first_error(script.take(n)) is Some,
    ensures
        first_error(script) == first_error(script.take(n)),
    decreases script.len() - n,
{
    if n < script.len() {
        assert(script.take(n + 1).drop_last() =~= script.take(n));
        lemma_first_error_stays(script, n + 1);
    } else {
        assert(script.take(n) =~= script);
    }
}

/// The answer to a request, in the form that was asked for.
#[derive(Debug, PartialEq, Eq)]
pub enum ChatResponse {
    /// The whole answer.
    Whole { response: ApiResponse },
    /// The events of a streamed answer, in the order sent.
    Streamed { outcome: StreamOutcome },
}

/// A `ChatResponse`, as a value.
pub enum ChatResponseView {
    Whole { response: ApiResponseView },
    Streamed { outcome: StreamOutcomeView },
}

impl DeepView for ChatResponse {
    type V = ChatResponseView;

    open spec fn deep_view(&self) -> ChatResponseView {
        match self {
            ChatResponse::Whole { response } => ChatResponseView::Whole {
                response: response.deep_view(),
            },
            ChatResponse::Streamed { outcome } => ChatResponseView::Streamed {
                outcome: outcome.deep_view(),
            },
        }
    }
}

/// What a request comes to at a given time. A request that asks for a
/// stream is run as a session on what the backends stream; any other is
/// answered whole on what the backends' streams gather to.
pub open spec fn handle_chat_result(
    config: Config,
    created: Timestamp,
    request: ApiRequestView,
    credential: Result<Seq<char>, ApiErrorView>,
    deepseek: ScriptView,
    deepseek_raw: Value,
    anthropic: ScriptView,
    anthropic_raw: Value,
) -> Result<ChatResponseView, ApiErrorView> {
    if request.stream {
        match stream_result(config, created, request, credential, deepseek, anthropic) {
            Ok(outcome) => Ok(ChatResponseView::Streamed { outcome }),
            Err(error) => Err(error),
        }
    } else {
        match chat_result(
            config,
            created,
            request,
            credential,
            gathered(deepseek, deepseek_raw),
            gathered(anthropic, anthropic_raw),
        ) {
            Ok(response) => Ok(ChatResponseView::Whole { response }),
            Err(error) => Err(error),
        }
    }
}

/// The time that an answer bears: that of a whole response, or that of a
/// stream's `Start`. A failure bears no time.
pub open spec fn handled_at(answer: Result<ChatResponse, ApiError>) -> Timestamp {
    match answer {
        Ok(ChatResponse::Whole { response }) => response.created,
        Ok(ChatResponse::Streamed { outcome }) => start_time(outcome.events.deep_view()),
        Err(_) => Timestamp { seconds: 0, nanos: 0 },
    }
}

/// Answers a request in the way it asks for: streamed where `stream` is
/// set, whole where it is not. The answer bears the clock's reading and is
/// in all else what `handle_chat_result` says at that reading.
pub fn handle_chat(
    state: &AppState,
    headers: &HeaderMap,
    request: &ApiRequest,
    deepseek: ScriptedBackend,
    anthropic: ScriptedBackend,
) -> (answer: Result<ChatResponse, ApiError>)
    ensures
        result_view(answer) == handle_chat_result(
            state.config,
            handled_at(answer),
            request.deep_view(),
            token_spec(credential_header(*headers)),
            script_view(deepseek.chunks@),
            deepseek.raw,
            script_view(anthropic.chunks@),
            anthropic.raw,
        ),
{
    if request.stream {
        match chat_stream(state, headers, request, &deepseek.chunks, &anthropic.chunks) {
            Ok(outcome) => Ok(ChatResponse::Streamed { outcome }),
            Err(error) => Err(error),
        }
    } else {
        match chat(state, headers, request, deepseek.chat(), anthropic.chat()) {
            Ok(response) => Ok(ChatResponse::Whole { response }),
            Err(error) => Err(error),
        }
    }
}

} // verus!
