//! The pipeline for an answer that is streamed, as a state machine.
//!
//! A session starts `Idle` and ends `Closed`. Whoever drives it hands it
//! what happens, one input at a time, and sends on the events that each step
//! gives back, in order. The session never calls a backend itself: in
//! `DeepSeekRunning` the driver reads the reasoning backend's stream, in
//! `AnthropicRunning` the answering backend's, and in every other phase
//! short of `Closed` it advances the session.
//!
//! ```text
//! Idle -> DeepSeekRunning -> DeepSeekDone -> AnthropicRunning
//!      -> AnthropicDone -> Finalizing -> Closed
//! DeepSeekRunning | AnthropicRunning -> Error -> Closed
//! ```
//!
//! An input that has no meaning in the phase at hand changes nothing and
//! gives no event.
//!
//! Whether an event reached the client is no input. A session whose client
//! has gone runs on to its end as any other does, and the driver's sends go
//! nowhere.

use crate::backend::{chunk_delta, StreamChunk, StreamChunkView};
use crate::clock::{current_time, Timestamp};
use crate::config::Config;
use crate::error::{
    missing_content_text, stream_error_text, Backend, BackendError, BackendErrorView,
    STREAM_ERROR_CODE,
};
use crate::event::{start_time, StreamEvent, StreamEventView};
use crate::message::{
    delta_block, text_block, thinking_close, thinking_open, thinking_turn, thinking_turn_spec,
    BlockKind, ContentBlockView, Message, MessageView,
};
use crate::usage::{combined_usage, combined_usage_spec, watermark, BackendUsage};
use vstd::prelude::*;
use vstd::string::StringExecFns;

verus! {

/// Where a session stands.
#[derive(Clone, Copy, Debug, PartialEq, Eq)]
pub enum Phase {
    /// Nothing has been sent.
    Idle,
    /// The reasoning backend's stream is being read.
    DeepSeekRunning,
    /// The reasoning is complete and stands in the conversation.
    DeepSeekDone,
    /// The answering backend's stream is being read.
    AnthropicRunning,
    /// The answer is complete.
    AnthropicDone,
    /// The usage has been sent; only the end is left to say.
    Finalizing,
    /// The session failed, and has said so.
    Error,
    /// Nothing more will be sent.
    Closed,
}

/// The state of one streamed answer.
#[derive(Debug)]
pub struct StreamSession {
    phase: Phase,
    config: Config,
    messages: Vec<Message>,
    system: Option<String>,
    reasoning: String,
    answer: String,
    deepseek_usage: BackendUsage,
    anthropic_usage: BackendUsage,
}

/// A `StreamSession`, as a value.
pub struct SessionView {
    pub phase: Phase,
    pub config: Config,
    /// The conversation so far.
    pub messages: Seq<MessageView>,
    pub system: Option<Seq<char>>,
    /// The reasoning read so far.
    pub reasoning: Seq<char>,
    /// The answer read so far.
    pub answer: Seq<char>,
    /// The highest counters that each backend has reported.
    pub deepseek_usage: BackendUsage,
    pub anthropic_usage: BackendUsage,
}

/// What can happen to a session.
#[derive(Clone, Debug, PartialEq, Eq)]
pub enum SessionInput {
    /// The answer is to begin, at the time given.
    Begin { created: Timestamp },
    /// The stream being read gave a chunk.
    Chunk { chunk: StreamChunk },
    /// The stream being read broke off.
    StreamError { error: BackendError },
    /// The stream being read came to its end.
    StreamEnd,
    /// The driver has done what the phase asked of it.
    Advance,
}

/// A `SessionInput`, as a value.
pub enum SessionInputView {
    Begin { created: Timestamp },
    Chunk { chunk: StreamChunkView },
    StreamError { error: BackendErrorView },
    StreamEnd,
    Advance,
}

impl DeepView for SessionInput {
    type V = SessionInputView;

    open spec fn deep_view(&self) -> SessionInputView {
        match self {
            SessionInput::Begin { created } => SessionInputView::Begin { created: *created },
            SessionInput::Chunk { chunk } => SessionInputView::Chunk { chunk: chunk.deep_view() },
            SessionInput::StreamError { error } => SessionInputView::StreamError {
                error: error.deep_view(),
            },
            SessionInput::StreamEnd => SessionInputView::StreamEnd,
            SessionInput::Advance => SessionInputView::Advance,
        }
    }
}

/// One step: the state after it, and the events to send for it.
pub struct StepView {
    pub next: SessionView,
    pub events: Seq<StreamEventView>,
}

/// A session before anything has happened.
pub open spec fn fresh(
    config: Config,
    messages: Seq<MessageView>,
    system: Option<Seq<char>>,
) -> SessionView {
    SessionView {
        phase: Phase::Idle,
        config,
        messages,
        system,
        reasoning: Seq::empty(),
        answer: Seq::empty(),
        deepseek_usage: BackendUsage::zero(),
        anthropic_usage: BackendUsage::zero(),
    }
}

/// The backend whose stream is read in a phase.
pub open spec fn running(phase: Phase) -> Option<Backend> {
    match phase {
        Phase::DeepSeekRunning => Some(Backend::DeepSeek),
        Phase::AnthropicRunning => Some(Backend::Anthropic),
        _ => None,
    }
}

/// A content event of one whole block.
pub open spec fn text_event(text: Seq<char>) -> StreamEventView {
    StreamEventView::Content { content: seq![ContentBlockView { kind: BlockKind::Text, text }] }
}

/// A content event of one block that continues the text.
pub open spec fn delta_event(text: Seq<char>) -> StreamEventView {
    StreamEventView::Content {
        content: seq![ContentBlockView { kind: BlockKind::TextDelta, text }],
    }
}

/// The event that reports a failure.
pub open spec fn error_event(message: Seq<char>) -> StreamEventView {
    StreamEventView::Error { message, code: STREAM_ERROR_CODE }
}

/// The state after a failure: nothing but the phase changes.
pub open spec fn failed(s: SessionView) -> SessionView {
    SessionView { phase: Phase::Error, ..s }
}

/// `Begin`: an idle session announces the answer and opens the reasoning.
pub open spec fn step_begin(s: SessionView, created: Timestamp) -> StepView {
    if s.phase == Phase::Idle {
        StepView {
            next: SessionView { phase: Phase::DeepSeekRunning, ..s },
            events: seq![StreamEventView::Start { created }, text_event(thinking_open())],
        }
    } else {
        StepView { next: s, events: Seq::empty() }
    }
}

/// `Chunk`: text that is not empty is sent on and kept; counters raise the
/// usage of the backend being read, each to the larger of old and new.
pub open spec fn step_chunk(s: SessionView, chunk: StreamChunkView) -> StepView {
    let delta = chunk_delta(chunk);
    let events = if delta.len() > 0 {
        seq![delta_event(delta)]
    } else {
        Seq::empty()
    };
    match running(s.phase) {
        Some(Backend::DeepSeek) => StepView {
            next: SessionView {
                reasoning: s.reasoning + delta,
                deepseek_usage: match chunk.usage {
                    Some(snapshot) => watermark(s.deepseek_usage, snapshot),
                    None => s.deepseek_usage,
                },
                ..s
            },
            events,
        },
        Some(Backend::Anthropic) => StepView {
            next: SessionView {
                answer: s.answer + delta,
                anthropic_usage: match chunk.usage {
                    Some(snapshot) => watermark(s.anthropic_usage, snapshot),
                    None => s.anthropic_usage,
                },
                ..s
            },
            events,
        },
        None => StepView { next: s, events: Seq::empty() },
    }
}

/// `StreamError`: the session fails and says which stream broke off.
pub open spec fn step_error(s: SessionView, error: BackendErrorView) -> StepView {
    match running(s.phase) {
        Some(backend) => StepView {
            next: failed(s),
            events: seq![error_event(stream_error_text(backend, error.message))],
        },
        None => StepView { next: s, events: Seq::empty() },
    }
}

/// `StreamEnd`: a stream that gave no text fails the session. Else the
/// reasoning is closed and joins the conversation as an assistant turn, or
/// the answer is complete.
pub open spec fn step_end(s: SessionView) -> StepView {
    match running(s.phase) {
        Some(Backend::DeepSeek) => if s.reasoning.len() == 0 {
            StepView {
                next: failed(s),
                events: seq![error_event(missing_content_text(Backend::DeepSeek))],
            }
        } else {
            StepView {
                next: SessionView {
                    phase: Phase::DeepSeekDone,
                    messages: s.messages.push(thinking_turn_spec(s.reasoning)),
                    ..s
                },
                events: seq![text_event(thinking_close())],
            }
        },
        Some(Backend::Anthropic) => if s.answer.len() == 0 {
            StepView {
                next: failed(s),
                events: seq![error_event(missing_content_text(Backend::Anthropic))],
            }
        } else {
            StepView {
                next: SessionView { phase: Phase::AnthropicDone, ..s },
                events: Seq::empty(),
            }
        },
        None => StepView { next: s, events: Seq::empty() },
    }
}

/// `Advance`: the session moves on from a phase that reads no stream.
pub open spec fn step_advance(s: SessionView) -> StepView {
    match s.phase {
        Phase::DeepSeekDone => StepView {
            next: SessionView { phase: Phase::AnthropicRunning, ..s },
            events: Seq::empty(),
        },
        Phase::AnthropicDone => StepView {
            next: SessionView { phase: Phase::Finalizing, ..s },
            events: seq![
                StreamEventView::Usage {
                    usage: combined_usage_spec(s.deepseek_usage, s.anthropic_usage, s.config),
                },
            ],
        },
        Phase::Finalizing => StepView {
            next: SessionView { phase: Phase::Closed, ..s },
            events: seq![StreamEventView::Done],
        },
        Phase::Error => StepView {
            next: SessionView { phase: Phase::Closed, ..s },
            events: Seq::empty(),
        },
        _ => StepView { next: s, events: Seq::empty() },
    }
}

/// The transition function of a session.
pub open spec fn spec_step(s: SessionView, input: SessionInputView) -> StepView {
    match input {
        SessionInputView::Begin { created } => step_begin(s, created),
        SessionInputView::Chunk { chunk } => step_chunk(s, chunk),
        SessionInputView::StreamError { error } => step_error(s, error),
        SessionInputView::StreamEnd => step_end(s),
        SessionInputView::Advance => step_advance(s),
    }
}

/// The events of a step that sends nothing.
fn no_events() -> (events: Vec<StreamEvent>)
    ensures
        events.deep_view() == Seq::<StreamEventView>::empty(),
{
    let events: Vec<StreamEvent> = Vec::new();
    assert(events.deep_view() =~= Seq::<StreamEventView>::empty());
    events
}

/// The events of a step that sends one.
fn one_event(event: StreamEvent) -> (events: Vec<StreamEvent>)
    ensures
        events.deep_view() == seq![event.deep_view()],
{
    let mut events: Vec<StreamEvent> = Vec::new();
    events.push(event);
    assert(events.deep_view() =~= seq![event.deep_view()]);
    events
}

/// The event that reports a failure.
fn failure_event(message: String) -> (event: StreamEvent)
    ensures
        event.deep_view() == error_event(message@),
{
    StreamEvent::Error { message, code: STREAM_ERROR_CODE }
}

impl DeepView for StreamSession {
    type V = SessionView;

    closed spec fn deep_view(&self) -> SessionView {
        SessionView {
            phase: self.phase,
            config: self.config,
            messages: self.messages.deep_view(),
            system: self.system.deep_view(),
            reasoning: self.reasoning@,
            answer: self.answer@,
            deepseek_usage: self.deepseek_usage,
            anthropic_usage: self.anthropic_usage,
        }
    }
}

impl StreamSession {
    /// A session for one request: the conversation for the reasoning
    /// backend, and the system prompt that goes to the answering backend.
    pub fn new(config: Config, messages: Vec<Message>, system: Option<String>) -> (session:
        StreamSession)
        ensures
            session.deep_view() == fresh(config, messages.deep_view(), system.deep_view()),
    {
        StreamSession {
            phase: Phase::Idle,
            config,
            messages,
            system,
            reasoning: String::new(),
            answer: String::new(),
            deepseek_usage: BackendUsage::new(),
            anthropic_usage: BackendUsage::new(),
        }
    }

    pub fn phase(&self) -> (phase: Phase)
        ensures
            phase == self.deep_view().phase,
    {
        self.phase
    }

    /// Whether nothing more will be sent.
    pub fn is_closed(&self) -> (closed: bool)
        ensures
            closed == (self.deep_view().phase == Phase::Closed),
    {
        match self.phase {
            Phase::Closed => true,
            _ => false,
        }
    }

    /// The backend whose stream the driver is to read now, if any.
    pub fn reading(&self) -> (backend: Option<Backend>)
        ensures
            backend == running(self.deep_view().phase),
    {
        match self.phase {
            Phase::DeepSeekRunning => Some(Backend::DeepSeek),
            Phase::AnthropicRunning => Some(Backend::Anthropic),
            _ => None,
        }
    }

    /// The conversation so far: what the backend being read was called with.
    pub fn messages(&self) -> (messages: &Vec<Message>)
        ensures
            messages.deep_view() == self.deep_view().messages,
    {
        &self.messages
    }

    /// The system prompt for the answering backend.
    pub fn system(&self) -> (system: &Option<String>)
        ensures
            system.deep_view() == self.deep_view().system,
    {
        &self.system
    }

    /// The reasoning read so far.
    pub fn reasoning(&self) -> (reasoning: &str)
        ensures
            reasoning@ == self.deep_view().reasoning,
    {
        self.reasoning.as_str()
    }

    /// The answer read so far.
    pub fn answer(&self) -> (answer: &str)
        ensures
            answer@ == self.deep_view().answer,
    {
        self.answer.as_str()
    }

    /// The highest counters that the reasoning backend has reported.
    pub fn deepseek_usage(&self) -> (usage: BackendUsage)
        ensures
            usage == self.deep_view().deepseek_usage,
    {
        self.deepseek_usage
    }

    /// The highest counters that the answering backend has reported.
    pub fn anthropic_usage(&self) -> (usage: BackendUsage)
        ensures
            usage == self.deep_view().anthropic_usage,
    {
        self.anthropic_usage
    }

    /// Takes `Begin` at the time given.
    pub fn begin(&mut self, created: Timestamp) -> (events: Vec<StreamEvent>)
        ensures
            final(self).deep_view() == step_begin(old(self).deep_view(), created).next,
            events.deep_view() == step_begin(old(self).deep_view(), created).events,
    {
        match self.phase {
            Phase::Idle => {
                self.phase = Phase::DeepSeekRunning;
                let mut events: Vec<StreamEvent> = Vec::new();
                events.push(StreamEvent::Start { created });
                events.push(StreamEvent::single(text_block("<thinking>\n")));
                assert(events.deep_view() =~= step_begin(old(self).deep_view(), created).events);
                events
            },
            _ => no_events(),
        }
    }

    /// Takes `Begin` at the time of the call: the clock is read, and the
    /// step is the one that `begin` takes at that reading, which the `Start`
    /// event bears.
    pub fn begin_now(&mut self) -> (events: Vec<StreamEvent>)
        ensures
            final(self).deep_view() == step_begin(
                old(self).deep_view(),
                start_time(events.deep_view()),
            ).next,
            events.deep_view() == step_begin(
                old(self).deep_view(),
                start_time(events.deep_view()),
            ).events,
    {
        self.begin(current_time())
    }

    /// Takes `Chunk`.
    pub fn on_chunk(&mut self, chunk: &StreamChunk) -> (events: Vec<StreamEvent>)
        ensures
            final(self).deep_view() == step_chunk(old(self).deep_view(), chunk.deep_view()).next,
            events.deep_view() == step_chunk(old(self).deep_view(), chunk.deep_view()).events,
    {
        let backend = match self.reading() {
            Some(backend) => backend,
            None => {
                return no_events();
            },
        };
        let events = match &chunk.content {
            Some(text) => {
                if text.as_str().is_empty() {
                    assert(self.reasoning@ + text@ =~= self.reasoning@);
                    assert(self.answer@ + text@ =~= self.answer@);
                    no_events()
                } else {
                    match backend {
                        Backend::DeepSeek => self.reasoning.append(text.as_str()),
                        Backend::Anthropic => self.answer.append(text.as_str()),
                    }
                    one_event(StreamEvent::single(delta_block(text.as_str())))
                }
            },
            None => {
                assert(self.reasoning@ + Seq::<char>::empty() =~= self.reasoning@);
                assert(self.answer@ + Seq::<char>::empty() =~= self.answer@);
                no_events()
            },
        };
        match &chunk.usage {
            Some(snapshot) => match backend {
                Backend::DeepSeek => self.deepseek_usage.observe(snapshot),
                Backend::Anthropic => self.anthropic_usage.observe(snapshot),
            },
            None => {},
        }
        events
    }

    /// Takes `StreamError`.
    pub fn on_error(&mut self, error: &BackendError) -> (events: Vec<StreamEvent>)
        ensures
            final(self).deep_view() == step_error(old(self).deep_view(), error.deep_view()).next,
            events.deep_view() == step_error(old(self).deep_view(), error.deep_view()).events,
    {
        match self.reading() {
            Some(backend) => {
                self.phase = Phase::Error;
                one_event(failure_event(backend.stream_error_message(error)))
            },
            None => no_events(),
        }
    }

    /// Takes `StreamEnd`.
    pub fn on_end(&mut self) -> (events: Vec<StreamEvent>)
        ensures
            final(self).deep_view() == step_end(old(self).deep_view()).next,
            events.deep_view() == step_end(old(self).deep_view()).events,
    {
        match self.reading() {
            Some(Backend::DeepSeek) => {
                if self.reasoning.as_str().is_empty() {
                    self.phase = Phase::Error;
                    one_event(failure_event(Backend::DeepSeek.missing_content_message()))
                } else {
                    self.phase = Phase::DeepSeekDone;
                    let turn = thinking_turn(self.reasoning.as_str());
                    self.messages.push(turn);
                    assert(self.messages.deep_view() =~= old(self).messages.deep_view().push(
                        thinking_turn_spec(self.reasoning@),
                    ));
                    one_event(StreamEvent::single(text_block("\n</thinking>")))
                }
            },
            Some(Backend::Anthropic) => {
                if self.answer.as_str().is_empty() {
                    self.phase = Phase::Error;
                    one_event(failure_event(Backend::Anthropic.missing_content_message()))
                } else {
                    self.phase = Phase::AnthropicDone;
                    no_events()
                }
            },
            None => no_events(),
        }
    }

    /// Takes `Advance`.
    pub fn advance(&mut self) -> (events: Vec<StreamEvent>)
        ensures
            final(self).deep_view() == step_advance(old(self).deep_view()).next,
            events.deep_view() == step_advance(old(self).deep_view()).events,
    {
        match self.phase {
            Phase::DeepSeekDone => {
                self.phase = Phase::AnthropicRunning;
                no_events()
            },
            Phase::AnthropicDone => {
                self.phase = Phase::Finalizing;
                let usage = combined_usage(
                    &self.deepseek_usage,
                    &self.anthropic_usage,
                    &self.config,
                );
                one_event(StreamEvent::Usage { usage })
            },
            Phase::Finalizing => {
                self.phase = Phase::Closed;
                one_event(StreamEvent::Done)
            },
            Phase::Error => {
                self.phase = Phase::Closed;
                no_events()
            },
            _ => no_events(),
        }
    }

    /// Takes one input, whatever it is: the session moves as `spec_step`
    /// says, and the events to send for the step come back in order.
    pub fn step(&mut self, input: &SessionInput) -> (events: Vec<StreamEvent>)
        ensures
            final(self).deep_view() == spec_step(old(self).deep_view(), input.deep_view()).next,
            events.deep_view() == spec_step(old(self).deep_view(), input.deep_view()).events,
    {
        match input {
            SessionInput::Begin { created } => self.begin(*created),
            SessionInput::Chunk { chunk } => self.on_chunk(chunk),
            SessionInput::StreamError { error } => self.on_error(error),
            SessionInput::StreamEnd => self.on_end(),
            SessionInput::Advance => self.advance(),
        }
    }
}

} // verus!
