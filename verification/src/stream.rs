//! A streamed answer from beginning to end, on what the two backends stream.
//!
//! The run is the session driven as any driver drives it: `Begin`; the
//! reasoning backend's stream, element by element, and its end; `Advance`;
//! the answering backend's stream and its end; and `Advance` until the
//! session is closed. A session that has failed takes no more of a stream,
//! so what follows a failure in the inputs changes nothing.

use crate::backend::{chunk_delta, StreamChunk, StreamChunkView};
use crate::clock::Timestamp;
use crate::config::Config;
use crate::error::{result_view, BackendError, BackendErrorView};
use crate::event::{StreamEvent, StreamEventView};
use crate::message::{copy_messages, Message, MessageView};
use crate::session::{
    fresh, spec_step, Phase, SessionInputView, SessionView, StepView, StreamSession,
};
use crate::usage::{watermark, watermark_all, BackendUsage};
use vstd::prelude::*;

verus! {

/// What a backend streams: the elements of its stream, in order. A stream
/// ends at its first failure; what a script holds after one is never read.
pub type Script = Vec<Result<StreamChunk, BackendError>>;

/// A `Script`, as a value.
pub type ScriptView = Seq<Result<StreamChunkView, BackendErrorView>>;

/// A script as a value.
pub open spec fn script_view(script: Seq<Result<StreamChunk, BackendError>>) -> ScriptView {
    Seq::new(script.len(), |i: int| result_view(script[i]))
}

/// The failure that ends a stream, if one does: the first that it holds.
pub open spec fn first_error(script: ScriptView) -> Option<BackendErrorView>
    decreases script.len(),
{
    if script.len() == 0 {
        None
    } else {
        match first_error(script.drop_last()) {
            Some(error) => Some(error),
            None => match script.last() {
                Err(error) => Some(error),
                Ok(_) => None,
            },
        }
    }
}

/// The text that a stream brings: what its chunks add, joined in order.
pub open spec fn joined(script: ScriptView) -> Seq<char>
    decreases script.len(),
{
    if script.len() == 0 {
        Seq::empty()
    } else {
        joined(script.drop_last()) + match script.last() {
            Ok(chunk) => chunk_delta(chunk),
            Err(_) => Seq::empty(),
        }
    }
}

/// The counters that a stream reports, in the order reported.
pub open spec fn reported(script: ScriptView) -> Seq<BackendUsage>
    decreases script.len(),
{
    if script.len() == 0 {
        Seq::empty()
    } else {
        let before = reported(script.drop_last());
        match script.last() {
            Ok(chunk) => match chunk.usage {
                Some(snapshot) => before.push(snapshot),
                None => before,
            },
            Err(_) => before,
        }
    }
}

/// The usage after a stream: each counter the highest of `seen` and of what
/// the chunks report.
pub open spec fn usage_after(seen: BackendUsage, script: ScriptView) -> BackendUsage {
    watermark_all(seen, reported(script))
}

/// What one more element of a stream does to the usage.
pub open spec fn usage_with(before: BackendUsage, item: Result<StreamChunkView, BackendErrorView>)
    -> BackendUsage {
    match item {
        Ok(chunk) => match chunk.usage {
            Some(snapshot) => watermark(before, snapshot),
            None => before,
        },
        Err(_) => before,
    }
}

/// The usage after a stream, element by element.
pub proof fn lemma_usage_after(seen: BackendUsage, script: ScriptView)
    ensures
        script.len() == 0 ==> usage_after(seen, script) == seen,
        script.len() > 0 ==> usage_after(seen, script) == usage_with(
            usage_after(seen, script.drop_last()),
            script.last(),
        ),
{
    if script.len() > 0 {
        let before = reported(script.drop_last());
        match script.last() {
            Ok(chunk) => match chunk.usage {
                Some(snapshot) => {
                    assert(before.push(snapshot).drop_last() =~= before);
                },
                None => {},
            },
            Err(_) => {},
        }
    }
}

/// The session after a run of inputs, and all the events of the run.
#[verifier::opaque]
pub open spec fn spec_run(s: SessionView, inputs: Seq<SessionInputView>) -> StepView
    decreases inputs.len(),
{
    if inputs.len() == 0 {
        StepView { next: s, events: Seq::empty() }
    } else {
        let before = spec_run(s, inputs.drop_last());
        let step = spec_step(before.next, inputs.last());
        StepView { next: step.next, events: before.events + step.events }
    }
}

/// One element of a stream, as an input.
pub open spec fn chunk_input(item: Result<StreamChunkView, BackendErrorView>) -> SessionInputView {
    match item {
        Ok(chunk) => SessionInputView::Chunk { chunk },
        Err(error) => SessionInputView::StreamError { error },
    }
}

/// The elements of a stream, as inputs.
pub open spec fn chunk_inputs(script: ScriptView) -> Seq<SessionInputView> {
    Seq::new(script.len(), |i: int| chunk_input(script[i]))
}

/// A stream read to its end, as inputs.
pub open spec fn stream_inputs(script: ScriptView) -> Seq<SessionInputView> {
    chunk_inputs(script).push(SessionInputView::StreamEnd)
}

/// The inputs of a run up to the end of the reasoning backend's stream.
pub open spec fn reasoning_inputs(created: Timestamp, deepseek: ScriptView) -> Seq<
    SessionInputView,
> {
    seq![SessionInputView::Begin { created }] + stream_inputs(deepseek)
}

/// The inputs of a whole run.
pub open spec fn session_inputs(
    created: Timestamp,
    deepseek: ScriptView,
    anthropic: ScriptView,
) -> Seq<SessionInputView> {
    reasoning_inputs(created, deepseek) + seq![SessionInputView::Advance] + stream_inputs(
        anthropic,
    ) + seq![SessionInputView::Advance, SessionInputView::Advance]
}

/// A whole run of a new session.
pub open spec fn stream_run(
    config: Config,
    messages: Seq<MessageView>,
    system: Option<Seq<char>>,
    created: Timestamp,
    deepseek: ScriptView,
    anthropic: ScriptView,
) -> StepView {
    spec_run(fresh(config, messages, system), session_inputs(created, deepseek, anthropic))
}

/// The conversation that the answering backend is called with in a run, or
/// `None` where the run never calls it.
pub open spec fn anthropic_call(
    config: Config,
    messages: Seq<MessageView>,
    system: Option<Seq<char>>,
    created: Timestamp,
    deepseek: ScriptView,
) -> Option<Seq<MessageView>> {
    let reached = spec_run(fresh(config, messages, system), reasoning_inputs(created, deepseek)).next;
    if reached.phase == Phase::DeepSeekDone {
        Some(reached.messages)
    } else {
        None
    }
}

/// A run of no inputs changes nothing and sends nothing.
pub proof fn lemma_run_none(s: SessionView)
    ensures
        spec_run(s, Seq::empty()) == (StepView { next: s, events: Seq::empty() }),
{
    reveal(spec_run);
}

/// A run of one more input is one more step.
pub proof fn lemma_run_push(s: SessionView, done: Seq<SessionInputView>, input: SessionInputView)
    ensures
        spec_run(s, done.push(input)).next == spec_step(spec_run(s, done).next, input).next,
        spec_run(s, done.push(input)).events == spec_run(s, done).events + spec_step(
            spec_run(s, done).next,
            input,
        ).events,
{
    reveal(spec_run);
    assert(done.push(input).drop_last() =~= done);
}

/// A run of `first` and then `second` is the run of `second` from where the
/// run of `first` ends, and its events are those of both.
pub proof fn lemma_run_concat(
    s: SessionView,
    first: Seq<SessionInputView>,
    second: Seq<SessionInputView>,
)
    ensures
        spec_run(s, first + second).next == spec_run(spec_run(s, first).next, second).next,
        spec_run(s, first + second).events == spec_run(s, first).events + spec_run(
            spec_run(s, first).next,
            second,
        ).events,
    decreases second.len(),
{
    let mid = spec_run(s, first);
    if second.len() == 0 {
        lemma_run_none(mid.next);
        assert(first + second =~= first);
        assert(second =~= Seq::<SessionInputView>::empty());
        assert(mid.events + Seq::<StreamEventView>::empty() =~= mid.events);
    } else {
        let earlier = second.drop_last();
        lemma_run_concat(s, first, earlier);
        lemma_run_push(s, first + earlier, second.last());
        lemma_run_push(mid.next, earlier, second.last());
        assert((first + earlier).push(second.last()) =~= first + second);
        assert(earlier.push(second.last()) =~= second);
        let before = spec_run(mid.next, earlier);
        let step = spec_step(before.next, second.last());
        assert((mid.events + before.events) + step.events =~= mid.events + (before.events
            + step.events));
    }
}

/// A run of one input is one step.
pub proof fn lemma_run_one(s: SessionView, input: SessionInputView)
    ensures
        spec_run(s, seq![input]) == spec_step(s, input),
{
    lemma_run_none(s);
    lemma_run_push(s, Seq::empty(), input);
    assert(Seq::<SessionInputView>::empty().push(input) =~= seq![input]);
    assert(Seq::<StreamEventView>::empty() + spec_step(s, input).events =~= spec_step(
        s,
        input,
    ).events);
}

/// What a run gives: the events in the order sent, and the conversation that
/// the answering backend was called with, if it was called.
#[derive(Debug, PartialEq, Eq)]
pub struct StreamOutcome {
    pub events: Vec<StreamEvent>,
    pub anthropic_messages: Option<Vec<Message>>,
}

/// A `StreamOutcome`, as a value.
pub struct StreamOutcomeView {
    pub events: Seq<StreamEventView>,
    pub anthropic_messages: Option<Seq<MessageView>>,
}

impl DeepView for StreamOutcome {
    type V = StreamOutcomeView;

    open spec fn deep_view(&self) -> StreamOutcomeView {
        StreamOutcomeView {
            events: self.events.deep_view(),
            anthropic_messages: self.anthropic_messages.deep_view(),
        }
    }
}

/// Adds the events of a step to those of the run.
fn collect(events: &mut Vec<StreamEvent>, step: Vec<StreamEvent>)
    ensures
        final(events).deep_view() == old(events).deep_view() + step.deep_view(),
{
    let mut rest = step;
    events.append(&mut rest);
    assert(events.deep_view() =~= old(events).deep_view() + step.deep_view());
}

/// What holds between the steps of a run: the session and the events are
/// those of the run of `done` from `start`.
pub open spec fn run_so_far(
    start: SessionView,
    done: Seq<SessionInputView>,
    session: SessionView,
    events: Seq<StreamEventView>,
) -> bool {
    session == spec_run(start, done).next && events == spec_run(start, done).events
}

/// A run that is continued from where it stands is the run of all its
/// inputs.
proof fn lemma_run_continues(
    start: SessionView,
    done: Seq<SessionInputView>,
    more: Seq<SessionInputView>,
    session: SessionView,
    events: Seq<StreamEventView>,
)
    requires
        run_so_far(start, done, session, events),
    ensures
        run_so_far(
            start,
            done + more,
            spec_run(session, more).next,
            events + spec_run(session, more).events,
        ),
{
    lemma_run_concat(start, done, more);
}

/// Hands a session one stream, element by element, and then its end.
fn feed(session: &mut StreamSession, events: &mut Vec<StreamEvent>, script: &Script)
    ensures
        final(session).deep_view() == spec_run(
            old(session).deep_view(),
            stream_inputs(script_view(script@)),
        ).next,
        final(events).deep_view() == old(events).deep_view() + spec_run(
            old(session).deep_view(),
            stream_inputs(script_view(script@)),
        ).events,
{
    let ghost start = session.deep_view();
    let ghost before = events.deep_view();
    let ghost inputs = chunk_inputs(script_view(script@));
    let ghost done = Seq::<SessionInputView>::empty();
    let mut i: usize = 0;
    proof {
        lemma_run_none(start);
        assert(before + Seq::<StreamEventView>::empty() =~= before);
    }
    while i < script.len()
        invariant
            i <= script.len(),
            inputs == chunk_inputs(script_view(script@)),
            done == inputs.take(i as int),
            session.deep_view() == spec_run(start, done).next,
            events.deep_view() == before + spec_run(start, done).events,
        decreases script.len() - i,
    {
        let ghost held = events.deep_view();
        let step = match &script[i] {
            Ok(chunk) => session.on_chunk(chunk),
            Err(error) => session.on_error(error),
        };
        collect(events, step);
        proof {
            let input = chunk_input(result_view(script@[i as int]));
            lemma_run_push(start, done, input);
            assert(done.push(input) =~= inputs.take(i + 1));
            assert(before + spec_run(start, done.push(input)).events =~= held
                + step.deep_view());
            done = done.push(input);
        }
        i += 1;
    }
    let ghost held = events.deep_view();
    let step = session.on_end();
    collect(events, step);
    proof {
        assert(done =~= inputs);
        lemma_run_push(start, inputs, SessionInputView::StreamEnd);
        assert(before + spec_run(start, stream_inputs(script_view(script@))).events =~= held
            + step.deep_view());
    }
}

/// Hands a session `Begin`.
fn begin(session: &mut StreamSession, events: &mut Vec<StreamEvent>, created: Timestamp)
    ensures
        final(session).deep_view() == spec_run(
            old(session).deep_view(),
            seq![SessionInputView::Begin { created }],
        ).next,
        final(events).deep_view() == old(events).deep_view() + spec_run(
            old(session).deep_view(),
            seq![SessionInputView::Begin { created }],
        ).events,
{
    proof {
        lemma_run_one(session.deep_view(), SessionInputView::Begin { created });
    }
    let step = session.begin(created);
    collect(events, step);
}

/// Hands a session `Advance`.
fn advance(session: &mut StreamSession, events: &mut Vec<StreamEvent>)
    ensures
        final(session).deep_view() == spec_run(
            old(session).deep_view(),
            seq![SessionInputView::Advance],
        ).next,
        final(events).deep_view() == old(events).deep_view() + spec_run(
            old(session).deep_view(),
            seq![SessionInputView::Advance],
        ).events,
{
    proof {
        lemma_run_one(session.deep_view(), SessionInputView::Advance);
    }
    let step = session.advance();
    collect(events, step);
}

/// The conversation for the answering backend, where the session is about
/// to call it.
fn call_of(session: &StreamSession) -> (messages: Option<Vec<Message>>)
    ensures
        messages.deep_view() == if session.deep_view().phase == Phase::DeepSeekDone {
            Some(session.deep_view().messages)
        } else {
            None
        },
{
    match session.phase() {
        Phase::DeepSeekDone => Some(copy_messages(session.messages())),
        _ => None,
    }
}

/// Drives a new session through a whole run, at a given time.
pub fn run_session(
    config: Config,
    messages: Vec<Message>,
    system: Option<String>,
    created: Timestamp,
    deepseek: &Script,
    anthropic: &Script,
) -> (outcome: StreamOutcome)
    ensures
        outcome.events.deep_view() == stream_run(
            config,
            messages.deep_view(),
            system.deep_view(),
            created,
            script_view(deepseek@),
            script_view(anthropic@),
        ).events,
        outcome.anthropic_messages.deep_view() == anthropic_call(
            config,
            messages.deep_view(),
            system.deep_view(),
            created,
            script_view(deepseek@),
        ),
{
    let ghost start = fresh(config, messages.deep_view(), system.deep_view());
    let ghost opening = seq![SessionInputView::Begin { created }];
    let ghost reasoning = stream_inputs(script_view(deepseek@));
    let ghost onward = seq![SessionInputView::Advance];
    let ghost answering = stream_inputs(script_view(anthropic@));
    let mut session = StreamSession::new(config, messages, system);
    let mut events: Vec<StreamEvent> = Vec::new();
    let ghost done = Seq::<SessionInputView>::empty();
    proof {
        lemma_run_none(start);
        assert(events.deep_view() =~= Seq::<StreamEventView>::empty());
    }

    let ghost (at, sent) = (session.deep_view(), events.deep_view());
    begin(&mut session, &mut events, created);
    proof {
        lemma_run_continues(start, done, opening, at, sent);
        done = done + opening;
    }
    let ghost (at, sent) = (session.deep_view(), events.deep_view());
    feed(&mut session, &mut events, deepseek);
    proof {
        lemma_run_continues(start, done, reasoning, at, sent);
        done = done + reasoning;
        assert(done =~= reasoning_inputs(created, script_view(deepseek@)));
    }
    let anthropic_messages = call_of(&session);

    let ghost (at, sent) = (session.deep_view(), events.deep_view());
    advance(&mut session, &mut events);
    proof {
        lemma_run_continues(start, done, onward, at, sent);
        done = done + onward;
    }
    let ghost (at, sent) = (session.deep_view(), events.deep_view());
    feed(&mut session, &mut events, anthropic);
    proof {
        lemma_run_continues(start, done, answering, at, sent);
        done = done + answering;
    }
    let ghost (at, sent) = (session.deep_view(), events.deep_view());
    advance(&mut session, &mut events);
    proof {
        lemma_run_continues(start, done, onward, at, sent);
        done = done + onward;
    }
    let ghost (at, sent) = (session.deep_view(), events.deep_view());
    advance(&mut session, &mut events);
    proof {
        lemma_run_continues(start, done, onward, at, sent);
        done = done + onward;
        assert(done =~= session_inputs(
            created,
            script_view(deepseek@),
            script_view(anthropic@),
        ));
    }
    StreamOutcome { events, anthropic_messages }
}

} // verus!
