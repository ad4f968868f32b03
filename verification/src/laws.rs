//! What holds of every cost, every session and every run, proved from the
//! definitions.
//!
//! The laws are the public proof functions whose names begin with `law_`;
//! what stands between them are the steps of their proofs.

use crate::backend::{chunk_delta, has_content, BackendReplyView};
use crate::batched::chat_result;
use crate::clock::Timestamp;
use crate::config::Config;
use crate::dispatch::{gathered, handle_chat_result, ChatResponseView};
use crate::error::{
    missing_content_text, stream_error_text, ApiErrorView, Backend, BackendErrorView,
};
use crate::event::{event_text, events_text, is_terminal, StreamEventView};
use crate::message::{
    blocks_text, thinking_close, thinking_open, thinking_text, thinking_turn_spec, MessageView,
};
use crate::request::{messages_with_system, refusal, system_prompt, ApiRequestView};
use crate::response::ApiResponseView;
use crate::session::{
    delta_event, error_event, fresh, running, spec_step, step_advance, step_begin, step_end,
    text_event, Phase, SessionInputView, SessionView,
};
use crate::stream::{
    anthropic_call, chunk_input, chunk_inputs, first_error, joined, lemma_run_concat,
    lemma_run_none, lemma_run_one, lemma_run_push, lemma_usage_after, reasoning_inputs, reported,
    session_inputs, spec_run, stream_inputs, stream_run, usage_after, ScriptView,
};
use crate::text::{decimal, digit_char};
use crate::usage::{
    combined_usage_spec, cost_text, rounded_millis, usage_le, watermark, watermark_all,
    BackendUsage,
};
use serde_json::Value;
use vstd::prelude::*;

verus! {

/// One of the ten digits.
pub open spec fn is_digit(c: char) -> bool {
    exists|d: int| 0 <= d < 10 && c == #[trigger] digit_char(d)
}

/// A decimal numeral holds digits only, and at least one.
proof fn lemma_decimal_is_digits(n: nat)
    ensures
        decimal(n).len() >= 1,
        forall|i: int| 0 <= i < decimal(n).len() ==> is_digit(#[trigger] decimal(n)[i]),
    decreases n,
{
    if n >= 10 {
        lemma_decimal_is_digits(n / 10);
    }
}

/// A cost is written to the nearest thousandth of a dollar: what is written
/// differs from the cost by half a thousandth at most, and a cost exactly
/// half-way between two thousandths is written as the larger.
pub proof fn law_cost_is_rounded_to_nearest(cost: nat)
    ensures
        -500_000_000 <= cost - rounded_millis(cost) * 1_000_000_000 <= 499_999_999,
        cost % 1_000_000_000 == 500_000_000 ==> rounded_millis(cost) == cost / 1_000_000_000 + 1,
        cost % 1_000_000_000 == 0 ==> rounded_millis(cost) * 1_000_000_000 == cost,
{
}

/// A cost is written as `$`, digits, a point, and exactly three digits.
pub proof fn law_cost_text_has_three_decimals(cost: nat)
    ensures
        ({
            let text = cost_text(cost);
            let n = text.len();
            &&& n >= 6
            &&& text[0] == '$'
            &&& text[n - 4] == '.'
            &&& forall|i: int| 1 <= i < n - 4 ==> is_digit(#[trigger] text[i])
            &&& is_digit(text[n - 3])
            &&& is_digit(text[n - 2])
            &&& is_digit(text[n - 1])
        }),
{
    let millis = rounded_millis(cost);
    let whole = decimal(millis / 1000);
    lemma_decimal_is_digits(millis / 1000);
    let text = cost_text(cost);
    assert(text.len() == whole.len() + 5);
    assert forall|i: int| 1 <= i < text.len() - 4 implies is_digit(#[trigger] text[i]) by {
        assert(text[i] == whole[i - 1]);
    }
    assert(text[text.len() - 3] == digit_char((millis / 100 % 10) as int));
    assert(text[text.len() - 2] == digit_char((millis / 10 % 10) as int));
    assert(text[text.len() - 1] == digit_char((millis % 10) as int));
}

/// The usage after a run of snapshots is no lower than where it started and
/// no lower than any snapshot, and each of its counters is one that was
/// seen: it is the maximum, counter by counter, and not a sum.
pub proof fn law_watermark_is_maximum(seen: BackendUsage, snapshots: Seq<BackendUsage>)
    ensures
        usage_le(seen, watermark_all(seen, snapshots)),
        forall|i: int|
            0 <= i < snapshots.len() ==> usage_le(
                #[trigger] snapshots[i],
                watermark_all(seen, snapshots),
            ),
        watermark_all(seen, snapshots).input_tokens == seen.input_tokens || exists|i: int|
            0 <= i < snapshots.len() && watermark_all(seen, snapshots).input_tokens
                == (#[trigger] snapshots[i]).input_tokens,
        watermark_all(seen, snapshots).output_tokens == seen.output_tokens || exists|i: int|
            0 <= i < snapshots.len() && watermark_all(seen, snapshots).output_tokens
                == (#[trigger] snapshots[i]).output_tokens,
        watermark_all(seen, snapshots).total_tokens == seen.total_tokens || exists|i: int|
            0 <= i < snapshots.len() && watermark_all(seen, snapshots).total_tokens
                == (#[trigger] snapshots[i]).total_tokens,
    decreases snapshots.len(),
{
    if snapshots.len() > 0 {
        let earlier = snapshots.drop_last();
        law_watermark_is_maximum(seen, earlier);
        let before = watermark_all(seen, earlier);
        let after = watermark_all(seen, snapshots);
        assert(after == watermark(before, snapshots.last()));
        assert forall|i: int| 0 <= i < snapshots.len() implies usage_le(
            #[trigger] snapshots[i],
            after,
        ) by {
            if i < earlier.len() {
                assert(earlier[i] == snapshots[i]);
            }
        }
        let last = snapshots.len() - 1;
        if after.input_tokens != seen.input_tokens {
            if after.input_tokens == snapshots[last].input_tokens {
            } else {
                let i = choose|i: int|
                    0 <= i < earlier.len() && before.input_tokens
                        == (#[trigger] earlier[i]).input_tokens;
                assert(snapshots[i] == earlier[i]);
            }
        }
        if after.output_tokens != seen.output_tokens {
            if after.output_tokens == snapshots[last].output_tokens {
            } else {
                let i = choose|i: int|
                    0 <= i < earlier.len() && before.output_tokens
                        == (#[trigger] earlier[i]).output_tokens;
                assert(snapshots[i] == earlier[i]);
            }
        }
        if after.total_tokens != seen.total_tokens {
            if after.total_tokens == snapshots[last].total_tokens {
            } else {
                let i = choose|i: int|
                    0 <= i < earlier.len() && before.total_tokens
                        == (#[trigger] earlier[i]).total_tokens;
                assert(snapshots[i] == earlier[i]);
            }
        }
    }
}

/// No step lowers a counter that a session holds: what is reported at the
/// end is, counter by counter, the highest value seen.
pub proof fn law_usage_never_decreases(s: SessionView, input: SessionInputView)
    ensures
        usage_le(s.deepseek_usage, spec_step(s, input).next.deepseek_usage),
        usage_le(s.anthropic_usage, spec_step(s, input).next.anthropic_usage),
{
}

/// No step changes what a session was made for: the prices and the system
/// prompt stay as they came.
pub proof fn law_step_keeps_request(s: SessionView, input: SessionInputView)
    ensures
        spec_step(s, input).next.config == s.config,
        spec_step(s, input).next.system == s.system,
{
}

/// `events` begin with a `Start`, and hold no other.
pub open spec fn starts_once(events: Seq<StreamEventView>) -> bool {
    &&& events.len() >= 1
    &&& events[0] is Start
    &&& forall|i: int| 1 <= i < events.len() ==> !(#[trigger] events[i] is Start)
}

/// `events` hold no terminal event.
pub open spec fn still_open(events: Seq<StreamEventView>) -> bool {
    forall|i: int| 0 <= i < events.len() ==> !is_terminal(#[trigger] events[i])
}

/// `events` end with a terminal event, and hold no other.
pub open spec fn ends_once(events: Seq<StreamEventView>) -> bool {
    &&& events.len() >= 1
    &&& is_terminal(events.last())
    &&& forall|i: int| 0 <= i < events.len() - 1 ==> !is_terminal(#[trigger] events[i])
}

/// What a session in `phase` has sent: nothing while idle; after that one
/// `Start`, first; and from its failure or its end on, one terminal event,
/// last.
pub open spec fn sent_in_order(phase: Phase, events: Seq<StreamEventView>) -> bool {
    match phase {
        Phase::Idle => events.len() == 0,
        Phase::Error | Phase::Closed => starts_once(events) && ends_once(events),
        _ => starts_once(events) && still_open(events),
    }
}

/// One step keeps the events in order.
proof fn lemma_step_in_order(
    s: SessionView,
    input: SessionInputView,
    events: Seq<StreamEventView>,
)
    requires
        sent_in_order(s.phase, events),
    ensures
        sent_in_order(spec_step(s, input).next.phase, events + spec_step(s, input).events),
{
    let step = spec_step(s, input);
    let after = events + step.events;
    if step.events.len() == 0 {
        assert(after =~= events);
    } else {
        assert(forall|i: int| 0 <= i < events.len() ==> after[i] == events[i]);
        assert(forall|i: int|
            events.len() <= i < after.len() ==> after[i] == step.events[i - events.len()]);
    }
}

/// In every session, however it is driven, there is exactly one `Start`
/// event and it is the first; and once the session has failed or closed,
/// there is exactly one terminal event (`Done` or `Error`) and it is the
/// last. Before that, no terminal event has been sent.
pub proof fn law_one_start_one_terminal(
    config: Config,
    messages: Seq<MessageView>,
    system: Option<Seq<char>>,
    inputs: Seq<SessionInputView>,
)
    ensures
        sent_in_order(
            spec_run(fresh(config, messages, system), inputs).next.phase,
            spec_run(fresh(config, messages, system), inputs).events,
        ),
    decreases inputs.len(),
{
    let start = fresh(config, messages, system);
    if inputs.len() == 0 {
        lemma_run_none(start);
        assert(inputs =~= Seq::<SessionInputView>::empty());
    } else {
        law_one_start_one_terminal(config, messages, system, inputs.drop_last());
        let before = spec_run(start, inputs.drop_last());
        lemma_step_in_order(before.next, inputs.last(), before.events);
        lemma_run_push(start, inputs.drop_last(), inputs.last());
        assert(inputs.drop_last().push(inputs.last()) =~= inputs);
    }
}

/// How many `Usage` events `events` hold.
pub open spec fn usage_events(events: Seq<StreamEventView>) -> nat
    decreases events.len(),
{
    if events.len() == 0 {
        0
    } else if events.last() is Usage {
        usage_events(events.drop_last()) + 1
    } else {
        usage_events(events.drop_last())
    }
}

/// What a session in `phase` has reported of usage: nothing before both
/// backends are done, once from then on, and never where it failed.
pub open spec fn usage_reported(phase: Phase, events: Seq<StreamEventView>) -> bool {
    match phase {
        Phase::Finalizing => usage_events(events) == 1,
        Phase::Closed => usage_events(events) <= 1,
        _ => usage_events(events) == 0,
    }
}

/// `Usage` events counted over two runs of events.
proof fn lemma_usage_events_concat(first: Seq<StreamEventView>, second: Seq<StreamEventView>)
    ensures
        usage_events(first + second) == usage_events(first) + usage_events(second),
    decreases second.len(),
{
    if second.len() == 0 {
        assert(first + second =~= first);
    } else {
        lemma_usage_events_concat(first, second.drop_last());
        assert((first + second).drop_last() =~= first + second.drop_last());
        assert((first + second).last() == second.last());
    }
}

/// The usage is reported once at most, and only when both backends are
/// done: however a session is driven, it has sent no `Usage` event before it
/// finalizes, exactly one when it has, and none at all where it failed on
/// the way.
pub proof fn law_usage_is_reported_once(
    config: Config,
    messages: Seq<MessageView>,
    system: Option<Seq<char>>,
    inputs: Seq<SessionInputView>,
)
    ensures
        usage_reported(
            spec_run(fresh(config, messages, system), inputs).next.phase,
            spec_run(fresh(config, messages, system), inputs).events,
        ),
    decreases inputs.len(),
{
    let start = fresh(config, messages, system);
    if inputs.len() == 0 {
        lemma_run_none(start);
        assert(inputs =~= Seq::<SessionInputView>::empty());
    } else {
        law_usage_is_reported_once(config, messages, system, inputs.drop_last());
        let before = spec_run(start, inputs.drop_last());
        let step = spec_step(before.next, inputs.last());
        lemma_run_push(start, inputs.drop_last(), inputs.last());
        assert(inputs.drop_last().push(inputs.last()) =~= inputs);
        lemma_usage_events_concat(before.events, step.events);
        assert(usage_events(Seq::<StreamEventView>::empty()) == 0);
        if step.events.len() == 1 {
            assert(step.events.drop_last() =~= Seq::<StreamEventView>::empty());
        } else if step.events.len() == 2 {
            assert(step.events.drop_last().drop_last() =~= Seq::<StreamEventView>::empty());
            assert(usage_events(step.events.drop_last()) == 0);
        }
    }
}

/// A closed session stays closed and sends nothing, whatever it is handed.
pub proof fn law_closed_is_final(s: SessionView, inputs: Seq<SessionInputView>)
    requires
        s.phase == Phase::Closed,
    ensures
        spec_run(s, inputs).next == s,
        spec_run(s, inputs).events == Seq::<StreamEventView>::empty(),
    decreases inputs.len(),
{
    if inputs.len() == 0 {
        lemma_run_none(s);
        assert(inputs =~= Seq::<SessionInputView>::empty());
    } else {
        law_closed_is_final(s, inputs.drop_last());
        lemma_run_push(s, inputs.drop_last(), inputs.last());
        assert(inputs.drop_last().push(inputs.last()) =~= inputs);
        assert(spec_run(s, inputs).events =~= Seq::<StreamEventView>::empty());
    }
}

/// The text of two runs of events is the text of the one, then of the other.
proof fn lemma_events_text_concat(first: Seq<StreamEventView>, second: Seq<StreamEventView>)
    ensures
        events_text(first + second) == events_text(first) + events_text(second),
    decreases second.len(),
{
    if second.len() == 0 {
        assert(first + second =~= first);
        assert(events_text(first) + Seq::<char>::empty() =~= events_text(first));
    } else {
        lemma_events_text_concat(first, second.drop_last());
        assert((first + second).drop_last() =~= first + second.drop_last());
        assert((first + second).last() == second.last());
        assert(events_text(first + second) =~= events_text(first) + events_text(second));
    }
}

/// The text of one event.
proof fn lemma_events_text_one(event: StreamEventView)
    ensures
        events_text(seq![event]) == event_text(event),
{
    let events = seq![event];
    assert(events.drop_last() =~= Seq::<StreamEventView>::empty());
    assert(events_text(Seq::<StreamEventView>::empty()) =~= Seq::<char>::empty());
    assert(events_text(events) =~= event_text(event));
}

/// The text of a content event of one block is the block's text.
proof fn lemma_block_event_text(text: Seq<char>)
    ensures
        event_text(text_event(text)) == text,
        event_text(delta_event(text)) == text,
{
    assert(blocks_text(Seq::empty()) =~= Seq::<char>::empty());
    let whole = text_event(text)->Content_content;
    assert(whole.drop_last() =~= Seq::empty());
    assert(blocks_text(whole) =~= text);
    let delta = delta_event(text)->Content_content;
    assert(delta.drop_last() =~= Seq::empty());
    assert(blocks_text(delta) =~= text);
}

/// The session after it has read `text` and raised the usage of the backend
/// being read to `usage`.
spec fn absorbed(s: SessionView, text: Seq<char>, usage: BackendUsage) -> SessionView {
    match running(s.phase) {
        Some(Backend::DeepSeek) => SessionView {
            reasoning: s.reasoning + text,
            deepseek_usage: usage,
            ..s
        },
        Some(Backend::Anthropic) => SessionView {
            answer: s.answer + text,
            anthropic_usage: usage,
            ..s
        },
        None => s,
    }
}

/// The usage that a session holds of the backend being read.
spec fn usage_held(s: SessionView) -> BackendUsage {
    match running(s.phase) {
        Some(Backend::Anthropic) => s.anthropic_usage,
        _ => s.deepseek_usage,
    }
}

/// What the chunks of a stream do to the session that reads it. While no
/// element is a failure, the session keeps its phase, holds the text joined
/// and the highest counters, and has sent that text and nothing else. From
/// the first failure on the session has failed, and the failure was the last
/// event sent.
proof fn lemma_chunks_read(s: SessionView, script: ScriptView)
    requires
        running(s.phase) is Some,
    ensures
        first_error(script) is None ==> {
            &&& spec_run(s, chunk_inputs(script)).next == absorbed(
                s,
                joined(script),
                usage_after(usage_held(s), script),
            )
            &&& events_text(spec_run(s, chunk_inputs(script)).events) == joined(script)
            &&& joined(script).len() == 0 ==> spec_run(s, chunk_inputs(script)).events.len() == 0
        },
        first_error(script) matches Some(error) ==> {
            &&& spec_run(s, chunk_inputs(script)).next.phase == Phase::Error
            &&& spec_run(s, chunk_inputs(script)).next.messages == s.messages
            &&& spec_run(s, chunk_inputs(script)).events.len() > 0
            &&& spec_run(s, chunk_inputs(script)).events.last() == error_event(
                stream_error_text(running(s.phase).unwrap(), error.message),
            )
        },
    decreases script.len(),
{
    let inputs = chunk_inputs(script);
    lemma_usage_after(usage_held(s), script);
    if script.len() == 0 {
        lemma_run_none(s);
        assert(inputs =~= Seq::<SessionInputView>::empty());
        assert(events_text(Seq::<StreamEventView>::empty()) =~= Seq::<char>::empty());
        assert(s.reasoning + Seq::<char>::empty() =~= s.reasoning);
        assert(s.answer + Seq::<char>::empty() =~= s.answer);
    } else {
        let earlier = script.drop_last();
        lemma_chunks_read(s, earlier);
        lemma_run_push(s, chunk_inputs(earlier), chunk_input(script.last()));
        assert(chunk_inputs(earlier).push(chunk_input(script.last())) =~= inputs);
        let before = spec_run(s, chunk_inputs(earlier));
        let step = spec_step(before.next, chunk_input(script.last()));
        if first_error(earlier) is None {
            match script.last() {
                Ok(chunk) => {
                    let delta = chunk_delta(chunk);
                    assert(s.reasoning + joined(earlier) + delta =~= s.reasoning + joined(script));
                    assert(s.answer + joined(earlier) + delta =~= s.answer + joined(script));
                    lemma_events_text_concat(before.events, step.events);
                    if delta.len() > 0 {
                        lemma_events_text_one(delta_event(delta));
                        lemma_block_event_text(delta);
                    } else {
                        assert(joined(earlier) + delta =~= joined(earlier));
                    }
                },
                Err(error) => {
                    assert(step.events.len() == 1);
                    assert((before.events + step.events).last() == step.events[0]);
                },
            }
        } else {
            assert(step.events.len() == 0);
            assert(before.events + step.events =~= before.events);
        }
    }
}

/// What a whole stream does to the session that reads it: its chunks, and
/// then its end.
proof fn lemma_stream_read(s: SessionView, script: ScriptView)
    requires
        running(s.phase) is Some,
    ensures
        first_error(script) is None ==> {
            let read = absorbed(s, joined(script), usage_after(usage_held(s), script));
            &&& spec_run(s, stream_inputs(script)).next == step_end(read).next
            &&& events_text(spec_run(s, stream_inputs(script)).events) == joined(script)
                + events_text(step_end(read).events)
            &&& joined(script).len() == 0 ==> spec_run(s, stream_inputs(script)).events
                == step_end(read).events
        },
        first_error(script) matches Some(error) ==> {
            &&& spec_run(s, stream_inputs(script)).next.phase == Phase::Error
            &&& spec_run(s, stream_inputs(script)).events.len() > 0
            &&& spec_run(s, stream_inputs(script)).events.last() == error_event(
                stream_error_text(running(s.phase).unwrap(), error.message),
            )
        },
{
    lemma_chunks_read(s, script);
    let chunks = chunk_inputs(script);
    lemma_run_push(s, chunks, SessionInputView::StreamEnd);
    let before = spec_run(s, chunks);
    let step = step_end(before.next);
    if first_error(script) is None {
        lemma_events_text_concat(before.events, step.events);
        if joined(script).len() == 0 {
            assert(before.events + step.events =~= step.events);
        }
    } else {
        assert(before.events + step.events =~= before.events);
    }
}

/// The session once the reasoning backend's stream has been read to its end
/// with text and without failure.
spec fn reasoned(
    config: Config,
    messages: Seq<MessageView>,
    system: Option<Seq<char>>,
    deepseek: ScriptView,
) -> SessionView {
    SessionView {
        phase: Phase::DeepSeekDone,
        messages: messages.push(thinking_turn_spec(joined(deepseek))),
        reasoning: joined(deepseek),
        deepseek_usage: usage_after(BackendUsage::zero(), deepseek),
        ..fresh(config, messages, system)
    }
}

/// The run up to the end of the reasoning backend's stream.
proof fn lemma_reasoning_run(
    config: Config,
    messages: Seq<MessageView>,
    system: Option<Seq<char>>,
    created: Timestamp,
    deepseek: ScriptView,
)
    ensures
        ({
            let run = spec_run(fresh(config, messages, system), reasoning_inputs(created, deepseek));
            &&& run.events.len() >= 2
            &&& run.events[0] == (StreamEventView::Start { created })
            &&& first_error(deepseek) is None && joined(deepseek).len() > 0 ==> {
                &&& run.next == reasoned(config, messages, system, deepseek)
                &&& events_text(run.events) == thinking_text(joined(deepseek))
            }
            &&& first_error(deepseek) is None && joined(deepseek).len() == 0 ==> {
                &&& run.next.phase == Phase::Error
                &&& run.events == seq![
                    StreamEventView::Start { created },
                    text_event(thinking_open()),
                    error_event(missing_content_text(Backend::DeepSeek)),
                ]
            }
            &&& first_error(deepseek) matches Some(error) ==> {
                &&& run.next.phase == Phase::Error
                &&& run.events.last() == error_event(
                    stream_error_text(Backend::DeepSeek, error.message),
                )
            }
        }),
{
    let start = fresh(config, messages, system);
    let opening = seq![SessionInputView::Begin { created }];
    let begun = step_begin(start, created);
    lemma_run_one(start, SessionInputView::Begin { created });
    lemma_run_concat(start, opening, stream_inputs(deepseek));
    lemma_stream_read(begun.next, deepseek);
    let read = spec_run(begun.next, stream_inputs(deepseek));
    let run = spec_run(start, reasoning_inputs(created, deepseek));
    assert(run.events == begun.events + read.events);
    assert(run.events[0] == begun.events[0]);
    if first_error(deepseek) is None {
        assert(Seq::<char>::empty() + joined(deepseek) =~= joined(deepseek));
        if joined(deepseek).len() > 0 {
            lemma_events_text_concat(begun.events, read.events);
            lemma_events_text_concat(
                seq![StreamEventView::Start { created }],
                seq![text_event(thinking_open())],
            );
            assert(begun.events =~= seq![StreamEventView::Start { created }] + seq![
                text_event(thinking_open()),
            ]);
            lemma_events_text_one(StreamEventView::Start { created });
            lemma_events_text_one(text_event(thinking_open()));
            lemma_events_text_one(text_event(thinking_close()));
            lemma_block_event_text(thinking_open());
            lemma_block_event_text(thinking_close());
            assert(events_text(run.events) =~= thinking_text(joined(deepseek)));
        } else {
            assert(run.events =~= seq![
                StreamEventView::Start { created },
                text_event(thinking_open()),
                error_event(missing_content_text(Backend::DeepSeek)),
            ]);
        }
    } else {
        assert(run.events.last() == read.events.last());
    }
}

/// What is left of a run after the reasoning backend's stream.
spec fn answering_inputs(anthropic: ScriptView) -> Seq<SessionInputView> {
    seq![SessionInputView::Advance] + stream_inputs(anthropic) + seq![
        SessionInputView::Advance,
        SessionInputView::Advance,
    ]
}

/// A whole run is the run up to the end of the reasoning backend's stream,
/// and then the rest.
proof fn lemma_run_in_two(
    config: Config,
    messages: Seq<MessageView>,
    system: Option<Seq<char>>,
    created: Timestamp,
    deepseek: ScriptView,
    anthropic: ScriptView,
)
    ensures
        ({
            let first = spec_run(
                fresh(config, messages, system),
                reasoning_inputs(created, deepseek),
            );
            let second = spec_run(first.next, answering_inputs(anthropic));
            let run = stream_run(config, messages, system, created, deepseek, anthropic);
            run.next == second.next && run.events == first.events + second.events
        }),
{
    assert(session_inputs(created, deepseek, anthropic) =~= reasoning_inputs(created, deepseek)
        + answering_inputs(anthropic));
    lemma_run_concat(
        fresh(config, messages, system),
        reasoning_inputs(created, deepseek),
        answering_inputs(anthropic),
    );
}

/// A whole run begins with `Start` at the time given.
pub proof fn lemma_run_starts(
    config: Config,
    messages: Seq<MessageView>,
    system: Option<Seq<char>>,
    created: Timestamp,
    deepseek: ScriptView,
    anthropic: ScriptView,
)
    ensures
        stream_run(config, messages, system, created, deepseek, anthropic).events.len() >= 2,
        stream_run(config, messages, system, created, deepseek, anthropic).events[0] == (
        StreamEventView::Start { created }),
{
    lemma_run_in_two(config, messages, system, created, deepseek, anthropic);
    lemma_reasoning_run(config, messages, system, created, deepseek);
}

/// After a failure, the rest of a run closes the session and sends nothing.
proof fn lemma_rest_after_failure(s: SessionView, anthropic: ScriptView)
    requires
        s.phase == Phase::Error,
    ensures
        spec_run(s, answering_inputs(anthropic)).next.phase == Phase::Closed,
        spec_run(s, answering_inputs(anthropic)).events == Seq::<StreamEventView>::empty(),
{
    let onward = seq![SessionInputView::Advance];
    let rest = stream_inputs(anthropic) + seq![
        SessionInputView::Advance,
        SessionInputView::Advance,
    ];
    assert(answering_inputs(anthropic) =~= onward + rest);
    lemma_run_one(s, SessionInputView::Advance);
    lemma_run_concat(s, onward, rest);
    law_closed_is_final(step_advance(s).next, rest);
    assert(spec_run(s, answering_inputs(anthropic)).events =~= Seq::<StreamEventView>::empty());
}

/// The last two steps of a run.
proof fn lemma_last_steps(s: SessionView)
    ensures
        spec_run(s, seq![SessionInputView::Advance, SessionInputView::Advance]).next
            == step_advance(step_advance(s).next).next,
        spec_run(s, seq![SessionInputView::Advance, SessionInputView::Advance]).events
            == step_advance(s).events + step_advance(step_advance(s).next).events,
{
    let onward = seq![SessionInputView::Advance];
    assert(seq![SessionInputView::Advance, SessionInputView::Advance] =~= onward + onward);
    lemma_run_one(s, SessionInputView::Advance);
    lemma_run_one(step_advance(s).next, SessionInputView::Advance);
    lemma_run_concat(s, onward, onward);
}

/// The rest of a run after reasoning that succeeded, where the answering
/// backend's stream ends without failure and has brought text.
proof fn lemma_rest_after_reasoning(s: SessionView, anthropic: ScriptView)
    requires
        s.phase == Phase::DeepSeekDone,
        s.answer.len() == 0,
        first_error(anthropic) is None,
        joined(anthropic).len() > 0,
    ensures
        ({
            let rest = spec_run(s, answering_inputs(anthropic));
            &&& rest.next.phase == Phase::Closed
            &&& events_text(rest.events) == joined(anthropic)
            &&& rest.events.len() >= 2
            &&& rest.events.last() is Done
            &&& rest.events[rest.events.len() - 2] == (StreamEventView::Usage {
                usage: combined_usage_spec(
                    s.deepseek_usage,
                    usage_after(s.anthropic_usage, anthropic),
                    s.config,
                ),
            })
        }),
{
    let onward = seq![SessionInputView::Advance];
    let ending = seq![SessionInputView::Advance, SessionInputView::Advance];
    let reading = stream_inputs(anthropic);
    assert(answering_inputs(anthropic) =~= (onward + reading) + ending);
    lemma_run_one(s, SessionInputView::Advance);
    let called = step_advance(s).next;
    lemma_run_concat(s, onward, reading);
    lemma_stream_read(called, anthropic);
    let read = spec_run(called, reading);
    assert(Seq::<char>::empty() + joined(anthropic) =~= joined(anthropic));
    assert(read.next.phase == Phase::AnthropicDone);
    lemma_run_concat(s, onward + reading, ending);
    lemma_last_steps(read.next);
    let last = spec_run(read.next, ending);
    let rest = spec_run(s, answering_inputs(anthropic));
    assert(rest.events =~= read.events + last.events);
    lemma_events_text_concat(read.events, last.events);
    let usage = step_advance(read.next).events;
    let done = step_advance(step_advance(read.next).next).events;
    lemma_events_text_concat(usage, done);
    lemma_events_text_one(usage[0]);
    lemma_events_text_one(done[0]);
    assert(usage =~= seq![usage[0]]);
    assert(done =~= seq![done[0]]);
    assert(events_text(Seq::<StreamEventView>::empty()) =~= Seq::<char>::empty());
    assert(events_text(rest.events) =~= joined(anthropic));
}

/// The rest of a run after reasoning that succeeded closes the session. If
/// the answering backend's stream fails, that failure is the last event; if
/// it ends without text, the error that says so is.
proof fn lemma_rest_closes(s: SessionView, anthropic: ScriptView)
    requires
        s.phase == Phase::DeepSeekDone,
        s.answer.len() == 0,
    ensures
        ({
            let rest = spec_run(s, answering_inputs(anthropic));
            &&& rest.next.phase == Phase::Closed
            &&& first_error(anthropic) matches Some(error) ==> rest.events.len() > 0
                && rest.events.last() == error_event(
                stream_error_text(Backend::Anthropic, error.message),
            )
            &&& first_error(anthropic) is None && joined(anthropic).len() == 0 ==> rest.events
                == seq![error_event(missing_content_text(Backend::Anthropic))]
        }),
{
    if first_error(anthropic) is None && joined(anthropic).len() > 0 {
        lemma_rest_after_reasoning(s, anthropic);
    } else {
        let onward = seq![SessionInputView::Advance];
        let ending = seq![SessionInputView::Advance, SessionInputView::Advance];
        let reading = stream_inputs(anthropic);
        assert(answering_inputs(anthropic) =~= (onward + reading) + ending);
        lemma_run_one(s, SessionInputView::Advance);
        let called = step_advance(s).next;
        lemma_run_concat(s, onward, reading);
        lemma_stream_read(called, anthropic);
        let read = spec_run(called, reading);
        assert(Seq::<char>::empty() + joined(anthropic) =~= joined(anthropic));
        assert(read.next.phase == Phase::Error);
        lemma_run_concat(s, onward + reading, ending);
        lemma_last_steps(read.next);
        let rest = spec_run(s, answering_inputs(anthropic));
        assert(rest.events =~= read.events);
    }
}

/// Every run of the pipeline is framed: whatever the two backends stream,
/// the run closes the session, its first event is the one `Start`, and its
/// last is the one terminal event.
pub proof fn law_every_run_is_framed(
    config: Config,
    messages: Seq<MessageView>,
    system: Option<Seq<char>>,
    created: Timestamp,
    deepseek: ScriptView,
    anthropic: ScriptView,
)
    ensures
        stream_run(config, messages, system, created, deepseek, anthropic).next.phase
            == Phase::Closed,
        starts_once(stream_run(config, messages, system, created, deepseek, anthropic).events),
        ends_once(stream_run(config, messages, system, created, deepseek, anthropic).events),
{
    lemma_run_in_two(config, messages, system, created, deepseek, anthropic);
    lemma_reasoning_run(config, messages, system, created, deepseek);
    let first = spec_run(fresh(config, messages, system), reasoning_inputs(created, deepseek));
    if first.next.phase == Phase::Error {
        lemma_rest_after_failure(first.next, anthropic);
    } else {
        lemma_rest_closes(first.next, anthropic);
    }
    law_one_start_one_terminal(
        config,
        messages,
        system,
        session_inputs(created, deepseek, anthropic),
    );
}

/// The answering backend is called with the whole reasoning or not at all.
/// Where the reasoning backend's stream ends without failure and has brought
/// text, the call is made with the conversation that came in and, as one
/// more assistant turn, all of that text between its two marks. Where the
/// stream fails, or ends without any text, the call is never made.
pub proof fn law_answering_call_has_whole_reasoning(
    config: Config,
    messages: Seq<MessageView>,
    system: Option<Seq<char>>,
    created: Timestamp,
    deepseek: ScriptView,
)
    ensures
        anthropic_call(config, messages, system, created, deepseek) == if first_error(deepseek)
            is None && joined(deepseek).len() > 0 {
            Some(messages.push(thinking_turn_spec(joined(deepseek))))
        } else {
            None::<Seq<MessageView>>
        },
{
    lemma_reasoning_run(config, messages, system, created, deepseek);
}

/// A reasoning backend that answers without text ends the session. Where
/// its stream ends without failure and has brought no text, the events are
/// `Start`, the opening mark, and the error that says so, whatever the
/// answering backend would have streamed; and the answering backend is
/// never called.
pub proof fn law_empty_reasoning_ends_session(
    config: Config,
    messages: Seq<MessageView>,
    system: Option<Seq<char>>,
    created: Timestamp,
    deepseek: ScriptView,
    anthropic: ScriptView,
)
    requires
        first_error(deepseek) is None,
        joined(deepseek).len() == 0,
    ensures
        stream_run(config, messages, system, created, deepseek, anthropic).events == seq![
            StreamEventView::Start { created },
            text_event(thinking_open()),
            error_event(missing_content_text(Backend::DeepSeek)),
        ],
        anthropic_call(config, messages, system, created, deepseek) is None,
{
    lemma_run_in_two(config, messages, system, created, deepseek, anthropic);
    lemma_reasoning_run(config, messages, system, created, deepseek);
    let first = spec_run(fresh(config, messages, system), reasoning_inputs(created, deepseek));
    lemma_rest_after_failure(first.next, anthropic);
    assert(first.events + Seq::<StreamEventView>::empty() =~= first.events);
}

/// A reasoning backend that answers without text fails the whole answer.
/// Where the request is accepted and the reasoning backend's answer holds
/// no text, the result is `MissingContent` of that backend, whatever the
/// answering backend would have said: its answer is not looked at.
pub proof fn law_empty_reasoning_fails_whole_answer(
    config: Config,
    created: Timestamp,
    request: ApiRequestView,
    credential: Result<Seq<char>, ApiErrorView>,
    deepseek: BackendReplyView,
    anthropic: Result<BackendReplyView, BackendErrorView>,
)
    requires
        refusal(request, credential) is None,
        !has_content(deepseek.content),
    ensures
        chat_result(config, created, request, credential, Ok(deepseek), anthropic) == Err::<
            ApiResponseView,
            ApiErrorView,
        >(ApiErrorView::MissingContent { backend: Backend::DeepSeek }),
{
}

/// A request that is refused reaches no backend, in either way of
/// answering: the refusal is the whole result, whatever the backends would
/// have said, and no event is sent.
pub proof fn law_refusal_comes_first(
    config: Config,
    created: Timestamp,
    request: ApiRequestView,
    credential: Result<Seq<char>, ApiErrorView>,
    deepseek: ScriptView,
    deepseek_raw: Value,
    anthropic: ScriptView,
    anthropic_raw: Value,
)
    requires
        refusal(request, credential) is Some,
    ensures
        handle_chat_result(
            config,
            created,
            request,
            credential,
            deepseek,
            deepseek_raw,
            anthropic,
            anthropic_raw,
        ) == Err::<ChatResponseView, ApiErrorView>(refusal(request, credential).unwrap()),
{
}

/// A failure of a backend is the end of the run. Where the reasoning
/// backend's stream fails, the last event reports that failure and the
/// answering backend is never called. Where the reasoning succeeds and the
/// answering backend's stream fails, the last event reports that failure.
pub proof fn law_backend_failure_ends_run(
    config: Config,
    messages: Seq<MessageView>,
    system: Option<Seq<char>>,
    created: Timestamp,
    deepseek: ScriptView,
    anthropic: ScriptView,
)
    ensures
        first_error(deepseek) matches Some(error) ==> {
            &&& stream_run(config, messages, system, created, deepseek, anthropic).events.last()
                == error_event(stream_error_text(Backend::DeepSeek, error.message))
            &&& anthropic_call(config, messages, system, created, deepseek) is None
        },
        first_error(deepseek) is None && joined(deepseek).len() > 0 ==> (first_error(anthropic)
            matches Some(error) ==> stream_run(
            config,
            messages,
            system,
            created,
            deepseek,
            anthropic,
        ).events.last() == error_event(stream_error_text(Backend::Anthropic, error.message))),
{
    lemma_run_in_two(config, messages, system, created, deepseek, anthropic);
    lemma_reasoning_run(config, messages, system, created, deepseek);
    let first = spec_run(fresh(config, messages, system), reasoning_inputs(created, deepseek));
    if first_error(deepseek) is Some {
        lemma_rest_after_failure(first.next, anthropic);
        assert(first.events + Seq::<StreamEventView>::empty() =~= first.events);
    } else if joined(deepseek).len() > 0 {
        lemma_rest_closes(first.next, anthropic);
    }
}

/// What a streamed answer reports as usage is the high-water mark of what
/// the backends reported. Where both streams end without failure and have
/// brought text, the last event but one is the one `Usage` event, and it
/// prices, for each backend, the maximum of each counter over the snapshots
/// that the backend's chunks reported, in whatever order they came.
pub proof fn law_reported_usage_is_watermark(
    config: Config,
    messages: Seq<MessageView>,
    system: Option<Seq<char>>,
    created: Timestamp,
    deepseek: ScriptView,
    anthropic: ScriptView,
)
    requires
        first_error(deepseek) is None,
        first_error(anthropic) is None,
        joined(deepseek).len() > 0,
        joined(anthropic).len() > 0,
    ensures
        ({
            let events = stream_run(config, messages, system, created, deepseek, anthropic).events;
            &&& events.len() >= 2
            &&& events[events.len() - 2] == (StreamEventView::Usage {
                usage: combined_usage_spec(
                    watermark_all(BackendUsage::zero(), reported(deepseek)),
                    watermark_all(BackendUsage::zero(), reported(anthropic)),
                    config,
                ),
            })
        }),
{
    lemma_run_in_two(config, messages, system, created, deepseek, anthropic);
    lemma_reasoning_run(config, messages, system, created, deepseek);
    let first = spec_run(fresh(config, messages, system), reasoning_inputs(created, deepseek));
    lemma_rest_after_reasoning(first.next, anthropic);
}

/// Streaming and answering whole give the same text. Let each backend
/// stream without failure, and let its blocking answer hold the text that
/// its stream brings, joined. Then, where the whole answer is a response,
/// the texts of the content events, joined in the order sent, are the texts
/// of the response's blocks, joined; and the stream ends with `Done`.
pub proof fn law_streaming_matches_batched(
    config: Config,
    streamed_at: Timestamp,
    answered_at: Timestamp,
    request: ApiRequestView,
    credential: Result<Seq<char>, ApiErrorView>,
    deepseek: ScriptView,
    anthropic: ScriptView,
    deepseek_reply: BackendReplyView,
    anthropic_reply: BackendReplyView,
)
    requires
        first_error(deepseek) is None,
        first_error(anthropic) is None,
        deepseek_reply.content == Some(joined(deepseek)),
        anthropic_reply.content == Some(joined(anthropic)),
        chat_result(
            config,
            answered_at,
            request,
            credential,
            Ok(deepseek_reply),
            Ok(anthropic_reply),
        ) is Ok,
    ensures
        ({
            let response = chat_result(
                config,
                answered_at,
                request,
                credential,
                Ok(deepseek_reply),
                Ok(anthropic_reply),
            )->Ok_0;
            let events = stream_run(
                config,
                messages_with_system(request),
                system_prompt(request),
                streamed_at,
                deepseek,
                anthropic,
            ).events;
            &&& events_text(events) == blocks_text(response.content)
            &&& events.last() is Done
        }),
{
    let messages = messages_with_system(request);
    let system = system_prompt(request);
    lemma_run_in_two(config, messages, system, streamed_at, deepseek, anthropic);
    lemma_reasoning_run(config, messages, system, streamed_at, deepseek);
    let first = spec_run(fresh(config, messages, system), reasoning_inputs(streamed_at, deepseek));
    lemma_rest_after_reasoning(first.next, anthropic);
    let second = spec_run(first.next, answering_inputs(anthropic));
    lemma_events_text_concat(first.events, second.events);
    let blocks = chat_result(
        config,
        answered_at,
        request,
        credential,
        Ok(deepseek_reply),
        Ok(anthropic_reply),
    )->Ok_0.content;
    assert(blocks.drop_last().drop_last() =~= Seq::empty());
    assert(blocks_text(Seq::empty()) =~= Seq::<char>::empty());
    assert(blocks_text(blocks.drop_last()) =~= thinking_text(joined(deepseek)));
    assert(blocks_text(blocks) =~= thinking_text(joined(deepseek)) + joined(anthropic));
    let run = stream_run(config, messages, system, streamed_at, deepseek, anthropic);
    assert(run.events.last() == second.events.last());
}

/// Both ways of answering agree. Take one request and the same two
/// backends. If the answer given whole is a response, then the streamed
/// answer ends with `Done`; the texts of its content events, joined in the
/// order sent, are the texts of the response's blocks, joined; and its
/// `Usage` event, the last but one, reports the usage that the response
/// reports.
pub proof fn law_modes_agree(
    config: Config,
    streamed_at: Timestamp,
    answered_at: Timestamp,
    request: ApiRequestView,
    credential: Result<Seq<char>, ApiErrorView>,
    deepseek: ScriptView,
    deepseek_raw: Value,
    anthropic: ScriptView,
    anthropic_raw: Value,
)
    requires
        handle_chat_result(
            config,
            answered_at,
            ApiRequestView { stream: false, ..request },
            credential,
            deepseek,
            deepseek_raw,
            anthropic,
            anthropic_raw,
        ) is Ok,
    ensures
        ({
            let whole = handle_chat_result(
                config,
                answered_at,
                ApiRequestView { stream: false, ..request },
                credential,
                deepseek,
                deepseek_raw,
                anthropic,
                anthropic_raw,
            );
            let streamed = handle_chat_result(
                config,
                streamed_at,
                ApiRequestView { stream: true, ..request },
                credential,
                deepseek,
                deepseek_raw,
                anthropic,
                anthropic_raw,
            );
            &&& whole matches Ok(ChatResponseView::Whole { response })
            &&& streamed matches Ok(ChatResponseView::Streamed { outcome })
            &&& events_text(outcome.events) == blocks_text(response.content)
            &&& outcome.events.len() >= 2
            &&& outcome.events.last() is Done
            &&& outcome.events[outcome.events.len() - 2] == (StreamEventView::Usage {
                usage: response.combined_usage,
            })
        }),
{
    let messages = messages_with_system(request);
    let system = system_prompt(request);
    let deepseek_reply = gathered(deepseek, deepseek_raw)->Ok_0;
    let anthropic_reply = gathered(anthropic, anthropic_raw)->Ok_0;
    law_streaming_matches_batched(
        config,
        streamed_at,
        answered_at,
        request,
        credential,
        deepseek,
        anthropic,
        deepseek_reply,
        anthropic_reply,
    );
    lemma_run_in_two(config, messages, system, streamed_at, deepseek, anthropic);
    lemma_reasoning_run(config, messages, system, streamed_at, deepseek);
    let first = spec_run(fresh(config, messages, system), reasoning_inputs(streamed_at, deepseek));
    lemma_rest_after_reasoning(first.next, anthropic);
}

} // verus!
