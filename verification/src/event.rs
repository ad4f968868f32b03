//! What a streamed answer is made of.

use crate::clock::Timestamp;
use crate::message::{blocks_text, ContentBlock, ContentBlockView};
use crate::usage::{CombinedUsage, CombinedUsageView};
use vstd::prelude::*;

verus! {

/// How many events may wait between a session and the client that reads
/// them. A driver that has this many events undelivered waits before it
/// hands the session anything more, so that a slow client holds the session
/// back instead of filling memory.
pub const EVENT_WINDOW: usize = 100;

/// One event of a streamed answer, in the order in which a client reads them.
#[derive(Clone, Debug, PartialEq, Eq)]
pub enum StreamEvent {
    /// The answer begins.
    Start { created: Timestamp },
    /// More of the answer.
    Content { content: Vec<ContentBlock> },
    /// What both calls used and cost.
    Usage { usage: CombinedUsage },
    /// The answer broke off. Nothing follows.
    Error { message: String, code: u16 },
    /// The answer is complete. Nothing follows.
    Done,
}

/// A `StreamEvent`, as a value.
pub enum StreamEventView {
    Start { created: Timestamp },
    Content { content: Seq<ContentBlockView> },
    Usage { usage: CombinedUsageView },
    Error { message: Seq<char>, code: u16 },
    Done,
}

impl DeepView for StreamEvent {
    type V = StreamEventView;

    open spec fn deep_view(&self) -> StreamEventView {
        match self {
            StreamEvent::Start { created } => StreamEventView::Start { created: *created },
            StreamEvent::Content { content } => StreamEventView::Content {
                content: content.deep_view(),
            },
            StreamEvent::Usage { usage } => StreamEventView::Usage { usage: usage.deep_view() },
            StreamEvent::Error { message, code } => StreamEventView::Error {
                message: message@,
                code: *code,
            },
            StreamEvent::Done => StreamEventView::Done,
        }
    }
}

/// The name under which an event is sent.
pub open spec fn event_name_text(event: StreamEventView) -> Seq<char> {
    match event {
        StreamEventView::Start { .. } => "start"@,
        StreamEventView::Content { .. } => "content"@,
        StreamEventView::Usage { .. } => "usage"@,
        StreamEventView::Error { .. } => "error"@,
        StreamEventView::Done => "done"@,
    }
}

/// An event after which nothing follows.
pub open spec fn is_terminal(event: StreamEventView) -> bool {
    event is Done || event is Error
}

/// The text that one event adds to the answer.
pub open spec fn event_text(event: StreamEventView) -> Seq<char> {
    match event {
        StreamEventView::Content { content } => blocks_text(content),
        _ => Seq::empty(),
    }
}

/// The text of the answer that `events` carry: the blocks of the content
/// events, joined in the order sent.
pub open spec fn events_text(events: Seq<StreamEventView>) -> Seq<char>
    decreases events.len(),
{
    if events.len() == 0 {
        Seq::empty()
    } else {
        events_text(events.drop_last()) + event_text(events.last())
    }
}

/// The time of the `Start` event that leads a run of events.
pub open spec fn start_time(events: Seq<StreamEventView>) -> Timestamp {
    events[0]->Start_created
}

impl StreamEvent {
    /// The name under which this event is sent.
    pub fn event_name(&self) -> (name: &'static str)
        ensures
            name@ == event_name_text(self.deep_view()),
    {
        match self {
            StreamEvent::Start { .. } => "start",
            StreamEvent::Content { .. } => "content",
            StreamEvent::Usage { .. } => "usage",
            StreamEvent::Error { .. } => "error",
            StreamEvent::Done => "done",
        }
    }

    /// Whether nothing follows this event.
    pub fn is_terminal(&self) -> (terminal: bool)
        ensures
            terminal == is_terminal(self.deep_view()),
    {
        match self {
            StreamEvent::Error { .. } => true,
            StreamEvent::Done => true,
            _ => false,
        }
    }

    /// A content event of one block.
    pub fn single(block: ContentBlock) -> (event: StreamEvent)
        ensures
            event.deep_view() == (StreamEventView::Content { content: seq![block.deep_view()] }),
    {
        let mut content: Vec<ContentBlock> = Vec::new();
        content.push(block);
        assert(content.deep_view() =~= seq![block.deep_view()]);
        StreamEvent::Content { content }
    }
}

} // verus!
