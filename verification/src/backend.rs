//! What a backend hands back, as the pipeline reads it.

use crate::usage::BackendUsage;
use serde_json::Value;
use vstd::prelude::*;

verus! {

#[verifier::external_type_specification]
#[verifier::external_body]
pub struct ExValue(Value);

/// The answer to one blocking call.
#[derive(Debug, PartialEq, Eq)]
pub struct BackendReply {
    /// The text of the answer, where the backend gave one.
    pub content: Option<String>,
    pub usage: BackendUsage,
    /// The backend's answer as it came, for a caller who asks to see it.
    pub raw: Value,
}

/// A `BackendReply`, as a value.
pub struct BackendReplyView {
    pub content: Option<Seq<char>>,
    pub usage: BackendUsage,
    pub raw: Value,
}

impl DeepView for BackendReply {
    type V = BackendReplyView;

    open spec fn deep_view(&self) -> BackendReplyView {
        BackendReplyView { content: self.content.deep_view(), usage: self.usage, raw: self.raw }
    }
}

/// One element of a backend's stream.
#[derive(Clone, Debug, PartialEq, Eq)]
pub struct StreamChunk {
    /// The next piece of text, if the chunk brings one.
    pub content: Option<String>,
    /// The counters so far, if the chunk reports them.
    pub usage: Option<BackendUsage>,
}

/// A `StreamChunk`, as a value.
pub struct StreamChunkView {
    pub content: Option<Seq<char>>,
    pub usage: Option<BackendUsage>,
}

impl DeepView for StreamChunk {
    type V = StreamChunkView;

    open spec fn deep_view(&self) -> StreamChunkView {
        StreamChunkView { content: self.content.deep_view(), usage: self.usage }
    }
}

/// The text that a chunk adds: its content, or nothing.
pub open spec fn chunk_delta(chunk: StreamChunkView) -> Seq<char> {
    match chunk.content {
        Some(text) => text,
        None => Seq::empty(),
    }
}

/// Whether an answer holds text at all.
pub open spec fn has_content(content: Option<Seq<char>>) -> bool {
    content matches Some(text) && text.len() > 0
}

} // verus!
