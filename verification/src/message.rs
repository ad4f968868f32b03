//! Conversations and the pieces of text that answer them.

use crate::text::join;
use vstd::prelude::*;
use vstd::string::StringExecFns;

verus! {

/// Who speaks in a turn of the conversation.
#[derive(Clone, Copy, Debug, PartialEq, Eq)]
pub enum Role {
    System,
    User,
    Assistant,
}

/// One turn of a conversation. The order of the turns matters.
#[derive(Clone, Debug, PartialEq, Eq)]
pub struct Message {
    pub role: Role,
    pub content: String,
}

/// A `Message`, as a value.
pub struct MessageView {
    pub role: Role,
    pub content: Seq<char>,
}

impl DeepView for Message {
    type V = MessageView;

    open spec fn deep_view(&self) -> MessageView {
        MessageView { role: self.role, content: self.content@ }
    }
}

/// How a block of text is to be read: `Text` is whole, `TextDelta` continues
/// the text that came before it.
#[derive(Clone, Copy, Debug, PartialEq, Eq)]
pub enum BlockKind {
    Text,
    TextDelta,
}

/// A piece of the answer.
#[derive(Clone, Debug, PartialEq, Eq)]
pub struct ContentBlock {
    pub kind: BlockKind,
    pub text: String,
}

/// A `ContentBlock`, as a value.
pub struct ContentBlockView {
    pub kind: BlockKind,
    pub text: Seq<char>,
}

impl DeepView for ContentBlock {
    type V = ContentBlockView;

    open spec fn deep_view(&self) -> ContentBlockView {
        ContentBlockView { kind: self.kind, text: self.text@ }
    }
}

/// The name of a kind on the wire.
pub open spec fn content_type_text(kind: BlockKind) -> Seq<char> {
    match kind {
        BlockKind::Text => "text"@,
        BlockKind::TextDelta => "text_delta"@,
    }
}

impl BlockKind {
    /// The name of this kind on the wire.
    pub fn content_type(self) -> (name: &'static str)
        ensures
            name@ == content_type_text(self),
    {
        match self {
            BlockKind::Text => "text",
            BlockKind::TextDelta => "text_delta",
        }
    }
}

/// What opens the reasoning in the answer.
pub open spec fn thinking_open() -> Seq<char> {
    "<thinking>\n"@
}

/// What closes the reasoning in the answer.
pub open spec fn thinking_close() -> Seq<char> {
    "\n</thinking>"@
}

/// The reasoning between its two marks.
pub open spec fn thinking_text(reasoning: Seq<char>) -> Seq<char> {
    thinking_open() + reasoning + thinking_close()
}

/// The turn by which the answering backend is told the reasoning.
pub open spec fn thinking_turn_spec(reasoning: Seq<char>) -> MessageView {
    MessageView { role: Role::Assistant, content: thinking_text(reasoning) }
}

/// The texts of `blocks`, joined in order.
pub open spec fn blocks_text(blocks: Seq<ContentBlockView>) -> Seq<char>
    decreases blocks.len(),
{
    if blocks.len() == 0 {
        Seq::empty()
    } else {
        blocks_text(blocks.drop_last()) + blocks.last().text
    }
}

/// Puts the reasoning between its two marks.
pub fn wrap_thinking(reasoning: &str) -> (wrapped: String)
    ensures
        wrapped@ == thinking_text(reasoning@),
{
    let mut wrapped = join("<thinking>\n", reasoning);
    wrapped.append("\n</thinking>");
    wrapped
}

/// The assistant turn that carries the reasoning to the answering backend.
pub fn thinking_turn(reasoning: &str) -> (turn: Message)
    ensures
        turn.deep_view() == thinking_turn_spec(reasoning@),
{
    Message { role: Role::Assistant, content: wrap_thinking(reasoning) }
}

/// A whole block of text.
pub fn text_block(text: &str) -> (block: ContentBlock)
    ensures
        block.deep_view() == (ContentBlockView { kind: BlockKind::Text, text: text@ }),
{
    ContentBlock { kind: BlockKind::Text, text: String::from_str(text) }
}

/// A block that continues the text before it.
pub fn delta_block(text: &str) -> (block: ContentBlock)
    ensures
        block.deep_view() == (ContentBlockView { kind: BlockKind::TextDelta, text: text@ }),
{
    ContentBlock { kind: BlockKind::TextDelta, text: String::from_str(text) }
}

/// A copy of a conversation, turn by turn.
pub fn copy_messages(messages: &Vec<Message>) -> (copy: Vec<Message>)
    ensures
        copy.deep_view() == messages.deep_view(),
{
    let mut copy: Vec<Message> = Vec::new();
    let mut i: usize = 0;
    while i < messages.len()
        invariant
            i <= messages.len(),
            copy.len() == i,
            forall|j: int| 0 <= j < i ==> copy[j].deep_view() == messages[j].deep_view(),
        decreases messages.len() - i,
    {
        let turn = &messages[i];
        copy.push(Message { role: turn.role, content: turn.content.clone() });
        i += 1;
    }
    assert(copy.deep_view() =~= messages.deep_view());
    copy
}

} // verus!
