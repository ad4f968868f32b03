//! A request, and what is read from it before any backend is called.
//!
//! A system prompt may stand in the request's `system` field or as a system
//! turn among its messages, and not in both places. The reasoning backend is
//! called with the `system` field, where there is one, as the first turn and
//! with every turn of the conversation that is no system turn. The answering
//! backend is given the system prompt beside the conversation.

use crate::credentials::{credential_header, extract_api_tokens, token_spec};
use crate::error::{result_view, ApiError, ApiErrorView};
use crate::message::{Message, MessageView, Role};
use axum::http::HeaderMap;
use vstd::prelude::*;

verus! {

/// What the pipeline is asked to do.
#[derive(Clone, Debug, PartialEq, Eq)]
pub struct ApiRequest {
    /// Whether the answer is to be streamed.
    pub stream: bool,
    /// Whether the answer is to show what each backend sent.
    pub verbose: bool,
    /// The system prompt, where it does not stand among the messages.
    pub system: Option<String>,
    /// The conversation.
    pub messages: Vec<Message>,
}

/// An `ApiRequest`, as a value.
pub struct ApiRequestView {
    pub stream: bool,
    pub verbose: bool,
    pub system: Option<Seq<char>>,
    pub messages: Seq<MessageView>,
}

impl DeepView for ApiRequest {
    type V = ApiRequestView;

    open spec fn deep_view(&self) -> ApiRequestView {
        ApiRequestView {
            stream: self.stream,
            verbose: self.verbose,
            system: self.system.deep_view(),
            messages: self.messages.deep_view(),
        }
    }
}

/// Whether a conversation holds a system turn.
pub open spec fn has_system_turn(messages: Seq<MessageView>) -> bool {
    exists|i: int| 0 <= i < messages.len() && (#[trigger] messages[i]).role == Role::System
}

/// Whether the system prompt stands in one place at most.
pub open spec fn system_prompt_valid(request: ApiRequestView) -> bool {
    !(request.system is Some && has_system_turn(request.messages))
}

/// A conversation without its system turns, the others in their order.
pub open spec fn without_system_turns(messages: Seq<MessageView>) -> Seq<MessageView>
    decreases messages.len(),
{
    if messages.len() == 0 {
        Seq::empty()
    } else if messages.last().role == Role::System {
        without_system_turns(messages.drop_last())
    } else {
        without_system_turns(messages.drop_last()).push(messages.last())
    }
}

/// The conversation that the reasoning backend is called with.
pub open spec fn messages_with_system(request: ApiRequestView) -> Seq<MessageView> {
    match request.system {
        Some(system) => seq![MessageView { role: Role::System, content: system }]
            + without_system_turns(request.messages),
        None => without_system_turns(request.messages),
    }
}

/// The text of the first system turn of a conversation, if it has one.
pub open spec fn first_system_turn(messages: Seq<MessageView>) -> Option<Seq<char>>
    decreases messages.len(),
{
    if messages.len() == 0 {
        None
    } else {
        match first_system_turn(messages.drop_last()) {
            Some(text) => Some(text),
            None => if messages.last().role == Role::System {
                Some(messages.last().content)
            } else {
                None
            },
        }
    }
}

/// The system prompt of a request, from wherever it stands.
pub open spec fn system_prompt(request: ApiRequestView) -> Option<Seq<char>> {
    match request.system {
        Some(system) => Some(system),
        None => first_system_turn(request.messages),
    }
}

/// Why a request is refused before any backend is called, if it is: for its
/// system prompt first, then for its credential.
pub open spec fn refusal(
    request: ApiRequestView,
    credential: Result<Seq<char>, ApiErrorView>,
) -> Option<ApiErrorView> {
    if !system_prompt_valid(request) {
        Some(ApiErrorView::InvalidSystemPrompt)
    } else {
        match credential {
            Err(error) => Some(error),
            Ok(_) => None,
        }
    }
}

/// Whether a turn is a system turn.
fn is_system(role: Role) -> (system: bool)
    ensures
        system == (role == Role::System),
{
    match role {
        Role::System => true,
        _ => false,
    }
}

/// The first system turn among the first `n` turns is the first of all.
proof fn lemma_first_system_turn_stays(messages: Seq<MessageView>, n: int)
    requires
        0 <= n <= messages.len(),
        first_system_turn(messages.take(n)) is Some,
    ensures
        first_system_turn(messages) == first_system_turn(messages.take(n)),
    decreases messages.len() - n,
{
    if n < messages.len() {
        assert(messages.take(n + 1).drop_last() =~= messages.take(n));
        lemma_first_system_turn_stays(messages, n + 1);
    } else {
        assert(messages.take(n) =~= messages);
    }
}

impl ApiRequest {
    /// Whether the conversation holds a system turn.
    fn has_system_turn(&self) -> (found: bool)
        ensures
            found == has_system_turn(self.messages.deep_view()),
    {
        let mut i: usize = 0;
        while i < self.messages.len()
            invariant
                i <= self.messages.len(),
                forall|j: int| 0 <= j < i ==> self.messages.deep_view()[j].role != Role::System,
            decreases self.messages.len() - i,
        {
            if is_system(self.messages[i].role) {
                assert(self.messages.deep_view()[i as int].role == Role::System);
                return true;
            }
            i += 1;
        }
        false
    }

    /// Whether the system prompt stands in one place at most: a request
    /// that gives it both in `system` and as a system turn is not valid.
    pub fn validate_system_prompt(&self) -> (valid: bool)
        ensures
            valid == system_prompt_valid(self.deep_view()),
    {
        match &self.system {
            Some(_) => !self.has_system_turn(),
            None => true,
        }
    }

    /// The conversation for the reasoning backend: the `system` field, where
    /// there is one, as a system turn in front, and then every turn of the
    /// conversation that is no system turn, in its order.
    pub fn get_messages_with_system(&self) -> (messages: Vec<Message>)
        ensures
            messages.deep_view() == messages_with_system(self.deep_view()),
    {
        let mut messages: Vec<Message> = Vec::new();
        let ghost front: Seq<MessageView> = Seq::empty();
        match &self.system {
            Some(system) => {
                messages.push(Message { role: Role::System, content: system.clone() });
                proof {
                    front = seq![MessageView { role: Role::System, content: system@ }];
                }
            },
            None => {},
        }
        let ghost turns = self.messages.deep_view();
        let mut i: usize = 0;
        assert(turns.take(0) =~= Seq::empty());
        assert(messages.deep_view() =~= front + without_system_turns(turns.take(0)));
        while i < self.messages.len()
            invariant
                i <= self.messages.len(),
                turns == self.messages.deep_view(),
                messages.deep_view() == front + without_system_turns(turns.take(i as int)),
            decreases self.messages.len() - i,
        {
            let turn = &self.messages[i];
            proof {
                assert(turns.take(i + 1).drop_last() =~= turns.take(i as int));
                assert(turns.take(i + 1).last() == turn.deep_view());
            }
            if !is_system(turn.role) {
                let ghost before = messages.deep_view();
                messages.push(Message { role: turn.role, content: turn.content.clone() });
                assert(messages.deep_view() =~= before.push(turn.deep_view()));
                assert(before.push(turn.deep_view()) =~= front + without_system_turns(
                    turns.take(i + 1),
                ));
            }
            i += 1;
        }
        assert(turns.take(i as int) =~= turns);
        messages
    }

    /// The system prompt for the answering backend: the `system` field, or
    /// else the text of the first system turn of the conversation.
    pub fn get_system_prompt(&self) -> (prompt: Option<&str>)
        ensures
            prompt.deep_view() == system_prompt(self.deep_view()),
    {
        match &self.system {
            Some(system) => Some(system.as_str()),
            None => {
                let ghost turns = self.messages.deep_view();
                let mut i: usize = 0;
                assert(turns.take(0) =~= Seq::empty());
                while i < self.messages.len()
                    invariant
                        i <= self.messages.len(),
                        self.system is None,
                        turns == self.messages.deep_view(),
                        first_system_turn(turns.take(i as int)) is None,
                    decreases self.messages.len() - i,
                {
                    let turn = &self.messages[i];
                    proof {
                        assert(turns.take(i + 1).drop_last() =~= turns.take(i as int));
                        assert(turns.take(i + 1).last() == turn.deep_view());
                    }
                    if is_system(turn.role) {
                        proof {
                            assert(first_system_turn(turns.take(i + 1)) == Some(turn.content@));
                            lemma_first_system_turn_stays(turns, i + 1);
                        }
                        return Some(turn.content.as_str());
                    }
                    i += 1;
                }
                assert(turns.take(i as int) =~= turns);
                None
            },
        }
    }
}

/// Accepts a request or refuses it, before any backend is called. A request
/// whose system prompt is not valid is refused as `InvalidSystemPrompt`;
/// one that is valid but brings no usable credential, as the credential's
/// error says. A request that is accepted gives its credential.
pub fn vet_request(headers: &HeaderMap, request: &ApiRequest) -> (token: Result<String, ApiError>)
    ensures
        result_view(token) == match refusal(
            request.deep_view(),
            token_spec(credential_header(*headers)),
        ) {
            Some(error) => Err(error),
            None => token_spec(credential_header(*headers)),
        },
{
    if !request.validate_system_prompt() {
        return Err(ApiError::InvalidSystemPrompt);
    }
    extract_api_tokens(headers)
}

} // verus!
