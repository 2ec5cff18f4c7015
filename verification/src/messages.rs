//! Chat transcript data model: message roles, messages, and the
//! well-formedness the remote API expects of a transcript.

use vstd::prelude::*;

verus! {

/// Speaker of a chat message: a fixed, closed enumeration.
#[derive(Clone, Copy, PartialEq, Eq, Structural, Debug)]
pub enum Role {
    System,
    User,
    Assistant,
}

/// One immutable transcript entry.
pub struct ChatMessage {
    pub role: Role,
    pub content: String,
}

/// Mathematical model of a `ChatMessage`.
#[verifier::ext_equal]
pub struct MessageModel {
    pub role: Role,
    pub content: Seq<char>,
}

impl View for ChatMessage {
    type V = MessageModel;

    open spec fn view(&self) -> MessageModel {
        MessageModel { role: self.role, content: self.content@ }
    }
}

impl ChatMessage {
    /// A user message with the given text.
    pub fn user(content: String) -> (m: ChatMessage)
        ensures
            m@.role == Role::User,
            m@.content == content@,
    {
        ChatMessage { role: Role::User, content }
    }

    /// An assistant message with the given text.
    pub fn assistant(content: String) -> (m: ChatMessage)
        ensures
            m@.role == Role::Assistant,
            m@.content == content@,
    {
        ChatMessage { role: Role::Assistant, content }
    }
}

/// Model of a whole history.
pub open spec fn history_view(h: Seq<ChatMessage>) -> Seq<MessageModel> {
    h.map(|i: int, m: ChatMessage| m@)
}

/// Appending a message to a history appends its model to the history's
/// model.
pub proof fn lemma_history_view_push(h: Seq<ChatMessage>, m: ChatMessage)
    ensures
        history_view(h.push(m)) == history_view(h).push(m@),
{
    let a = history_view(h.push(m));
    let b = history_view(h).push(m@);
    assert forall|k: int| 0 <= k < a.len() implies a[k] == b[k] by {
        if k < h.len() {
            assert(h.push(m)[k] == h[k]);
        } else {
            assert(h.push(m)[k] == m);
        }
    }
    assert(a =~= b);
}

/// From `start` on, roles strictly alternate user, assistant, user, ...
pub open spec fn alternating_from(h: Seq<MessageModel>, start: int) -> bool {
    forall|i: int|
        start <= i < h.len() ==> h[i].role == (if (i - start) % 2 == 0 {
            Role::User
        } else {
            Role::Assistant
        })
}

/// A transcript the remote API accepts as well formed: an optional system
/// message may precede everything, after which user and assistant entries
/// strictly alternate starting with the user. In particular no two
/// consecutive entries share a role.
pub open spec fn wf_transcript(h: Seq<MessageModel>) -> bool {
    if h.len() > 0 && h[0].role == Role::System {
        alternating_from(h, 1)
    } else {
        alternating_from(h, 0)
    }
}

} // verus!
