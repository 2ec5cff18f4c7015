//! Conversation-session lifecycle: one bounded exchange between a single
//! author and the remote completion API, scoped to one platform sub-thread.
//! The session is a pure state machine over plain values; the surrounding
//! process performs the platform and HTTP I/O and feeds the outcomes back in.

use vstd::prelude::*;

use crate::budget::{
    compute_remaining, estimate_tokens, spec_budget_ok, spec_estimate_tokens, spec_remaining,
    TOKEN_BASELINE,
};
use crate::encode::{encode_chat_request, spec_encode_request};
use crate::errors::BotError;
use crate::messages::{
    alternating_from, history_view, lemma_history_view_push, wf_transcript, ChatMessage,
    MessageModel, Role,
};
use crate::response::{
    failure_notice, interpret_response, spec_failure_notice, spec_response_complete,
    DecodedResponse,
};
use crate::text::{chunk_reply, chunk_views, spec_chunk_count, spec_concat};

verus! {

/// Character boundary at which an outbound reply is split into chunks.
pub const MESSAGE_CHUNK: usize = 2000;

/// The provider's chat-completion request body as a typed value.
pub struct GptChat {
    pub model: String,
    pub messages: Vec<ChatMessage>,
    pub max_tokens: u32,
}

impl GptChat {
    /// Every message short enough to serialize.
    pub open spec fn wf(&self) -> bool {
        &&& self.model@.len() <= usize::MAX
        &&& forall|i: int|
            0 <= i < self.messages@.len() ==> (#[trigger] self.messages@[i]).content@.len()
                <= usize::MAX
    }

    /// A fresh request for the default model with an empty transcript and
    /// the default generation budget.
    pub fn default() -> (c: GptChat)
        ensures
            c.model@ == "gpt-3.5-turbo"@,
            c.messages@.len() == 0,
            c.max_tokens == 4000,
            c.wf(),
    {
        let c = GptChat {
            model: String::from_str("gpt-3.5-turbo"),
            messages: Vec::new(),
            max_tokens: 4000,
        };
        proof {
            reveal_strlit("gpt-3.5-turbo");
        }
        c
    }

    /// Serializes this request into the provider's JSON body.
    pub fn encode(&self) -> (r: String)
        requires
            self.wf(),
        ensures
            r@ == spec_encode_request(self.model@, self.messages@, self.max_tokens as int),
    {
        encode_chat_request(&self.model, &self.messages, self.max_tokens)
    }
}

/// Lifecycle of a conversation session.
#[derive(Clone, Copy, PartialEq, Eq, Structural, Debug)]
pub enum SessionState {
    Created,
    Listening,
    Processing,
    Closed,
    Failed,
}

/// One conversation session: its thread, its bound author, its transcript
/// and its token accounting.
pub struct ConversationSession {
    pub thread_id: Option<u64>,
    pub author_id: u64,
    pub history: Vec<ChatMessage>,
    pub token_budget_remaining: u32,
    pub running_total_tokens: u32,
    pub max_turns: u32,
    pub turns_used: u32,
    pub timeout_secs: u64,
    pub state: SessionState,
}

impl ConversationSession {
    /// Internal invariant: the transcript alternates user, assistant, ...;
    /// it ends on a pending user message exactly while a completion is in
    /// flight; the turn quota is respected; a bound thread exists once the
    /// session has left `Created`; and every stored message is short enough
    /// to serialize.
    pub open spec fn wf(&self) -> bool {
        &&& alternating_from(history_view(self.history@), 0)
        &&& (self.state is Processing ==> self.history@.len() % 2 == 1)
        &&& (!(self.state is Processing) ==> self.history@.len() % 2 == 0)
        &&& self.turns_used <= self.max_turns
        &&& (self.state is Listening || self.state is Processing || self.state is Closed
            ==> self.thread_id is Some)
        &&& forall|i: int|
            0 <= i < self.history@.len() ==> (#[trigger] self.history@[i]).content@.len()
                <= usize::MAX
    }

    /// Model of the transcript.
    pub open spec fn transcript(&self) -> Seq<MessageModel> {
        history_view(self.history@)
    }

    /// A new session bound to its triggering author, with an empty history,
    /// the baseline token usage and the full turn quota, waiting for its
    /// platform thread.
    pub fn create(author_id: u64, max_turns: u32, timeout_secs: u64) -> (s: ConversationSession)
        ensures
            s.wf(),
            s.state is Created,
            s.thread_id is None,
            s.author_id == author_id,
            s.max_turns == max_turns,
            s.timeout_secs == timeout_secs,
            s.history@.len() == 0,
            s.running_total_tokens == TOKEN_BASELINE,
            s.turns_used == 0,
    {
        ConversationSession {
            thread_id: None,
            author_id,
            history: Vec::new(),
            token_budget_remaining: 0,
            running_total_tokens: TOKEN_BASELINE,
            max_turns,
            turns_used: 0,
            timeout_secs,
            state: SessionState::Created,
        }
    }

    /// The platform created the session's sub-thread: bind it and start
    /// listening.
    pub fn on_thread_created(&mut self, thread_id: u64)
        requires
            old(self).wf(),
            old(self).state is Created,
        ensures
            final(self).wf(),
            final(self).state is Listening,
            final(self).thread_id == Some(thread_id),
            final(self).history == old(self).history,
            final(self).author_id == old(self).author_id,
            final(self).running_total_tokens == old(self).running_total_tokens,
            final(self).turns_used == old(self).turns_used,
            final(self).max_turns == old(self).max_turns,
            final(self).timeout_secs == old(self).timeout_secs,
    {
        self.thread_id = Some(thread_id);
        self.state = SessionState::Listening;
    }

    /// The platform refused to create the sub-thread: the session never
    /// starts.
    pub fn on_thread_creation_failed(&mut self) -> (e: BotError)
        requires
            old(self).wf(),
            old(self).state is Created,
        ensures
            final(self).wf(),
            final(self).state is Failed,
            final(self).history == old(self).history,
            e is ThreadCreation,
    {
        self.state = SessionState::Failed;
        BotError::ThreadCreation
    }

    /// A message from the bound author arrived within the turn quota. On a
    /// fitting budget the message joins the transcript, the session moves to
    /// `Processing`, and the produced request carries the full transcript
    /// and the remaining budget as the generation cap. On an exhausted
    /// budget the turn is rejected with `BudgetExceeded`, nothing changes
    /// and the session keeps listening.
    pub fn on_author_message(&mut self, content: String, context_window: u32) -> (r: Result<
        GptChat,
        BotError,
    >)
        requires
            old(self).wf(),
            old(self).state is Listening,
            old(self).turns_used < old(self).max_turns,
        ensures
            final(self).wf(),
            r is Ok <==> spec_budget_ok(
                context_window as int,
                old(self).running_total_tokens as int,
                spec_estimate_tokens(content@),
            ),
            r matches Ok(req) ==> {
                &&& final(self).state is Processing
                &&& final(self).transcript() == old(self).transcript().push(
                    MessageModel { role: Role::User, content: content@ },
                )
                &&& final(self).token_budget_remaining == spec_remaining(
                    context_window as int,
                    old(self).running_total_tokens as int,
                    spec_estimate_tokens(content@),
                )
                &&& final(self).turns_used == old(self).turns_used + 1
                &&& final(self).running_total_tokens == old(self).running_total_tokens
                &&& req.model@ == "gpt-3.5-turbo"@
                &&& history_view(req.messages@) == final(self).transcript()
                &&& req.max_tokens == final(self).token_budget_remaining
                &&& req.wf()
            },
            r matches Err(e) ==> {
                &&& e is BudgetExceeded
                &&& final(self).state is Listening
                &&& final(self).history == old(self).history
                &&& final(self).turns_used == old(self).turns_used
                &&& final(self).running_total_tokens == old(self).running_total_tokens
            },
            final(self).thread_id == old(self).thread_id,
            final(self).author_id == old(self).author_id,
            final(self).max_turns == old(self).max_turns,
            final(self).timeout_secs == old(self).timeout_secs,
    {
        let n = content.as_str().unicode_len();
        if n > u32::MAX as usize {
            // An estimate of three tokens per two characters already dwarfs
            // any context window a `u32` can hold.
            return Err(BotError::BudgetExceeded);
        }
        let est = estimate_tokens(content.as_str());
        let remaining = match compute_remaining(context_window, self.running_total_tokens, est) {
            Ok(v) => v,
            Err(e) => {
                return Err(e);
            },
        };
        let message = ChatMessage::user(content);
        let mut req = GptChat::default();
        req.max_tokens = remaining;
        let mut i: usize = 0;
        while i < self.history.len()
            invariant
                i <= self.history@.len(),
                req.model@ == "gpt-3.5-turbo"@,
                req.model@.len() <= usize::MAX,
                req.max_tokens == remaining,
                forall|k: int|
                    0 <= k < self.history@.len() ==> (
                    #[trigger] self.history@[k]).content@.len() <= usize::MAX,
                req.messages@.len() == i,
                history_view(req.messages@) =~= history_view(self.history@).take(i as int),
                req.wf(),
            decreases self.history@.len() - i,
        {
            let m_role = self.history[i].role;
            let m_content = self.history[i].content.clone();
            let ghost pre = req.messages@;
            let ghost mv = self.history@[i as int]@;
            req.messages.push(ChatMessage { role: m_role, content: m_content });
            proof {
                let new_view = history_view(req.messages@);
                let target = history_view(self.history@).take(i as int + 1);
                assert(req.messages@ == pre.push(req.messages@.last()));
                assert(req.messages@.last()@ =~= mv);
                assert(new_view.len() == target.len());
                assert forall|k: int| 0 <= k < new_view.len() implies new_view[k] =~= target[k] by {
                    assert(target[k] == self.history@[k]@);
                    if k < i as int {
                        assert(req.messages@[k] == pre[k]);
                        assert(new_view[k] == history_view(pre)[k]);
                    } else {
                        assert(req.messages@[k] == req.messages@.last());
                    }
                }
                assert(new_view =~~= target);
            }
            i += 1;
        }
        proof {
            assert(history_view(self.history@).take(self.history@.len() as int) =~= history_view(
                self.history@,
            ));
        }
        let ghost pre_req = req.messages@;
        let ghost pre_hist = self.history@;
        let ghost mv = message@;
        req.messages.push(ChatMessage { role: message.role, content: message.content.clone() });
        proof {
            lemma_history_view_push(pre_req, req.messages@.last());
            assert(req.messages@.last()@ =~= mv);
            assert(history_view(pre_req) =~= history_view(pre_hist));
        }
        self.history.push(message);
        self.token_budget_remaining = remaining;
        self.turns_used = self.turns_used + 1;
        self.state = SessionState::Processing;
        proof {
            lemma_history_view_push(pre_hist, self.history@.last());
            assert(self.history@.last()@ == mv);
            assert(mv =~= MessageModel { role: Role::User, content: mv.content });
            assert(history_view(req.messages@) == self.transcript());
        }
        Ok(req)
    }

    /// The remote call produced an assistant reply: it joins the transcript,
    /// the reported total-token usage seeds the next budget calculation, the
    /// session listens again, and the reply comes back split into ordered
    /// chunks whose concatenation is exactly the reply.
    pub fn on_remote_reply(&mut self, reply: String, total_tokens: u32) -> (chunks: Vec<String>)
        requires
            old(self).wf(),
            old(self).state is Processing,
        ensures
            final(self).wf(),
            final(self).state is Listening,
            final(self).transcript() == old(self).transcript().push(
                MessageModel { role: Role::Assistant, content: reply@ },
            ),
            final(self).running_total_tokens == total_tokens,
            final(self).turns_used == old(self).turns_used,
            final(self).thread_id == old(self).thread_id,
            chunks@.len() == spec_chunk_count(reply@.len() as int, MESSAGE_CHUNK as int),
            spec_concat(chunk_views(chunks@)) == reply@,
            forall|i: int| 0 <= i < chunks@.len() ==> 1 <= (#[trigger] chunks@[i])@.len()
                <= MESSAGE_CHUNK,
    {
        let chunks = chunk_reply(reply.as_str(), MESSAGE_CHUNK);
        // establishes that the reply is short enough to store
        let _reply_len = reply.as_str().unicode_len();
        self.history.push(ChatMessage::assistant(reply));
        self.running_total_tokens = total_tokens;
        self.state = SessionState::Listening;
        proof {
            assert(self.transcript() =~~= old(self).transcript().push(
                MessageModel { role: Role::Assistant, content: self.history@.last().content@ },
            ));
        }
        chunks
    }

    /// The remote call failed recoverably (transport failure, structured
    /// error, malformed response): the pending user message leaves the
    /// transcript so the next turn starts from a well-formed one, the
    /// session listens again, and the returned notice is what the user is
    /// told.
    pub fn on_remote_failure(&mut self, err: &BotError) -> (notice: String)
        requires
            old(self).wf(),
            old(self).state is Processing,
            err is Transport || err is RemoteApi || err is MalformedResponse,
        ensures
            final(self).wf(),
            final(self).state is Listening,
            final(self).history@ == old(self).history@.drop_last(),
            final(self).running_total_tokens == old(self).running_total_tokens,
            final(self).turns_used == old(self).turns_used,
            final(self).thread_id == old(self).thread_id,
            notice@ == spec_failure_notice(*err),
    {
        self.history.pop();
        self.state = SessionState::Listening;
        proof {
            let h = self.transcript();
            let oldh = old(self).transcript();
            assert forall|i: int| 0 <= i < h.len() implies h[i].role == (if i % 2 == 0 {
                Role::User
            } else {
                Role::Assistant
            }) by {
                assert(h[i] == oldh[i]);
            }
        }
        failure_notice(err)
    }

    /// What one completed remote turn yields: either the reply's ordered
    /// chunks to relay, or a user-facing notice of a recoverable failure.
    /// Decides from the decoded response exactly as `interpret_response`
    /// does, then applies `on_remote_reply` or `on_remote_failure`.
    pub fn on_remote_response(&mut self, resp: &DecodedResponse) -> (r: TurnResult)
        requires
            old(self).wf(),
            old(self).state is Processing,
        ensures
            final(self).wf(),
            final(self).state is Listening,
            final(self).thread_id == old(self).thread_id,
            final(self).turns_used == old(self).turns_used,
            spec_response_complete(*resp) ==> {
                &&& r is Reply
                &&& final(self).transcript() == old(self).transcript().push(
                    MessageModel {
                        role: Role::Assistant,
                        content: resp.choices@[0].content->Some_0@,
                    },
                )
                &&& final(self).running_total_tokens == resp.total_tokens->Some_0
                &&& spec_concat(chunk_views(r->Reply_chunks@))
                    == resp.choices@[0].content->Some_0@
                &&& r->Reply_chunks@.len() == spec_chunk_count(
                    resp.choices@[0].content->Some_0@.len() as int,
                    MESSAGE_CHUNK as int,
                )
            },
            !spec_response_complete(*resp) ==> {
                &&& r is Notice
                &&& final(self).history@ == old(self).history@.drop_last()
                &&& final(self).running_total_tokens == old(self).running_total_tokens
                &&& (resp.error_message matches Some(m) ==> r->Notice_text@
                    == crate::response::spec_error_notice(m@))
                &&& (resp.error_message is None ==> r->Notice_text@
                    == crate::response::spec_generic_notice())
            },
    {
        match interpret_response(resp) {
            Ok((content, total)) => {
                let chunks = self.on_remote_reply(content, total);
                TurnResult::Reply { chunks }
            },
            Err(e) => {
                let notice = self.on_remote_failure(&e);
                TurnResult::Notice { text: notice }
            },
        }
    }

    /// The event filter's stream ended (quota reached or timeout elapsed):
    /// graceful shutdown, nothing else changes, and nothing can be fed to a
    /// closed session.
    pub fn on_stream_end(&mut self)
        requires
            old(self).wf(),
            old(self).state is Listening,
        ensures
            final(self).wf(),
            final(self).state is Closed,
            final(self).history == old(self).history,
            final(self).running_total_tokens == old(self).running_total_tokens,
            final(self).turns_used == old(self).turns_used,
            final(self).thread_id == old(self).thread_id,
    {
        self.state = SessionState::Closed;
    }
}

/// In every reachable session state the transcript is one the remote API
/// accepts as well formed: roles strictly alternate and the user speaks
/// first.
pub proof fn lemma_session_transcript_wf(s: &ConversationSession)
    requires
        s.wf(),
    ensures
        wf_transcript(s.transcript()),
{
    let h = s.transcript();
    if h.len() > 0 {
        assert(h[0].role == Role::User);
    }
}

/// Outcome of one completed remote turn.
pub enum TurnResult {
    Reply { chunks: Vec<String> },
    Notice { text: String },
}

} // verus!
