//! Event filter: narrows the platform's inbound message stream to the one
//! (channel, author) pair a session is bound to, up to a count limit, and
//! decides when the stream ends.

use vstd::prelude::*;

verus! {

/// What the core reads of one inbound platform message.
pub struct InboundMessage {
    pub author_id: u64,
    pub channel_id: u64,
    pub content: String,
    pub from_bot: bool,
}

impl InboundMessage {
    /// A field-for-field copy.
    pub fn duplicate(&self) -> (m: InboundMessage)
        ensures
            m == *self,
    {
        InboundMessage {
            author_id: self.author_id,
            channel_id: self.channel_id,
            content: self.content.clone(),
            from_bot: self.from_bot,
        }
    }
}

/// Decision of the filter on one inbound event.
#[derive(Clone, Copy, PartialEq, Eq, Structural, Debug)]
pub enum FilterDecision {
    Accept,
    Ignore,
    End,
}

/// A session's narrowing view over the inbound stream: bound channel and
/// author, a maximum accepted-event count, an inactivity timeout (enforced
/// by whoever drives the stream), and how many events were accepted so far.
pub struct EventFilter {
    pub channel_id: u64,
    pub author_id: u64,
    pub max_count: u32,
    pub timeout_secs: u64,
    pub accepted: u32,
}

impl EventFilter {
    /// A fresh filter bound to one channel and author.
    pub fn new(channel_id: u64, author_id: u64, max_count: u32, timeout_secs: u64) -> (f:
        EventFilter)
        ensures
            f.channel_id == channel_id,
            f.author_id == author_id,
            f.max_count == max_count,
            f.timeout_secs == timeout_secs,
            f.accepted == 0,
    {
        EventFilter { channel_id, author_id, max_count, timeout_secs, accepted: 0 }
    }

    /// A message belongs to this filter's session: right channel, right
    /// author, and not sent by a bot.
    pub open spec fn spec_matches(self, m: InboundMessage) -> bool {
        &&& m.channel_id == self.channel_id
        &&& m.author_id == self.author_id
        &&& !m.from_bot
    }

    /// Exec counterpart of `spec_matches`.
    pub fn matches(&self, m: &InboundMessage) -> (r: bool)
        ensures
            r == self.spec_matches(*m),
    {
        m.channel_id == self.channel_id && m.author_id == self.author_id && !m.from_bot
    }

    /// Decision on the next inbound event: `End` once the count limit is
    /// reached (the stream is over, nothing is consumed), `Accept` for a
    /// matching message within the limit, `Ignore` for anything else —
    /// ignoring never ends the stream.
    pub fn offer(&mut self, m: &InboundMessage) -> (d: FilterDecision)
        ensures
            old(self).accepted >= old(self).max_count ==> d is End && *final(self) == *old(self),
            old(self).accepted < old(self).max_count && old(self).spec_matches(*m) ==> d is Accept
                && *final(self) == (EventFilter { accepted: (old(self).accepted + 1) as u32, ..*old(self) }),
            old(self).accepted < old(self).max_count && !old(self).spec_matches(*m) ==> d is Ignore
                && *final(self) == *old(self),
    {
        if self.accepted >= self.max_count {
            FilterDecision::End
        } else if self.matches(m) {
            self.accepted = self.accepted + 1;
            FilterDecision::Accept
        } else {
            FilterDecision::Ignore
        }
    }
}

/// The first `limit` messages of `events` that a filter accepts, in arrival
/// order: exactly the matching messages, none from other authors, channels
/// or bots, truncated at the limit.
pub open spec fn spec_collect(f: EventFilter, events: Seq<InboundMessage>, limit: int) -> Seq<
    InboundMessage,
>
    decreases events.len(),
{
    if events.len() == 0 || limit <= 0 {
        Seq::empty()
    } else if f.spec_matches(events[0]) {
        seq![events[0]] + spec_collect(f, events.skip(1), limit - 1)
    } else {
        spec_collect(f, events.skip(1), limit)
    }
}

/// One more event extends the collected sequence exactly when the limit has
/// room and the event matches.
pub proof fn lemma_collect_push(
    f: EventFilter,
    events: Seq<InboundMessage>,
    m: InboundMessage,
    limit: int,
)
    ensures
        spec_collect(f, events.push(m), limit) == (if spec_collect(f, events, limit).len() < limit
            && f.spec_matches(m) {
            spec_collect(f, events, limit).push(m)
        } else {
            spec_collect(f, events, limit)
        }),
    decreases events.len(),
{
    let lhs = spec_collect(f, events.push(m), limit);
    if events.len() == 0 {
        if limit <= 0 {
            assert(lhs =~= spec_collect(f, events, limit));
        } else {
            assert(events.push(m).skip(1) =~= Seq::<InboundMessage>::empty());
            assert(events.push(m).len() == 1);
            assert(spec_collect(f, events, limit) == Seq::<InboundMessage>::empty());
            if f.spec_matches(m) {
                assert(events.push(m)[0] == m);
                assert(spec_collect(f, events.push(m).skip(1), limit - 1) == Seq::<
                    InboundMessage,
                >::empty());
                assert(lhs == seq![m] + Seq::<InboundMessage>::empty());
                assert(lhs =~= spec_collect(f, events, limit).push(m));
            } else {
                assert(spec_collect(f, events.push(m).skip(1), limit) == Seq::<
                    InboundMessage,
                >::empty());
                assert(lhs =~= spec_collect(f, events, limit));
            }
        }
    } else {
        assert(events.push(m).skip(1) =~= events.skip(1).push(m));
        lemma_collect_push(f, events.skip(1), m, limit - 1);
        lemma_collect_push(f, events.skip(1), m, limit);
        assert(events.push(m)[0] == events[0]);
        if f.spec_matches(events[0]) {
            if spec_collect(f, events.skip(1), limit - 1).len() < limit - 1 && f.spec_matches(m) {
                assert(lhs =~= spec_collect(f, events, limit).push(m));
            } else {
                assert(lhs =~= spec_collect(f, events, limit));
            }
        }
    }
}

/// Applies a filter to a finite event sequence: the result holds exactly the
/// messages the filter accepts, in their original arrival order, up to the
/// filter's count limit.
pub fn collect_matching(f: &EventFilter, events: &Vec<InboundMessage>) -> (out: Vec<InboundMessage>)
    ensures
        out@ == spec_collect(*f, events@, f.max_count as int),
{
    let mut out: Vec<InboundMessage> = Vec::new();
    let mut i: usize = 0;
    while i < events.len()
        invariant
            i <= events@.len(),
            out@.len() <= f.max_count,
            out@ == spec_collect(*f, events@.take(i as int), f.max_count as int),
        decreases events@.len() - i,
    {
        let m = &events[i];
        if out.len() < f.max_count as usize && f.matches(m) {
            out.push(m.duplicate());
        }
        proof {
            lemma_collect_push(*f, events@.take(i as int), events@[i as int], f.max_count as int);
            assert(events@.take(i as int).push(events@[i as int]) =~= events@.take(i as int + 1));
        }
        i += 1;
    }
    proof {
        assert(events@.take(events@.len() as int) =~= events@);
    }
    out
}

} // verus!
