use vstd::prelude::*;

use crate::models::chat_message::ChatMessage;
use crate::models::timestamp::Timestamp;

verus! {

/// The bookkeeping of a pull-based message stream: when it was created, when
/// it was last pulled, whether its source has ended, and (as a proof-only
/// record) the items it has handed out.
pub struct ChatStreamState {
    pub created_at: Timestamp,
    pub updated_at: Timestamp,
    pub finished: bool,
    pub delivered: Ghost<Seq<ChatMessage>>,
}

impl ChatStreamState {
    /// The state after one pull resolved at `now` with `polled`.
    pub open spec fn after_pull(self, now: Timestamp, polled: Option<ChatMessage>) -> ChatStreamState {
        ChatStreamState {
            created_at: self.created_at,
            updated_at: self.updated_at.latest(now),
            finished: self.finished || polled is None,
            delivered: Ghost(
                if !self.finished && polled is Some {
                    self.delivered@.push(polled->0)
                } else {
                    self.delivered@
                },
            ),
        }
    }

    /// What one pull resolved with `polled` hands out.
    pub open spec fn pull_result(self, polled: Option<ChatMessage>) -> Option<ChatMessage> {
        if self.finished {
            None
        } else {
            polled
        }
    }

    /// The state after pulls resolved at `times`, yielding `items` in turn.
    pub open spec fn after_pulls(self, times: Seq<Timestamp>, items: Seq<ChatMessage>) -> ChatStreamState
        decreases items.len(),
    {
        if items.len() == 0 || times.len() == 0 {
            self
        } else {
            self.after_pull(times[0], Some(items[0])).after_pulls(times.drop_first(), items.drop_first())
        }
    }

    /// A stream created at `now`.
    pub fn new(now: Timestamp) -> (r: ChatStreamState)
        ensures
            r.created_at == now,
            r.updated_at == now,
            !r.finished,
            r.delivered@ == Seq::<ChatMessage>::empty(),
    {
        ChatStreamState {
            created_at: now,
            updated_at: now,
            finished: false,
            delivered: Ghost(Seq::empty()),
        }
    }

    /// Records one resolved pull at `now` with what the source yielded. The
    /// activity time moves to `now` (never backwards). Once the source has
    /// ended the stream stays ended and forwards nothing more.
    pub fn record_pull(&mut self, now: Timestamp, polled: Option<ChatMessage>) -> (r: Option<
        ChatMessage,
    >)
        ensures
            *final(self) == old(self).after_pull(now, polled),
            r == old(self).pull_result(polled),
    {
        self.updated_at = self.updated_at.later(now);
        if self.finished {
            return None;
        }
        match polled {
            Some(m) => {
                self.delivered = Ghost(self.delivered@.push(m));
                Some(m)
            },
            None => {
                self.finished = true;
                None
            },
        }
    }

    /// Records one resolved pull and passes a forwarded item through
    /// `transform`, which runs once for each forwarded item and never after
    /// the source has ended.
    pub fn record_pull_with<F: FnMut(ChatMessage) -> ChatMessage>(
        &mut self,
        now: Timestamp,
        polled: Option<ChatMessage>,
        transform: &mut F,
    ) -> (r: Option<ChatMessage>)
        requires
            forall|m: ChatMessage| call_requires(*old(transform), (m,)),
        ensures
            *final(self) == old(self).after_pull(now, polled),
            old(self).finished || polled is None ==> r is None,
            !old(self).finished && polled is Some ==> (r matches Some(t) && call_ensures(
                *old(transform),
                (polled->0,),
                t,
            )),
    {
        match self.record_pull(now, polled) {
            Some(m) => Some(transform(m)),
            None => None,
        }
    }
}

/// Every pull leaves the activity time no earlier than before, and strictly
/// later when the pull resolved at a later instant; the creation time stays.
pub proof fn lemma_stream_timestamps(s: ChatStreamState, now: Timestamp, polled: Option<ChatMessage>)
    ensures
        !s.after_pull(now, polled).updated_at.before(s.updated_at),
        s.updated_at.before(now) ==> s.updated_at.before(s.after_pull(now, polled).updated_at),
        s.after_pull(now, polled).created_at == s.created_at,
{
}

/// Pulling a live stream whose source yields `items` in turn hands the items
/// out in exactly that order, after those handed out before.
pub proof fn lemma_pulls_keep_source_order(
    s: ChatStreamState,
    times: Seq<Timestamp>,
    items: Seq<ChatMessage>,
)
    requires
        !s.finished,
        times.len() == items.len(),
    ensures
        s.after_pulls(times, items).delivered@ == s.delivered@ + items,
        !s.after_pulls(times, items).finished,
    decreases items.len(),
{
    if items.len() == 0 {
        assert(s.delivered@ + items =~= s.delivered@);
    } else {
        let next = s.after_pull(times[0], Some(items[0]));
        lemma_pulls_keep_source_order(next, times.drop_first(), items.drop_first());
        assert(next.delivered@ + items.drop_first() =~= s.delivered@ + items);
    }
}

/// Once the source has ended, every later pull hands out nothing, whatever
/// the source yields.
pub proof fn lemma_end_is_final(s: ChatStreamState, now: Timestamp, polled: Option<ChatMessage>)
    requires
        s.finished,
    ensures
        s.pull_result(polled) is None,
        s.after_pull(now, polled).finished,
        s.after_pull(now, polled).delivered@ == s.delivered@,
{
}

} // verus!
