//! The context that the entry points of the bridge share: the channels and
//! the latch of the background consumer.
//!
//! There is no ambient state. Whoever sets the bridge up makes one `Bridge`
//! and passes it to every entry point; a process that wants it to live as
//! long as itself keeps it behind a lock.

use crate::channel::{ReceiverHandle, SenderHandle};
use crate::consumer::StartLatch;
use crate::message::Message;
use crate::registry::{channel_ensured, receiver_handed_out, ChannelKey, ChannelRegistry};
use vstd::prelude::*;

verus! {

/// The state of the bridge.
pub struct Bridge {
    /// The channels between the scripting host and the background side.
    pub registry: ChannelRegistry,
    /// Whether the background consumer has been started.
    pub consumer: StartLatch,
}

/// The ends that the background consumer works with.
pub struct ConsumerEnds {
    /// Where the messages of the scripting host arrive.
    pub inbox: ReceiverHandle<Message>,
    /// Where the consumer sends what it has to say to the scripting host.
    pub replies: SenderHandle<Message>,
}

/// What a call of `ensure_started` did to the bridge, and what it got.
///
/// The latch is set afterwards. A call that found it set got nothing and
/// changed nothing. A call that found it unset asked for the receiving end of
/// the channel from host to background. Where that end had been handed out
/// before, a consumer is running: the call got nothing. Otherwise it got that
/// end, together with a sending end of the channel from background to host.
pub open spec fn consumer_started(before: Bridge, after: Bridge, ends: Option<ConsumerEnds>) -> bool {
    &&& after.consumer@
    &&& if before.consumer@ {
        ends is None && after.registry == before.registry
    } else {
        exists|between: ChannelRegistry, inbox: Option<ReceiverHandle<Message>>|
            {
                &&& #[trigger] receiver_handed_out(
                    before.registry,
                    ChannelKey::HostToBackground,
                    between,
                    inbox,
                )
                &&& match inbox {
                    None => ends is None && after.registry == between,
                    Some(end) => ends matches Some(wired) && wired.inbox == end && channel_ensured(
                        between,
                        ChannelKey::BackgroundToHost,
                        after.registry,
                        wired.replies,
                    ),
                }
            }
    }
}

impl Bridge {
    /// A bridge with no channel made and no consumer started.
    pub fn new() -> (bridge: Bridge)
        ensures
            !bridge.consumer@,
            forall|key: ChannelKey| #[trigger] bridge.registry.slot(key) is None,
    {
        Bridge { registry: ChannelRegistry::new(), consumer: StartLatch::new() }
    }

    /// Asks for the background consumer to run.
    ///
    /// The one call that has to spawn the consumer gets the ends that the
    /// consumer works with. Every other call gets `None`: the consumer is
    /// running, which is no error.
    pub fn ensure_started(&mut self) -> (ends: Option<ConsumerEnds>)
        ensures
            consumer_started(*old(self), *final(self), ends),
    {
        if !self.consumer.ensure_started() {
            return None;
        }
        let ghost before = self.registry;
        let inbox = self.registry.take_receiver(ChannelKey::HostToBackground);
        let ghost between = self.registry;
        assert(receiver_handed_out(before, ChannelKey::HostToBackground, between, inbox));
        match inbox {
            Some(inbox) => {
                let replies = self.registry.get_or_create_channel(ChannelKey::BackgroundToHost);
                Some(ConsumerEnds { inbox, replies })
            },
            None => None,
        }
    }
}

/// The background consumer is started at most once: a call of
/// `ensure_started` that follows another one gets nothing, whatever the
/// first one got.
pub proof fn lemma_consumer_is_started_once(
    start: Bridge,
    between: Bridge,
    end: Bridge,
    first: Option<ConsumerEnds>,
    second: Option<ConsumerEnds>,
)
    requires
        consumer_started(start, between, first),
        consumer_started(between, end, second),
    ensures
        second is None,
        end.registry == between.registry,
{
}

/// On a new bridge the first call of `ensure_started` is the one that gets
/// the consumer's ends, and the consumer's end of the channel from host to
/// background is handed out from then on.
pub proof fn lemma_first_call_starts_consumer(
    start: Bridge,
    after: Bridge,
    ends: Option<ConsumerEnds>,
)
    requires
        !start.consumer@,
        !start.registry.receiver_taken(ChannelKey::HostToBackground),
        consumer_started(start, after, ends),
    ensures
        ends is Some,
        after.registry.receiver_taken(ChannelKey::HostToBackground),
        after.registry.slot(ChannelKey::BackgroundToHost) matches Some(kept) && kept.sender
            == ends.unwrap().replies,
{
}

/// However often the consumer is asked to run, it is started exactly once.
///
/// Take any number of calls of `ensure_started`, one after the other, on a
/// bridge that starts out with the latch unset and the consumer's receiving
/// end not handed out: `states` holds the bridge before the first call and
/// after each call, `answers` what each call got. Then the first call, and
/// only the first, got the consumer's ends.
pub proof fn lemma_exactly_one_consumer(states: Seq<Bridge>, answers: Seq<Option<ConsumerEnds>>)
    requires
        answers.len() >= 1,
        states.len() == answers.len() + 1,
        !states[0].consumer@,
        !states[0].registry.receiver_taken(ChannelKey::HostToBackground),
        forall|i: int|
            0 <= i < answers.len() ==> consumer_started(
                states[i],
                states[i + 1],
                #[trigger] answers[i],
            ),
    ensures
        answers[0] is Some,
        forall|i: int| 1 <= i < answers.len() ==> #[trigger] answers[i] is None,
{
    assert(consumer_started(states[0], states[1], answers[0]));
    assert forall|i: int| 1 <= i < answers.len() implies #[trigger] answers[i] is None by {
        assert(consumer_started(states[i - 1], states[i], answers[i - 1]));
        assert(consumer_started(states[i], states[i + 1], answers[i]));
    }
}

} // verus!
