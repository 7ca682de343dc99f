//! The channel registry: the channels between the scripting host and the
//! background side, made on first use, and the one place from which their
//! ends are handed out.
//!
//! The registry is an ordinary value. A process that wants one registry for
//! its whole life keeps it behind a lock; every operation here is short and
//! never waits, so the lock is held only briefly.

use crate::channel::{channel, ReceiverHandle, SenderHandle};
use crate::error::BridgeError;
use crate::message::Message;
use vstd::prelude::*;

verus! {

/// Which of the two channels is meant.
#[derive(Debug, Clone, Copy, PartialEq, Eq, Structural)]
pub enum ChannelKey {
    /// From the scripting host to the background consumer.
    HostToBackground,
    /// From the background side to the scripting host.
    BackgroundToHost,
}

/// What the registry keeps of a channel that was made.
pub struct ChannelSlot {
    /// The sending end. It stays for good; callers get duplicates.
    pub sender: SenderHandle<Message>,
    /// The receiving end, until it is handed out.
    pub receiver: Option<ReceiverHandle<Message>>,
}

/// The channels of the bridge.
pub struct ChannelRegistry {
    host_to_background: Option<ChannelSlot>,
    background_to_host: Option<ChannelSlot>,
}

/// A message that was accepted for sending, with the sending end that it
/// goes to. Nothing has been sent yet.
pub struct PendingSend {
    /// Where the message goes.
    pub sender: SenderHandle<Message>,
    /// The message.
    pub message: Message,
}

/// What a call that asked for the channel of `key` did to the registry, and
/// what it got.
///
/// The channel exists afterwards and `sender` is its sending end. A channel
/// that was there before is left as it was, so it stays the same channel. A
/// channel that was made by the call has its receiving end waiting in the
/// registry. The other channel is untouched.
pub open spec fn channel_ensured(
    before: ChannelRegistry,
    key: ChannelKey,
    after: ChannelRegistry,
    sender: SenderHandle<Message>,
) -> bool {
    &&& forall|other: ChannelKey| other != key ==> after.slot(other) == before.slot(other)
    &&& after.slot(key) matches Some(kept) && kept.sender == sender
    &&& match before.slot(key) {
        Some(held) => after.slot(key) == Some(held),
        None => after.slot(key).unwrap().receiver is Some,
    }
}

/// What a call that asked for the receiving end of `key` did to the
/// registry, and what it got.
///
/// The channel exists afterwards, and it is the channel that was there
/// before if there was one. The call got the receiving end exactly if no
/// earlier call had; the registry no longer holds it. The other channel is
/// untouched.
pub open spec fn receiver_handed_out(
    before: ChannelRegistry,
    key: ChannelKey,
    after: ChannelRegistry,
    receiver: Option<ReceiverHandle<Message>>,
) -> bool {
    &&& forall|other: ChannelKey| other != key ==> after.slot(other) == before.slot(other)
    &&& after.slot(key) matches Some(kept) && kept.receiver is None
    &&& match before.slot(key) {
        Some(held) => receiver == held.receiver && after.slot(key).unwrap().sender == held.sender,
        None => receiver is Some,
    }
}

impl ChannelRegistry {
    /// What the registry keeps for `key`; `None` as long as the channel has
    /// not been made.
    pub closed spec fn slot(&self, key: ChannelKey) -> Option<ChannelSlot> {
        match key {
            ChannelKey::HostToBackground => self.host_to_background,
            ChannelKey::BackgroundToHost => self.background_to_host,
        }
    }

    /// Whether the channel of `key` has been made.
    pub open spec fn is_created(&self, key: ChannelKey) -> bool {
        self.slot(key) is Some
    }

    /// Whether the receiving end of `key` has been handed out.
    pub open spec fn receiver_taken(&self, key: ChannelKey) -> bool {
        self.slot(key) matches Some(kept) && kept.receiver is None
    }

    /// A registry in which no channel has been made yet.
    pub fn new() -> (registry: ChannelRegistry)
        ensures
            forall|key: ChannelKey| #[trigger] registry.slot(key) is None,
    {
        ChannelRegistry { host_to_background: None, background_to_host: None }
    }

    /// Takes what is kept for `key` out of the registry.
    fn detach(&mut self, key: ChannelKey) -> (held: Option<ChannelSlot>)
        ensures
            held == old(self).slot(key),
            final(self).slot(key) is None,
            forall|other: ChannelKey| other != key ==> final(self).slot(other) == old(self).slot(other),
    {
        match key {
            ChannelKey::HostToBackground => self.host_to_background.take(),
            ChannelKey::BackgroundToHost => self.background_to_host.take(),
        }
    }

    /// Puts `slot` into the registry as what is kept for `key`.
    fn attach(&mut self, key: ChannelKey, slot: ChannelSlot)
        ensures
            final(self).slot(key) == Some(slot),
            forall|other: ChannelKey| other != key ==> final(self).slot(other) == old(self).slot(other),
    {
        match key {
            ChannelKey::HostToBackground => {
                self.host_to_background = Some(slot);
            },
            ChannelKey::BackgroundToHost => {
                self.background_to_host = Some(slot);
            },
        }
    }

    /// A sending end of the channel of `key`. The channel is made by the
    /// first call that names it, here or of [`Self::take_receiver`], and
    /// stays the same channel from then on.
    ///
    /// Only the sending end is handed out, as often as it is asked for. The
    /// receiving end of a channel that is made here waits in the registry for
    /// the one caller of [`Self::take_receiver`] that is to consume it.
    pub fn get_or_create_channel(&mut self, key: ChannelKey) -> (sender: SenderHandle<Message>)
        ensures
            channel_ensured(*old(self), key, *final(self), sender),
    {
        let slot = match self.detach(key) {
            Some(slot) => slot,
            None => {
                let (sender, receiver) = channel();
                ChannelSlot { sender, receiver: Some(receiver) }
            },
        };
        let sender = slot.sender.duplicate();
        self.attach(key, slot);
        sender
    }

    /// The receiving end of the channel of `key`, for the one caller that is
    /// to consume it. The channel is made if it is not there. A second call
    /// gets `None`: the end has been handed out, so a consumer is running.
    pub fn take_receiver(&mut self, key: ChannelKey) -> (receiver: Option<ReceiverHandle<Message>>)
        ensures
            receiver_handed_out(*old(self), key, *final(self), receiver),
    {
        let (sender, receiver) = match self.detach(key) {
            Some(slot) => (slot.sender, slot.receiver),
            None => {
                let (sender, receiver) = channel();
                (sender, Some(receiver))
            },
        };
        self.attach(key, ChannelSlot { sender, receiver: None });
        receiver
    }

    /// A sending end of the channel of `key`, if the channel has been made.
    pub fn sender(&self, key: ChannelKey) -> (sender: Option<SenderHandle<Message>>)
        ensures
            sender == (match self.slot(key) {
                Some(kept) => Some(kept.sender),
                None => None::<SenderHandle<Message>>,
            }),
    {
        let held = match key {
            ChannelKey::HostToBackground => &self.host_to_background,
            ChannelKey::BackgroundToHost => &self.background_to_host,
        };
        match held {
            Some(slot) => Some(slot.sender.duplicate()),
            None => None,
        }
    }

    /// Accepts a payload for sending to the background consumer, without
    /// sending it.
    ///
    /// `read` is what reading the payload text came to: the message, or
    /// `None` where the text is no message. A text that is no message is an
    /// invalid payload, whatever the state of the channels. A message is
    /// accepted only if the channel from host to background has been made;
    /// otherwise the channel counts as closed.
    pub fn prepare_emit(&self, read: Option<Message>) -> (result: Result<PendingSend, BridgeError>)
        ensures
            match result {
                Ok(pending) => read == Some(pending.message) && self.slot(
                    ChannelKey::HostToBackground,
                ) is Some && self.slot(ChannelKey::HostToBackground).unwrap().sender
                    == pending.sender,
                Err(BridgeError::InvalidPayload) => read is None,
                Err(BridgeError::ChannelClosed) => read is Some && !self.is_created(
                    ChannelKey::HostToBackground,
                ),
                Err(_) => false,
            },
    {
        let message = match read {
            Some(message) => message,
            None => {
                return Err(BridgeError::InvalidPayload);
            },
        };
        match self.sender(ChannelKey::HostToBackground) {
            Some(sender) => Ok(PendingSend { sender, message }),
            None => Err(BridgeError::ChannelClosed),
        }
    }

    /// Sends a payload to the background consumer.
    ///
    /// `read` is what reading the payload text came to: the message, or
    /// `None` where the text is no message. A text that is no message is an
    /// invalid payload, and nothing is sent. Where the channel from host to
    /// background has not been made, the channel counts as closed, and
    /// nothing is sent. Otherwise the message is sent, which fails only if
    /// the consumer's end is gone.
    pub fn emit(&self, read: Option<Message>) -> (result: Result<(), BridgeError>)
        ensures
            read is None ==> result == Err::<(), BridgeError>(BridgeError::InvalidPayload),
            read is Some && !self.is_created(ChannelKey::HostToBackground) ==> result == Err::<
                (),
                BridgeError,
            >(BridgeError::ChannelClosed),
            read is Some && self.is_created(ChannelKey::HostToBackground) ==> result == Ok::<
                (),
                BridgeError,
            >(()) || result == Err::<(), BridgeError>(BridgeError::ChannelClosed),
    {
        match self.prepare_emit(read) {
            Ok(pending) => pending.deliver(),
            Err(error) => Err(error),
        }
    }
}

impl PendingSend {
    /// Sends the message. The only failure is a closed channel.
    pub fn deliver(self) -> (result: Result<(), BridgeError>)
        ensures
            result == Ok::<(), BridgeError>(()) || result == Err::<(), BridgeError>(
                BridgeError::ChannelClosed,
            ),
    {
        self.sender.send(self.message)
    }
}

/// The receiving end of a channel is handed out at most once: of two calls
/// in sequence that ask for it, the first gets it, provided that no call
/// before had, and the second gets nothing.
pub proof fn lemma_receiver_handed_out_once(
    start: ChannelRegistry,
    between: ChannelRegistry,
    end: ChannelRegistry,
    key: ChannelKey,
    first: Option<ReceiverHandle<Message>>,
    second: Option<ReceiverHandle<Message>>,
)
    requires
        !start.receiver_taken(key),
        receiver_handed_out(start, key, between, first),
        receiver_handed_out(between, key, end, second),
    ensures
        first is Some,
        second is None,
        end.receiver_taken(key),
{
}

/// Once the receiving end of a channel has been handed out, it stays so,
/// whichever end of whichever channel is asked for next, and no later call
/// gets it.
pub proof fn lemma_taken_receiver_stays_taken(
    before: ChannelRegistry,
    after: ChannelRegistry,
    asked: ChannelKey,
    key: ChannelKey,
    sender: SenderHandle<Message>,
    receiver: Option<ReceiverHandle<Message>>,
)
    requires
        before.receiver_taken(key),
        channel_ensured(before, asked, after, sender) || receiver_handed_out(
            before,
            asked,
            after,
            receiver,
        ),
    ensures
        after.receiver_taken(key),
        receiver_handed_out(before, key, after, receiver) ==> receiver is None,
{
}

/// Asking for the sending end never uses up the receiving end: a receiving
/// end that had not been handed out before is still to be had afterwards.
pub proof fn lemma_sender_leaves_receiver(
    start: ChannelRegistry,
    between: ChannelRegistry,
    end: ChannelRegistry,
    key: ChannelKey,
    sender: SenderHandle<Message>,
    receiver: Option<ReceiverHandle<Message>>,
)
    requires
        !start.receiver_taken(key),
        channel_ensured(start, key, between, sender),
        receiver_handed_out(between, key, end, receiver),
    ensures
        receiver is Some,
        end.slot(key) matches Some(kept) && kept.sender == sender,
{
}

} // verus!
