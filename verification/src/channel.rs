//! The two ends of a channel, as handles that can be shared across threads.
//!
//! A channel is unbounded and keeps the order in which one producer sent.
//! The queue itself is crossbeam's; nothing is known here of what it holds
//! at a given moment, since other threads fill and drain it. What is stated
//! is how each outcome of a send or a receive is reported.

use crate::error::BridgeError;
use std::sync::Arc;
use vstd::prelude::*;

verus! {

/// `crossbeam_channel::Sender`, carried as a value of which nothing is
/// known.
#[verifier::external_type_specification]
#[verifier::external_body]
#[verifier::reject_recursive_types(T)]
pub struct ExSender<T>(crossbeam_channel::Sender<T>);

/// `crossbeam_channel::Receiver`, carried as a value of which nothing is
/// known.
#[verifier::external_type_specification]
#[verifier::external_body]
#[verifier::reject_recursive_types(T)]
pub struct ExReceiver<T>(crossbeam_channel::Receiver<T>);

/// What a look into a channel found.
#[derive(Debug, Clone, PartialEq, Eq)]
pub enum Polled<T> {
    /// The next message.
    Ready(T),
    /// No message is waiting, but one may still come.
    Empty,
    /// No message is waiting and every sender is gone.
    Closed,
}

/// `crossbeam_channel::unbounded`: the two ends of a new channel.
#[verifier::external_body]
fn unbounded<T>() -> (ends: (crossbeam_channel::Sender<T>, crossbeam_channel::Receiver<T>)) {
    crossbeam_channel::unbounded()
}

/// `crossbeam_channel::Sender::send`. On a channel without a bound it does
/// not wait. It fails only where every receiver is gone, and then hands the
/// message back.
#[verifier::external_body]
fn send<T>(sender: &crossbeam_channel::Sender<T>, message: T) -> (sent: Result<(), T>)
    ensures
        sent matches Err(returned) ==> returned == message,
{
    sender.send(message).map_err(|error| error.0)
}

/// `crossbeam_channel::Receiver::try_recv`: the next message if one is
/// waiting; it never blocks.
#[verifier::external_body]
fn try_recv<T>(receiver: &crossbeam_channel::Receiver<T>) -> (polled: Polled<T>) {
    match receiver.try_recv() {
        Ok(message) => Polled::Ready(message),
        Err(crossbeam_channel::TryRecvError::Empty) => Polled::Empty,
        Err(crossbeam_channel::TryRecvError::Disconnected) => Polled::Closed,
    }
}

/// `crossbeam_channel::Receiver::recv`: blocks the calling thread until a
/// message arrives, or until the channel is empty and every sender is gone,
/// which gives `None`. There is no timeout.
#[verifier::external_body]
fn recv<T>(receiver: &crossbeam_channel::Receiver<T>) -> (next: Option<T>) {
    receiver.recv().ok()
}

/// std's `Arc::clone`: another pointer to the same value.
#[verifier::external_body]
fn share<T>(pointer: &Arc<T>) -> (shared: Arc<T>)
    ensures
        shared == *pointer,
{
    Arc::clone(pointer)
}

/// How a send is reported: a message that came back undelivered means that
/// the channel is closed.
pub open spec fn delivery_for<T>(sent: Result<(), T>) -> Result<(), BridgeError> {
    match sent {
        Ok(_) => Ok(()),
        Err(_) => Err(BridgeError::ChannelClosed),
    }
}

/// What a non-blocking receive hands out after a look into the channel: the
/// message that was ready, and nothing otherwise.
pub open spec fn message_for<T>(polled: Polled<T>) -> Option<T> {
    match polled {
        Polled::Ready(message) => Some(message),
        Polled::Empty => None,
        Polled::Closed => None,
    }
}

/// Reports a send: a message that came back undelivered means that the
/// channel is closed.
pub fn report_delivery<T>(sent: Result<(), T>) -> (result: Result<(), BridgeError>)
    ensures
        result == delivery_for(sent),
{
    match sent {
        Ok(_) => Ok(()),
        Err(_) => Err(BridgeError::ChannelClosed),
    }
}

/// The message that a look into the channel found ready, if any.
pub fn ready_message<T>(polled: Polled<T>) -> (message: Option<T>)
    ensures
        message == message_for(polled),
{
    match polled {
        Polled::Ready(message) => Some(message),
        Polled::Empty => None,
        Polled::Closed => None,
    }
}

/// The sending end of a channel. It may be duplicated and handed to any
/// number of producers.
#[verifier::reject_recursive_types(T)]
pub struct SenderHandle<T> {
    tx: Arc<crossbeam_channel::Sender<T>>,
}

/// The receiving end of a channel.
#[verifier::reject_recursive_types(T)]
pub struct ReceiverHandle<T> {
    rx: Arc<crossbeam_channel::Receiver<T>>,
}

impl<T> SenderHandle<T> {
    /// Sends a message and does not wait for anyone to take it. The only
    /// failure is a closed channel: every receiver is gone.
    pub fn send(&self, message: T) -> (result: Result<(), BridgeError>)
        ensures
            result == Ok::<(), BridgeError>(()) || result == Err::<(), BridgeError>(
                BridgeError::ChannelClosed,
            ),
    {
        report_delivery(send(&self.tx, message))
    }

    /// Another handle on the same sending end.
    pub fn duplicate(&self) -> (handle: SenderHandle<T>)
        ensures
            handle == *self,
    {
        SenderHandle { tx: share(&self.tx) }
    }
}

impl<T> ReceiverHandle<T> {
    /// Takes the next message if one is waiting, without blocking.
    pub fn poll(&self) -> (polled: Polled<T>) {
        try_recv(&self.rx)
    }

    /// Takes the next message if one is waiting, without blocking; `None`
    /// where none is waiting, whether or not the channel is closed.
    pub fn recv(&self) -> (message: Option<T>) {
        ready_message(try_recv(&self.rx))
    }

    /// Waits for the next message. `None` means that the channel is closed:
    /// it is empty and every sender is gone. The calling thread is blocked
    /// for as long as neither happens.
    pub fn recv_blocking(&self) -> (message: Option<T>) {
        recv(&self.rx)
    }

    /// Another handle on the same receiving end.
    pub fn duplicate(&self) -> (handle: ReceiverHandle<T>)
        ensures
            handle == *self,
    {
        ReceiverHandle { rx: share(&self.rx) }
    }
}

/// A new channel without a bound, as its two handles.
pub fn channel<T>() -> (ends: (SenderHandle<T>, ReceiverHandle<T>)) {
    let (tx, rx) = unbounded();
    (SenderHandle { tx: Arc::new(tx) }, ReceiverHandle { rx: Arc::new(rx) })
}

} // verus!
