//! The channels between the command side and the control side.
//!
//! Channels are the one thing the two sides share. Verus sees none of what
//! goes on inside them, so every item here is taken on trust, and none of
//! them claims anything about what the other side does.

use crossbeam_channel::TrySendError;
use vstd::prelude::*;

verus! {

/// The sending half of a `crossbeam_channel` channel, carried as it is.
#[verifier::external_type_specification]
#[verifier::external_body]
#[verifier::reject_recursive_types(T)]
pub struct ExQueueSender<T>(crossbeam_channel::Sender<T>);

/// The sending half of a channel of the standard library, carried as it is.
#[verifier::external_type_specification]
#[verifier::external_body]
#[verifier::reject_recursive_types(T)]
pub struct ExSignalSender<T>(std::sync::mpsc::Sender<T>);

/// The receiving half of a channel of the standard library, carried as it is.
#[verifier::external_type_specification]
#[verifier::external_body]
#[verifier::reject_recursive_types(T)]
pub struct ExSignalReceiver<T>(std::sync::mpsc::Receiver<T>);

/// What became of a message handed to a channel.
#[derive(Clone, Copy, Debug, PartialEq, Eq, Structural)]
pub enum Delivery {
    Sent,
    /// The channel had no room; the message is lost.
    Full,
    /// The receiving side is gone.
    Disconnected,
}

/// `std::sync::mpsc::channel` makes a new channel and gives its two halves.
/// Nothing is claimed of them.
pub assume_specification<T>[ std::sync::mpsc::channel::<T> ]() -> (std::sync::mpsc::Sender<T>, std::sync::mpsc::Receiver<T>)
;

/// Hands a message to the channel through `crossbeam_channel::Sender::try_send`,
/// which never blocks, and tells its three outcomes apart. Which of them
/// comes back depends on the channel and its receiver: nothing is claimed of
/// it.
#[verifier::external_body]
pub(crate) fn offer<T>(channel: &crossbeam_channel::Sender<T>, message: T) -> (delivery: Delivery) {
    match channel.try_send(message) {
        Ok(_) => Delivery::Sent,
        Err(TrySendError::Full(_)) => Delivery::Full,
        Err(TrySendError::Disconnected(_)) => Delivery::Disconnected,
    }
}

/// Sends `true` through `std::sync::mpsc::Sender::send`, which never blocks,
/// and says whether the channel took it; it does not where the receiver is
/// gone. Nothing is claimed of the answer.
#[verifier::external_body]
pub(crate) fn signal(token: &std::sync::mpsc::Sender<bool>) -> (taken: bool) {
    match token.send(true) {
        Ok(_) => true,
        Err(_) => false,
    }
}

/// Looks for a message with `std::sync::mpsc::Receiver::try_recv`, which
/// takes one if one waits and never blocks; an empty channel and one without
/// a sender both give `None`. What waits on the channel is for the sender to
/// say: nothing is claimed of the result.
#[verifier::external_body]
pub(crate) fn poll(channel: &std::sync::mpsc::Receiver<bool>) -> (message: Option<bool>) {
    channel.try_recv().ok()
}

} // verus!
