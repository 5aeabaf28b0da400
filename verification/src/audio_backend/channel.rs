use crate::audio_backend::chunk::SamplesChunk;
use crossbeam::channel::{bounded, Receiver, Sender, TrySendError};
use vstd::prelude::*;

verus! {

/// The sending side of a channel of crossbeam. What a channel holds changes with
/// what the other side does, so nothing is said of it.
#[verifier::external_type_specification]
#[verifier::external_body]
#[verifier::reject_recursive_types(T)]
pub struct ExSender<T>(Sender<T>);

/// The receiving side of a channel of crossbeam.
#[verifier::external_type_specification]
#[verifier::external_body]
#[verifier::reject_recursive_types(T)]
pub struct ExReceiver<T>(Receiver<T>);

/// How an attempt to send without waiting ended.
#[derive(Clone, Copy, Debug, PartialEq, Eq, Structural)]
pub enum TrySendOutcome {
    /// The channel took the message.
    Sent,
    /// The channel had no room; the message is dropped.
    Full,
    /// Nobody receives from the channel any more; the message is dropped.
    Disconnected,
}

impl TrySendOutcome {
    /// Tells whether nobody receives from the channel any more.
    pub fn is_disconnected(&self) -> (disconnected: bool)
        ensures
            disconnected == (*self == TrySendOutcome::Disconnected),
    {
        match self {
            TrySendOutcome::Disconnected => true,
            _ => false,
        }
    }
}

/// `Sender::try_send` of crossbeam: hands the message to the channel if that takes no
/// waiting. Which of the three outcomes comes back depends on the other side of the
/// channel, so nothing is promised of it.
#[verifier::external_body]
pub(crate) fn try_send<T>(sender: &Sender<T>, message: T) -> (outcome: TrySendOutcome) {
    match sender.try_send(message) {
        Ok(()) => TrySendOutcome::Sent,
        Err(TrySendError::Full(_)) => TrySendOutcome::Full,
        Err(TrySendError::Disconnected(_)) => TrySendOutcome::Disconnected,
    }
}

/// `Receiver::try_recv` of crossbeam: takes a message from the channel if one waits
/// there. Whether one does depends on the other side of the channel, so nothing is
/// promised of the result.
#[verifier::external_body]
pub(crate) fn try_recv<T>(receiver: &Receiver<T>) -> (message: Option<T>) {
    receiver.try_recv().ok()
}

/// Number of chunks that the channel behind a sender was made to hold.
pub uninterp spec fn chunk_channel_capacity(sender: Sender<SamplesChunk>) -> nat;

/// `bounded` of crossbeam: the two sides of a new channel for chunks that holds up to
/// `capacity` of them at a time. Crossbeam refuses capacities that are too large for
/// its counters, which are left out here.
#[verifier::external_body]
pub(crate) fn bounded_chunk_channel(capacity: usize) -> (sides: (
    Sender<SamplesChunk>,
    Receiver<SamplesChunk>,
))
    requires
        capacity < 0x4000_0000,
    ensures
        chunk_channel_capacity(sides.0) == capacity,
{
    bounded(capacity)
}

} // verus!
