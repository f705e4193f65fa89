//! The channel by which a running session is told to stop.
use tokio::sync::mpsc::error::TrySendError;
use tokio::sync::mpsc::{channel, Receiver, Sender};
use vstd::prelude::*;

verus! {

/// The sending half of a channel.
#[verifier::external_type_specification]
#[verifier::external_body]
#[verifier::reject_recursive_types(T)]
pub struct ExSender<T>(tokio::sync::mpsc::Sender<T>);

/// The receiving half of a channel.
#[verifier::external_type_specification]
#[verifier::external_body]
#[verifier::reject_recursive_types(T)]
pub struct ExReceiver<T>(tokio::sync::mpsc::Receiver<T>);

/// A message that could not be sent.
#[verifier::external_type_specification]
#[verifier::external_body]
#[verifier::reject_recursive_types(T)]
pub struct ExTrySendError<T>(tokio::sync::mpsc::error::TrySendError<T>);

/// `tokio::sync::mpsc::channel`, which makes a channel that holds `buffer` messages. It panics on
/// a buffer of no messages and on one of more than `usize::MAX >> 3`. What the two halves do later
/// depends on what is sent and received in between; of that nothing is claimed.
pub assume_specification<T>[ tokio::sync::mpsc::channel::<T> ](buffer: usize) -> (halves: (
    tokio::sync::mpsc::Sender<T>,
    tokio::sync::mpsc::Receiver<T>,
))
    requires
        0 < buffer <= usize::MAX / 8,
;

/// The two values are the halves of one channel that holds a single message.
pub open spec fn stop_halves(sender: Sender<()>, receiver: Receiver<()>) -> bool {
    call_ensures(channel::<()>, (1usize,), (sender, receiver))
}

/// The end of a channel from which a session is told to stop.
pub struct StopSender {
    sender: Sender<()>,
    outcomes: Ghost<Seq<bool>>,
}

/// [`StopSender`] over mathematical values: the channel, and for each signal that was ever sent
/// over it, in order, whether the channel took it.
#[verifier::ext_equal]
pub struct StopLine {
    pub channel: Sender<()>,
    pub outcomes: Seq<bool>,
}

impl StopLine {
    /// A channel over which nothing was sent yet.
    pub open spec fn unused(channel: Sender<()>) -> StopLine {
        StopLine { channel, outcomes: Seq::empty() }
    }

    /// The channel after one more signal, which it took or did not take.
    pub open spec fn signalled(self, taken: bool) -> StopLine {
        StopLine { outcomes: self.outcomes.push(taken), ..self }
    }
}

impl View for StopSender {
    type V = StopLine;

    closed spec fn view(&self) -> StopLine {
        StopLine { channel: self.sender, outcomes: self.outcomes@ }
    }
}

impl StopSender {
    /// Calls `tokio::sync::mpsc::Sender::try_send`, which sends a message without waiting. The
    /// claim is that one signal is sent over the channel at hand, and that its outcome is the one
    /// returned. Whether the channel takes it depends on the receiving half and on what it still
    /// holds; of that nothing is claimed.
    #[verifier::external_body]
    pub(crate) fn send(&mut self) -> (sent: Result<(), TrySendError<()>>)
        ensures
            final(self)@ == old(self)@.signalled(sent is Ok),
    {
        self.sender.try_send(())
    }
}

/// A channel that holds a single stop signal.
pub fn stop_channel() -> (halves: (StopSender, Receiver<()>))
    ensures
        stop_halves(halves.0@.channel, halves.1),
        halves.0@ == StopLine::unused(halves.0@.channel),
{
    let (sender, receiver) = channel::<()>(1);
    (StopSender { sender, outcomes: Ghost(Seq::empty()) }, receiver)
}

} // verus!
