//! Events and the channel that carries them to the consumer.
//!
//! Producers and the consumer share one bounded channel that buffers a
//! single event. A producer that finds the buffer occupied waits; the
//! consumer polls and never waits.

use vstd::prelude::*;
use tokio::sync::mpsc::{error::TryRecvError, Receiver, Sender};
use crate::color::Color;

verus! {

/// Number of events that the channel buffers.
pub const CHANNEL_CAPACITY: usize = 1;

/// What the ingestion hands to the consumer.
#[derive(Clone, Debug, PartialEq, Eq)]
pub enum Event {
    /// A chat viewer asked for a ball of this colour.
    Ball { color: Color },
    /// A captured frame, normalised to RGBA.
    CameraFeed { frame: Vec<u8> },
}

/// An event as a mathematical value.
pub enum EventView {
    Ball { color: Color },
    CameraFeed { frame: Seq<u8> },
}

impl View for Event {
    type V = EventView;

    open spec fn view(&self) -> EventView {
        match *self {
            Event::Ball { color } => EventView::Ball { color },
            Event::CameraFeed { frame } => EventView::CameraFeed { frame: frame@ },
        }
    }
}

/// `tokio::sync::mpsc::Receiver`, the receiving end of a bounded channel.
/// Nothing is known of what it holds.
#[verifier::external_type_specification]
#[verifier::external_body]
#[verifier::reject_recursive_types(T)]
pub struct ExReceiver<T>(Receiver<T>);

/// `tokio::sync::mpsc::Sender`, the sending end of a bounded channel.
/// Nothing is known of what it holds.
#[verifier::external_type_specification]
#[verifier::external_body]
#[verifier::reject_recursive_types(T)]
pub struct ExSender<T>(Sender<T>);

/// The buffer size that the channel behind `receiver` was made with. It stays
/// the same for as long as the channel lives.
pub uninterp spec fn buffer_bound(receiver: Receiver<Event>) -> nat;

/// `tokio::sync::mpsc::channel`: makes a channel that buffers `bound`
/// messages and returns its two ends. The call panics on a bound of zero and
/// on one above an eighth of `usize::MAX`, which the precondition leaves out.
/// The receiving end reports the bound it was made with.
#[verifier::external_body]
fn bounded_channel(bound: usize) -> (ends: (Sender<Event>, Receiver<Event>))
    requires
        0 < bound <= usize::MAX / 8,
    ensures
        buffer_bound(ends.1) == bound,
{
    tokio::sync::mpsc::channel(bound)
}

/// `tokio::sync::mpsc::Receiver::try_recv`: takes the next buffered message
/// if there is one, without waiting, and fails where there is none. Which
/// of the two happens depends on the senders, so nothing is claimed of the
/// outcome; the channel keeps its bound.
#[verifier::external_body]
fn receiver_try_recv(receiver: &mut Receiver<Event>) -> (polled: Result<Event, TryRecvError>)
    ensures
        buffer_bound(*final(receiver)) == buffer_bound(*old(receiver)),
{
    receiver.try_recv()
}

/// `tokio::sync::mpsc::Receiver::max_capacity`: the bound that the channel
/// was made with.
#[verifier::external_body]
fn receiver_max_capacity(receiver: &Receiver<Event>) -> (bound: usize)
    ensures
        bound == buffer_bound(*receiver),
{
    receiver.max_capacity()
}

/// The consumer's end of the event channel.
pub struct EventReceiver {
    receiver: Receiver<Event>,
}

impl EventReceiver {
    /// Number of events that the channel behind this end buffers at most.
    pub closed spec fn bound(&self) -> nat {
        buffer_bound(self.receiver)
    }

    /// Number of events that the channel buffers at most.
    pub fn capacity(&self) -> (bound: usize)
        ensures
            bound == self.bound(),
    {
        receiver_max_capacity(&self.receiver)
    }

    /// Polls the channel: hands out the buffered event if a producer has
    /// sent one, `None` otherwise. Never waits. The channel is not resized.
    pub fn try_recv(&mut self) -> (event: Option<Event>)
        ensures
            final(self).bound() == old(self).bound(),
    {
        polled_event(receiver_try_recv(&mut self.receiver))
    }
}

/// `tokio::sync::mpsc::error::TryRecvError`, the reason why a poll found no
/// message: the channel is empty, or empty and without senders.
#[verifier::external_type_specification]
#[verifier::external_body]
pub struct ExTryRecvError(TryRecvError);

/// What the consumer gets out of a poll of the channel: the message that the
/// poll found, and `None` where it found none, whatever the reason.
pub fn polled_event(polled: Result<Event, TryRecvError>) -> (event: Option<Event>)
    ensures
        event == match polled {
            Ok(found) => Some(found),
            Err(_) => None::<Event>,
        },
{
    match polled {
        Ok(found) => Some(found),
        Err(_) => None,
    }
}

/// Makes the event channel, which buffers a single event, and returns the
/// consumer's end together with the end that producers send through.
pub fn create_receiver() -> (ends: (EventReceiver, Sender<Event>))
    ensures
        ends.0.bound() == CHANNEL_CAPACITY,
{
    let (sender, receiver) = bounded_channel(CHANNEL_CAPACITY);
    (EventReceiver { receiver }, sender)
}

} // verus!
