use async_channel::{Receiver, Sender};
use vstd::prelude::*;

use crate::event::NodeEvent;

verus! {

#[verifier::external_type_specification]
#[verifier::external_body]
#[verifier::reject_recursive_types(T)]
pub struct ExSender<T>(async_channel::Sender<T>);

#[verifier::external_type_specification]
#[verifier::external_body]
#[verifier::reject_recursive_types(T)]
pub struct ExReceiver<T>(async_channel::Receiver<T>);

/// What came of offering an event to one consumer.
#[derive(Clone, Copy, Debug, PartialEq, Eq, Structural)]
pub enum Delivery {
    /// The event was queued.
    Sent,
    /// The consumer's queue was full; the event was dropped for it.
    Full,
    /// The consumer is gone.
    Closed,
}

/// The record of one offer: to which channel, which event, and what came
/// of it. Only `offer` makes one.
pub struct Offer {
    outcome: Delivery,
    sender: Ghost<Sender<NodeEvent>>,
    event: Ghost<NodeEvent>,
}

impl Offer {
    pub closed spec fn outcome_view(&self) -> Delivery {
        self.outcome
    }

    /// The sending side the event was handed to.
    pub closed spec fn sender_view(&self) -> Sender<NodeEvent> {
        self.sender@
    }

    /// The event that was handed over.
    pub closed spec fn event_view(&self) -> NodeEvent {
        self.event@
    }

    pub fn outcome(&self) -> (r: Delivery)
        ensures
            r == self.outcome_view(),
    {
        self.outcome
    }
}

/// Relies on async_channel::bounded: a new channel whose queue holds at
/// most `capacity` events; it panics on a capacity of zero.
#[verifier::external_body]
pub(crate) fn open_channel(capacity: usize) -> (Sender<NodeEvent>, Receiver<NodeEvent>)
    requires
        capacity > 0,
{
    async_channel::bounded(capacity)
}

/// Relies on async_channel::Sender::try_send: it hands a copy of `event`
/// to `sender` without waiting, and tells a full queue from a closed
/// channel.
#[verifier::external_body]
pub(crate) fn offer(sender: &Sender<NodeEvent>, event: &NodeEvent) -> (r: Offer)
    ensures
        r.sender_view() == *sender,
        r.event_view() == *event,
{
    let outcome = match sender.try_send(event.clone()) {
        Ok(()) => Delivery::Sent,
        Err(async_channel::TrySendError::Full(_)) => Delivery::Full,
        Err(async_channel::TrySendError::Closed(_)) => Delivery::Closed,
    };
    Offer { outcome, sender: Ghost(*sender), event: Ghost(*event) }
}

} // verus!
