//! The update bus: a bounded broadcast of register updates that never holds
//! a publisher back. It is a `tokio` broadcast channel; a subscriber that
//! falls behind loses the oldest updates and is told how many.

use crate::api::RegisterUpdate;
use vstd::prelude::*;

verus! {

#[verifier::external_type_specification]
#[verifier::external_body]
#[verifier::reject_recursive_types(T)]
pub struct ExSender<T>(tokio::sync::broadcast::Sender<T>);

#[verifier::external_type_specification]
#[verifier::external_body]
#[verifier::reject_recursive_types(T)]
pub struct ExReceiver<T>(tokio::sync::broadcast::Receiver<T>);

/// Largest capacity a bus can be made with. The channel allocates room for
/// its whole capacity when it is made, so the limit is kept well below what
/// the channel itself would accept.
pub const MAX_CAPACITY: usize = 1_048_576;

/// What a subscriber finds when it looks at the bus.
#[derive(Debug)]
pub enum BusEvent {
    /// The next update.
    Update(RegisterUpdate),
    /// The subscriber fell behind and this many updates were dropped; the
    /// oldest update still held comes next.
    Lagged(u64),
    /// Nothing is waiting.
    Empty,
    /// Every publisher is gone and nothing is waiting.
    Closed,
}

/// The publishing side of the bus.
pub struct UpdateBus {
    pub sender: tokio::sync::broadcast::Sender<RegisterUpdate>,
}

/// One subscriber's place on the bus.
pub struct Subscription {
    pub receiver: tokio::sync::broadcast::Receiver<RegisterUpdate>,
}

/// Calls `tokio::sync::broadcast::channel` and keeps the sender; the receiver
/// that comes with it is dropped, so the bus starts without subscribers.
///
/// Trusted: nothing is claimed of the result. The call panics for a capacity
/// of zero or above half of `usize::MAX`, and it allocates the whole buffer;
/// `requires` admits neither case.
#[verifier::external_body]
fn open_channel(capacity: usize) -> (sender: tokio::sync::broadcast::Sender<RegisterUpdate>)
    requires
        0 < capacity <= MAX_CAPACITY,
{
    let (sender, _) = tokio::sync::broadcast::channel(capacity);
    sender
}

/// Calls `Sender::send`. The result is the number of subscribers the update
/// was queued for, or `None` where there is no subscriber and the update was
/// dropped.
///
/// Trusted: nothing is claimed of the result, which depends on who is
/// subscribed at the time.
#[verifier::external_body]
fn send_update(sender: &tokio::sync::broadcast::Sender<RegisterUpdate>, update: RegisterUpdate) -> (queued_for:
    Option<usize>) {
    match sender.send(update) {
        Ok(subscribers) => Some(subscribers),
        Err(_) => None,
    }
}

/// Calls `Sender::subscribe`.
///
/// Trusted: nothing is claimed of the result. The call panics only where
/// the channel already has a quarter of `usize::MAX` receivers, which is
/// more than memory holds.
#[verifier::external_body]
fn subscribe_to(sender: &tokio::sync::broadcast::Sender<RegisterUpdate>) -> (receiver:
    tokio::sync::broadcast::Receiver<RegisterUpdate>) {
    sender.subscribe()
}

/// Calls `Receiver::try_recv` and tells its four outcomes apart.
///
/// Trusted: nothing is claimed of the result, which depends on what was
/// published meanwhile.
#[verifier::external_body]
fn try_receive(receiver: &mut tokio::sync::broadcast::Receiver<RegisterUpdate>) -> (event: BusEvent) {
    match receiver.try_recv() {
        Ok(update) => BusEvent::Update(update),
        Err(tokio::sync::broadcast::error::TryRecvError::Lagged(missed)) => BusEvent::Lagged(missed),
        Err(tokio::sync::broadcast::error::TryRecvError::Empty) => BusEvent::Empty,
        Err(tokio::sync::broadcast::error::TryRecvError::Closed) => BusEvent::Closed,
    }
}

impl UpdateBus {
    /// A bus that holds up to `capacity` updates for each subscriber, or
    /// `None` for a capacity of zero or above `MAX_CAPACITY`.
    pub fn new(capacity: usize) -> (bus: Option<Self>)
        ensures
            bus is Some <==> 0 < capacity <= MAX_CAPACITY,
    {
        if 0 < capacity && capacity <= MAX_CAPACITY {
            Some(UpdateBus { sender: open_channel(capacity) })
        } else {
            None
        }
    }

    /// Publishes an update without waiting. Returns the number of
    /// subscribers it was queued for; zero where nobody is subscribed.
    pub fn publish(&self, update: RegisterUpdate) -> (queued_for: usize) {
        Self::reached(
            // The channel's answer alone decides the count.
            send_update(&self.sender, update),
        )
    }

    /// A new subscriber, which sees the updates published from now on.
    pub fn subscribe(&self) -> (subscription: Subscription) {
        Subscription { receiver: subscribe_to(&self.sender) }
    }
}

impl Subscription {
    /// Looks at the bus without waiting.
    pub fn poll(&mut self) -> (event: BusEvent) {
        try_receive(&mut self.receiver)
    }
}

impl UpdateBus {
    /// The number of subscribers that a send reached, from what the channel
    /// answered: the number it queued the update for, or zero where it had
    /// no subscriber and dropped the update.
    pub fn reached(sent: Option<usize>) -> (queued_for: usize)
        ensures
            queued_for == match sent {
                Some(subscribers) => subscribers,
                None => 0,
            },
    {
        match sent {
            Some(subscribers) => subscribers,
            None => 0,
        }
    }
}

} // verus!
