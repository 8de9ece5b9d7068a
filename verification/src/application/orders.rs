//! The order channel: many producers, one consumer, bounded.
//!
//! The channel is `tokio::sync::mpsc`. Once it is full a producer has to
//! wait, which keeps orders from piling up ahead of risk validation.

use vstd::prelude::*;
use crate::domain::models::InternalOrder;

verus! {

/// `tokio::sync::mpsc::Sender`, a producer's handle on the channel.
#[verifier::external_type_specification]
#[verifier::external_body]
#[verifier::reject_recursive_types(T)]
pub struct ExOrderSender<T>(tokio::sync::mpsc::Sender<T>);

/// `tokio::sync::mpsc::Receiver`, the consuming end of the channel.
#[verifier::external_type_specification]
#[verifier::external_body]
#[verifier::reject_recursive_types(T)]
pub struct ExOrderReceiver<T>(tokio::sync::mpsc::Receiver<T>);

/// Default capacity of the order channel.
pub const DEFAULT_ORDER_CAPACITY: usize = 100;

/// Largest capacity an order channel can be built with.
pub const MAX_ORDER_CAPACITY: usize = usize::MAX / 8;

/// The number of orders that the channel behind a producer's handle holds:
/// what `tokio::sync::mpsc::Sender::max_capacity` reports. It is fixed when
/// the channel is made.
pub uninterp spec fn sender_capacity(tx: tokio::sync::mpsc::Sender<InternalOrder>) -> nat;

/// The number of orders that the channel behind the consuming end holds:
/// what `tokio::sync::mpsc::Receiver::max_capacity` reports. It is fixed
/// when the channel is made.
pub uninterp spec fn receiver_capacity(rx: tokio::sync::mpsc::Receiver<InternalOrder>) -> nat;

/// What the consumer finds when it looks for the next order without waiting.
#[derive(Debug, Clone)]
pub enum OrderPoll {
    /// The next order in submission order.
    Order(InternalOrder),
    /// Nothing is pending; producers are still there.
    Empty,
    /// Every producer is gone and nothing is pending.
    Disconnected,
}

/// Why an order could not be submitted without waiting; the order comes back.
#[derive(Debug, Clone)]
pub enum Unsent {
    /// The channel is full.
    Full(InternalOrder),
    /// The consumer closed the channel or is gone.
    Closed(InternalOrder),
}

/// `tokio::sync::mpsc::channel`: a channel that holds `capacity` orders;
/// both ends are handles on it. The crate panics outside
/// `1 ..= usize::MAX / 8`.
#[verifier::external_body]
fn open_channel(capacity: usize) -> (ends: (
    tokio::sync::mpsc::Sender<InternalOrder>,
    tokio::sync::mpsc::Receiver<InternalOrder>,
))
    requires
        0 < capacity <= MAX_ORDER_CAPACITY,
    ensures
        sender_capacity(ends.0) == capacity,
        receiver_capacity(ends.1) == capacity,
{
    tokio::sync::mpsc::channel(capacity)
}

/// `Clone::clone` of `tokio::sync::mpsc::Sender`: one more producer's
/// handle on the same channel.
#[verifier::external_body]
fn another_sender(tx: &tokio::sync::mpsc::Sender<InternalOrder>) -> (copy: tokio::sync::mpsc::Sender<
    InternalOrder,
>)
    ensures
        sender_capacity(copy) == sender_capacity(*tx),
{
    tx.clone()
}

/// `tokio::sync::mpsc::Sender::try_send`: the order is queued, or it comes
/// back with the reason.
#[verifier::external_body]
fn try_send(tx: &tokio::sync::mpsc::Sender<InternalOrder>, order: InternalOrder) -> (r: Result<
    (),
    Unsent,
>)
    ensures
        match r {
            Ok(()) => true,
            Err(Unsent::Full(back)) => back == order,
            Err(Unsent::Closed(back)) => back == order,
        },
{
    match tx.try_send(order) {
        Ok(()) => Ok(()),
        Err(tokio::sync::mpsc::error::TrySendError::Full(back)) => Err(Unsent::Full(back)),
        Err(tokio::sync::mpsc::error::TrySendError::Closed(back)) => Err(Unsent::Closed(back)),
    }
}

/// `tokio::sync::mpsc::Receiver::try_recv`, its outcome told apart variant
/// by variant. The end stays on its channel.
#[verifier::external_body]
fn try_receive(rx: &mut tokio::sync::mpsc::Receiver<InternalOrder>) -> (found: OrderPoll)
    ensures
        receiver_capacity(*final(rx)) == receiver_capacity(*old(rx)),
{
    match rx.try_recv() {
        Ok(order) => OrderPoll::Order(order),
        Err(tokio::sync::mpsc::error::TryRecvError::Empty) => OrderPoll::Empty,
        Err(tokio::sync::mpsc::error::TryRecvError::Disconnected) => OrderPoll::Disconnected,
    }
}

/// `tokio::sync::mpsc::Receiver::close`: no further order is taken in; what
/// is queued can still be received. The end stays on its channel.
#[verifier::external_body]
fn close(rx: &mut tokio::sync::mpsc::Receiver<InternalOrder>)
    ensures
        receiver_capacity(*final(rx)) == receiver_capacity(*old(rx)),
{
    rx.close();
}

/// Both ends of the order channel.
pub struct OrderChannel {
    tx: tokio::sync::mpsc::Sender<InternalOrder>,
    rx: tokio::sync::mpsc::Receiver<InternalOrder>,
}

impl OrderChannel {
    /// The producer's handle that this channel keeps for handing out copies.
    pub closed spec fn producer(self) -> tokio::sync::mpsc::Sender<InternalOrder> {
        self.tx
    }

    /// The consuming end.
    pub closed spec fn consumer(self) -> tokio::sync::mpsc::Receiver<InternalOrder> {
        self.rx
    }

    /// Both ends report one capacity, as the two ends of one channel do.
    /// It holds of every channel that [`OrderChannel::new`] or
    /// [`OrderChannel::with_default_capacity`] made, and no operation ends it.
    pub open spec fn wf(self) -> bool {
        sender_capacity(self.producer()) == receiver_capacity(self.consumer())
    }

    /// The number of pending orders that the channel holds before a
    /// producer has to wait.
    pub open spec fn capacity(self) -> nat {
        receiver_capacity(self.consumer())
    }

    /// A channel that holds `capacity` pending orders; `None` for a capacity
    /// of zero or above [`MAX_ORDER_CAPACITY`].
    pub fn new(capacity: usize) -> (channel: Option<OrderChannel>)
        ensures
            channel is Some <==> 0 < capacity <= MAX_ORDER_CAPACITY,
            channel matches Some(made) ==> made.wf() && made.capacity() == capacity,
    {
        if 0 < capacity && capacity <= MAX_ORDER_CAPACITY {
            let (tx, rx) = open_channel(capacity);
            Some(OrderChannel { tx, rx })
        } else {
            None
        }
    }

    /// A channel of the default capacity, [`DEFAULT_ORDER_CAPACITY`].
    pub fn with_default_capacity() -> (channel: OrderChannel)
        ensures
            channel.wf(),
            channel.capacity() == DEFAULT_ORDER_CAPACITY,
    {
        let (tx, rx) = open_channel(DEFAULT_ORDER_CAPACITY);
        OrderChannel { tx, rx }
    }

    /// One more producer's handle on this channel: a copy of the one it keeps.
    pub fn sender(&self) -> (tx: tokio::sync::mpsc::Sender<InternalOrder>)
        ensures
            sender_capacity(tx) == sender_capacity(self.producer()),
            self.wf() ==> sender_capacity(tx) == self.capacity(),
    {
        another_sender(&self.tx)
    }

    /// Looks for the next order without waiting. The channel stays the one
    /// it was.
    pub fn poll(&mut self) -> (found: OrderPoll)
        ensures
            final(self).capacity() == old(self).capacity(),
            final(self).producer() == old(self).producer(),
            old(self).wf() ==> final(self).wf(),
    {
        try_receive(&mut self.rx)
    }

    /// Stops the intake: producers are refused from now on, and what is
    /// queued can still be received. The channel stays the one it was.
    pub fn close(&mut self)
        ensures
            final(self).capacity() == old(self).capacity(),
            final(self).producer() == old(self).producer(),
            old(self).wf() ==> final(self).wf(),
    {
        close(&mut self.rx);
    }

    /// The consuming end, for a caller that waits on it. The channel's own
    /// producer handle is given up, so the end reports closure once every
    /// handle handed out is gone.
    pub fn into_receiver(self) -> (rx: tokio::sync::mpsc::Receiver<InternalOrder>)
        ensures
            rx == self.consumer(),
    {
        self.rx
    }
}

/// Submits an order without waiting; where the channel is full or closed the
/// order comes back with the reason.
pub fn submit(tx: &tokio::sync::mpsc::Sender<InternalOrder>, order: InternalOrder) -> (r: Result<
    (),
    Unsent,
>)
    ensures
        match r {
            Ok(()) => true,
            Err(Unsent::Full(back)) => back == order,
            Err(Unsent::Closed(back)) => back == order,
        },
{
    try_send(tx, order)
}

} // verus!
