//! The market-data bus: one broadcast channel, many independent subscribers.
//!
//! The channel is `tokio::sync::broadcast`. A publisher never waits: a
//! subscriber that falls behind by more than the capacity loses the oldest
//! ticks it has not read and is told how many. A subscriber sees only what
//! was published after it subscribed.

use vstd::prelude::*;
use crate::domain::models::MarketTick;

verus! {

/// `tokio::sync::broadcast::Sender`, the publishing half of the channel.
#[verifier::external_type_specification]
#[verifier::external_body]
#[verifier::reject_recursive_types(T)]
pub struct ExBroadcastSender<T>(tokio::sync::broadcast::Sender<T>);

/// `tokio::sync::broadcast::Receiver`, one subscription to the channel.
#[verifier::external_type_specification]
#[verifier::external_body]
#[verifier::reject_recursive_types(T)]
pub struct ExBroadcastReceiver<T>(tokio::sync::broadcast::Receiver<T>);

/// Default capacity of the bus, in ticks.
pub const DEFAULT_BUS_CAPACITY: usize = 1000;

/// Largest capacity a bus can be built with.
pub const MAX_BUS_CAPACITY: usize = usize::MAX / 2;

/// The least power of two that is at least `n`, searched upward from the
/// power of two `p`.
pub open spec fn power_of_two_from(n: nat, p: nat) -> nat
    decreases
            if n > p {
                n - p
            } else {
                0
            },
{
    if p >= n || p == 0 {
        p
    } else {
        power_of_two_from(n, 2 * p)
    }
}

/// The least power of two that is at least `n`: the number of ticks that a
/// channel asked to hold `n` does hold.
pub open spec fn rounded_capacity(n: nat) -> nat {
    power_of_two_from(n, 1)
}

/// The number of ticks that the channel behind a publishing handle holds for
/// each subscriber. It is fixed when the channel is made.
pub uninterp spec fn sender_capacity(tx: tokio::sync::broadcast::Sender<MarketTick>) -> nat;

/// The number of ticks that the channel behind a receiving handle holds for
/// each subscriber. It is fixed when the channel is made.
pub uninterp spec fn receiver_capacity(rx: tokio::sync::broadcast::Receiver<MarketTick>) -> nat;

/// What a subscriber finds when it looks for the next tick without waiting.
#[derive(Debug, Clone)]
pub enum BusPoll {
    /// The next tick in publishing order.
    Tick(MarketTick),
    /// Nothing is pending; publishers are still there.
    Empty,
    /// The subscriber fell behind and lost this many of the oldest ticks.
    Lagged(u64),
    /// Every publisher is gone and nothing is pending.
    Closed,
}

/// `tokio::sync::broadcast::channel`: a channel with its first
/// subscription. The crate rounds the capacity asked for up to a power of
/// two and makes the channel with that many slots; both ends are handles on
/// it. The crate panics outside `1 ..= usize::MAX / 2`.
#[verifier::external_body]
fn open_channel(capacity: usize) -> (ends: (
    tokio::sync::broadcast::Sender<MarketTick>,
    tokio::sync::broadcast::Receiver<MarketTick>,
))
    requires
        0 < capacity <= MAX_BUS_CAPACITY,
    ensures
        sender_capacity(ends.0) == rounded_capacity(capacity as nat),
        receiver_capacity(ends.1) == rounded_capacity(capacity as nat),
{
    tokio::sync::broadcast::channel(capacity)
}

/// `tokio::sync::broadcast::Sender::send`: at least one subscription took
/// the tick, and `Ok` counts them; or there is none, and the tick comes back.
#[verifier::external_body]
fn send(tx: &tokio::sync::broadcast::Sender<MarketTick>, tick: MarketTick) -> (r: Result<
    usize,
    MarketTick,
>)
    ensures
        match r {
            Ok(subscribers) => subscribers >= 1,
            Err(back) => back == tick,
        },
{
    match tx.send(tick) {
        Ok(subscribers) => Ok(subscribers),
        Err(unsent) => Err(unsent.0),
    }
}

/// `tokio::sync::broadcast::Sender::subscribe`: a subscription that starts
/// with the next tick published. It is a handle on the sender's own channel.
#[verifier::external_body]
fn new_subscription(tx: &tokio::sync::broadcast::Sender<MarketTick>) -> (rx:
    tokio::sync::broadcast::Receiver<MarketTick>)
    ensures
        receiver_capacity(rx) == sender_capacity(*tx),
{
    tx.subscribe()
}

/// `Clone::clone` of `tokio::sync::broadcast::Sender`: one more handle on
/// the same channel.
#[verifier::external_body]
fn another_sender(tx: &tokio::sync::broadcast::Sender<MarketTick>) -> (copy:
    tokio::sync::broadcast::Sender<MarketTick>)
    ensures
        sender_capacity(copy) == sender_capacity(*tx),
{
    tx.clone()
}

/// `tokio::sync::broadcast::Receiver::try_recv`, its outcome told apart
/// variant by variant. The handle stays on its channel, and the crate
/// reports a lag only of one tick or more.
#[verifier::external_body]
fn try_receive(rx: &mut tokio::sync::broadcast::Receiver<MarketTick>) -> (found: BusPoll)
    ensures
        receiver_capacity(*final(rx)) == receiver_capacity(*old(rx)),
        found matches BusPoll::Lagged(lost) ==> lost >= 1,
{
    match rx.try_recv() {
        Ok(tick) => BusPoll::Tick(tick),
        Err(tokio::sync::broadcast::error::TryRecvError::Empty) => BusPoll::Empty,
        Err(tokio::sync::broadcast::error::TryRecvError::Lagged(lost)) => BusPoll::Lagged(lost),
        Err(tokio::sync::broadcast::error::TryRecvError::Closed) => BusPoll::Closed,
    }
}

/// How many subscribers a tick reached, given what the channel answered to
/// its sending: the count it gave, or none where the tick came back.
pub fn reached(outcome: Result<usize, MarketTick>) -> (subscribers: usize)
    ensures
        subscribers == match outcome {
            Ok(count) => count,
            Err(_) => 0,
        },
{
    match outcome {
        Ok(count) => count,
        Err(_) => 0,
    }
}

/// The publishing side of the market-data bus.
pub struct MarketDataBus {
    tx: tokio::sync::broadcast::Sender<MarketTick>,
}

impl MarketDataBus {
    /// The publishing handle that this bus holds.
    pub closed spec fn handle(self) -> tokio::sync::broadcast::Sender<MarketTick> {
        self.tx
    }

    /// The number of ticks that this bus holds for each subscriber.
    pub open spec fn capacity(self) -> nat {
        sender_capacity(self.handle())
    }

    /// A bus that holds `capacity` pending ticks per subscriber, rounded up
    /// to a power of two, with no subscriber yet; `None` for a capacity of
    /// zero or above [`MAX_BUS_CAPACITY`].
    pub fn new(capacity: usize) -> (bus: Option<MarketDataBus>)
        ensures
            bus is Some <==> 0 < capacity <= MAX_BUS_CAPACITY,
            bus matches Some(made) ==> made.capacity() == rounded_capacity(capacity as nat),
    {
        if 0 < capacity && capacity <= MAX_BUS_CAPACITY {
            let (tx, _first) = open_channel(capacity);
            Some(MarketDataBus { tx })
        } else {
            None
        }
    }

    /// A bus of the default capacity: asked to hold
    /// [`DEFAULT_BUS_CAPACITY`] ticks, it holds 1024.
    pub fn with_default_capacity() -> (bus: MarketDataBus)
        ensures
            bus.capacity() == rounded_capacity(DEFAULT_BUS_CAPACITY as nat),
            bus.capacity() == 1024,
    {
        proof {
            lemma_default_capacity();
        }
        let (tx, _first) = open_channel(DEFAULT_BUS_CAPACITY);
        MarketDataBus { tx }
    }

    /// The bus behind a publishing handle: it publishes through that handle.
    pub fn from_sender(tx: tokio::sync::broadcast::Sender<MarketTick>) -> (bus: MarketDataBus)
        ensures
            bus.handle() == tx,
    {
        MarketDataBus { tx }
    }

    /// One more publishing handle on the channel of this bus.
    pub fn sender(&self) -> (tx: tokio::sync::broadcast::Sender<MarketTick>)
        ensures
            sender_capacity(tx) == self.capacity(),
    {
        another_sender(&self.tx)
    }

    /// A subscription on the channel of this bus; it receives every tick
    /// published from now on.
    pub fn subscribe(&self) -> (subscription: Subscription)
        ensures
            subscription.capacity() == self.capacity(),
    {
        Subscription { rx: new_subscription(&self.tx) }
    }

    /// Publishes a tick to every current subscriber and returns how many
    /// there were. With no subscriber the tick is dropped and the count is
    /// zero; that is no error.
    pub fn publish(&self, tick: MarketTick) -> (subscribers: usize) {
        reached(send(&self.tx, tick))
    }
}

/// Asked to hold the default number of ticks, a channel holds 1024.
pub proof fn lemma_default_capacity()
    ensures
        rounded_capacity(DEFAULT_BUS_CAPACITY as nat) == 1024,
{
    reveal_with_fuel(power_of_two_from, 12);
}

/// One subscriber's place on the market-data bus.
pub struct Subscription {
    rx: tokio::sync::broadcast::Receiver<MarketTick>,
}

impl Subscription {
    /// The receiving handle that this subscription holds.
    pub closed spec fn handle(self) -> tokio::sync::broadcast::Receiver<MarketTick> {
        self.rx
    }

    /// The number of ticks that the channel holds for this subscriber
    /// before the oldest are lost.
    pub open spec fn capacity(self) -> nat {
        receiver_capacity(self.handle())
    }

    /// The subscription behind a receiving handle: it reads from that handle.
    pub fn from_receiver(rx: tokio::sync::broadcast::Receiver<MarketTick>) -> (subscription:
        Subscription)
        ensures
            subscription.handle() == rx,
    {
        Subscription { rx }
    }

    /// The receiving handle, for a caller that waits on it.
    pub fn into_receiver(self) -> (rx: tokio::sync::broadcast::Receiver<MarketTick>)
        ensures
            rx == self.handle(),
    {
        self.rx
    }

    /// Looks for the next tick without waiting. The subscription stays on
    /// its channel, and a lag is of one tick or more.
    pub fn poll(&mut self) -> (found: BusPoll)
        ensures
            final(self).capacity() == old(self).capacity(),
            found matches BusPoll::Lagged(lost) ==> lost >= 1,
    {
        try_receive(&mut self.rx)
    }
}

} // verus!
