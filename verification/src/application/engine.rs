//! The orchestrator: it owns the bus and the order channel, and rules on
//! every order that arrives before it is allowed to go on to execution.
//!
//! The event loop itself waits on the channel and belongs to the caller. It
//! reports each thing that happened as an [`EngineEvent`]; [`step`] answers
//! with the next phase and what to do.

use vstd::prelude::*;
use crate::application::bus;
use crate::application::bus::MarketDataBus;
use crate::application::orders;
use crate::application::orders::{OrderChannel, OrderPoll, DEFAULT_ORDER_CAPACITY};
use crate::domain::errors::{DomainError, DomainResult};
use crate::domain::models::{InternalOrder, MarketTick};
use crate::risk::engine::RiskEngine;
use crate::risk::rules::{assess, reports};

verus! {

/// Where the event loop stands.
#[derive(Debug, Clone, Copy, PartialEq, Eq, Structural)]
pub enum EnginePhase {
    /// Orders are taken in, validated, and forwarded or rejected.
    Running,
    /// The intake is closed; what is still queued is validated as before.
    Draining,
    /// The channel is closed and empty: the loop has ended.
    Stopped,
}

/// What the event loop saw.
#[derive(Debug, Clone)]
pub enum EngineEvent {
    /// An order came out of the channel.
    Order(InternalOrder),
    /// The channel reported that no producer is left and nothing is queued.
    ChannelClosed,
    /// Shutdown was requested from outside.
    Cancelled,
}

/// What the event loop has to do next.
#[derive(Debug, Clone)]
pub enum EngineAction {
    /// Hand the order to execution, then wait for the next event.
    Forward(InternalOrder),
    /// Drop the order for the given reason, then wait for the next event.
    Reject(InternalOrder, DomainError),
    /// Close the intake of the channel, then wait for the next event.
    CloseIntake,
    /// Wait for the next event.
    Wait,
    /// Leave the loop.
    Exit,
}

/// What kind of event it was, without its payload.
#[derive(Debug, Clone, Copy, PartialEq, Eq, Structural)]
pub enum EventKind {
    Order,
    ChannelClosed,
    Cancelled,
}

/// What kind of action it is, without its payload.
#[derive(Debug, Clone, Copy, PartialEq, Eq, Structural)]
pub enum ActionKind {
    Forward,
    Reject,
    CloseIntake,
    Wait,
    Exit,
}

impl EngineEvent {
    /// The kind of this event.
    pub open spec fn kind(self) -> EventKind {
        match self {
            EngineEvent::Order(_) => EventKind::Order,
            EngineEvent::ChannelClosed => EventKind::ChannelClosed,
            EngineEvent::Cancelled => EventKind::Cancelled,
        }
    }
}

impl EngineAction {
    /// The kind of this action.
    pub open spec fn kind(self) -> ActionKind {
        match self {
            EngineAction::Forward(_) => ActionKind::Forward,
            EngineAction::Reject(_, _) => ActionKind::Reject,
            EngineAction::CloseIntake => ActionKind::CloseIntake,
            EngineAction::Wait => ActionKind::Wait,
            EngineAction::Exit => ActionKind::Exit,
        }
    }
}

/// The phase that follows `phase` on an event of kind `event`.
///
/// An order never changes the phase. A cancellation starts the draining. The
/// closure of the channel ends the loop, and nothing restarts it.
pub open spec fn next_phase(phase: EnginePhase, event: EventKind) -> EnginePhase {
    match (phase, event) {
        (EnginePhase::Stopped, _) => EnginePhase::Stopped,
        (_, EventKind::ChannelClosed) => EnginePhase::Stopped,
        (_, EventKind::Cancelled) => EnginePhase::Draining,
        (_, EventKind::Order) => phase,
    }
}

/// The kind of action that answers an event of kind `event` in `phase`,
/// given whether the order, if it is one, passed validation.
pub open spec fn next_action(phase: EnginePhase, event: EventKind, accepted: bool) -> ActionKind {
    match (phase, event) {
        (EnginePhase::Stopped, _) => ActionKind::Exit,
        (_, EventKind::ChannelClosed) => ActionKind::Exit,
        (EnginePhase::Running, EventKind::Cancelled) => ActionKind::CloseIntake,
        (EnginePhase::Draining, EventKind::Cancelled) => ActionKind::Wait,
        (_, EventKind::Order) => if accepted {
            ActionKind::Forward
        } else {
            ActionKind::Reject
        },
    }
}

/// Answers an event whose order, if it is one, was ruled on with `ruling`.
///
/// An accepted order is forwarded and a refused one rejected with the
/// ruling's reason, in the running phase as in the draining one. Once the
/// loop has stopped every event is answered with [`EngineAction::Exit`].
pub fn plan(phase: EnginePhase, event: EngineEvent, ruling: DomainResult<()>) -> (next: (
    EnginePhase,
    EngineAction,
))
    ensures
        next.0 == next_phase(phase, event.kind()),
        next.1.kind() == next_action(phase, event.kind(), ruling is Ok),
        next.1 matches EngineAction::Forward(order) ==> event == EngineEvent::Order(order),
        next.1 matches EngineAction::Reject(order, reason) ==> event == EngineEvent::Order(order)
            && ruling == Err::<(), DomainError>(reason),
{
    match phase {
        EnginePhase::Stopped => (EnginePhase::Stopped, EngineAction::Exit),
        _ => match event {
            EngineEvent::ChannelClosed => (EnginePhase::Stopped, EngineAction::Exit),
            EngineEvent::Cancelled => match phase {
                EnginePhase::Running => (EnginePhase::Draining, EngineAction::CloseIntake),
                _ => (EnginePhase::Draining, EngineAction::Wait),
            },
            EngineEvent::Order(order) => match ruling {
                Ok(()) => (phase, EngineAction::Forward(order)),
                Err(reason) => (phase, EngineAction::Reject(order, reason)),
            },
        },
    }
}

/// Answers an event: an order is ruled on by `risk` against its counters as
/// read at this moment, and the answer is that of [`plan`].
pub fn step(phase: EnginePhase, event: EngineEvent, risk: &RiskEngine) -> (next: (
    EnginePhase,
    EngineAction,
))
    ensures
        next.0 == next_phase(phase, event.kind()),
        event.kind() != EventKind::Order ==> next.1.kind() == next_action(
            phase,
            event.kind(),
            true,
        ),
        event.kind() == EventKind::Order && phase != EnginePhase::Stopped ==> next.1.kind()
            == ActionKind::Forward || next.1.kind() == ActionKind::Reject,
        next.1 matches EngineAction::Forward(order) ==> event == EngineEvent::Order(order) && exists|
            balance: i64,
            daily_risk: u64,
        |
            #[trigger] assess(balance as int, daily_risk as int, risk.ceiling(), order) is Accepted,
        next.1 matches EngineAction::Reject(order, reason) ==> event == EngineEvent::Order(order)
            && exists|balance: i64, daily_risk: u64|
            reports(
                Err::<(), DomainError>(reason),
                #[trigger] assess(balance as int, daily_risk as int, risk.ceiling(), order),
            ),
{
    let ruling: DomainResult<()> = match &event {
        EngineEvent::Order(order) => risk.validate_order(order),
        _ => Ok(()),
    };
    plan(phase, event, ruling)
}

/// The loop never restarts: from the stopped phase every event leads to the
/// stopped phase and to the exit.
pub proof fn law_stopped_is_final(event: EventKind, accepted: bool)
    ensures
        next_phase(EnginePhase::Stopped, event) == EnginePhase::Stopped,
        next_action(EnginePhase::Stopped, event, accepted) == ActionKind::Exit,
{
}

/// The loop ends on the closure of the channel and on nothing else: a phase
/// other than the stopped one is left for it exactly on that event.
pub proof fn law_exit_on_closure_only(phase: EnginePhase, event: EventKind, accepted: bool)
    requires
        phase != EnginePhase::Stopped,
    ensures
        next_phase(phase, event) == EnginePhase::Stopped <==> event == EventKind::ChannelClosed,
        next_action(phase, event, accepted) == ActionKind::Exit <==> event
            == EventKind::ChannelClosed,
{
}

/// Every order that arrives before the loop has stopped is either forwarded
/// or rejected, according to its ruling alone, and leaves the phase as it was.
pub proof fn law_every_order_is_ruled_on(phase: EnginePhase, accepted: bool)
    requires
        phase != EnginePhase::Stopped,
    ensures
        next_phase(phase, EventKind::Order) == phase,
        next_action(phase, EventKind::Order, accepted) == if accepted {
            ActionKind::Forward
        } else {
            ActionKind::Reject
        },
{
}

/// The event that a look at the order channel amounts to: the order found,
/// the closure of the channel, or none while it is merely empty.
pub fn event_of(poll: OrderPoll) -> (event: Option<EngineEvent>)
    ensures
        event == match poll {
            OrderPoll::Order(order) => Some(EngineEvent::Order(order)),
            OrderPoll::Empty => None,
            OrderPoll::Disconnected => Some(EngineEvent::ChannelClosed),
        },
{
    match poll {
        OrderPoll::Order(order) => Some(EngineEvent::Order(order)),
        OrderPoll::Empty => None,
        OrderPoll::Disconnected => Some(EngineEvent::ChannelClosed),
    }
}

/// The orchestrator's channels.
pub struct TradingEngine {
    bus: MarketDataBus,
    orders: OrderChannel,
}

impl TradingEngine {
    /// The market-data bus of this engine.
    pub closed spec fn market_data(self) -> MarketDataBus {
        self.bus
    }

    /// The order channel of this engine.
    pub closed spec fn order_channel(self) -> OrderChannel {
        self.orders
    }

    /// An engine with a bus and an order channel of the default capacities:
    /// 1024 ticks on the bus for each subscriber, and
    /// [`DEFAULT_ORDER_CAPACITY`] pending orders.
    pub fn new() -> (engine: TradingEngine)
        ensures
            engine.market_data().capacity() == 1024,
            engine.order_channel().wf(),
            engine.order_channel().capacity() == DEFAULT_ORDER_CAPACITY,
    {
        TradingEngine {
            bus: MarketDataBus::with_default_capacity(),
            orders: OrderChannel::with_default_capacity(),
        }
    }

    /// Returns a subscriber to market data: a receiving handle on the
    /// engine's bus.
    pub fn subscribe_market_data(&self) -> (rx: tokio::sync::broadcast::Receiver<MarketTick>)
        ensures
            bus::receiver_capacity(rx) == self.market_data().capacity(),
    {
        self.bus.subscribe().into_receiver()
    }

    /// Returns a publishing handle for market data, one per feed handler: a
    /// handle on the engine's bus.
    pub fn market_data_sender(&self) -> (tx: tokio::sync::broadcast::Sender<MarketTick>)
        ensures
            bus::sender_capacity(tx) == self.market_data().capacity(),
    {
        self.bus.sender()
    }

    /// Returns a sender for orders: a copy of the producer's handle that the
    /// engine's order channel keeps.
    pub fn get_order_sender(&self) -> (tx: tokio::sync::mpsc::Sender<InternalOrder>)
        ensures
            orders::sender_capacity(tx) == orders::sender_capacity(
                self.order_channel().producer(),
            ),
            self.order_channel().wf() ==> orders::sender_capacity(tx)
                == self.order_channel().capacity(),
    {
        self.orders.sender()
    }

    /// Looks for the next event on the order channel without waiting; `None`
    /// where nothing is pending and producers are still there. What is
    /// found is an order or the closure of the channel, never a
    /// cancellation. The engine keeps its channels.
    pub fn poll_event(&mut self) -> (event: Option<EngineEvent>)
        ensures
            event matches Some(found) ==> found is Order || found is ChannelClosed,
            final(self).market_data() == old(self).market_data(),
            final(self).order_channel().capacity() == old(self).order_channel().capacity(),
            final(self).order_channel().producer() == old(self).order_channel().producer(),
            old(self).order_channel().wf() ==> final(self).order_channel().wf(),
    {
        event_of(self.orders.poll())
    }

    /// Stops the intake of orders, as [`EngineAction::CloseIntake`] asks.
    /// The engine keeps its channels.
    pub fn close_intake(&mut self)
        ensures
            final(self).market_data() == old(self).market_data(),
            final(self).order_channel().capacity() == old(self).order_channel().capacity(),
            final(self).order_channel().producer() == old(self).order_channel().producer(),
            old(self).order_channel().wf() ==> final(self).order_channel().wf(),
    {
        self.orders.close();
    }

    /// Gives up the engine for the consuming end of its order channel, for a
    /// loop that waits on it.
    pub fn into_order_receiver(self) -> (rx: tokio::sync::mpsc::Receiver<InternalOrder>)
        ensures
            rx == self.order_channel().consumer(),
    {
        self.orders.into_receiver()
    }
}

impl Default for TradingEngine {
    fn default() -> (engine: TradingEngine)
        ensures
            engine.market_data().capacity() == 1024,
            engine.order_channel().wf(),
            engine.order_channel().capacity() == DEFAULT_ORDER_CAPACITY,
    {
        TradingEngine::new()
    }
}

} // verus!
