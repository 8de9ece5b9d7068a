//! Orders as the trading domain tracks them.

use vstd::prelude::*;
use crate::domain::models::fresh_id;
use crate::dominio::value_objects::{Instrument, Price, Quantity};

verus! {

#[derive(Debug, Clone, Copy, PartialEq, Eq, Hash)]
pub struct OrderId(pub uuid::Uuid);

#[derive(Debug, Clone, Copy, PartialEq, Eq, Structural)]
pub enum OrderSide {
    Buy,
    Sell,
}

#[derive(Debug, Clone, Copy, PartialEq, Eq, Structural)]
pub enum OrderStatus {
    New,
    PartiallyFilled,
    Filled,
    Canceled,
    Rejected,
}

#[derive(Debug, Clone)]
pub struct Order {
    pub id: OrderId,
    pub instrument: Instrument,
    pub side: OrderSide,
    pub quantity: Quantity,
    pub price: Price,
    pub status: OrderStatus,
}

impl Order {
    /// A new order under the identifier `id`.
    pub fn with_id(
        id: OrderId,
        instrument: Instrument,
        side: OrderSide,
        quantity: Quantity,
        price: Price,
    ) -> (order: Order)
        ensures
            order.id == id,
            order.instrument == instrument,
            order.side == side,
            order.quantity == quantity,
            order.price == price,
            order.status == OrderStatus::New,
    {
        Order { id, instrument, side, quantity, price, status: OrderStatus::New }
    }

    /// A new order under a fresh random identifier.
    pub fn new(instrument: Instrument, side: OrderSide, quantity: Quantity, price: Price) -> (order:
        Order)
        ensures
            order.instrument == instrument,
            order.side == side,
            order.quantity == quantity,
            order.price == price,
            order.status == OrderStatus::New,
    {
        Order::with_id(OrderId(fresh_id()), instrument, side, quantity, price)
    }

    pub fn mark_filled(&mut self)
        ensures
            final(self).status == OrderStatus::Filled,
            final(self).id == old(self).id,
            final(self).instrument == old(self).instrument,
            final(self).side == old(self).side,
            final(self).quantity == old(self).quantity,
            final(self).price == old(self).price,
    {
        self.status = OrderStatus::Filled;
    }
}

} // verus!
