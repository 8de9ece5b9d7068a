//! The order intake boundary: what the core answers to an order and to a
//! balance query, whatever transport carries them.

use vstd::prelude::*;
use vstd::string::StringExecFns;
use crate::decimal::{Decimal, DecimalValue};
use crate::domain::errors::{DomainError, DomainResult};
use crate::domain::models::{
    fresh_id,
    id_text,
    order_flaw,
    InternalOrder,
    ID_TEXT_LENGTH,
    OrderSide,
    OrderStatus,
    OrderType,
};
use crate::risk::engine::RiskEngine;

verus! {

/// An order as it arrives from a satellite.
#[derive(Debug, Clone)]
pub struct OrderRequest {
    pub symbol: String,
    pub side: OrderSide,
    pub order_type: OrderType,
    pub quantity: Decimal,
    pub price: Option<Decimal>,
}

impl OrderRequest {
    /// A market order, as a client sends it: the type is
    /// [`OrderType::Market`] whatever price comes with it.
    pub fn market(symbol: String, side: OrderSide, quantity: Decimal, price: Option<Decimal>) -> (request:
        OrderRequest)
        ensures
            request.symbol == symbol,
            request.side == side,
            request.order_type == OrderType::Market,
            request.quantity == quantity,
            request.price == price,
    {
        OrderRequest { symbol, side, order_type: OrderType::Market, quantity, price }
    }
}

impl OrderRequest {
    /// The order that this request asks for, as the risk engine takes it,
    /// under the risk score given; refused as
    /// [`DomainError::InvalidOrder`] where an amount is unsound.
    pub fn into_order(self, risk_score: Decimal) -> (r: DomainResult<InternalOrder>)
        ensures
            match r {
                Ok(order) => {
                    &&& order.wf()
                    &&& order.symbol == self.symbol
                    &&& order.side == self.side
                    &&& order.quantity == self.quantity
                    &&& order.price == self.price
                    &&& order.risk_score == risk_score
                },
                Err(DomainError::InvalidOrder(detail)) => order_flaw(
                    self.quantity@,
                    match self.price {
                        Some(p) => Some(p@),
                        None => None,
                    },
                    risk_score@,
                ) == Some(detail@),
                Err(_) => false,
            },
    {
        InternalOrder::new(self.symbol, self.side, self.quantity, self.price, risk_score)
    }
}

/// What the core answers to an order.
#[derive(Debug, Clone)]
pub struct OrderResponse {
    pub success: bool,
    pub order_id: String,
    pub message: String,
    pub status: OrderStatus,
}

/// What the core answers to a balance query.
#[derive(Debug, Clone, Copy)]
pub struct BalanceResponse {
    pub available: Decimal,
    pub locked: Decimal,
    pub total: Decimal,
}

/// The intake service.
pub struct GrpcServer;

impl GrpcServer {
    /// The acknowledgement of an order under the identifier `order_id`:
    /// received, and pending.
    pub fn acknowledge(order_id: String) -> (response: OrderResponse)
        ensures
            response.success,
            response.order_id == order_id,
            response.message@ == "Order received"@,
            response.status == OrderStatus::Pending,
    {
        OrderResponse {
            success: true,
            order_id,
            message: String::from_str("Order received"),
            status: OrderStatus::Pending,
        }
    }

    /// Answers an order: acknowledged under a fresh identifier, pending.
    /// The identifier is written in 36 characters; which one it is, is not
    /// known before the call.
    pub fn place_order(&self, request: &OrderRequest) -> (response: OrderResponse)
        ensures
            response.success,
            response.order_id@.len() == ID_TEXT_LENGTH,
            response.message@ == "Order received"@,
            response.status == OrderStatus::Pending,
    {
        GrpcServer::acknowledge(id_text(&fresh_id()))
    }

    /// The answer to a balance query for a balance of `available`: nothing
    /// is locked, so the total is what is available.
    pub fn balance_of(available: Decimal) -> (response: BalanceResponse)
        ensures
            response.available == available,
            response.locked@ == DecimalValue::zero(),
            response.total == available,
    {
        BalanceResponse { available, locked: Decimal::zero(), total: available }
    }

    /// Answers a balance query from the engine's balance as read at this moment.
    pub fn get_balance(&self, engine: &RiskEngine) -> (response: BalanceResponse)
        ensures
            response.total == response.available,
            response.locked@ == DecimalValue::zero(),
            response.available@.scale == 2,
            i64::MIN <= response.available@.mantissa <= i64::MAX,
    {
        GrpcServer::balance_of(engine.get_balance())
    }
}

} // verus!
