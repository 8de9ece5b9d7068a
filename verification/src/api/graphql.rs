//! The values that the gateway's queries and mutations answer with.

use vstd::prelude::*;
use vstd::string::StringExecFns;
use crate::decimal::Decimal;

verus! {

/// An order as a client of the gateway places it.
#[derive(Debug, Clone)]
pub struct PlaceOrderInput {
    pub symbol: String,
    /// `BUY` or `SELL`.
    pub side: String,
    pub quantity: Decimal,
    pub price: Option<Decimal>,
}

/// What a mutation answers.
#[derive(Debug, Clone)]
pub struct OrderResult {
    pub success: bool,
    pub order_id: String,
    pub message: String,
}

/// One observation in the answer to a market-data query.
#[derive(Debug, Clone)]
pub struct MarketDataPoint {
    pub symbol: String,
    pub price: Decimal,
    pub volume: Decimal,
    pub timestamp: String,
}

impl OrderResult {
    /// The answer to an order placed under the identifier `order_id`.
    pub fn placed(order_id: String) -> (result: OrderResult)
        ensures
            result.success,
            result.order_id == order_id,
            result.message@ == "Order placed successfully"@,
    {
        OrderResult { success: true, order_id, message: String::from_str("Order placed successfully") }
    }

    /// The answer to the cancellation of the order `order_id`.
    pub fn cancelled(order_id: String) -> (result: OrderResult)
        ensures
            result.success,
            result.order_id == order_id,
            result.message@ == "Order cancelled"@,
    {
        OrderResult { success: true, order_id, message: String::from_str("Order cancelled") }
    }
}

/// The answer to a health check.
pub fn health() -> (status: String)
    ensures
        status@ == "OK"@,
{
    String::from_str("OK")
}

} // verus!
