//! Market ticks and orders.

use vstd::prelude::*;
use vstd::string::StringExecFns;
use crate::decimal::{Decimal, DecimalValue};
use crate::domain::errors::{DomainError, DomainResult};

verus! {

/// `uuid::Uuid`, carried through as an opaque identifier.
#[verifier::external_type_specification]
#[verifier::external_body]
pub struct ExUuid(uuid::Uuid);

/// `Clone::clone` of `uuid::Uuid`: the copy is the identifier itself.
pub assume_specification[ <uuid::Uuid as Clone>::clone ](id: &uuid::Uuid) -> (copy: uuid::Uuid)
    ensures
        copy == *id,
;

/// `uuid::Uuid::new_v4`: a fresh random identifier. Nothing is claimed of it.
#[verifier::external_body]
pub(crate) fn fresh_id() -> uuid::Uuid {
    uuid::Uuid::new_v4()
}

/// The number of characters in the text of an identifier: 32 digits in
/// five groups, with a hyphen between neighbours.
pub const ID_TEXT_LENGTH: usize = 36;

/// `ToString::to_string` of `uuid::Uuid`: the identifier written out in the
/// crate's hyphenated form, which is 36 characters long whatever the
/// identifier. Nothing else is claimed of the text.
#[verifier::external_body]
pub(crate) fn id_text(id: &uuid::Uuid) -> (text: String)
    ensures
        text@.len() == ID_TEXT_LENGTH,
{
    id.to_string()
}

/// Supported exchanges.
#[derive(Debug, Clone, Copy, PartialEq, Eq, Structural)]
pub enum Exchange {
    Binance,
    OKX,
    Kraken,
}

impl Exchange {
    /// The name of the exchange.
    pub open spec fn spec_name(self) -> Seq<char> {
        match self {
            Exchange::Binance => "Binance"@,
            Exchange::OKX => "OKX"@,
            Exchange::Kraken => "Kraken"@,
        }
    }

    /// The name of the exchange.
    pub fn name(&self) -> (name: &'static str)
        ensures
            name@ == self.spec_name(),
    {
        match self {
            Exchange::Binance => "Binance",
            Exchange::OKX => "OKX",
            Exchange::Kraken => "Kraken",
        }
    }
}

/// One price and volume observation for a symbol, from one exchange.
#[derive(Debug, Clone)]
pub struct MarketTick {
    pub id: uuid::Uuid,
    pub symbol: String,
    pub price: Decimal,
    pub volume: Decimal,
    /// Milliseconds since the Unix epoch, UTC.
    pub timestamp: i64,
    pub exchange: Exchange,
}

#[derive(Debug, Clone, Copy, PartialEq, Eq, Structural)]
pub enum OrderSide {
    Buy,
    Sell,
}

#[derive(Debug, Clone, Copy, PartialEq, Eq, Structural)]
pub enum OrderType {
    Market,
    Limit,
}

#[derive(Debug, Clone, Copy, PartialEq, Eq, Structural)]
pub enum OrderStatus {
    Pending,
    Approved,
    Rejected,
    Executed,
    Cancelled,
}

/// A trading order as the platform records it.
#[derive(Debug, Clone)]
pub struct Order {
    pub id: uuid::Uuid,
    pub symbol: String,
    pub side: OrderSide,
    pub order_type: OrderType,
    pub quantity: Decimal,
    pub price: Option<Decimal>,
    pub status: OrderStatus,
    /// Milliseconds since the Unix epoch, UTC.
    pub created_at: i64,
}

/// An order as a strategy hands it to the risk engine.
#[derive(Debug, Clone)]
pub struct InternalOrder {
    pub symbol: String,
    pub side: OrderSide,
    pub quantity: Decimal,
    /// The limit price; `None` for a market order.
    pub price: Option<Decimal>,
    pub risk_score: Decimal,
}

impl MarketTick {
    /// The price is above zero and the volume is not below it.
    pub open spec fn wf(self) -> bool {
        &&& self.price@.mantissa > 0
        &&& self.volume@.mantissa >= 0
    }
}

/// What is wrong with the amounts of an order, if anything: the first of a
/// quantity that is not above zero, a limit price that is not above zero,
/// and a risk score below zero.
pub open spec fn order_flaw(
    quantity: DecimalValue,
    price: Option<DecimalValue>,
    risk_score: DecimalValue,
) -> Option<Seq<char>> {
    if quantity.mantissa <= 0 {
        Some("quantity must be above zero"@)
    } else if price is Some && price->0.mantissa <= 0 {
        Some("price must be above zero"@)
    } else if risk_score.mantissa < 0 {
        Some("risk score must not be below zero"@)
    } else {
        None
    }
}

impl InternalOrder {
    /// The quantity and the limit price, if any, are above zero, and the
    /// risk score is not below it.
    pub open spec fn wf(self) -> bool {
        order_flaw(
            self.quantity@,
            match self.price {
                Some(p) => Some(p@),
                None => None,
            },
            self.risk_score@,
        ) is None
    }

    /// An order with sound amounts; one with an unsound amount is refused
    /// as [`DomainError::InvalidOrder`], with what is wrong.
    pub fn new(
        symbol: String,
        side: OrderSide,
        quantity: Decimal,
        price: Option<Decimal>,
        risk_score: Decimal,
    ) -> (r: DomainResult<InternalOrder>)
        ensures
            match r {
                Ok(order) => {
                    &&& order.wf()
                    &&& order.symbol == symbol
                    &&& order.side == side
                    &&& order.quantity == quantity
                    &&& order.price == price
                    &&& order.risk_score == risk_score
                },
                Err(DomainError::InvalidOrder(detail)) => order_flaw(
                    quantity@,
                    match price {
                        Some(p) => Some(p@),
                        None => None,
                    },
                    risk_score@,
                ) == Some(detail@),
                Err(_) => false,
            },
    {
        if !quantity.is_positive() {
            return Err(DomainError::InvalidOrder(String::from_str("quantity must be above zero")));
        }
        match &price {
            Some(limit) => {
                if !limit.is_positive() {
                    return Err(
                        DomainError::InvalidOrder(String::from_str("price must be above zero")),
                    );
                }
            },
            None => {},
        }
        if risk_score.is_negative() {
            return Err(
                DomainError::InvalidOrder(String::from_str("risk score must not be below zero")),
            );
        }
        Ok(InternalOrder { symbol, side, quantity, price, risk_score })
    }
}

} // verus!
