//! Keys and replies of the store that holds balances and latest prices.

use vstd::prelude::*;
use vstd::string::StringExecFns;
use crate::decimal::parse::parse_decimal;
use crate::decimal::{Decimal, DecimalValue};

verus! {

/// The key under which the balance in `currency` is kept.
pub fn balance_key(currency: &str) -> (key: String)
    ensures
        key@ == "balance:"@ + currency@,
{
    String::from_str("balance:").concat(currency)
}

/// The key under which the latest price of `symbol` is kept.
pub fn price_key(symbol: &str) -> (key: String)
    ensures
        key@ == "price:"@ + symbol@,
{
    String::from_str("price:").concat(symbol)
}

/// The amount that a reply of the store writes: `None` where there is no
/// reply or it writes no decimal.
pub open spec fn amount_in(reply: Option<Seq<char>>) -> Option<DecimalValue> {
    match reply {
        Some(text) => parse_decimal(text),
        None => None,
    }
}

/// The latest price in a reply of the store, if it holds one.
pub fn price_from_reply(reply: Option<&str>) -> (price: Option<Decimal>)
    ensures
        match price {
            Some(amount) => amount_in(
                match reply {
                    Some(text) => Some(text@),
                    None => None,
                },
            ) == Some(amount@),
            None => amount_in(
                match reply {
                    Some(text) => Some(text@),
                    None => None,
                },
            ) is None,
        },
{
    match reply {
        Some(text) => Decimal::parse(text),
        None => None,
    }
}

/// The balance in a reply of the store; zero where it holds none.
pub fn balance_from_reply(reply: Option<&str>) -> (balance: Decimal)
    ensures
        balance@ == match amount_in(
            match reply {
                Some(text) => Some(text@),
                None => None,
            },
        ) {
            Some(amount) => amount,
            None => DecimalValue::zero(),
        },
{
    match price_from_reply(reply) {
        Some(amount) => amount,
        None => Decimal::zero(),
    }
}

} // verus!
