//! Trade messages: from the text of a frame to a trade, and on to a tick.
//!
//! A frame holds `{ "stream": <name>, "data": { "e": <event type>,
//! "s": <symbol>, "p": <price as text>, "q": <quantity as text>,
//! "T": <trade time in milliseconds> } }`. The JSON is read by `serde_json`;
//! which members are looked for, and what they must hold, is decided here.

use vstd::prelude::*;
use vstd::string::StringExecFns;
use crate::adapters::feed_handler::error::{FeedError, FeedResult};
use crate::adapters::feed_handler::json::{
    integer_field,
    integer_under,
    json_document,
    read_json,
    text_field,
    text_under,
    JsonNode,
};
use crate::decimal::parse::parse_decimal;
use crate::decimal::{Decimal, DecimalValue};
use crate::domain::models::{fresh_id, Exchange, MarketTick};

verus! {

/// `chrono::Utc::now` as `timestamp_millis`: the time of the call in
/// milliseconds since the Unix epoch. Nothing is claimed of it.
#[verifier::external_body]
fn now_millis() -> i64 {
    chrono::Utc::now().timestamp_millis()
}

/// The fields of a trade message as the document holds them: each is `None`
/// where it is absent or of another type.
#[derive(Debug, Clone)]
pub struct TradeFields {
    /// `"e"`: the event type.
    pub event_type: Option<String>,
    /// `"s"`: the symbol.
    pub symbol: Option<String>,
    /// `"p"`: the price, as text.
    pub price: Option<String>,
    /// `"q"`: the quantity, as text.
    pub quantity: Option<String>,
    /// `"T"`: the trade time, in milliseconds since the Unix epoch.
    pub trade_time: Option<i64>,
}

/// One trade as an exchange reported it.
#[derive(Debug, Clone)]
pub struct TradeEvent {
    pub event_type: String,
    pub symbol: String,
    pub price: Decimal,
    pub quantity: Decimal,
    pub trade_time: i64,
}

/// What is wrong with the fields of a trade message.
pub enum Fault {
    /// The field of this name is absent or of the wrong type.
    Missing(Seq<char>),
    /// The field of this name does not write a decimal.
    NotNumeric(Seq<char>),
    /// The field of this name holds an amount it may not hold.
    OutOfRange(Seq<char>),
}

impl TradeFields {
    /// The first thing wrong with the fields, in the order they are
    /// examined: presence of `e`, `s`, `p`, `q`, `T`; then the price and the
    /// quantity as decimals; then the price above zero and the quantity not
    /// below it. `None` where nothing is wrong.
    pub open spec fn fault(self) -> Option<Fault> {
        if self.event_type is None {
            Some(Fault::Missing("e"@))
        } else if self.symbol is None {
            Some(Fault::Missing("s"@))
        } else if self.price is None {
            Some(Fault::Missing("p"@))
        } else if self.quantity is None {
            Some(Fault::Missing("q"@))
        } else if self.trade_time is None {
            Some(Fault::Missing("T"@))
        } else if parse_decimal(self.price->0@) is None {
            Some(Fault::NotNumeric("p"@))
        } else if parse_decimal(self.quantity->0@) is None {
            Some(Fault::NotNumeric("q"@))
        } else if parse_decimal(self.price->0@)->0.mantissa <= 0 {
            Some(Fault::OutOfRange("p"@))
        } else if parse_decimal(self.quantity->0@)->0.mantissa < 0 {
            Some(Fault::OutOfRange("q"@))
        } else {
            None
        }
    }
}

impl TradeEvent {
    /// The price is above zero and the quantity is not below it.
    pub open spec fn wf(self) -> bool {
        &&& self.price@.mantissa > 0
        &&& self.quantity@.mantissa >= 0
    }

    /// Whether this trade holds exactly what `fields` hold: the texts as
    /// they are, and the price and quantity as the decimals their texts write.
    pub open spec fn holds(self, fields: TradeFields) -> bool {
        &&& fields.event_type == Some(self.event_type)
        &&& fields.symbol == Some(self.symbol)
        &&& fields.price matches Some(p) && parse_decimal(p@) == Some(self.price@)
        &&& fields.quantity matches Some(q) && parse_decimal(q@) == Some(self.quantity@)
        &&& fields.trade_time == Some(self.trade_time)
    }

    /// The trade that `fields` describe, or what is wrong with them: a
    /// missing field and an amount out of range as
    /// [`FeedError::InvalidData`], text that writes no decimal as
    /// [`FeedError::NumberParseError`], each naming the field.
    pub fn from_fields(fields: TradeFields) -> (r: FeedResult<TradeEvent>)
        ensures
            match r {
                Ok(trade) => fields.fault() is None && trade.holds(fields) && trade.wf(),
                Err(FeedError::InvalidData(detail)) => match fields.fault() {
                    Some(Fault::Missing(name)) => detail@ == "missing field "@ + name,
                    Some(Fault::OutOfRange(name)) => detail@ == "amount out of range in field "@
                        + name,
                    _ => false,
                },
                Err(FeedError::NumberParseError { field }) => fields.fault() == Some(
                    Fault::NotNumeric(field@),
                ),
                Err(_) => false,
            },
    {
        let TradeFields { event_type, symbol, price, quantity, trade_time } = fields;
        let event_type: String = match event_type {
            Some(text) => text,
            None => { return Err(missing("e")); },
        };
        let symbol: String = match symbol {
            Some(text) => text,
            None => { return Err(missing("s")); },
        };
        let price_text: String = match price {
            Some(text) => text,
            None => { return Err(missing("p")); },
        };
        let quantity_text: String = match quantity {
            Some(text) => text,
            None => { return Err(missing("q")); },
        };
        let trade_time: i64 = match trade_time {
            Some(time) => time,
            None => { return Err(missing("T")); },
        };
        let price: Decimal = match Decimal::parse(price_text.as_str()) {
            Some(amount) => amount,
            None => { return Err(FeedError::NumberParseError { field: String::from_str("p") }); },
        };
        let quantity: Decimal = match Decimal::parse(quantity_text.as_str()) {
            Some(amount) => amount,
            None => { return Err(FeedError::NumberParseError { field: String::from_str("q") }); },
        };
        if !price.is_positive() {
            return Err(out_of_range("p"));
        }
        if quantity.is_negative() {
            return Err(out_of_range("q"));
        }
        Ok(TradeEvent { event_type, symbol, price, quantity, trade_time })
    }

    /// The tick for this trade: its symbol, price and quantity as they are,
    /// under the identifier, time and exchange given.
    pub fn into_tick(self, id: uuid::Uuid, timestamp: i64, exchange: Exchange) -> (tick: MarketTick)
        ensures
            tick.id == id,
            tick.symbol == self.symbol,
            tick.price == self.price,
            tick.volume == self.quantity,
            tick.timestamp == timestamp,
            tick.exchange == exchange,
            self.wf() ==> tick.wf(),
    {
        MarketTick {
            id,
            symbol: self.symbol,
            price: self.price,
            volume: self.quantity,
            timestamp,
            exchange,
        }
    }
}

fn missing(name: &str) -> (e: FeedError)
    ensures
        e matches FeedError::InvalidData(detail) && detail@ == "missing field "@ + name@,
{
    FeedError::InvalidData(String::from_str("missing field ").concat(name))
}

fn out_of_range(name: &str) -> (e: FeedError)
    ensures
        e matches FeedError::InvalidData(detail) && detail@ == "amount out of range in field "@
            + name@,
{
    FeedError::InvalidData(String::from_str("amount out of range in field ").concat(name))
}

/// A price and a quantity written as valid numeric text come through
/// unchanged: the trade built from the fields, and the tick built from the
/// trade, hold exactly the decimals that the two texts write.
pub proof fn law_amounts_survive(
    fields: TradeFields,
    trade: TradeEvent,
    tick: MarketTick,
    price: DecimalValue,
    quantity: DecimalValue,
)
    requires
        fields.price matches Some(p) && parse_decimal(p@) == Some(price),
        fields.quantity matches Some(q) && parse_decimal(q@) == Some(quantity),
        trade.holds(fields),
        tick.price == trade.price,
        tick.volume == trade.quantity,
    ensures
        trade.price@ == price,
        trade.quantity@ == quantity,
        tick.price@ == price,
        tick.volume@ == quantity,
{
}

/// Fields give a trade exactly when every one of them is present, both
/// amounts are numeric text, the price is above zero and the quantity is not
/// below it.
pub proof fn law_sound_fields_give_a_trade(fields: TradeFields)
    ensures
        fields.fault() is None <==> {
            &&& fields.event_type is Some
            &&& fields.symbol is Some
            &&& fields.trade_time is Some
            &&& fields.price matches Some(p) && parse_decimal(p@) matches Some(price)
                && price.mantissa > 0
            &&& fields.quantity matches Some(q) && parse_decimal(q@) matches Some(quantity)
                && quantity.mantissa >= 0
        },
{
}

/// What a frame's text amounts to, before its amounts are looked at.
pub enum Reading {
    /// The text is no JSON.
    NotJson,
    /// The document has no `"stream"` member that is a text.
    NoStream,
    /// The document has no `"data"` member.
    NoData,
    /// The fields of the trade under `"data"`.
    Fields(TradeFields),
}

/// The fields that the object `data` holds under `e`, `s`, `p`, `q` and
/// `T`: each is `None` where it is absent or of another type.
pub open spec fn fields_in(data: JsonNode) -> TradeFields {
    TradeFields {
        event_type: text_under(data, "e"@),
        symbol: text_under(data, "s"@),
        price: text_under(data, "p"@),
        quantity: text_under(data, "q"@),
        trade_time: integer_under(data, "T"@),
    }
}

/// What the text of a frame amounts to. The document is what `serde_json`
/// reads from the text; the stream name is looked for first, then the data.
pub open spec fn reading(text: Seq<char>) -> Reading {
    match json_document(text) {
        None => Reading::NotJson,
        Some(document) => if text_under(document, "stream"@) is None {
            Reading::NoStream
        } else if document.spec_member("data"@) is None {
            Reading::NoData
        } else {
            Reading::Fields(fields_in(document.spec_member("data"@)->0))
        },
    }
}

/// Why the text of a frame gives no trade.
pub enum Refusal {
    /// The text is no JSON.
    NotJson,
    /// The document is one, and this is wrong with it.
    Faulty(Fault),
}

/// Why `text` gives no trade; `None` where it gives one.
pub open spec fn refusal(text: Seq<char>) -> Option<Refusal> {
    match reading(text) {
        Reading::NotJson => Some(Refusal::NotJson),
        Reading::NoStream => Some(Refusal::Faulty(Fault::Missing("stream"@))),
        Reading::NoData => Some(Refusal::Faulty(Fault::Missing("data"@))),
        Reading::Fields(fields) => match fields.fault() {
            Some(fault) => Some(Refusal::Faulty(fault)),
            None => None,
        },
    }
}

/// The fields that a trade read from `text` holds.
pub open spec fn fields_of(text: Seq<char>) -> TradeFields {
    match reading(text) {
        Reading::Fields(fields) => fields,
        _ => arbitrary(),
    }
}

/// Whether the error `e` reports the fault `fault`: a missing field and an
/// amount out of range as [`FeedError::InvalidData`], text that writes no
/// decimal as [`FeedError::NumberParseError`], each naming the field.
pub open spec fn reports_fault(e: FeedError, fault: Fault) -> bool {
    match fault {
        Fault::Missing(name) => e matches FeedError::InvalidData(detail) && detail@
            == "missing field "@ + name,
        Fault::OutOfRange(name) => e matches FeedError::InvalidData(detail) && detail@
            == "amount out of range in field "@ + name,
        Fault::NotNumeric(name) => e matches FeedError::NumberParseError { field } && field@
            == name,
    }
}

/// Whether the error `e` reports the refusal `why`: text that is no JSON as
/// [`FeedError::ParseError`], and a fault as [`reports_fault`] says.
pub open spec fn reports_refusal(e: FeedError, why: Refusal) -> bool {
    match why {
        Refusal::NotJson => e is ParseError,
        Refusal::Faulty(fault) => reports_fault(e, fault),
    }
}

/// Whether `tick` holds the symbol of `fields` as it is, and as its price
/// and volume the decimals that the price and quantity texts write.
pub open spec fn tick_holds(tick: MarketTick, fields: TradeFields) -> bool {
    &&& fields.symbol == Some(tick.symbol)
    &&& fields.price matches Some(p) && parse_decimal(p@) == Some(tick.price@)
    &&& fields.quantity matches Some(q) && parse_decimal(q@) == Some(tick.volume@)
}

/// Reads the fields of the trade under `"data"` in the document `text`.
///
/// Fails with [`FeedError::ParseError`] where `text` is no JSON, and with
/// [`FeedError::InvalidData`] where the document has no `"stream"` name or no
/// `"data"` member. Otherwise the fields are those of the data, as
/// [`fields_in`] says.
pub fn read_fields(text: &str) -> (r: FeedResult<TradeFields>)
    ensures
        match reading(text@) {
            Reading::Fields(fields) => r == Ok::<TradeFields, FeedError>(fields),
            Reading::NotJson => r matches Err(e) && reports_refusal(e, Refusal::NotJson),
            Reading::NoStream => r matches Err(e) && reports_fault(e, Fault::Missing("stream"@)),
            Reading::NoData => r matches Err(e) && reports_fault(e, Fault::Missing("data"@)),
        },
{
    let document: JsonNode = match read_json(text) {
        Ok(document) => document,
        Err(reason) => { return Err(FeedError::ParseError(reason)); },
    };
    let stream: Option<String> = text_field(&document, "stream");
    if stream.is_none() {
        return Err(missing("stream"));
    }
    let data: &JsonNode = match document.member("data") {
        Some(node) => node,
        None => { return Err(missing("data")); },
    };
    Ok(
        TradeFields {
            event_type: text_field(data, "e"),
            symbol: text_field(data, "s"),
            price: text_field(data, "p"),
            quantity: text_field(data, "q"),
            trade_time: integer_field(data, "T"),
        },
    )
}

/// Reads one trade from the text of a frame.
///
/// A trade comes back exactly where the text is a document with a stream
/// name and data whose fields have no fault, and then it holds those
/// fields; an error says why there is none.
pub fn decode_trade(text: &str) -> (r: FeedResult<TradeEvent>)
    ensures
        match r {
            Ok(trade) => refusal(text@) is None && trade.holds(fields_of(text@)) && trade.wf(),
            Err(e) => refusal(text@) matches Some(why) && reports_refusal(e, why),
        },
{
    match read_fields(text) {
        Ok(fields) => TradeEvent::from_fields(fields),
        Err(reason) => Err(reason),
    }
}

/// Reads one trade from the text of a frame and stamps it as a tick of
/// `exchange`, under a fresh identifier and the time of the call.
///
/// A tick comes back exactly where [`decode_trade`] gives a trade, and it
/// holds the trade's symbol, price and quantity. Of the identifier and the
/// time nothing is known.
pub fn decode_tick(text: &str, exchange: Exchange) -> (r: FeedResult<MarketTick>)
    ensures
        match r {
            Ok(tick) => {
                &&& refusal(text@) is None
                &&& tick_holds(tick, fields_of(text@))
                &&& tick.exchange == exchange
                &&& tick.wf()
            },
            Err(e) => refusal(text@) matches Some(why) && reports_refusal(e, why),
        },
{
    match decode_trade(text) {
        Ok(trade) => Ok(trade.into_tick(fresh_id(), now_millis(), exchange)),
        Err(reason) => Err(reason),
    }
}

} // verus!
