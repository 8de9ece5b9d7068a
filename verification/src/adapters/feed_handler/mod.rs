//! Feed handlers: one per exchange, each turning the frames of a WebSocket
//! feed into ticks on the market-data bus, and reconnecting after every
//! failure.

pub mod binance;
pub mod connection;
pub mod endpoint;
pub mod error;
pub mod handler;
pub mod json;
pub mod okx;
pub mod trade;
