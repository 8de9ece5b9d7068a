//! Risk gating: balance and daily-risk accounting, and the ruling on an order.

pub mod engine;
pub mod ledger;
pub mod rules;
