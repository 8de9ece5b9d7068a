//! Entities shared across the platform: ticks, orders and domain errors.

pub mod errors;
pub mod models;
