//! Market-data ingestion and risk-gated order pipeline.

pub mod adapters;
pub mod api;
pub mod application;
pub mod config;
pub mod configuration;
pub mod decimal;
pub mod domain;
pub mod dominio;
pub mod logging;
pub mod risk;
pub mod strategies;
pub mod text;
