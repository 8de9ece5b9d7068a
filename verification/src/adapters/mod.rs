//! The edges of the core: feeds coming in, orders and data going out.

pub mod execution;
pub mod feed_handler;
pub mod grpc_server;
pub mod persistence;
