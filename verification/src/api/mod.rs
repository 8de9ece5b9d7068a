//! What the query gateway computes between its transport and its stores.

pub mod db_reader;
pub mod graphql;
