//! State shared by every component of the application.

use std::sync::Arc;
use vstd::prelude::*;
use crate::decimal::Decimal;
use crate::risk::engine::RiskEngine;

verus! {

/// Shared application state
pub struct AppState {
    pub risk_engine: Arc<RiskEngine>,
}

impl AppState {
    /// The state of an application with one risk engine, built here and
    /// shared by reference from now on.
    pub fn new(initial_balance: Decimal, max_daily_risk: Decimal) -> (state: AppState)
        ensures
            state.risk_engine.ceiling() == max_daily_risk@,
    {
        AppState { risk_engine: Arc::new(RiskEngine::new(initial_balance, max_daily_risk)) }
    }
}

} // verus!
