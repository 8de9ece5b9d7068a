//! Strategies: the producers of candidate orders.

use vstd::prelude::*;
use crate::decimal::Decimal;
use crate::domain::models::{InternalOrder, MarketTick};

verus! {

/// Arbitrage strategy - detects price differences across exchanges
pub struct ArbitrageStrategy {
    min_profit_threshold: Decimal,
}

impl ArbitrageStrategy {
    /// The profit below which the strategy proposes nothing.
    pub closed spec fn threshold(self) -> Decimal {
        self.min_profit_threshold
    }

    pub fn new(min_profit_threshold: Decimal) -> (strategy: ArbitrageStrategy)
        ensures
            strategy.threshold() == min_profit_threshold,
    {
        ArbitrageStrategy { min_profit_threshold }
    }

    /// The profit below which the strategy proposes nothing.
    pub fn min_profit_threshold(&self) -> (threshold: Decimal)
        ensures
            threshold == self.threshold(),
    {
        self.min_profit_threshold
    }

    /// Analyzes market ticks to find arbitrage opportunities. It proposes
    /// no order, whatever the ticks.
    pub fn analyze(&self, ticks: &[MarketTick]) -> (proposal: Option<InternalOrder>)
        ensures
            proposal is None,
    {
        None
    }
}

/// One edge of the rate graph: to a symbol, at a rate.
#[derive(Debug, Clone)]
pub struct Edge {
    pub to: String,
    pub rate: Decimal,
}

/// One node of the rate graph: a symbol and the edges that leave it.
#[derive(Debug, Clone)]
pub struct Node {
    pub symbol: String,
    pub edges: Vec<Edge>,
}

/// Triangulation strategy - looks for cycles of rates that multiply to a gain
pub struct TriangulationStrategy {
    graph: Vec<Node>,
}

impl TriangulationStrategy {
    /// The rate graph.
    pub closed spec fn spec_graph(self) -> Seq<Node> {
        self.graph@
    }

    /// A strategy with an empty rate graph.
    pub fn new() -> (strategy: TriangulationStrategy)
        ensures
            strategy.spec_graph().len() == 0,
    {
        TriangulationStrategy { graph: Vec::new() }
    }

    /// Takes note of a tick. The rate graph stays as it is.
    pub fn update_graph(&mut self, tick: &MarketTick)
        ensures
            final(self).spec_graph() == old(self).spec_graph(),
    {
    }

    /// The orders that the rate graph suggests: none.
    pub fn find_opportunities(&self) -> (orders: Vec<InternalOrder>)
        ensures
            orders.len() == 0,
    {
        Vec::new()
    }
}

impl Default for TriangulationStrategy {
    fn default() -> (strategy: TriangulationStrategy)
        ensures
            strategy.spec_graph().len() == 0,
    {
        TriangulationStrategy::new()
    }
}

} // verus!
