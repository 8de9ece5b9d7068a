//! Binance WebSocket feed handler

use vstd::prelude::*;
use vstd::string::StringExecFns;
use crate::adapters::feed_handler::connection::{next_state, pending, ConnectionState, Directive};
use crate::adapters::feed_handler::endpoint::{combined_stream_url, stream_url};
use crate::adapters::feed_handler::handler::{report_fits, FeedEvent, FeedHandler, Report};
use crate::domain::models::{Exchange, MarketTick};
use crate::text::texts;

verus! {

/// The host of the public combined streams.
pub open spec fn stream_host() -> Seq<char> {
    "stream.binance.com:9443"@
}

/// A handler for the public trade streams; it needs no credentials.
pub struct BinanceFeedHandler {
    core: FeedHandler,
    symbols: Vec<String>,
}

impl BinanceFeedHandler {
    /// The symbols this handler subscribes to.
    pub closed spec fn subscribed(&self) -> Seq<Seq<char>> {
        texts(self.symbols@)
    }

    /// The handle through which this handler publishes its ticks.
    pub closed spec fn publisher(&self) -> tokio::sync::broadcast::Sender<MarketTick> {
        self.core.publisher()
    }

    /// The exchange whose ticks this handler publishes: Binance.
    pub closed spec fn spec_exchange(&self) -> Exchange {
        self.core.spec_exchange()
    }

    /// A handler that publishes through `market_data_tx` and subscribes to
    /// nothing yet.
    pub fn new(market_data_tx: tokio::sync::broadcast::Sender<MarketTick>) -> (handler:
        BinanceFeedHandler)
        ensures
            handler.subscribed() == Seq::<Seq<char>>::empty(),
            handler.publisher() == market_data_tx,
            handler.spec_exchange() == Exchange::Binance,
    {
        let symbols: Vec<String> = Vec::new();
        proof {
            assert(texts(symbols@) =~= Seq::<Seq<char>>::empty());
        }
        BinanceFeedHandler { core: FeedHandler::new(Exchange::Binance, market_data_tx), symbols }
    }

    /// A handler that publishes through `market_data_tx` and subscribes to
    /// the trade streams of `symbols`.
    pub fn with_symbols(
        market_data_tx: tokio::sync::broadcast::Sender<MarketTick>,
        symbols: Vec<String>,
    ) -> (handler: BinanceFeedHandler)
        ensures
            handler.subscribed() == texts(symbols@),
            handler.publisher() == market_data_tx,
            handler.spec_exchange() == Exchange::Binance,
    {
        BinanceFeedHandler { core: FeedHandler::new(Exchange::Binance, market_data_tx), symbols }
    }

    /// The address this handler connects to: the combined stream of its
    /// symbols, each in lower case.
    pub fn stream_url(&self) -> (url: String)
        ensures
            url@ == stream_url(stream_host(), self.subscribed()),
    {
        combined_stream_url("stream.binance.com:9443", &self.symbols)
    }

    /// Takes one event of the connection; see [`FeedHandler::handle`].
    pub fn handle(&self, state: ConnectionState, event: FeedEvent) -> (next: (
        ConnectionState,
        Directive,
        Report,
    ))
        ensures
            next.0 == next_state(state, event.signal()),
            next.1 == pending(next.0),
            report_fits(next.2, event),
    {
        self.core.handle(state, event)
    }
}

} // verus!
