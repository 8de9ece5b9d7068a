//! What every feed handler does with what its socket delivers.

use vstd::prelude::*;
use crate::adapters::feed_handler::connection::{
    advance,
    next_state,
    pending,
    ConnectionState,
    Directive,
    Signal,
};
use crate::adapters::feed_handler::error::{ErrorClass, FeedError};
use crate::adapters::feed_handler::trade::{decode_tick, refusal, reports_refusal, Refusal};
use crate::application::bus::MarketDataBus;
use crate::domain::models::{Exchange, MarketTick};

verus! {

/// One frame as the socket delivered it; only text frames keep their payload.
#[derive(Debug, Clone)]
pub enum Frame {
    Text(String),
    Binary,
    Ping,
    Pong,
    Close,
}

/// One thing that happened to the connection.
#[derive(Debug)]
pub enum FeedEvent {
    /// The connection was made.
    Connected,
    /// The connection could not be made, for the reason given.
    ConnectFailed(tokio_tungstenite::tungstenite::Error),
    /// A frame arrived.
    Frame(Frame),
    /// Reading failed, for the reason given.
    TransportError(tokio_tungstenite::tungstenite::Error),
    /// The stream ended without a close frame.
    StreamEnded,
    /// The pause before reconnecting is over.
    BackoffElapsed,
}

/// What became of an event, for the log.
#[derive(Debug)]
pub enum Report {
    /// A tick was published to this many subscribers; zero is no error.
    Published(usize),
    /// The frame was skipped for the reason given; the connection stays.
    Skipped(FeedError),
    /// The connection is lost or was refused for the reason given; it will
    /// be made again after the pause.
    Lost(FeedError),
    /// Nothing to report.
    Quiet,
}

impl Frame {
    /// The signal that this frame gives to the connection.
    pub open spec fn signal(self) -> Signal {
        match self {
            Frame::Text(_) => Signal::TextFrame,
            Frame::Binary => Signal::ControlFrame,
            Frame::Ping => Signal::ControlFrame,
            Frame::Pong => Signal::ControlFrame,
            Frame::Close => Signal::CloseFrame,
        }
    }
}

impl FeedEvent {
    /// The signal that this event gives to the connection.
    pub open spec fn signal(self) -> Signal {
        match self {
            FeedEvent::Connected => Signal::Connected,
            FeedEvent::ConnectFailed(_) => Signal::ConnectFailed,
            FeedEvent::Frame(frame) => frame.signal(),
            FeedEvent::TransportError(_) => Signal::TransportError,
            FeedEvent::StreamEnded => Signal::StreamEnded,
            FeedEvent::BackoffElapsed => Signal::BackoffElapsed,
        }
    }
}

/// Whether `report` is the one that a text frame holding `text` gets:
/// published exactly where the text gives a trade, and otherwise skipped
/// for the reason that it gives none.
pub open spec fn text_report_fits(report: Report, text: Seq<char>) -> bool {
    match report {
        Report::Published(_) => refusal(text) is None,
        Report::Skipped(reason) => refusal(text) matches Some(why) && reports_refusal(reason, why),
        _ => false,
    }
}

/// Whether `report` is the one that `event` gets: a text frame as
/// [`text_report_fits`] says, a failure reported lost with its reason, and
/// everything else quiet.
pub open spec fn report_fits(report: Report, event: FeedEvent) -> bool {
    match event {
        FeedEvent::Frame(Frame::Text(text)) => text_report_fits(report, text@),
        FeedEvent::ConnectFailed(reason) => report matches Report::Lost(
            FeedError::ConnectionFailed(r),
        ) && r == reason,
        FeedEvent::TransportError(reason) => report matches Report::Lost(
            FeedError::WebSocketError(r),
        ) && r == reason,
        _ => report is Quiet,
    }
}

/// Whatever keeps a frame from giving a trade is an error of the parse
/// class: the frame is skipped and the connection stays.
pub proof fn law_refusals_are_skipped(e: FeedError, why: Refusal)
    requires
        reports_refusal(e, why),
    ensures
        e.spec_class() == ErrorClass::Parse,
{
}

/// The part of a feed handler that is the same for every exchange.
pub struct FeedHandler {
    exchange: Exchange,
    bus: MarketDataBus,
}

impl FeedHandler {
    /// The exchange whose ticks this handler publishes.
    pub closed spec fn spec_exchange(&self) -> Exchange {
        self.exchange
    }

    /// The handle through which this handler publishes its ticks.
    pub closed spec fn publisher(&self) -> tokio::sync::broadcast::Sender<MarketTick> {
        self.bus.handle()
    }

    /// A handler for `exchange` that publishes through `market_data_tx`.
    pub fn new(exchange: Exchange, market_data_tx: tokio::sync::broadcast::Sender<MarketTick>) -> (handler:
        FeedHandler)
        ensures
            handler.spec_exchange() == exchange,
            handler.publisher() == market_data_tx,
    {
        FeedHandler { exchange, bus: MarketDataBus::from_sender(market_data_tx) }
    }

    /// The exchange whose ticks this handler publishes.
    pub fn exchange(&self) -> (exchange: Exchange)
        ensures
            exchange == self.spec_exchange(),
    {
        self.exchange
    }

    /// Reads the text of one frame and publishes its tick. A frame that
    /// gives no trade is skipped; that is reported, with the reason, and
    /// nothing else happens.
    pub fn on_text(&self, text: &str) -> (report: Report)
        ensures
            text_report_fits(report, text@),
    {
        match decode_tick(text, self.exchange) {
            Ok(tick) => Report::Published(self.bus.publish(tick)),
            Err(reason) => Report::Skipped(reason),
        }
    }

    /// Takes one event: does what it calls for, and answers with the next
    /// state of the connection, what the caller does next, and a report.
    ///
    /// The state and the directive depend on the kind of the event alone,
    /// as [`next_state`] and [`pending`] say; what a text frame holds has no
    /// part in them.
    pub fn handle(&self, state: ConnectionState, event: FeedEvent) -> (next: (
        ConnectionState,
        Directive,
        Report,
    ))
        ensures
            next.0 == next_state(state, event.signal()),
            next.1 == pending(next.0),
            report_fits(next.2, event),
    {
        match event {
            FeedEvent::Connected => {
                let (following, directive) = advance(state, Signal::Connected);
                (following, directive, Report::Quiet)
            },
            FeedEvent::ConnectFailed(reason) => {
                let (following, directive) = advance(state, Signal::ConnectFailed);
                (following, directive, Report::Lost(FeedError::ConnectionFailed(reason)))
            },
            FeedEvent::Frame(Frame::Text(text)) => {
                let report: Report = self.on_text(text.as_str());
                let (following, directive) = advance(state, Signal::TextFrame);
                (following, directive, report)
            },
            FeedEvent::Frame(Frame::Close) => {
                let (following, directive) = advance(state, Signal::CloseFrame);
                (following, directive, Report::Quiet)
            },
            FeedEvent::Frame(_) => {
                let (following, directive) = advance(state, Signal::ControlFrame);
                (following, directive, Report::Quiet)
            },
            FeedEvent::TransportError(reason) => {
                let (following, directive) = advance(state, Signal::TransportError);
                (following, directive, Report::Lost(FeedError::WebSocketError(reason)))
            },
            FeedEvent::StreamEnded => {
                let (following, directive) = advance(state, Signal::StreamEnded);
                (following, directive, Report::Quiet)
            },
            FeedEvent::BackoffElapsed => {
                let (following, directive) = advance(state, Signal::BackoffElapsed);
                (following, directive, Report::Quiet)
            },
        }
    }
}

} // verus!
