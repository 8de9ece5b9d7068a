use kairos::adapters::feed_handler::binance::BinanceFeedHandler;
use kairos::adapters::feed_handler::connection::{
    advance, start, ConnectionState, Directive, Signal, BACKOFF_MS,
};
use kairos::adapters::feed_handler::endpoint::combined_stream_url;
use kairos::adapters::feed_handler::error::{ErrorClass, FeedError};
use kairos::adapters::feed_handler::handler::{FeedEvent, Frame, Report};
use kairos::adapters::feed_handler::okx::{OkxConfig, OkxCredentials, OkxFeedHandler};
use kairos::adapters::feed_handler::trade::{
    decode_tick, decode_trade, read_fields, TradeEvent, TradeFields,
};
use kairos::application::bus::{BusPoll, MarketDataBus};
use kairos::config::Settings;
use kairos::decimal::Decimal;
use kairos::domain::models::Exchange;

const TRADE: &str = r#"{"stream":"btcusdt@aggTrade","data":{"e":"aggTrade","s":"BTCUSDT","p":"43250.12000000","q":"0.00150000","T":1700000000123}}"#;

fn fields(price: Option<&str>, quantity: Option<&str>) -> TradeFields {
    TradeFields {
        event_type: Some("aggTrade".to_string()),
        symbol: Some("BTCUSDT".to_string()),
        price: price.map(|p| p.to_string()),
        quantity: quantity.map(|q| q.to_string()),
        trade_time: Some(1_700_000_000_123),
    }
}

#[test]
fn stream_url_lowercases_and_joins_symbols() {
    let symbols = vec!["BTCUSDT".to_string(), "EthUsdt".to_string(), "solusdt".to_string()];
    assert_eq!(
        combined_stream_url("stream.binance.com:9443", &symbols),
        "wss://stream.binance.com:9443/stream?streams=btcusdt@aggTrade/ethusdt@aggTrade/solusdt@aggTrade"
    );
    assert_eq!(
        combined_stream_url("h", &vec!["A".to_string()]),
        "wss://h/stream?streams=a@aggTrade"
    );
    assert_eq!(combined_stream_url("h", &Vec::new()), "wss://h/stream?streams=");
}

#[test]
fn binance_handler_builds_its_url() {
    let bus = MarketDataBus::new(8).unwrap();
    let handler = BinanceFeedHandler::with_symbols(bus.sender(), vec!["BTCUSDT".to_string()]);
    assert_eq!(
        handler.stream_url(),
        "wss://stream.binance.com:9443/stream?streams=btcusdt@aggTrade"
    );
    let bare = BinanceFeedHandler::new(bus.sender());
    assert_eq!(bare.stream_url(), "wss://stream.binance.com:9443/stream?streams=");
}

#[test]
fn trade_is_decoded_digit_for_digit() {
    let trade = decode_trade(TRADE).unwrap();
    assert_eq!(trade.event_type, "aggTrade");
    assert_eq!(trade.symbol, "BTCUSDT");
    assert_eq!(trade.price, Decimal::parse("43250.12000000").unwrap());
    assert_eq!(trade.price.to_text(), "43250.12000000");
    assert_eq!(trade.quantity.to_text(), "0.00150000");
    assert_eq!(trade.trade_time, 1_700_000_000_123);
}

#[test]
fn fields_are_read_from_the_data_member() {
    let read = read_fields(TRADE).unwrap();
    assert_eq!(read.event_type.as_deref(), Some("aggTrade"));
    assert_eq!(read.symbol.as_deref(), Some("BTCUSDT"));
    assert_eq!(read.price.as_deref(), Some("43250.12000000"));
    assert_eq!(read.quantity.as_deref(), Some("0.00150000"));
    assert_eq!(read.trade_time, Some(1_700_000_000_123));
    let partial = read_fields(r#"{"stream":"s","data":{"e":1,"p":43250.12,"T":"late"}}"#).unwrap();
    assert_eq!(partial.event_type, None);
    assert_eq!(partial.symbol, None);
    assert_eq!(partial.price, None);
    assert_eq!(partial.quantity, None);
    assert_eq!(partial.trade_time, None);
}

#[test]
fn tick_keeps_the_amounts_of_the_trade() {
    let tick = decode_tick(TRADE, Exchange::Binance).unwrap();
    assert_eq!(tick.symbol, "BTCUSDT");
    assert_eq!(tick.price, Decimal::parse("43250.12000000").unwrap());
    assert_eq!(tick.volume, Decimal::parse("0.00150000").unwrap());
    assert_eq!(tick.exchange, Exchange::Binance);
    assert!(tick.timestamp > 1_600_000_000_000);
    let other = decode_tick(TRADE, Exchange::OKX).unwrap();
    assert_ne!(tick.id, other.id);
    assert_eq!(other.exchange, Exchange::OKX);
}

#[test]
fn malformed_frames_are_parse_errors() {
    let not_json = decode_trade("{not json").unwrap_err();
    assert!(matches!(not_json, FeedError::ParseError(_)));
    assert_eq!(not_json.class(), ErrorClass::Parse);
    assert_eq!(not_json.message(), "Failed to parse message");

    let no_stream = decode_trade(r#"{"data":{}}"#).unwrap_err();
    assert_eq!(no_stream.message(), "Invalid market data: missing field stream");
    let no_data = decode_trade(r#"{"stream":"x"}"#).unwrap_err();
    assert_eq!(no_data.message(), "Invalid market data: missing field data");
    let array = decode_trade("[1,2]").unwrap_err();
    assert!(matches!(array, FeedError::InvalidData(_)));
}

#[test]
fn each_missing_field_is_named() {
    let base = fields(Some("1"), Some("1"));
    let cases: Vec<(TradeFields, &str)> = vec![
        (TradeFields { event_type: None, ..base.clone() }, "e"),
        (TradeFields { symbol: None, ..base.clone() }, "s"),
        (TradeFields { price: None, ..base.clone() }, "p"),
        (TradeFields { quantity: None, ..base.clone() }, "q"),
        (TradeFields { trade_time: None, ..base.clone() }, "T"),
    ];
    for (case, name) in cases {
        let err = TradeEvent::from_fields(case).unwrap_err();
        assert_eq!(err.message(), format!("Invalid market data: missing field {}", name));
    }
}

#[test]
fn non_numeric_amounts_name_their_field() {
    let err = TradeEvent::from_fields(fields(Some("12a"), Some("1"))).unwrap_err();
    assert!(matches!(&err, FeedError::NumberParseError { field } if field == "p"));
    assert_eq!(err.message(), "Failed to parse number: p");
    let err = TradeEvent::from_fields(fields(Some("1"), Some(""))).unwrap_err();
    assert!(matches!(&err, FeedError::NumberParseError { field } if field == "q"));
    let err = TradeEvent::from_fields(fields(Some("x"), Some("y"))).unwrap_err();
    assert!(matches!(&err, FeedError::NumberParseError { field } if field == "p"));
}

#[test]
fn amounts_out_of_range_are_invalid_data() {
    let err = TradeEvent::from_fields(fields(Some("0"), Some("1"))).unwrap_err();
    assert_eq!(err.message(), "Invalid market data: amount out of range in field p");
    let err = TradeEvent::from_fields(fields(Some("-1"), Some("1"))).unwrap_err();
    assert_eq!(err.message(), "Invalid market data: amount out of range in field p");
    let err = TradeEvent::from_fields(fields(Some("1"), Some("-0.1"))).unwrap_err();
    assert_eq!(err.message(), "Invalid market data: amount out of range in field q");
    assert!(TradeEvent::from_fields(fields(Some("0.01"), Some("0"))).is_ok());
}

#[test]
fn connection_follows_connect_stream_backoff() {
    assert_eq!(start(), (ConnectionState::Connecting, Directive::Connect));
    assert_eq!(
        advance(ConnectionState::Connecting, Signal::Connected),
        (ConnectionState::Streaming, Directive::Receive)
    );
    assert_eq!(
        advance(ConnectionState::Connecting, Signal::ConnectFailed),
        (ConnectionState::BackingOff, Directive::Backoff(5000))
    );
    for signal in [Signal::TextFrame, Signal::ControlFrame] {
        assert_eq!(
            advance(ConnectionState::Streaming, signal),
            (ConnectionState::Streaming, Directive::Receive)
        );
    }
    for signal in [Signal::CloseFrame, Signal::TransportError, Signal::StreamEnded] {
        assert_eq!(
            advance(ConnectionState::Streaming, signal),
            (ConnectionState::BackingOff, Directive::Backoff(BACKOFF_MS))
        );
    }
    assert_eq!(
        advance(ConnectionState::BackingOff, Signal::BackoffElapsed),
        (ConnectionState::Connecting, Directive::Connect)
    );
    assert_eq!(
        advance(ConnectionState::BackingOff, Signal::TextFrame),
        (ConnectionState::BackingOff, Directive::Backoff(5000))
    );
    assert_eq!(BACKOFF_MS, 5000);
}

#[test]
fn malformed_frame_does_not_close_the_connection() {
    let bus = MarketDataBus::new(8).unwrap();
    let mut subscriber = bus.subscribe();
    let handler = BinanceFeedHandler::with_symbols(bus.sender(), vec!["BTCUSDT".to_string()]);

    let (state, directive) = start();
    assert_eq!(directive, Directive::Connect);
    let (state, directive, report) = handler.handle(state, FeedEvent::Connected);
    assert_eq!((state, directive), (ConnectionState::Streaming, Directive::Receive));
    assert!(matches!(report, Report::Quiet));

    let (state, directive, report) =
        handler.handle(state, FeedEvent::Frame(Frame::Text("{broken".to_string())));
    assert_eq!((state, directive), (ConnectionState::Streaming, Directive::Receive));
    assert!(matches!(report, Report::Skipped(FeedError::ParseError(_))));
    assert!(matches!(subscriber.poll(), BusPoll::Empty));

    let (state, directive, report) =
        handler.handle(state, FeedEvent::Frame(Frame::Text(TRADE.to_string())));
    assert_eq!((state, directive), (ConnectionState::Streaming, Directive::Receive));
    assert!(matches!(report, Report::Published(1)));
    match subscriber.poll() {
        BusPoll::Tick(tick) => {
            assert_eq!(tick.symbol, "BTCUSDT");
            assert_eq!(tick.price.to_text(), "43250.12000000");
            assert_eq!(tick.exchange, Exchange::Binance);
        }
        other => panic!("unexpected poll {:?}", other),
    }
}

#[test]
fn close_frame_leads_to_the_pause_and_a_new_connection() {
    let bus = MarketDataBus::new(8).unwrap();
    let handler = BinanceFeedHandler::new(bus.sender());
    let (state, directive, report) =
        handler.handle(ConnectionState::Streaming, FeedEvent::Frame(Frame::Close));
    assert_eq!((state, directive), (ConnectionState::BackingOff, Directive::Backoff(5000)));
    assert!(matches!(report, Report::Quiet));
    let (state, directive, _) = handler.handle(state, FeedEvent::BackoffElapsed);
    assert_eq!((state, directive), (ConnectionState::Connecting, Directive::Connect));
    let (state, directive, _) = handler.handle(state, FeedEvent::Connected);
    assert_eq!((state, directive), (ConnectionState::Streaming, Directive::Receive));
}

#[test]
fn control_frames_are_drained() {
    let bus = MarketDataBus::new(8).unwrap();
    let handler = OkxFeedHandler::new(bus.sender());
    for frame in [Frame::Ping, Frame::Pong, Frame::Binary] {
        let (state, directive, report) =
            handler.handle(ConnectionState::Streaming, FeedEvent::Frame(frame));
        assert_eq!((state, directive), (ConnectionState::Streaming, Directive::Receive));
        assert!(matches!(report, Report::Quiet));
    }
}

#[test]
fn publishing_without_subscribers_is_no_error() {
    let bus = MarketDataBus::new(8).unwrap();
    let handler = BinanceFeedHandler::new(bus.sender());
    let (state, _, report) =
        handler.handle(ConnectionState::Streaming, FeedEvent::Frame(Frame::Text(TRADE.to_string())));
    assert_eq!(state, ConnectionState::Streaming);
    assert!(matches!(report, Report::Published(0)));
}

#[test]
fn okx_ticks_carry_their_exchange() {
    let bus = MarketDataBus::new(8).unwrap();
    let mut subscriber = bus.subscribe();
    let handler = OkxFeedHandler::new(bus.sender());
    handler.handle(ConnectionState::Streaming, FeedEvent::Frame(Frame::Text(TRADE.to_string())));
    match subscriber.poll() {
        BusPoll::Tick(tick) => assert_eq!(tick.exchange, Exchange::OKX),
        other => panic!("unexpected poll {:?}", other),
    }
}

#[test]
fn missing_credentials_fail_at_construction() {
    let err = OkxCredentials::from_parts(None, Some("s".to_string()), None).unwrap_err();
    assert!(matches!(&err, FeedError::MissingCredentials { exchange } if exchange == "OKX"));
    assert_eq!(err.class(), ErrorClass::Credential);
    assert_eq!(err.message(), "Missing API credentials for OKX");
    assert!(OkxCredentials::from_parts(Some("k".to_string()), None, Some("p".to_string())).is_err());
    let ok = OkxCredentials::from_parts(Some("k".to_string()), Some("s".to_string()), None).unwrap();
    assert_eq!(ok.api_key, "k");
    assert_eq!(ok.api_secret, "s");
    assert_eq!(ok.passphrase, None);

    let mut settings = Settings::default();
    assert!(OkxConfig::authenticated(&settings.exchange).is_err());
    let public = OkxConfig::public(&settings.exchange);
    assert!(public.credentials.is_none());
    settings.exchange.okx_api_key = Some("k".to_string());
    settings.exchange.okx_api_secret = Some("s".to_string());
    settings.exchange.okx_api_passphrase = Some("p".to_string());
    let config = OkxConfig::authenticated(&settings.exchange).unwrap();
    assert_eq!(config.credentials.as_ref().unwrap().passphrase.as_deref(), Some("p"));
}

#[test]
fn okx_endpoints_depend_on_credentials() {
    let bus = MarketDataBus::new(8).unwrap();
    let mut settings = Settings::default();
    assert!(OkxFeedHandler::new(bus.sender()).endpoints().is_empty());
    let public = OkxFeedHandler::with_config(bus.sender(), OkxConfig::public(&settings.exchange));
    assert_eq!(public.endpoints(), vec!["wss://ws.okx.com:8443/ws/v5/public".to_string()]);
    settings.exchange.okx_api_key = Some("k".to_string());
    settings.exchange.okx_api_secret = Some("s".to_string());
    let private = OkxFeedHandler::with_config(
        bus.sender(),
        OkxConfig::authenticated(&settings.exchange).unwrap(),
    );
    assert_eq!(
        private.endpoints(),
        vec![
            "wss://ws.okx.com:8443/ws/v5/public".to_string(),
            "wss://ws.okx.com:8443/ws/v5/private".to_string(),
            "wss://ws.okx.com:8443/ws/v5/business".to_string(),
        ]
    );
}

#[test]
fn feed_error_messages_and_classes() {
    let sub = FeedError::SubscriptionFailed { symbol: "BTC".to_string(), reason: "no".to_string() };
    assert_eq!(sub.message(), "Failed to subscribe to BTC: no");
    assert_eq!(sub.class(), ErrorClass::Connection);
    assert_eq!(FeedError::InvalidData("x".to_string()).class(), ErrorClass::Parse);
    assert_eq!(
        FeedError::NumberParseError { field: "p".to_string() }.class(),
        ErrorClass::Parse
    );
}
