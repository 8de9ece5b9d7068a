use kairos::adapters::execution::{BinanceExecutor, ExecutionError, OkxExecutor};
use kairos::adapters::grpc_server::{GrpcServer, OrderRequest};
use kairos::adapters::persistence::PersistenceError;
use kairos::api::db_reader::{balance_from_reply, balance_key, price_from_reply, price_key};
use kairos::api::graphql::{health, OrderResult};
use kairos::decimal::Decimal;
use kairos::domain::errors::DomainError;
use kairos::domain::models::{Exchange, InternalOrder, OrderSide, OrderStatus, OrderType};
use kairos::risk::engine::RiskEngine;
use kairos::strategies::{ArbitrageStrategy, TriangulationStrategy};
use kairos::adapters::feed_handler::trade::decode_tick;

fn dec(text: &str) -> Decimal {
    Decimal::parse(text).unwrap()
}

#[test]
fn executors_keep_their_credentials() {
    let binance = BinanceExecutor::new("key".to_string(), "secret".to_string());
    assert_eq!(binance.api_key(), "key");
    assert_eq!(binance.api_secret(), "secret");
    let okx = OkxExecutor::new("k".to_string(), "s".to_string(), "p".to_string());
    assert_eq!(okx.api_key(), "k");
    assert_eq!(okx.api_secret(), "s");
    assert_eq!(okx.passphrase(), "p");
}

#[test]
fn execution_error_messages() {
    let text = |e: ExecutionError| e.message();
    assert_eq!(
        text(ExecutionError::OrderFailed { exchange: "OKX".into(), reason: "down".into() }),
        "Failed to place order on OKX: down"
    );
    assert_eq!(
        text(ExecutionError::CancelFailed { order_id: "42".into(), reason: "gone".into() }),
        "Failed to cancel order '42': gone"
    );
    assert_eq!(text(ExecutionError::InvalidOrder("x".into())), "Invalid order: x");
    assert_eq!(
        text(ExecutionError::AuthenticationFailed { exchange: "Binance".into() }),
        "Authentication failed for Binance"
    );
    assert_eq!(text(ExecutionError::HttpError("500".into())), "HTTP request failed: 500");
    assert_eq!(
        text(ExecutionError::RateLimitExceeded { exchange: "OKX".into() }),
        "Rate limit exceeded on OKX"
    );
    assert_eq!(text(ExecutionError::OrderTimeout("30s".into())), "Order timeout: 30s");
}

#[test]
fn persistence_error_messages() {
    assert_eq!(
        PersistenceError::ConnectionFailed("refused".into()).message(),
        "Database connection failed: refused"
    );
    assert_eq!(
        PersistenceError::SaveFailed("full".into()).message(),
        "Failed to save market tick: full"
    );
    assert_eq!(
        PersistenceError::PublishFailed { channel: "ticks".into(), reason: "closed".into() }
            .message(),
        "Failed to publish to Redis channel 'ticks': closed"
    );
    assert_eq!(
        PersistenceError::CacheFailed { key: "k".into(), reason: "r".into() }.message(),
        "Failed to set cache key 'k': r"
    );
}

#[test]
fn intake_acknowledges_orders_as_pending() {
    let server = GrpcServer;
    let request =
        OrderRequest::market("BTCUSDT".to_string(), OrderSide::Buy, dec("1"), Some(dec("2")));
    assert_eq!(request.order_type, OrderType::Market);
    assert_eq!(request.side, OrderSide::Buy);
    let first = server.place_order(&request);
    let second = server.place_order(&request);
    assert!(first.success);
    assert_eq!(first.message, "Order received");
    assert_eq!(first.status, OrderStatus::Pending);
    assert_eq!(first.order_id.len(), 36);
    assert_ne!(first.order_id, second.order_id);
    let known = GrpcServer::acknowledge("abc".to_string());
    assert_eq!(known.order_id, "abc");
}

#[test]
fn balance_query_reports_the_engine_balance() {
    let engine = RiskEngine::new(dec("10000.0"), dec("5.0"));
    engine.update_balance(dec("-250.5"));
    let response = GrpcServer.get_balance(&engine);
    assert_eq!(response.available.to_text(), "9749.50");
    assert_eq!(response.locked.to_text(), "0");
    assert_eq!(response.total.to_text(), "9749.50");
}

#[test]
fn store_keys_and_replies() {
    assert_eq!(balance_key("USDT"), "balance:USDT");
    assert_eq!(price_key("BTCUSDT"), "price:BTCUSDT");
    assert_eq!(balance_from_reply(Some("12.50")).to_text(), "12.50");
    assert_eq!(balance_from_reply(Some("n/a")).to_text(), "0");
    assert_eq!(balance_from_reply(None).to_text(), "0");
    assert_eq!(price_from_reply(Some("43250.1")), Some(dec("43250.1")));
    assert_eq!(price_from_reply(Some("")), None);
    assert_eq!(price_from_reply(None), None);
}

#[test]
fn gateway_answers() {
    let placed = OrderResult::placed("id-1".to_string());
    assert!(placed.success);
    assert_eq!(placed.order_id, "id-1");
    assert_eq!(placed.message, "Order placed successfully");
    let cancelled = OrderResult::cancelled("id-2".to_string());
    assert!(cancelled.success);
    assert_eq!(cancelled.order_id, "id-2");
    assert_eq!(cancelled.message, "Order cancelled");
    assert_eq!(health(), "OK");
}

#[test]
fn strategies_propose_nothing() {
    let arbitrage = ArbitrageStrategy::new(dec("0.5"));
    assert_eq!(arbitrage.min_profit_threshold(), dec("0.5"));
    let tick = decode_tick(
        r#"{"stream":"s","data":{"e":"aggTrade","s":"BTCUSDT","p":"1","q":"1","T":1}}"#,
        Exchange::Kraken,
    )
    .unwrap();
    assert!(arbitrage.analyze(&[tick.clone()]).is_none());
    assert!(arbitrage.analyze(&[]).is_none());
    let mut triangulation = TriangulationStrategy::default();
    triangulation.update_graph(&tick);
    assert!(triangulation.find_opportunities().is_empty());
    assert!(TriangulationStrategy::new().find_opportunities().is_empty());
}

#[test]
fn exchange_names() {
    assert_eq!(Exchange::Binance.name(), "Binance");
    assert_eq!(Exchange::OKX.name(), "OKX");
    assert_eq!(Exchange::Kraken.name(), "Kraken");
}

#[test]
fn intake_turns_requests_into_orders() {
    let request =
        OrderRequest::market("BTCUSDT".to_string(), OrderSide::Sell, dec("1.5"), Some(dec("2")));
    let order = request.clone().into_order(dec("0.25")).unwrap();
    assert_eq!(order.symbol, "BTCUSDT");
    assert_eq!(order.side, OrderSide::Sell);
    assert_eq!(order.quantity, dec("1.5"));
    assert_eq!(order.price, Some(dec("2")));
    assert_eq!(order.risk_score, dec("0.25"));

    let refused = |quantity: &str, price: Option<&str>, risk: &str| {
        InternalOrder::new(
            "BTCUSDT".to_string(),
            OrderSide::Buy,
            dec(quantity),
            price.map(dec),
            dec(risk),
        )
        .unwrap_err()
    };
    assert_eq!(
        refused("0", Some("1"), "0"),
        DomainError::InvalidOrder("quantity must be above zero".to_string())
    );
    assert_eq!(
        refused("-1", Some("-1"), "-1"),
        DomainError::InvalidOrder("quantity must be above zero".to_string())
    );
    assert_eq!(
        refused("1", Some("0.00"), "-1"),
        DomainError::InvalidOrder("price must be above zero".to_string())
    );
    assert_eq!(
        refused("1", None, "-0.01"),
        DomainError::InvalidOrder("risk score must not be below zero".to_string())
    );
    assert!(InternalOrder::new("X".to_string(), OrderSide::Buy, dec("1"), None, dec("0")).is_ok());
    let unsound = OrderRequest::market("X".to_string(), OrderSide::Buy, dec("0"), None);
    assert!(matches!(unsound.into_order(dec("0")), Err(DomainError::InvalidOrder(_))));
}
