use kairos::decimal::Decimal;
use kairos::domain::errors::DomainError;
use kairos::domain::models::{InternalOrder, OrderSide};
use kairos::risk::engine::RiskEngine;
use kairos::risk::rules::{assess_order, decide, value_of_order};

fn dec(text: &str) -> Decimal {
    Decimal::parse(text).unwrap()
}

fn order(quantity: &str, price: Option<&str>, risk_score: &str) -> InternalOrder {
    InternalOrder {
        symbol: "BTCUSDT".to_string(),
        side: OrderSide::Buy,
        quantity: dec(quantity),
        price: price.map(dec),
        risk_score: dec(risk_score),
    }
}

#[test]
fn order_within_balance_is_accepted() {
    let engine = RiskEngine::new(dec("10000.0"), dec("5.0"));
    assert_eq!(engine.validate_order(&order("1", Some("9000.0"), "0")), Ok(()));
}

#[test]
fn order_above_balance_is_refused_with_both_amounts() {
    let engine = RiskEngine::new(dec("10000.0"), dec("5.0"));
    let refusal = engine.validate_order(&order("2", Some("9000.0"), "0")).unwrap_err();
    match &refusal {
        DomainError::InsufficientBalance { required, available } => {
            assert_eq!(required.to_text(), "18000.0");
            assert_eq!(available.to_text(), "10000.00");
        }
        other => panic!("unexpected refusal {:?}", other),
    }
    assert_eq!(
        refusal.message(),
        "Insufficient balance: required 18000.0, available 10000.00"
    );
}

#[test]
fn order_above_risk_ceiling_is_refused() {
    let engine = RiskEngine::new(dec("10000.0"), dec("5.0"));
    engine.add_risk(dec("4.5"));
    let refusal = engine.validate_order(&order("1", Some("10"), "1.0")).unwrap_err();
    assert_eq!(
        refusal,
        DomainError::RiskLimitExceeded("Daily risk: 4.50, Order risk: 1.0".to_string())
    );
    assert_eq!(refusal.message(), "Risk limit exceeded: Daily risk: 4.50, Order risk: 1.0");
}

#[test]
fn risk_exactly_at_the_ceiling_is_accepted() {
    let engine = RiskEngine::new(dec("10000.0"), dec("5.0"));
    engine.add_risk(dec("4.5"));
    assert_eq!(engine.validate_order(&order("1", Some("10"), "0.5")), Ok(()));
    assert!(engine.validate_order(&order("1", Some("10"), "0.51")).is_err());
}

#[test]
fn value_exactly_at_the_balance_is_accepted() {
    let engine = RiskEngine::new(dec("10000.0"), dec("5.0"));
    assert_eq!(engine.validate_order(&order("4", Some("2500.00"), "0")), Ok(()));
    assert!(engine.validate_order(&order("4", Some("2500.01"), "0")).is_err());
}

#[test]
fn balance_is_examined_before_risk() {
    let engine = RiskEngine::new(dec("0"), dec("5.0"));
    let refusal = engine.validate_order(&order("1", Some("1"), "9")).unwrap_err();
    assert!(matches!(refusal, DomainError::InsufficientBalance { .. }));
}

#[test]
fn market_order_has_no_value() {
    assert_eq!(value_of_order(&order("3", None, "0")).to_text(), "0");
    let engine = RiskEngine::new(dec("0"), dec("5.0"));
    assert_eq!(engine.validate_order(&order("3", None, "0")), Ok(()));
}

#[test]
fn validation_reserves_nothing() {
    let engine = RiskEngine::new(dec("10000.0"), dec("5.0"));
    let candidate = order("1", Some("9000.0"), "1.0");
    assert_eq!(engine.validate_order(&candidate), Ok(()));
    assert_eq!(engine.validate_order(&candidate), Ok(()));
    assert_eq!(engine.get_balance().to_text(), "10000.00");
    assert_eq!(engine.get_daily_risk().to_text(), "0.00");
}

#[test]
fn balance_updates_are_signed_and_truncated() {
    let engine = RiskEngine::new(dec("100.129"), dec("5.0"));
    assert_eq!(engine.get_balance().to_text(), "100.12");
    engine.update_balance(dec("0.999"));
    assert_eq!(engine.get_balance().to_text(), "101.11");
    engine.update_balance(dec("-201.119"));
    assert_eq!(engine.get_balance().to_text(), "-100.00");
    engine.update_balance(dec("-0.009"));
    assert_eq!(engine.get_balance().to_text(), "-100.00");
}

#[test]
fn negative_balance_refuses_every_priced_order() {
    let engine = RiskEngine::new(dec("1"), dec("5.0"));
    engine.update_balance(dec("-2"));
    assert!(engine.validate_order(&order("1", Some("0.01"), "0")).is_err());
    assert!(engine.validate_order(&order("1", None, "0")).is_err());
}

#[test]
fn risk_accumulates_in_either_order_and_resets_to_zero() {
    let first = RiskEngine::new(dec("0"), dec("5.0"));
    first.add_risk(dec("1.25"));
    first.add_risk(dec("2.5"));
    let second = RiskEngine::new(dec("0"), dec("5.0"));
    second.add_risk(dec("2.5"));
    second.add_risk(dec("1.25"));
    assert_eq!(first.get_daily_risk().to_text(), "3.75");
    assert_eq!(second.get_daily_risk().to_text(), "3.75");
    first.reset_daily_risk();
    assert_eq!(first.get_daily_risk().to_text(), "0.00");
    assert_eq!(first.get_daily_risk().mantissa(), 0);
}

#[test]
fn negative_risk_adds_nothing() {
    let engine = RiskEngine::new(dec("0"), dec("5.0"));
    engine.add_risk(dec("1"));
    engine.add_risk(dec("-3"));
    assert_eq!(engine.get_daily_risk().to_text(), "1.00");
}

#[test]
fn engine_keeps_its_ceiling() {
    let engine = RiskEngine::new(dec("0"), dec("7.25"));
    assert_eq!(engine.max_daily_risk().to_text(), "7.25");
}

#[test]
fn assess_order_rules_on_plain_counters() {
    let ceiling = dec("5.0");
    assert_eq!(assess_order(1_000_000, 0, ceiling, &order("1", Some("9000.0"), "0")), Ok(()));
    assert!(matches!(
        assess_order(1_000_000, 0, ceiling, &order("2", Some("9000.0"), "0")),
        Err(DomainError::InsufficientBalance { .. })
    ));
    assert!(matches!(
        assess_order(1_000_000, 450, ceiling, &order("1", Some("1"), "1.0")),
        Err(DomainError::RiskLimitExceeded(_))
    ));
}

#[test]
fn decide_reports_the_amounts_it_was_given() {
    let refusal = decide(dec("3"), dec("2"), dec("0"), dec("0"), dec("0"), dec("1")).unwrap_err();
    assert_eq!(
        refusal,
        DomainError::InsufficientBalance { required: dec("3"), available: dec("2") }
    );
    assert_eq!(decide(dec("2"), dec("2"), dec("0"), dec("1"), dec("1"), dec("1")), Ok(()));
}

#[test]
fn order_value_out_of_range_is_held_at_the_limit() {
    let huge = "79228162514264337593543950335";
    let engine = RiskEngine::new(dec("10000.0"), dec("5.0"));
    let refusal = engine.validate_order(&order(huge, Some(huge), "0")).unwrap_err();
    match refusal {
        DomainError::InsufficientBalance { required, .. } => assert_eq!(required.to_text(), huge),
        other => panic!("unexpected refusal {:?}", other),
    }
    assert_eq!(engine.validate_order(&order(&format!("-{}", huge), Some(huge), "0")), Ok(()));
}

#[test]
fn domain_error_messages() {
    assert_eq!(DomainError::InvalidOrder("x".to_string()).message(), "Invalid order: x");
    assert_eq!(
        DomainError::InvalidMarketData("y".to_string()).message(),
        "Invalid market data: y"
    );
    assert_eq!(DomainError::ExchangeError("z".to_string()).message(), "Exchange error: z");
}
