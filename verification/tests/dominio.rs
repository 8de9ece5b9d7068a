use kairos::decimal::Decimal;
use kairos::dominio::entities::{Order, OrderId, OrderSide, OrderStatus};
use kairos::dominio::value_objects::{
    Currency, Instrument, Money, Price, Quantity, Spread, Symbol,
};
use kairos::dominio::{add, checked_add};

fn dec(text: &str) -> Decimal {
    Decimal::parse(text).unwrap()
}

#[test]
fn it_works() {
    let result = add(2, 2);
    assert_eq!(result, 4);
}

#[test]
fn checked_add_guards_the_range() {
    assert_eq!(checked_add(2, 2), Some(4));
    assert_eq!(checked_add(u64::MAX, 0), Some(u64::MAX));
    assert_eq!(checked_add(u64::MAX, 1), None);
}

#[test]
fn symbol_and_instrument_codes() {
    let symbol = Symbol::new("BTC", "USD");
    assert_eq!(symbol.base, "BTC");
    assert_eq!(symbol.quote, "USD");
    assert_eq!(symbol.as_string(), "BTC/USD");
    let listed = Instrument::new(symbol.clone(), Some("OKX"));
    assert_eq!(listed.venue.as_deref(), Some("OKX"));
    assert_eq!(listed.full_code(), "BTC/USD@OKX");
    let bare = Instrument::new(symbol, None);
    assert_eq!(bare.venue, None);
    assert_eq!(bare.full_code(), "BTC/USD");
}

#[test]
fn price_times_quantity_is_money() {
    let price = Price::new(dec("30000"), Currency::USD);
    let total = price.total(Quantity::new(dec("1")));
    assert_eq!(total, Money::new(dec("30000"), Currency::USD));
    let total = Price::new(dec("30000.50"), Currency::USDT).checked_total(Quantity::new(dec("2.5")));
    assert_eq!(total.unwrap().amount.to_text(), "75001.250");
    let max = dec("79228162514264337593543950335");
    assert!(Price::new(max, Currency::USD).checked_total(Quantity::new(dec("2"))).is_none());
}

#[test]
fn spread_and_basis_points() {
    let spot = Price::new(dec("30000"), Currency::USD);
    let perp = Price::new(dec("30100"), Currency::USD);
    let spread = Spread::between(spot, perp);
    assert_eq!(spread, Spread::new(dec("100"), Currency::USD));
    let points = spread.basis_points(spot);
    assert_eq!(
        points.compare(&dec("33.333333333333333333333333")),
        kairos::decimal::Comparison::Equal
    );
    assert_eq!(spread.checked_basis_points(spot), Some(points));
    let zero = Price::new(dec("0"), Currency::USD);
    assert_eq!(spread.checked_basis_points(zero), None);
    let euro = Price::new(dec("30100"), Currency::EUR);
    assert_eq!(Spread::checked_between(spot, euro), None);
    assert_eq!(Spread::checked_between(spot, perp), Some(spread));
}

#[test]
fn quantity_arithmetic() {
    let q = Quantity::new(dec("1.5"));
    assert!(!q.is_zero());
    assert!(Quantity::new(dec("0.00")).is_zero());
    assert_eq!(Quantity::new(dec("-1.5")).abs(), q);
    assert_eq!(q.abs(), q);
    assert_eq!(q.add(Quantity::new(dec("0.25"))).0.to_text(), "1.75");
    assert_eq!(q.sub(Quantity::new(dec("2"))).0.to_text(), "-0.5");
    assert_eq!(q.mul(dec("4")).0.to_text(), "6.0");
    assert_eq!(q.div(dec("3")).0.to_text(), "0.5");
    assert_eq!(q.checked_add(Quantity::new(dec("0.25"))), Some(Quantity::new(dec("1.75"))));
    assert_eq!(q.checked_sub(Quantity::new(dec("2"))), Some(Quantity::new(dec("-0.5"))));
    assert_eq!(q.checked_mul(dec("4")), Some(Quantity::new(dec("6.0"))));
    assert_eq!(q.checked_div(dec("3")), Some(Quantity::new(dec("0.5"))));
    assert_eq!(q.checked_div(dec("0")), None);
    let max = Quantity::new(dec("79228162514264337593543950335"));
    assert_eq!(max.checked_add(max), None);
    assert_eq!(max.checked_mul(dec("2")), None);
    assert_eq!(Quantity::new(dec("-79228162514264337593543950335")).checked_sub(max), None);
}

#[test]
fn orders_start_new_and_can_be_filled() {
    let instrument = Instrument::new(Symbol::new("BTC", "USD"), Some("OKX"));
    let quantity = Quantity::new(dec("1"));
    let price = Price::new(dec("30000"), Currency::USD);
    let mut order = Order::new(instrument.clone(), OrderSide::Buy, quantity, price);
    let other = Order::new(instrument.clone(), OrderSide::Sell, quantity, price);
    assert_ne!(order.id, other.id);
    assert_eq!(order.status, OrderStatus::New);
    assert_eq!(order.side, OrderSide::Buy);
    assert_eq!(order.instrument, instrument);
    assert_eq!(order.quantity, quantity);
    assert_eq!(order.price, price);
    let id = order.id;
    order.mark_filled();
    assert_eq!(order.status, OrderStatus::Filled);
    assert_eq!(order.id, id);
    assert_eq!(order.instrument, instrument);

    let fixed = OrderId(uuid::Uuid::nil());
    let known = Order::with_id(fixed, instrument, OrderSide::Sell, quantity, price);
    assert_eq!(known.id, fixed);
    assert_eq!(known.status, OrderStatus::New);
}

#[test]
fn value_objects_compare_amounts_as_numbers() {
    assert_eq!(Quantity::new(dec("1.50")), Quantity::new(dec("1.5")));
    assert_ne!(Quantity::new(dec("1.50")), Quantity::new(dec("1.51")));
    assert_eq!(Money::new(dec("10.0"), Currency::USD), Money::new(dec("10"), Currency::USD));
    assert_ne!(Money::new(dec("10"), Currency::USD), Money::new(dec("10"), Currency::EUR));
    assert_eq!(Price::new(dec("0.10"), Currency::BTC), Price::new(dec("0.1"), Currency::BTC));
    assert_ne!(Price::new(dec("0.10"), Currency::BTC), Price::new(dec("0.1"), Currency::ETH));
    assert_eq!(Spread::new(dec("-5.00"), Currency::USDT), Spread::new(dec("-5"), Currency::USDT));
    assert_ne!(Spread::new(dec("-5.00"), Currency::USDT), Spread::new(dec("5"), Currency::USDT));
}

#[test]
fn quantities_are_ordered_as_numbers() {
    let small = Quantity::new(dec("1.5"));
    let same = Quantity::new(dec("1.500"));
    let large = Quantity::new(dec("1.51"));
    let negative = Quantity::new(dec("-2"));
    assert!(small < large);
    assert!(large > small);
    assert!(small <= same && small >= same);
    assert!(!(small < same) && !(small > same));
    assert!(negative < small);
    assert_eq!(small.partial_cmp(&same), Some(std::cmp::Ordering::Equal));
    assert_eq!(small.partial_cmp(&large), Some(std::cmp::Ordering::Less));
    assert_eq!(large.partial_cmp(&negative), Some(std::cmp::Ordering::Greater));
}
