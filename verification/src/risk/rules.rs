//! The ruling on an order, stated and computed on plain amounts.
//!
//! Money is counted in minor units (hundredths). An order's value is its
//! quantity times its limit price, zero for a market order. The engine refuses
//! an order whose value is above the balance, then one whose risk would carry
//! the day's total above the ceiling.

use vstd::prelude::*;
use vstd::string::StringExecFns;
use crate::decimal::arith::{saturating_product, saturating_sum};
use crate::decimal::{Decimal, DecimalValue};
use crate::domain::errors::{DomainError, DomainResult};
use crate::domain::models::InternalOrder;

verus! {

/// What the engine rules on an order.
pub enum Verdict {
    Accepted,
    InsufficientBalance { required: DecimalValue, available: DecimalValue },
    RiskLimitExceeded { daily_risk: DecimalValue, order_risk: DecimalValue },
}

/// The ruling, given the order's value, the balance, the day's risk before
/// and after the order, and the ceiling. The balance is examined first.
pub open spec fn verdict(
    order_value: DecimalValue,
    available: DecimalValue,
    daily_risk: DecimalValue,
    order_risk: DecimalValue,
    total_risk: DecimalValue,
    max_daily_risk: DecimalValue,
) -> Verdict {
    if order_value.gt(available) {
        Verdict::InsufficientBalance { required: order_value, available }
    } else if total_risk.gt(max_daily_risk) {
        Verdict::RiskLimitExceeded { daily_risk, order_risk }
    } else {
        Verdict::Accepted
    }
}

/// The detail that a refusal for risk carries.
pub open spec fn risk_message(daily_risk: DecimalValue, order_risk: DecimalValue) -> Seq<char> {
    "Daily risk: "@ + daily_risk.text() + ", Order risk: "@ + order_risk.text()
}

/// Whether the result `r` reports the ruling `v`, with its amounts and detail.
pub open spec fn reports(r: DomainResult<()>, v: Verdict) -> bool {
    match v {
        Verdict::Accepted => r is Ok,
        Verdict::InsufficientBalance { required, available } => {
            &&& r matches Err(DomainError::InsufficientBalance { required: r0, available: a0 })
            &&& r0@ == required
            &&& a0@ == available
        },
        Verdict::RiskLimitExceeded { daily_risk, order_risk } => {
            &&& r matches Err(DomainError::RiskLimitExceeded(detail))
            &&& detail@ == risk_message(daily_risk, order_risk)
        },
    }
}

/// The value of an order: quantity times limit price, zero without a price.
pub open spec fn order_value(order: InternalOrder) -> DecimalValue {
    match order.price {
        Some(price) => saturating_product(order.quantity@, price@),
        None => DecimalValue::zero(),
    }
}

/// The ruling on `order` against a balance and a day's risk in minor units.
pub open spec fn assess(
    balance_units: int,
    daily_risk_units: int,
    max_daily_risk: DecimalValue,
    order: InternalOrder,
) -> Verdict {
    verdict(
        order_value(order),
        DecimalValue::of_minor_units(balance_units),
        DecimalValue::of_minor_units(daily_risk_units),
        order.risk_score@,
        saturating_sum(DecimalValue::of_minor_units(daily_risk_units), order.risk_score@),
        max_daily_risk,
    )
}

/// The engine refuses for want of balance exactly when the order's value is
/// above the balance, and then reports both amounts; with the risk within
/// its ceiling it accepts every other order.
pub proof fn law_balance_rule(
    order_value: DecimalValue,
    available: DecimalValue,
    daily_risk: DecimalValue,
    order_risk: DecimalValue,
    total_risk: DecimalValue,
    max_daily_risk: DecimalValue,
)
    ensures
        order_value.gt(available) <==> verdict(
            order_value,
            available,
            daily_risk,
            order_risk,
            total_risk,
            max_daily_risk,
        ) is InsufficientBalance,
        order_value.gt(available) ==> verdict(
            order_value,
            available,
            daily_risk,
            order_risk,
            total_risk,
            max_daily_risk,
        ) == (Verdict::InsufficientBalance { required: order_value, available }),
        !total_risk.gt(max_daily_risk) ==> (!order_value.gt(available) <==> verdict(
            order_value,
            available,
            daily_risk,
            order_risk,
            total_risk,
            max_daily_risk,
        ) is Accepted),
{
}

/// An order that would carry the day's risk above the ceiling is refused
/// whatever the balance; the refusal names the risk wherever the balance
/// covers the order's value.
pub proof fn law_risk_rule(
    order_value: DecimalValue,
    available: DecimalValue,
    daily_risk: DecimalValue,
    order_risk: DecimalValue,
    total_risk: DecimalValue,
    max_daily_risk: DecimalValue,
)
    requires
        total_risk.gt(max_daily_risk),
    ensures
        !(verdict(order_value, available, daily_risk, order_risk, total_risk, max_daily_risk)
            is Accepted),
        !order_value.gt(available) ==> verdict(
            order_value,
            available,
            daily_risk,
            order_risk,
            total_risk,
            max_daily_risk,
        ) == (Verdict::RiskLimitExceeded { daily_risk, order_risk }),
{
}

/// For a priced order the two rules read, on the counters in minor units:
/// refused for want of balance exactly when quantity times price is above the
/// balance; refused whenever the day's risk plus the order's is above the
/// ceiling; accepted otherwise.
pub proof fn law_order_rules(
    balance_units: int,
    daily_risk_units: int,
    max_daily_risk: DecimalValue,
    order: InternalOrder,
)
    requires
        order.price is Some,
    ensures
        saturating_product(order.quantity@, order.price->0@).gt(
            DecimalValue::of_minor_units(balance_units),
        ) <==> assess(balance_units, daily_risk_units, max_daily_risk, order) is InsufficientBalance,
        saturating_sum(DecimalValue::of_minor_units(daily_risk_units), order.risk_score@).gt(
            max_daily_risk,
        ) ==> !(assess(balance_units, daily_risk_units, max_daily_risk, order) is Accepted),
        assess(balance_units, daily_risk_units, max_daily_risk, order) is Accepted <==> {
            &&& !saturating_product(order.quantity@, order.price->0@).gt(
                DecimalValue::of_minor_units(balance_units),
            )
            &&& !saturating_sum(
                DecimalValue::of_minor_units(daily_risk_units),
                order.risk_score@,
            ).gt(max_daily_risk)
        },
{
}

/// Rules on an order from the amounts already worked out.
pub fn decide(
    order_value: Decimal,
    available: Decimal,
    daily_risk: Decimal,
    order_risk: Decimal,
    total_risk: Decimal,
    max_daily_risk: Decimal,
) -> (r: DomainResult<()>)
    ensures
        reports(
            r,
            verdict(
                order_value@,
                available@,
                daily_risk@,
                order_risk@,
                total_risk@,
                max_daily_risk@,
            ),
        ),
{
    if order_value.exceeds(&available) {
        return Err(DomainError::InsufficientBalance { required: order_value, available });
    }
    if total_risk.exceeds(&max_daily_risk) {
        let mut detail: String = String::from_str("Daily risk: ");
        detail.append(daily_risk.to_text().as_str());
        detail.append(", Order risk: ");
        detail.append(order_risk.to_text().as_str());
        return Err(DomainError::RiskLimitExceeded(detail));
    }
    Ok(())
}

/// The value of `order`: quantity times limit price, zero without a price.
pub fn value_of_order(order: &InternalOrder) -> (value: Decimal)
    ensures
        value@ == order_value(*order),
{
    match &order.price {
        Some(price) => order.quantity.saturating_mul(price),
        None => Decimal::zero(),
    }
}

/// Rules on `order` against a balance and a day's risk read in minor units.
pub fn assess_order(
    balance_units: i64,
    daily_risk_units: u64,
    max_daily_risk: Decimal,
    order: &InternalOrder,
) -> (r: DomainResult<()>)
    ensures
        reports(r, assess(balance_units as int, daily_risk_units as int, max_daily_risk@, *order)),
{
    let daily_risk: Decimal = Decimal::from_unsigned_minor_units(daily_risk_units);
    decide(
        value_of_order(order),
        Decimal::from_minor_units(balance_units),
        daily_risk,
        order.risk_score,
        daily_risk.saturating_add(&order.risk_score),
        max_daily_risk,
    )
}

} // verus!
