//! The risk engine's two counters as a sequential model.
//!
//! [`crate::risk::engine::RiskEngine`] keeps the counters in atomics that
//! many callers share; each of its updates is a single atomic addition or
//! store. This module states what one such update does to a snapshot of the
//! counters, and what follows for any order in which updates are applied.

use vstd::prelude::*;
use crate::decimal::{clamp, DecimalValue};
use crate::domain::models::InternalOrder;
use crate::risk::rules::{assess, Verdict};

verus! {

/// `v` brought into the range of `u64` by wrapping around.
pub open spec fn wrap_u64(v: int) -> int {
    v % 0x1_0000_0000_0000_0000
}

/// `v` brought into the range of `i64` by wrapping around.
pub open spec fn wrap_i64(v: int) -> int {
    (v + 0x8000_0000_0000_0000) % 0x1_0000_0000_0000_0000 - 0x8000_0000_0000_0000
}

/// What a signed amount adds to the balance, in minor units.
pub open spec fn balance_delta(amount: DecimalValue) -> int {
    clamp(amount.minor_units(), i64::MIN as int, i64::MAX as int)
}

/// What an amount of risk adds to the day's total, in minor units; nothing
/// for a negative amount.
pub open spec fn risk_increment(risk: DecimalValue) -> int {
    clamp(risk.minor_units(), 0, u64::MAX as int)
}

/// A snapshot of the two counters, in minor units.
pub struct Ledger {
    pub balance_units: int,
    pub daily_risk_units: int,
}

impl Ledger {
    /// Both counters are in the range of their atomics.
    pub open spec fn wf(self) -> bool {
        &&& i64::MIN <= self.balance_units <= i64::MAX
        &&& 0 <= self.daily_risk_units <= u64::MAX
    }

    /// The counters of an engine opened with `initial_balance`.
    pub open spec fn opened(initial_balance: DecimalValue) -> Ledger {
        Ledger { balance_units: balance_delta(initial_balance), daily_risk_units: 0 }
    }

    /// The counters after `amount` was added to the balance.
    pub open spec fn update_balance(self, amount: DecimalValue) -> Ledger {
        Ledger { balance_units: wrap_i64(self.balance_units + balance_delta(amount)), ..self }
    }

    /// The counters after `risk` was added to the day's total.
    pub open spec fn add_risk(self, risk: DecimalValue) -> Ledger {
        Ledger { daily_risk_units: wrap_u64(self.daily_risk_units + risk_increment(risk)), ..self }
    }

    /// The counters after the day's total was reset.
    pub open spec fn reset_daily_risk(self) -> Ledger {
        Ledger { daily_risk_units: 0, ..self }
    }

    /// The balance as an amount.
    pub open spec fn balance(self) -> DecimalValue {
        DecimalValue::of_minor_units(self.balance_units)
    }

    /// The day's total as an amount.
    pub open spec fn daily_risk(self) -> DecimalValue {
        DecimalValue::of_minor_units(self.daily_risk_units)
    }

    /// The ruling on `order` at this snapshot.
    pub open spec fn validate_order(self, max_daily_risk: DecimalValue, order: InternalOrder) -> Verdict {
        assess(self.balance_units, self.daily_risk_units, max_daily_risk, order)
    }
}

/// Every update keeps the counters in range.
pub proof fn law_updates_keep_range(ledger: Ledger, amount: DecimalValue)
    requires
        ledger.wf(),
    ensures
        Ledger::opened(amount).wf(),
        ledger.update_balance(amount).wf(),
        ledger.add_risk(amount).wf(),
        ledger.reset_daily_risk().wf(),
{
}

/// After a reset the day's total reads zero, and the balance is untouched.
pub proof fn law_reset_reads_zero(ledger: Ledger)
    ensures
        ledger.reset_daily_risk().daily_risk_units == 0,
        ledger.reset_daily_risk().daily_risk() == DecimalValue::of_minor_units(0),
        ledger.reset_daily_risk().balance_units == ledger.balance_units,
{
}

/// Two additions of risk accumulate to the same total in either order, and,
/// short of the counter's limit, to the sum of the two.
pub proof fn law_add_risk_accumulates(ledger: Ledger, r1: DecimalValue, r2: DecimalValue)
    requires
        ledger.wf(),
    ensures
        ledger.add_risk(r1).add_risk(r2) == ledger.add_risk(r2).add_risk(r1),
        ledger.daily_risk_units + risk_increment(r1) + risk_increment(r2) <= u64::MAX ==> ledger.add_risk(
            r1,
        ).add_risk(r2).daily_risk_units == ledger.daily_risk_units + risk_increment(r1)
            + risk_increment(r2),
        ledger.reset_daily_risk().add_risk(r1).add_risk(r2).daily_risk_units == wrap_u64(
            risk_increment(r1) + risk_increment(r2),
        ),
{
    let k = ledger.daily_risk_units;
    let i1 = risk_increment(r1);
    let i2 = risk_increment(r2);
    lemma_wrap_u64_absorbs(k + i1, i2);
    lemma_wrap_u64_absorbs(k + i2, i1);
    lemma_wrap_u64_absorbs(i1, i2);
    assert(k + i1 + i2 == k + i2 + i1);
}

/// Between resets the day's total never falls, short of the counter's limit.
pub proof fn law_daily_risk_grows(ledger: Ledger, risk: DecimalValue)
    requires
        ledger.wf(),
        ledger.daily_risk_units + risk_increment(risk) <= u64::MAX,
    ensures
        ledger.add_risk(risk).daily_risk_units >= ledger.daily_risk_units,
{
}

/// Wrapping an intermediate sum does not change the wrapped total.
proof fn lemma_wrap_i64_absorbs(x: int, y: int)
    ensures
        wrap_i64(wrap_i64(x) + y) == wrap_i64(x + y),
{
    let m: int = 0x1_0000_0000_0000_0000;
    let h: int = 0x8000_0000_0000_0000;
    vstd::arithmetic::div_mod::lemma_add_mod_noop_right(y, x + h, m);
    assert(wrap_i64(x) + y + h == y + (x + h) % m);
    assert(x + y + h == y + (x + h));
}

/// Wrapping an intermediate sum does not change the wrapped total.
proof fn lemma_wrap_u64_absorbs(x: int, y: int)
    ensures
        wrap_u64(wrap_u64(x) + y) == wrap_u64(x + y),
{
    let m: int = 0x1_0000_0000_0000_0000;
    vstd::arithmetic::div_mod::lemma_add_mod_noop_right(y, x, m);
    assert(wrap_u64(x) + y == y + x % m);
    assert(x + y == y + x);
}

/// Two updates of the balance give the same balance in either order, and,
/// within the counter's range, the sum of the two; the day's total is untouched.
pub proof fn law_balance_updates_accumulate(ledger: Ledger, a1: DecimalValue, a2: DecimalValue)
    requires
        ledger.wf(),
    ensures
        ledger.update_balance(a1).update_balance(a2) == ledger.update_balance(a2).update_balance(a1),
        i64::MIN <= ledger.balance_units + balance_delta(a1) + balance_delta(a2) <= i64::MAX
            && i64::MIN <= ledger.balance_units + balance_delta(a1) <= i64::MAX
            ==> ledger.update_balance(a1).update_balance(a2).balance_units == ledger.balance_units
            + balance_delta(a1) + balance_delta(a2),
        ledger.update_balance(a1).daily_risk_units == ledger.daily_risk_units,
{
    let b = ledger.balance_units;
    let d1 = balance_delta(a1);
    let d2 = balance_delta(a2);
    lemma_wrap_i64_absorbs(b + d1, d2);
    lemma_wrap_i64_absorbs(b + d2, d1);
    assert(b + d1 + d2 == b + d2 + d1);
}

} // verus!
