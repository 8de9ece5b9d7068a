//! The risk engine as many callers share it: two atomic counters and a fixed ceiling.

use std::sync::atomic::{AtomicI64, AtomicU64, Ordering};
use vstd::prelude::*;
use crate::decimal::{Decimal, DecimalValue};
use crate::domain::errors::DomainResult;
use crate::domain::models::InternalOrder;
use crate::risk::rules::{assess, assess_order, reports};

verus! {

/// The gatekeeper: it validates orders against the balance and the day's risk.
///
/// Both counters are atomics in minor units. No operation blocks, and none
/// spans both counters: a reader may see one updated and not yet the other.
/// Each update is one atomic addition, which wraps around at the end of the
/// counter's range, or one atomic store; what it does to a snapshot of the
/// counters is stated by [`crate::risk::ledger::Ledger`]. Since other
/// callers may step in between any two operations, the operations
/// themselves can promise nothing about what the next read finds.
pub struct RiskEngine {
    balance_units: AtomicI64,
    max_daily_risk: Decimal,
    daily_risk_units: AtomicU64,
}

impl RiskEngine {
    /// The ceiling on the day's risk, fixed when the engine was built.
    pub closed spec fn ceiling(&self) -> DecimalValue {
        self.max_daily_risk@
    }

    /// Builds an engine with a balance and a ceiling on the day's risk; the
    /// day's total starts at zero. The balance counts in hundredths, rounded
    /// toward zero.
    pub fn new(initial_balance: Decimal, max_daily_risk: Decimal) -> (engine: RiskEngine)
        ensures
            engine.ceiling() == max_daily_risk@,
    {
        RiskEngine {
            balance_units: AtomicI64::new(initial_balance.to_minor_units()),
            max_daily_risk,
            daily_risk_units: AtomicU64::new(0),
        }
    }

    /// The ceiling on the day's risk.
    pub fn max_daily_risk(&self) -> (ceiling: Decimal)
        ensures
            ceiling@ == self.ceiling(),
    {
        self.max_daily_risk
    }

    fn read_balance(&self) -> i64 {
        self.balance_units.load(Ordering::Relaxed)
    }

    fn read_daily_risk(&self) -> u64 {
        self.daily_risk_units.load(Ordering::Relaxed)
    }

    fn add_to_balance(&self, units: i64) {
        self.balance_units.fetch_add(units, Ordering::SeqCst);
    }

    fn add_to_daily_risk(&self, units: u64) {
        self.daily_risk_units.fetch_add(units, Ordering::SeqCst);
    }

    fn clear_daily_risk(&self) {
        self.daily_risk_units.store(0, Ordering::SeqCst);
    }

    /// Rules on `order` against the counters as read at this moment.
    ///
    /// Nothing is reserved: the counters are left as they were, and two
    /// callers may both pass against the same balance.
    pub fn validate_order(&self, order: &InternalOrder) -> (r: DomainResult<()>)
        ensures
            exists|balance: i64, daily_risk: u64|
                reports(r, #[trigger] assess(balance as int, daily_risk as int, self.ceiling(), *order)),
    {
        let balance: i64 = self.read_balance();
        let daily_risk: u64 = self.read_daily_risk();
        let r = assess_order(balance, daily_risk, self.max_daily_risk, order);
        assert(reports(r, assess(balance as int, daily_risk as int, self.ceiling(), *order)));
        r
    }

    /// Adds a signed amount to the balance: a credit above zero, a debit
    /// below. The amount counts in hundredths, rounded toward zero. The
    /// balance may fall below zero.
    pub fn update_balance(&self, amount: Decimal) {
        self.add_to_balance(amount.to_minor_units());
    }

    /// The balance as read at this moment, with two fractional digits.
    pub fn get_balance(&self) -> (balance: Decimal)
        ensures
            balance@.scale == 2,
            i64::MIN <= balance@.mantissa <= i64::MAX,
    {
        Decimal::from_minor_units(self.read_balance())
    }

    /// Adds an amount of risk to the day's total; a negative amount adds
    /// nothing. The amount counts in hundredths, rounded toward zero.
    pub fn add_risk(&self, risk: Decimal) {
        self.add_to_daily_risk(risk.to_unsigned_minor_units());
    }

    /// The day's total as read at this moment, with two fractional digits.
    pub fn get_daily_risk(&self) -> (daily_risk: Decimal)
        ensures
            daily_risk@.scale == 2,
            0 <= daily_risk@.mantissa <= u64::MAX,
    {
        Decimal::from_unsigned_minor_units(self.read_daily_risk())
    }

    /// Sets the day's total back to zero. Meant for one scheduler, once a
    /// day: an addition that races with the reset may be lost.
    pub fn reset_daily_risk(&self) {
        self.clear_daily_risk();
    }
}

} // verus!
