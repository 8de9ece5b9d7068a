//! Sums, differences, products and quotients of decimals.
//!
//! The four operations are those of the `rust_decimal` crate, which rounds a
//! result that needs more than 28 fractional digits or 96 bits and reports
//! one that is out of range. This module names each result and hands it on;
//! nothing here re-computes what `rust_decimal` computed.

use vstd::prelude::*;
use crate::decimal::{Decimal, DecimalValue};

verus! {

/// What `rust_decimal` gives for `a + b`; `None` where it reports an overflow.
pub uninterp spec fn decimal_sum(a: DecimalValue, b: DecimalValue) -> Option<DecimalValue>;

/// What `rust_decimal` gives for `a - b`; `None` where it reports an overflow.
pub uninterp spec fn decimal_difference(a: DecimalValue, b: DecimalValue) -> Option<DecimalValue>;

/// What `rust_decimal` gives for `a * b`; `None` where it reports an overflow.
pub uninterp spec fn decimal_product(a: DecimalValue, b: DecimalValue) -> Option<DecimalValue>;

/// What `rust_decimal` gives for `a / b`; `None` for a zero divisor or an overflow.
pub uninterp spec fn decimal_quotient(a: DecimalValue, b: DecimalValue) -> Option<DecimalValue>;

/// The mathematical content of an optional decimal.
pub open spec fn value_of(d: Option<Decimal>) -> Option<DecimalValue> {
    match d {
        Some(x) => Some(x@),
        None => None,
    }
}

/// `rust_decimal::Decimal::checked_add` on the two amounts, rebuilt from and
/// taken apart into mantissa and scale. The result is the crate's sum, by name.
#[verifier::external_body]
fn outside_sum(a: Decimal, b: Decimal) -> (r: Option<Decimal>)
    ensures
        value_of(r) == decimal_sum(a@, b@),
{
    let x = rust_decimal::Decimal::from_i128_with_scale(a.mantissa, a.scale);
    let y = rust_decimal::Decimal::from_i128_with_scale(b.mantissa, b.scale);
    match x.checked_add(y) {
        Some(v) => Some(Decimal { mantissa: v.mantissa(), scale: v.scale() }),
        None => None,
    }
}

/// `rust_decimal::Decimal::checked_sub` on the two amounts, rebuilt from and
/// taken apart into mantissa and scale. The result is the crate's difference, by name.
#[verifier::external_body]
fn outside_difference(a: Decimal, b: Decimal) -> (r: Option<Decimal>)
    ensures
        value_of(r) == decimal_difference(a@, b@),
{
    let x = rust_decimal::Decimal::from_i128_with_scale(a.mantissa, a.scale);
    let y = rust_decimal::Decimal::from_i128_with_scale(b.mantissa, b.scale);
    match x.checked_sub(y) {
        Some(v) => Some(Decimal { mantissa: v.mantissa(), scale: v.scale() }),
        None => None,
    }
}

/// `rust_decimal::Decimal::checked_mul` on the two amounts, rebuilt from and
/// taken apart into mantissa and scale. The result is the crate's product, by name.
#[verifier::external_body]
fn outside_product(a: Decimal, b: Decimal) -> (r: Option<Decimal>)
    ensures
        value_of(r) == decimal_product(a@, b@),
{
    let x = rust_decimal::Decimal::from_i128_with_scale(a.mantissa, a.scale);
    let y = rust_decimal::Decimal::from_i128_with_scale(b.mantissa, b.scale);
    match x.checked_mul(y) {
        Some(v) => Some(Decimal { mantissa: v.mantissa(), scale: v.scale() }),
        None => None,
    }
}

/// `rust_decimal::Decimal::checked_div` on the two amounts, rebuilt from and
/// taken apart into mantissa and scale. The result is the crate's quotient, by
/// name; the crate gives none for a zero divisor.
#[verifier::external_body]
fn outside_quotient(a: Decimal, b: Decimal) -> (r: Option<Decimal>)
    ensures
        value_of(r) == decimal_quotient(a@, b@),
        b@.mantissa == 0 ==> r is None,
{
    let x = rust_decimal::Decimal::from_i128_with_scale(a.mantissa, a.scale);
    let y = rust_decimal::Decimal::from_i128_with_scale(b.mantissa, b.scale);
    match x.checked_div(y) {
        Some(v) => Some(Decimal { mantissa: v.mantissa(), scale: v.scale() }),
        None => None,
    }
}

/// The sum, held at the nearer end of the range where it would leave it.
pub open spec fn saturating_sum(a: DecimalValue, b: DecimalValue) -> DecimalValue {
    match decimal_sum(a, b) {
        Some(v) => v,
        None => if a.mantissa >= 0 {
            DecimalValue::largest()
        } else {
            DecimalValue::smallest()
        },
    }
}

/// The product, held at the nearer end of the range where it would leave it.
pub open spec fn saturating_product(a: DecimalValue, b: DecimalValue) -> DecimalValue {
    match decimal_product(a, b) {
        Some(v) => v,
        None => if (a.mantissa < 0) == (b.mantissa < 0) {
            DecimalValue::largest()
        } else {
            DecimalValue::smallest()
        },
    }
}

impl Decimal {
    /// `self + other`; where the sum is out of range, the largest amount for
    /// a `self` that is not negative and the smallest for one that is.
    pub fn saturating_add(&self, other: &Decimal) -> (r: Decimal)
        ensures
            r@ == saturating_sum(self@, other@),
    {
        match outside_sum(*self, *other) {
            Some(v) => v,
            None => if self.is_negative() {
                Decimal::min_value()
            } else {
                Decimal::max_value()
            },
        }
    }

    /// `self * other`; where the product is out of range, the largest amount
    /// for factors of one sign and the smallest for factors of two.
    pub fn saturating_mul(&self, other: &Decimal) -> (r: Decimal)
        ensures
            r@ == saturating_product(self@, other@),
    {
        match outside_product(*self, *other) {
            Some(v) => v,
            None => if self.is_negative() == other.is_negative() {
                Decimal::max_value()
            } else {
                Decimal::min_value()
            },
        }
    }

    /// `self + other`, or `None` where the sum is out of range.
    pub fn checked_add(&self, other: &Decimal) -> (r: Option<Decimal>)
        ensures
            value_of(r) == decimal_sum(self@, other@),
    {
        outside_sum(*self, *other)
    }

    /// `self - other`, or `None` where the difference is out of range.
    pub fn checked_sub(&self, other: &Decimal) -> (r: Option<Decimal>)
        ensures
            value_of(r) == decimal_difference(self@, other@),
    {
        outside_difference(*self, *other)
    }

    /// `self * other`, or `None` where the product is out of range.
    pub fn checked_mul(&self, other: &Decimal) -> (r: Option<Decimal>)
        ensures
            value_of(r) == decimal_product(self@, other@),
    {
        outside_product(*self, *other)
    }

    /// `self / other`, or `None` for a zero divisor or a quotient out of range.
    pub fn checked_div(&self, other: &Decimal) -> (r: Option<Decimal>)
        ensures
            value_of(r) == decimal_quotient(self@, other@),
            other@.mantissa == 0 ==> r is None,
    {
        outside_quotient(*self, *other)
    }
}

} // verus!
