//! Symbols, instruments, and amounts tagged with a currency.

use vstd::pervasive::unreached;
use vstd::prelude::*;
use vstd::string::StringExecFns;
use crate::decimal::arith::{
    decimal_difference,
    decimal_product,
    decimal_quotient,
    decimal_sum,
};
use crate::decimal::{Comparison, Decimal, DecimalValue};

verus! {

/// Trading pair (e.g., BTC/USD).
#[derive(Clone, Debug, PartialEq, Eq, Hash)]
pub struct Symbol {
    pub base: String,
    pub quote: String,
}

impl Symbol {
    pub fn new(base: &str, quote: &str) -> (symbol: Symbol)
        ensures
            symbol.base@ == base@,
            symbol.quote@ == quote@,
    {
        Symbol { base: String::from_str(base), quote: String::from_str(quote) }
    }

    /// The text of [`Symbol::as_string`]: base, a slash, quote.
    pub open spec fn spec_as_string(self) -> Seq<char> {
        self.base@ + seq!['/'] + self.quote@
    }

    pub fn as_string(&self) -> (text: String)
        ensures
            text@ == self.spec_as_string(),
    {
        proof {
            reveal_strlit("/");
            assert("/"@ =~= seq!['/']);
        }
        let mut text: String = self.base.clone();
        text.append("/");
        text.append(self.quote.as_str());
        text
    }
}

/// Fully-qualified instrument, possibly including venue (exchange/broker).
#[derive(Clone, Debug, PartialEq, Eq, Hash)]
pub struct Instrument {
    pub symbol: Symbol,
    /// Optional venue identifier, e.g. "OKX" or "IBKR".
    pub venue: Option<String>,
}

impl Instrument {
    pub fn new(symbol: Symbol, venue: Option<&str>) -> (instrument: Instrument)
        ensures
            instrument.symbol == symbol,
            instrument.venue is Some <==> venue is Some,
            venue matches Some(v) ==> instrument.venue->0@ == v@,
    {
        let venue: Option<String> = match venue {
            Some(v) => Some(String::from_str(v)),
            None => None,
        };
        Instrument { symbol, venue }
    }

    /// The text of [`Instrument::full_code`]: the symbol, then `@` and the
    /// venue where there is one.
    pub open spec fn spec_full_code(self) -> Seq<char> {
        match self.venue {
            Some(v) => self.symbol.spec_as_string() + seq!['@'] + v@,
            None => self.symbol.spec_as_string(),
        }
    }

    pub fn full_code(&self) -> (code: String)
        ensures
            code@ == self.spec_full_code(),
    {
        match &self.venue {
            Some(v) => {
                proof {
                    reveal_strlit("@");
                    assert("@"@ =~= seq!['@']);
                }
                let mut code: String = self.symbol.as_string();
                code.append("@");
                code.append(v.as_str());
                code
            },
            None => self.symbol.as_string(),
        }
    }
}

/// ISO-like currency codes supported so far.
#[derive(Clone, Copy, Debug, PartialEq, Eq, Hash, Structural)]
pub enum Currency {
    USD,
    USDT,
    EUR,
    BTC,
    ETH,
}

/// Immutable monetary amount tagged with a [`Currency`].
///
/// `==` compares the amounts as numbers, so `1.50` equals `1.5`, and asks
/// for the same currency.
#[derive(Clone, Copy, Debug)]
pub struct Money {
    pub amount: Decimal,
    pub currency: Currency,
}

impl PartialEq for Money {
    fn eq(&self, other: &Money) -> (equal: bool) {
        match self.amount.compare(&other.amount) {
            Comparison::Equal => self.currency == other.currency,
            _ => false,
        }
    }
}

impl vstd::std_specs::cmp::PartialEqSpecImpl for Money {
    open spec fn obeys_eq_spec() -> bool {
        true
    }

    open spec fn eq_spec(&self, other: &Money) -> bool {
        self.amount@.same_amount(other.amount@) && self.currency == other.currency
    }
}

impl Money {
    pub fn new(amount: Decimal, currency: Currency) -> (money: Money)
        ensures
            money.amount == amount,
            money.currency == currency,
    {
        Money { amount, currency }
    }
}

/// Positive (or zero) trade size.
///
/// `==`, `<` and the other comparisons take the sizes as numbers, so `1.50`
/// equals `1.5`.
#[derive(Clone, Copy, Debug)]
pub struct Quantity(pub Decimal);

impl PartialEq for Quantity {
    fn eq(&self, other: &Quantity) -> (equal: bool) {
        match self.0.compare(&other.0) {
            Comparison::Equal => true,
            _ => false,
        }
    }
}

impl vstd::std_specs::cmp::PartialEqSpecImpl for Quantity {
    open spec fn obeys_eq_spec() -> bool {
        true
    }

    open spec fn eq_spec(&self, other: &Quantity) -> bool {
        self.0@.same_amount(other.0@)
    }
}

impl PartialOrd for Quantity {
    fn partial_cmp(&self, other: &Quantity) -> (order: Option<std::cmp::Ordering>) {
        match self.0.compare(&other.0) {
            Comparison::Less => Some(std::cmp::Ordering::Less),
            Comparison::Equal => Some(std::cmp::Ordering::Equal),
            Comparison::Greater => Some(std::cmp::Ordering::Greater),
        }
    }
}

impl vstd::std_specs::cmp::PartialOrdSpecImpl for Quantity {
    open spec fn obeys_partial_cmp_spec() -> bool {
        true
    }

    open spec fn partial_cmp_spec(&self, other: &Quantity) -> Option<std::cmp::Ordering> {
        match self.0@.compare(other.0@) {
            Comparison::Less => Some(std::cmp::Ordering::Less),
            Comparison::Equal => Some(std::cmp::Ordering::Equal),
            Comparison::Greater => Some(std::cmp::Ordering::Greater),
        }
    }
}

impl Quantity {
    pub fn new(amount: Decimal) -> (quantity: Quantity)
        ensures
            quantity.0 == amount,
    {
        Quantity(amount)
    }

    pub fn is_zero(&self) -> (zero: bool)
        ensures
            zero == (self.0@.mantissa == 0),
    {
        self.0.is_zero()
    }

    pub fn abs(&self) -> (magnitude: Quantity)
        ensures
            magnitude.0@.scale == self.0@.scale,
            magnitude.0@.mantissa == self.0@.magnitude(),
    {
        Quantity(self.0.abs())
    }

    /// `self + rhs`, for a sum in range.
    pub fn add(self, rhs: Quantity) -> (sum: Quantity)
        requires
            decimal_sum(self.0@, rhs.0@) is Some,
        ensures
            Some(sum.0@) == decimal_sum(self.0@, rhs.0@),
    {
        match self.0.checked_add(&rhs.0) {
            Some(amount) => Quantity(amount),
            None => unreached(),
        }
    }

    /// `self + rhs`, or `None` where the sum is out of range.
    pub fn checked_add(self, rhs: Quantity) -> (sum: Option<Quantity>)
        ensures
            sum is Some <==> decimal_sum(self.0@, rhs.0@) is Some,
            sum matches Some(s) ==> Some(s.0@) == decimal_sum(self.0@, rhs.0@),
    {
        match self.0.checked_add(&rhs.0) {
            Some(_) => Some(self.add(rhs)),
            None => None,
        }
    }

    /// `self - rhs`, for a difference in range.
    pub fn sub(self, rhs: Quantity) -> (difference: Quantity)
        requires
            decimal_difference(self.0@, rhs.0@) is Some,
        ensures
            Some(difference.0@) == decimal_difference(self.0@, rhs.0@),
    {
        match self.0.checked_sub(&rhs.0) {
            Some(amount) => Quantity(amount),
            None => unreached(),
        }
    }

    /// `self - rhs`, or `None` where the difference is out of range.
    pub fn checked_sub(self, rhs: Quantity) -> (difference: Option<Quantity>)
        ensures
            difference is Some <==> decimal_difference(self.0@, rhs.0@) is Some,
            difference matches Some(d) ==> Some(d.0@) == decimal_difference(self.0@, rhs.0@),
    {
        match self.0.checked_sub(&rhs.0) {
            Some(_) => Some(self.sub(rhs)),
            None => None,
        }
    }

    /// `self * rhs`, for a product in range.
    pub fn mul(self, rhs: Decimal) -> (product: Quantity)
        requires
            decimal_product(self.0@, rhs@) is Some,
        ensures
            Some(product.0@) == decimal_product(self.0@, rhs@),
    {
        match self.0.checked_mul(&rhs) {
            Some(amount) => Quantity(amount),
            None => unreached(),
        }
    }

    /// `self * rhs`, or `None` where the product is out of range.
    pub fn checked_mul(self, rhs: Decimal) -> (product: Option<Quantity>)
        ensures
            product is Some <==> decimal_product(self.0@, rhs@) is Some,
            product matches Some(p) ==> Some(p.0@) == decimal_product(self.0@, rhs@),
    {
        match self.0.checked_mul(&rhs) {
            Some(_) => Some(self.mul(rhs)),
            None => None,
        }
    }

    /// `self / rhs`, for a divisor other than zero and a quotient in range.
    pub fn div(self, rhs: Decimal) -> (quotient: Quantity)
        requires
            decimal_quotient(self.0@, rhs@) is Some,
        ensures
            Some(quotient.0@) == decimal_quotient(self.0@, rhs@),
    {
        match self.0.checked_div(&rhs) {
            Some(amount) => Quantity(amount),
            None => unreached(),
        }
    }

    /// `self / rhs`, or `None` for a zero divisor or a quotient out of range.
    pub fn checked_div(self, rhs: Decimal) -> (quotient: Option<Quantity>)
        ensures
            quotient is Some <==> decimal_quotient(self.0@, rhs@) is Some,
            quotient matches Some(q) ==> Some(q.0@) == decimal_quotient(self.0@, rhs@),
            rhs@.mantissa == 0 ==> quotient is None,
    {
        match self.0.checked_div(&rhs) {
            Some(_) => Some(self.div(rhs)),
            None => None,
        }
    }
}

/// Unit price of an `Instrument` in a given `Currency`.
///
/// `==` compares the amounts as numbers, so `1.50` equals `1.5`, and asks
/// for the same currency.
#[derive(Clone, Copy, Debug)]
pub struct Price {
    pub amount: Decimal,
    pub currency: Currency,
}

impl PartialEq for Price {
    fn eq(&self, other: &Price) -> (equal: bool) {
        match self.amount.compare(&other.amount) {
            Comparison::Equal => self.currency == other.currency,
            _ => false,
        }
    }
}

impl vstd::std_specs::cmp::PartialEqSpecImpl for Price {
    open spec fn obeys_eq_spec() -> bool {
        true
    }

    open spec fn eq_spec(&self, other: &Price) -> bool {
        self.amount@.same_amount(other.amount@) && self.currency == other.currency
    }
}

impl Price {
    pub fn new(amount: Decimal, currency: Currency) -> (price: Price)
        ensures
            price.amount == amount,
            price.currency == currency,
    {
        Price { amount, currency }
    }

    /// Convert *price x quantity* into a [`Money`] value, for a product in range.
    pub fn total(self, qty: Quantity) -> (money: Money)
        requires
            decimal_product(self.amount@, qty.0@) is Some,
        ensures
            Some(money.amount@) == decimal_product(self.amount@, qty.0@),
            money.currency == self.currency,
    {
        match self.amount.checked_mul(&qty.0) {
            Some(amount) => Money::new(amount, self.currency),
            None => unreached(),
        }
    }

    /// *price x quantity* as [`Money`], or `None` where the product is out of range.
    pub fn checked_total(self, qty: Quantity) -> (money: Option<Money>)
        ensures
            money is Some <==> decimal_product(self.amount@, qty.0@) is Some,
            money matches Some(m) ==> {
                &&& Some(m.amount@) == decimal_product(self.amount@, qty.0@)
                &&& m.currency == self.currency
            },
    {
        match self.amount.checked_mul(&qty.0) {
            Some(_) => Some(self.total(qty)),
            None => None,
        }
    }
}

/// Absolute price difference between two legs.
///
/// `==` compares the amounts as numbers, so `1.50` equals `1.5`, and asks
/// for the same currency.
#[derive(Clone, Copy, Debug)]
pub struct Spread {
    pub amount: Decimal,
    pub currency: Currency,
}

/// Ten thousand: the number of basis points in one.
pub open spec fn basis_point_factor() -> DecimalValue {
    DecimalValue { mantissa: 10_000, scale: 0 }
}

/// The spread `amount` over `reference`, in basis points: the quotient of the
/// two, times ten thousand; `None` where either step gives no amount.
pub open spec fn basis_points_of(amount: DecimalValue, reference: DecimalValue) -> Option<DecimalValue> {
    match decimal_quotient(amount, reference) {
        Some(ratio) => decimal_product(ratio, basis_point_factor()),
        None => None,
    }
}

impl PartialEq for Spread {
    fn eq(&self, other: &Spread) -> (equal: bool) {
        match self.amount.compare(&other.amount) {
            Comparison::Equal => self.currency == other.currency,
            _ => false,
        }
    }
}

impl vstd::std_specs::cmp::PartialEqSpecImpl for Spread {
    open spec fn obeys_eq_spec() -> bool {
        true
    }

    open spec fn eq_spec(&self, other: &Spread) -> bool {
        self.amount@.same_amount(other.amount@) && self.currency == other.currency
    }
}

impl Spread {
    pub fn new(amount: Decimal, currency: Currency) -> (spread: Spread)
        ensures
            spread.amount == amount,
            spread.currency == currency,
    {
        Spread { amount, currency }
    }

    /// The spread `ask - bid` of two prices in one currency, for a difference in range.
    pub fn between(bid: Price, ask: Price) -> (spread: Spread)
        requires
            bid.currency == ask.currency,
            decimal_difference(ask.amount@, bid.amount@) is Some,
        ensures
            Some(spread.amount@) == decimal_difference(ask.amount@, bid.amount@),
            spread.currency == bid.currency,
    {
        match ask.amount.checked_sub(&bid.amount) {
            Some(amount) => Spread { amount, currency: bid.currency },
            None => unreached(),
        }
    }

    /// The spread `ask - bid`, or `None` where the currencies differ or the
    /// difference is out of range.
    pub fn checked_between(bid: Price, ask: Price) -> (spread: Option<Spread>)
        ensures
            spread is Some <==> bid.currency == ask.currency && decimal_difference(
                ask.amount@,
                bid.amount@,
            ) is Some,
            spread matches Some(s) ==> {
                &&& Some(s.amount@) == decimal_difference(ask.amount@, bid.amount@)
                &&& s.currency == bid.currency
            },
    {
        if bid.currency == ask.currency {
            match ask.amount.checked_sub(&bid.amount) {
                Some(_) => Some(Spread::between(bid, ask)),
                None => None,
            }
        } else {
            None
        }
    }

    /// Spread in basis points relative to a reference price, where both the
    /// ratio and its multiple are in range.
    pub fn basis_points(&self, reference: Price) -> (points: Decimal)
        requires
            basis_points_of(self.amount@, reference.amount@) is Some,
        ensures
            Some(points@) == basis_points_of(self.amount@, reference.amount@),
    {
        let factor: Decimal = Decimal::from_i64(10_000);
        match self.amount.checked_div(&reference.amount) {
            Some(ratio) => match ratio.checked_mul(&factor) {
                Some(points) => points,
                None => unreached(),
            },
            None => unreached(),
        }
    }

    /// Spread in basis points relative to a reference price, or `None` for a
    /// zero reference or a result out of range.
    pub fn checked_basis_points(&self, reference: Price) -> (points: Option<Decimal>)
        ensures
            points is Some <==> basis_points_of(self.amount@, reference.amount@) is Some,
            points matches Some(p) ==> Some(p@) == basis_points_of(self.amount@, reference.amount@),
            reference.amount@.mantissa == 0 ==> points is None,
    {
        let factor: Decimal = Decimal::from_i64(10_000);
        match self.amount.checked_div(&reference.amount) {
            Some(ratio) => match ratio.checked_mul(&factor) {
                Some(_) => Some(self.basis_points(reference)),
                None => None,
            },
            None => None,
        }
    }
}

} // verus!
