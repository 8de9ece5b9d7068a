//! Exact decimal amounts: a signed 96-bit mantissa over a power of ten.
//!
//! A [`Decimal`] stands for `mantissa / 10^scale`. Comparison and the
//! conversion to minor units are computed exactly on integers.

use vstd::prelude::*;

pub mod arith;
pub mod format;
pub mod laws;
pub mod parse;

verus! {

/// Largest magnitude a mantissa may have: `2^96 - 1`.
pub const MAX_MANTISSA: i128 = 79_228_162_514_264_337_593_543_950_335;

/// Largest number of fractional digits.
pub const MAX_SCALE: u32 = 28;

/// `10^n`.
pub open spec fn pow10(n: nat) -> nat
    decreases n,
{
    if n == 0 {
        1
    } else {
        10 * pow10((n - 1) as nat)
    }
}

/// Quotient of `a / b` rounded toward zero, for a positive `b`.
pub open spec fn div_toward_zero(a: int, b: int) -> int {
    if a >= 0 {
        a / b
    } else {
        -((-a) / b)
    }
}

/// `v` limited to the closed range `lo ..= hi`.
pub open spec fn clamp(v: int, lo: int, hi: int) -> int {
    if v < lo {
        lo
    } else if v > hi {
        hi
    } else {
        v
    }
}

/// Every power of ten is positive.
pub proof fn lemma_pow10_positive(n: nat)
    ensures
        pow10(n) > 0,
    decreases n,
{
    if n > 0 {
        lemma_pow10_positive((n - 1) as nat);
    }
}

/// Powers of ten grow with the exponent.
pub proof fn lemma_pow10_monotone(a: nat, b: nat)
    requires
        a <= b,
    ensures
        pow10(a) <= pow10(b),
    decreases b,
{
    if a < b {
        lemma_pow10_monotone(a, (b - 1) as nat);
    }
}

/// `10^(a + b) == 10^a * 10^b`.
pub proof fn lemma_pow10_add(a: nat, b: nat)
    ensures
        pow10(a + b) == pow10(a) * pow10(b),
    decreases b,
{
    if b == 0 {
        assert(pow10(a) * 1 == pow10(a)) by (nonlinear_arith);
    } else {
        lemma_pow10_add(a, (b - 1) as nat);
        let x = pow10(a);
        let y = pow10((b - 1) as nat);
        assert(a + b == (a + (b - 1) as nat) + 1);
        assert(10 * (x * y) == x * (10 * y)) by (nonlinear_arith);
    }
}

/// The largest power of ten that a `u128` holds.
pub proof fn lemma_pow10_38()
    ensures
        pow10(38) == 100_000_000_000_000_000_000_000_000_000_000_000_000,
{
    reveal_with_fuel(pow10, 39);
}

/// `10^n` for an exponent whose power fits 128 bits.
pub fn pow10_u128(n: u32) -> (p: u128)
    requires
        n <= 38,
    ensures
        p == pow10(n as nat),
        p >= 1,
{
    let mut p: u128 = 1;
    let mut i: u32 = 0;
    while i < n
        invariant
            i <= n <= 38,
            p == pow10(i as nat),
        decreases n - i,
    {
        proof {
            lemma_pow10_monotone((i + 1) as nat, 38);
            lemma_pow10_38();
        }
        p = p * 10;
        i = i + 1;
    }
    proof {
        lemma_pow10_positive(n as nat);
    }
    p
}

/// How one amount stands to another.
#[derive(Clone, Copy, Debug, PartialEq, Eq, Structural)]
pub enum Comparison {
    Less,
    Equal,
    Greater,
}

impl Comparison {
    /// The comparison seen from the other side.
    pub open spec fn spec_reversed(self) -> Comparison {
        match self {
            Comparison::Less => Comparison::Greater,
            Comparison::Equal => Comparison::Equal,
            Comparison::Greater => Comparison::Less,
        }
    }

    /// The comparison seen from the other side.
    pub fn reversed(self) -> (c: Comparison)
        ensures
            c == self.spec_reversed(),
    {
        match self {
            Comparison::Less => Comparison::Greater,
            Comparison::Equal => Comparison::Equal,
            Comparison::Greater => Comparison::Less,
        }
    }
}

/// How the integer `a` stands to the integer `b`.
pub open spec fn compare_ints(a: int, b: int) -> Comparison {
    if a < b {
        Comparison::Less
    } else if a == b {
        Comparison::Equal
    } else {
        Comparison::Greater
    }
}

proof fn lemma_compare_by_quotient(a: int, b: int, t: int, q: int, r: int)
    by (nonlinear_arith)
    requires
        t >= 1,
        a == q * t + r,
        0 <= r < t,
    ensures
        q > b ==> a > b * t,
        q < b ==> a < b * t,
        q == b ==> a == b * t + r,
{
}

proof fn lemma_scale_both_sides(x: int, y: int, p: int)
    by (nonlinear_arith)
    requires
        p > 0,
    ensures
        x < y <==> x * p < y * p,
        x == y <==> x * p == y * p,
{
}

/// How `a` stands to `b * t`, without forming the product.
fn compare_scaled(a: u128, b: u128, t: u128) -> (c: Comparison)
    requires
        t >= 1,
    ensures
        c == compare_ints(a as int, b * t),
{
    let q: u128 = a / t;
    let r: u128 = a % t;
    proof {
        vstd::arithmetic::div_mod::lemma_fundamental_div_mod(a as int, t as int);
        assert(a == q * t + r) by (nonlinear_arith)
            requires
                a == t * q + r,
        ;
        lemma_compare_by_quotient(a as int, b as int, t as int, q as int, r as int);
    }
    if q > b {
        Comparison::Greater
    } else if q < b {
        Comparison::Less
    } else if r > 0 {
        Comparison::Greater
    } else {
        Comparison::Equal
    }
}

/// How `a / 10^sa` stands to `b / 10^sb`.
fn compare_magnitudes(a: u128, sa: u32, b: u128, sb: u32) -> (c: Comparison)
    requires
        sa <= MAX_SCALE,
        sb <= MAX_SCALE,
    ensures
        c == compare_ints(a * pow10(sb as nat), b * pow10(sa as nat)),
{
    if sa >= sb {
        let t: u128 = pow10_u128(sa - sb);
        let c = compare_scaled(a, b, t);
        proof {
            let p = pow10(sb as nat) as int;
            lemma_pow10_positive(sb as nat);
            lemma_pow10_add(sb as nat, (sa - sb) as nat);
            assert(b * pow10(sa as nat) == (b * t) * p) by (nonlinear_arith)
                requires
                    pow10(sa as nat) == p * t,
            ;
            lemma_scale_both_sides(a as int, b * t, p);
        }
        c
    } else {
        let t: u128 = pow10_u128(sb - sa);
        let c = compare_scaled(b, a, t);
        proof {
            let p = pow10(sa as nat) as int;
            lemma_pow10_positive(sa as nat);
            lemma_pow10_add(sa as nat, (sb - sa) as nat);
            assert(a * pow10(sb as nat) == (a * t) * p) by (nonlinear_arith)
                requires
                    pow10(sb as nat) == p * t,
            ;
            lemma_scale_both_sides(b as int, a * t, p);
        }
        c.reversed()
    }
}

/// The mathematical content of a [`Decimal`]: the number `mantissa / 10^scale`.
pub struct DecimalValue {
    pub mantissa: int,
    pub scale: nat,
}

impl DecimalValue {
    /// The mantissa fits 96 bits and the scale is at most [`MAX_SCALE`].
    pub open spec fn wf(self) -> bool {
        &&& -MAX_MANTISSA <= self.mantissa <= MAX_MANTISSA
        &&& self.scale <= MAX_SCALE
    }

    /// `self < other` as numbers.
    pub open spec fn lt(self, other: DecimalValue) -> bool {
        self.mantissa * pow10(other.scale) < other.mantissa * pow10(self.scale)
    }

    /// `self > other` as numbers.
    pub open spec fn gt(self, other: DecimalValue) -> bool {
        other.lt(self)
    }

    /// `self == other` as numbers, whatever their scales.
    pub open spec fn same_amount(self, other: DecimalValue) -> bool {
        self.mantissa * pow10(other.scale) == other.mantissa * pow10(self.scale)
    }

    /// Three-way comparison as numbers.
    pub open spec fn compare(self, other: DecimalValue) -> Comparison {
        if self.lt(other) {
            Comparison::Less
        } else if self.same_amount(other) {
            Comparison::Equal
        } else {
            Comparison::Greater
        }
    }

    /// The amount in hundredths, rounded toward zero.
    pub open spec fn minor_units(self) -> int {
        div_toward_zero(self.mantissa * 100, pow10(self.scale) as int)
    }

    /// The amount of `units` hundredths.
    pub open spec fn of_minor_units(units: int) -> DecimalValue {
        DecimalValue { mantissa: units, scale: 2 }
    }

    /// Zero, with no fractional digits.
    pub open spec fn zero() -> DecimalValue {
        DecimalValue { mantissa: 0, scale: 0 }
    }

    /// The largest amount: `2^96 - 1`.
    pub open spec fn largest() -> DecimalValue {
        DecimalValue { mantissa: MAX_MANTISSA as int, scale: 0 }
    }

    /// The smallest amount: `-(2^96 - 1)`.
    pub open spec fn smallest() -> DecimalValue {
        DecimalValue { mantissa: -MAX_MANTISSA, scale: 0 }
    }
}

/// An exact decimal number `mantissa / 10^scale`.
///
/// The mantissa is at most [`MAX_MANTISSA`] in magnitude and the scale at
/// most [`MAX_SCALE`]; no value of this type is outside that range. `==`
/// tells mantissa and scale apart, so `1.50` and `1.5` differ under it;
/// [`Decimal::compare`] compares them as numbers and finds them equal.
#[derive(Clone, Copy, Debug, PartialEq, Eq, Structural)]
pub struct Decimal {
    mantissa: i128,
    scale: u32,
}

impl View for Decimal {
    type V = DecimalValue;

    closed spec fn view(&self) -> DecimalValue {
        DecimalValue { mantissa: self.mantissa as int, scale: self.scale as nat }
    }
}

impl Decimal {
    /// Both parts are in range; this holds of every value of the type.
    #[verifier::type_invariant]
    pub open spec fn well_formed(self) -> bool {
        self@.wf()
    }

    /// The decimal `mantissa / 10^scale`, if both parts are in range.
    pub fn new(mantissa: i128, scale: u32) -> (d: Option<Decimal>)
        ensures
            d is Some <==> (DecimalValue { mantissa: mantissa as int, scale: scale as nat }).wf(),
            d matches Some(x) ==> x@ == (DecimalValue { mantissa: mantissa as int, scale: scale as nat }),
    {
        if -MAX_MANTISSA <= mantissa && mantissa <= MAX_MANTISSA && scale <= MAX_SCALE {
            Some(Decimal { mantissa, scale })
        } else {
            None
        }
    }

    /// Zero, with no fractional digits.
    pub fn zero() -> (d: Decimal)
        ensures
            d@ == DecimalValue::zero(),
    {
        Decimal { mantissa: 0, scale: 0 }
    }

    /// The whole number `n`.
    pub fn from_i64(n: i64) -> (d: Decimal)
        ensures
            d@ == (DecimalValue { mantissa: n as int, scale: 0 }),
    {
        Decimal { mantissa: n as i128, scale: 0 }
    }

    /// The amount of `units` hundredths, kept with two fractional digits.
    pub fn from_minor_units(units: i64) -> (d: Decimal)
        ensures
            d@ == DecimalValue::of_minor_units(units as int),
    {
        Decimal { mantissa: units as i128, scale: 2 }
    }

    /// The amount of `units` hundredths, kept with two fractional digits.
    pub fn from_unsigned_minor_units(units: u64) -> (d: Decimal)
        ensures
            d@ == DecimalValue::of_minor_units(units as int),
    {
        Decimal { mantissa: units as i128, scale: 2 }
    }

    /// The largest amount: `2^96 - 1`.
    pub fn max_value() -> (d: Decimal)
        ensures
            d@ == DecimalValue::largest(),
    {
        Decimal { mantissa: MAX_MANTISSA, scale: 0 }
    }

    /// The smallest amount: `-(2^96 - 1)`.
    pub fn min_value() -> (d: Decimal)
        ensures
            d@ == DecimalValue::smallest(),
    {
        Decimal { mantissa: -MAX_MANTISSA, scale: 0 }
    }

    /// The mantissa.
    pub fn mantissa(&self) -> (m: i128)
        ensures
            m == self@.mantissa,
            -MAX_MANTISSA <= m <= MAX_MANTISSA,
    {
        proof {
            use_type_invariant(self);
        }
        self.mantissa
    }

    /// The number of fractional digits.
    pub fn scale(&self) -> (s: u32)
        ensures
            s == self@.scale,
            s <= MAX_SCALE,
    {
        proof {
            use_type_invariant(self);
        }
        self.scale
    }

    /// Whether the amount is zero.
    pub fn is_zero(&self) -> (z: bool)
        ensures
            z == (self@.mantissa == 0),
    {
        self.mantissa == 0
    }

    /// Whether the amount is below zero.
    pub fn is_negative(&self) -> (n: bool)
        ensures
            n == (self@.mantissa < 0),
    {
        self.mantissa < 0
    }

    /// Whether the amount is above zero.
    pub fn is_positive(&self) -> (p: bool)
        ensures
            p == (self@.mantissa > 0),
    {
        self.mantissa > 0
    }

    /// How this amount stands to `other`, as numbers.
    pub fn compare(&self, other: &Decimal) -> (c: Comparison)
        ensures
            c == self@.compare(other@),
    {
        proof {
            use_type_invariant(self);
            use_type_invariant(other);
            lemma_pow10_positive(self.scale as nat);
            lemma_pow10_positive(other.scale as nat);
        }
        let ghost pa = pow10(self.scale as nat) as int;
        let ghost pb = pow10(other.scale as nat) as int;
        let a: i128 = self.mantissa;
        let b: i128 = other.mantissa;
        if a >= 0 && b >= 0 {
            compare_magnitudes(a as u128, self.scale, b as u128, other.scale)
        } else if a < 0 && b < 0 {
            let c = compare_magnitudes((-b) as u128, other.scale, (-a) as u128, self.scale);
            proof {
                assert((-b) * pa < (-a) * pb <==> a * pb < b * pa) by (nonlinear_arith);
                assert((-b) * pa == (-a) * pb <==> a * pb == b * pa) by (nonlinear_arith);
            }
            c
        } else if a < 0 {
            proof {
                assert(a * pb < 0) by (nonlinear_arith)
                    requires
                        a < 0,
                        pb > 0,
                ;
                assert(b * pa >= 0) by (nonlinear_arith)
                    requires
                        b >= 0,
                        pa > 0,
                ;
            }
            Comparison::Less
        } else {
            proof {
                assert(a * pb >= 0) by (nonlinear_arith)
                    requires
                        a >= 0,
                        pb > 0,
                ;
                assert(b * pa < 0) by (nonlinear_arith)
                    requires
                        b < 0,
                        pa > 0,
                ;
            }
            Comparison::Greater
        }
    }

    /// Whether this amount is strictly above `other`.
    pub fn exceeds(&self, other: &Decimal) -> (g: bool)
        ensures
            g == self@.gt(other@),
    {
        match self.compare(other) {
            Comparison::Greater => true,
            _ => false,
        }
    }

    /// The amount in hundredths, rounded toward zero, as a 128-bit integer.
    pub fn minor_units(&self) -> (units: i128)
        ensures
            units == self@.minor_units(),
    {
        proof {
            use_type_invariant(self);
        }
        let p: u128 = pow10_u128(self.scale);
        if self.mantissa >= 0 {
            let scaled: u128 = (self.mantissa as u128) * 100;
            (scaled / p) as i128
        } else {
            let scaled: u128 = ((-self.mantissa) as u128) * 100;
            -((scaled / p) as i128)
        }
    }

    /// The amount in hundredths, rounded toward zero and limited to the range of `i64`.
    pub fn to_minor_units(&self) -> (units: i64)
        ensures
            units == clamp(self@.minor_units(), i64::MIN as int, i64::MAX as int),
    {
        let exact: i128 = self.minor_units();
        if exact < i64::MIN as i128 {
            i64::MIN
        } else if exact > i64::MAX as i128 {
            i64::MAX
        } else {
            exact as i64
        }
    }

    /// The amount in hundredths, rounded toward zero and limited to the range of `u64`.
    pub fn to_unsigned_minor_units(&self) -> (units: u64)
        ensures
            units == clamp(self@.minor_units(), 0, u64::MAX as int),
    {
        let exact: i128 = self.minor_units();
        if exact < 0 {
            0
        } else if exact > u64::MAX as i128 {
            u64::MAX
        } else {
            exact as u64
        }
    }

    /// The magnitude, at the same scale.
    pub fn abs(&self) -> (d: Decimal)
        ensures
            d@.scale == self@.scale,
            d@.mantissa == if self@.mantissa < 0 { -self@.mantissa } else { self@.mantissa },
    {
        proof {
            use_type_invariant(self);
        }
        if self.mantissa < 0 {
            Decimal { mantissa: -self.mantissa, scale: self.scale }
        } else {
            *self
        }
    }
}

} // verus!
