//! What holds of every decimal: its text reads back as itself, its order is
//! that of the numbers, and hundredths pass through unchanged.

use vstd::prelude::*;
use crate::decimal::parse::{
    all_digits,
    digit_value,
    digits_value,
    first_point,
    fraction_part,
    has_sign,
    is_digit,
    is_unsigned_decimal,
    lemma_digits_value_push,
    parse_decimal,
    whole_part,
};
use crate::decimal::{
    lemma_pow10_add,
    lemma_pow10_positive,
    pow10,
    Comparison,
    DecimalValue,
    MAX_MANTISSA,
};
use crate::text::{digit_char, lemma_first_index_at, nat_digits, padded_digits};

verus! {

/// The character of a digit is a digit, and stands for it.
proof fn lemma_digit_char(d: nat)
    requires
        d < 10,
    ensures
        is_digit(digit_char(d)),
        digit_value(digit_char(d)) == d,
        digit_char(d) != '.',
        digit_char(d) != '-',
        digit_char(d) != '+',
{
}

/// The digits of a number are digits, at least one, and write the number.
proof fn lemma_nat_digits(n: nat)
    ensures
        nat_digits(n).len() >= 1,
        all_digits(nat_digits(n)),
        digits_value(nat_digits(n)) == n,
    decreases n,
{
    if n < 10 {
        lemma_digit_char(n);
        let s = seq![digit_char(n)];
        assert(s.drop_last() =~= Seq::<char>::empty());
        assert(digits_value(s) == 10 * digits_value(s.drop_last()) + digit_value(s.last()));
    } else {
        lemma_nat_digits(n / 10);
        lemma_digit_char(n % 10);
        lemma_digits_value_push(nat_digits(n / 10), digit_char(n % 10));
    }
}

/// The padded digits of a number are digits, as many as asked for, and
/// appended to a text they write its value shifted, plus the number's last
/// digits.
proof fn lemma_padded_digits(prefix: Seq<char>, n: nat, width: nat)
    ensures
        padded_digits(n, width).len() == width,
        all_digits(padded_digits(n, width)),
        digits_value(prefix + padded_digits(n, width)) == digits_value(prefix) * pow10(width) + n
            % pow10(width),
    decreases width,
{
    lemma_pow10_positive(width);
    if width == 0 {
        assert(prefix + padded_digits(n, width) =~= prefix);
        assert(digits_value(prefix) * 1 == digits_value(prefix)) by (nonlinear_arith);
    } else {
        let shorter = padded_digits(n / 10, (width - 1) as nat);
        let last = digit_char(n % 10);
        lemma_padded_digits(prefix, n / 10, (width - 1) as nat);
        lemma_digit_char(n % 10);
        lemma_pow10_positive((width - 1) as nat);
        assert(prefix + padded_digits(n, width) =~= (prefix + shorter).push(last));
        lemma_digits_value_push(prefix + shorter, last);
        let p = pow10((width - 1) as nat) as int;
        let v = digits_value(prefix) as int;
        vstd::arithmetic::div_mod::lemma_mod_breakdown(n as int, 10, p);
        assert(pow10(width) == 10 * p);
        assert(10 * (v * p + (n / 10) as int % p) + (n % 10) as int == v * (10 * p) + (10 * ((n as int
            / 10) % p) + n as int % 10)) by (nonlinear_arith);
    }
}

/// The text of a decimal reads back as the decimal: same mantissa, same scale.
pub proof fn law_text_round_trip(d: DecimalValue)
    requires
        d.wf(),
    ensures
        parse_decimal(d.text()) == Some(d),
{
    let unit = pow10(d.scale);
    let magnitude = d.magnitude();
    let whole = nat_digits(magnitude / unit);
    let fraction = padded_digits(magnitude % unit, d.scale);
    let sign = if d.mantissa < 0 { seq!['-'] } else { Seq::<char>::empty() };
    let text = d.text();
    lemma_pow10_positive(d.scale);
    lemma_nat_digits(magnitude / unit);
    lemma_padded_digits(whole, magnitude % unit, d.scale);
    assert(is_digit(whole[0]));
    let body = if d.scale == 0 { whole } else { whole + seq!['.'] + fraction };
    assert(text =~= sign + body);
    assert(body[0] == whole[0]);
    if d.mantissa < 0 {
        assert(text[0] == '-');
        assert(has_sign(text));
        assert(text.skip(1) =~= body);
    } else {
        assert(text =~= body);
        assert(text[0] == whole[0]);
        assert(!has_sign(text));
    }
    assert forall|j: int| 0 <= j < whole.len() implies body[j] != '.' by {
        assert(body[j] == whole[j]);
        assert(is_digit(whole[j]));
    }
    if d.scale == 0 {
        lemma_first_index_at(body, '.', whole.len() as int);
        assert(whole_part(body) =~= whole);
        assert(fraction_part(body) =~= Seq::<char>::empty());
        assert(fraction =~= Seq::<char>::empty());
    } else {
        assert(body[whole.len() as int] == '.');
        lemma_first_index_at(body, '.', whole.len() as int);
        assert(whole_part(body) =~= whole);
        assert(fraction_part(body) =~= fraction);
    }
    assert(first_point(body) == whole.len());
    let m = magnitude as int;
    let u = unit as int;
    vstd::arithmetic::div_mod::lemma_fundamental_div_mod(m, u);
    vstd::arithmetic::div_mod::lemma_small_mod((m % u) as nat, unit);
    assert((m / u) * u == u * (m / u)) by (nonlinear_arith);
    assert(digits_value(whole + fraction) == magnitude);
    assert(magnitude <= MAX_MANTISSA);
    assert(is_unsigned_decimal(body));
}

/// An amount stands equal to itself, and to the same amount at any scale.
pub proof fn law_compare_reflexive(d: DecimalValue, extra: nat)
    ensures
        d.compare(d) == Comparison::Equal,
        d.compare(DecimalValue { mantissa: d.mantissa * pow10(extra), scale: d.scale + extra })
            == Comparison::Equal,
{
    let p = pow10(d.scale) as int;
    let e = pow10(extra) as int;
    lemma_pow10_add(d.scale, extra);
    assert(d.mantissa * (p * e) == (d.mantissa * e) * p) by (nonlinear_arith);
}

/// Seen from the other side, a comparison is reversed.
pub proof fn law_compare_reversed(a: DecimalValue, b: DecimalValue)
    ensures
        b.compare(a) == a.compare(b).spec_reversed(),
        a.gt(b) <==> a.compare(b) == Comparison::Greater,
        a.lt(b) <==> a.compare(b) == Comparison::Less,
        a.same_amount(b) <==> a.compare(b) == Comparison::Equal,
{
}

/// The order of amounts is transitive.
pub proof fn law_lt_transitive(a: DecimalValue, b: DecimalValue, c: DecimalValue)
    requires
        a.lt(b),
        b.lt(c),
    ensures
        a.lt(c),
{
    let pa = pow10(a.scale) as int;
    let pb = pow10(b.scale) as int;
    let pc = pow10(c.scale) as int;
    lemma_pow10_positive(a.scale);
    lemma_pow10_positive(b.scale);
    lemma_pow10_positive(c.scale);
    assert(a.mantissa * pc < c.mantissa * pa) by (nonlinear_arith)
        requires
            a.mantissa * pb < b.mantissa * pa,
            b.mantissa * pc < c.mantissa * pb,
            pa > 0,
            pb > 0,
            pc > 0,
    {
        assert((a.mantissa * pb) * pc < (b.mantissa * pa) * pc);
        assert((b.mantissa * pc) * pa < (c.mantissa * pb) * pa);
        assert((a.mantissa * pc) * pb < (c.mantissa * pa) * pb);
    }
}

/// Equal amounts compare alike with every other amount.
pub proof fn law_same_amount_compares_alike(a: DecimalValue, b: DecimalValue, c: DecimalValue)
    requires
        a.same_amount(b),
    ensures
        a.compare(c) == b.compare(c),
{
    let pa = pow10(a.scale) as int;
    let pb = pow10(b.scale) as int;
    let pc = pow10(c.scale) as int;
    lemma_pow10_positive(a.scale);
    lemma_pow10_positive(b.scale);
    lemma_pow10_positive(c.scale);
    assert((a.mantissa * pc < c.mantissa * pa) <==> (b.mantissa * pc < c.mantissa * pb))
        by (nonlinear_arith)
        requires
            a.mantissa * pb == b.mantissa * pa,
            pa > 0,
            pb > 0,
            pc > 0,
    {
        assert((a.mantissa * pc) * pb == (b.mantissa * pc) * pa);
        assert((c.mantissa * pa) * pb == (c.mantissa * pb) * pa);
        assert((a.mantissa * pc < c.mantissa * pa) <==> ((a.mantissa * pc) * pb < (c.mantissa * pa)
            * pb));
        assert((b.mantissa * pc < c.mantissa * pb) <==> ((b.mantissa * pc) * pa < (c.mantissa * pb)
            * pa));
    }
    assert((a.mantissa * pc == c.mantissa * pa) <==> (b.mantissa * pc == c.mantissa * pb))
        by (nonlinear_arith)
        requires
            a.mantissa * pb == b.mantissa * pa,
            pa > 0,
            pb > 0,
            pc > 0,
    {
        assert((a.mantissa * pc) * pb == (b.mantissa * pc) * pa);
        assert((c.mantissa * pa) * pb == (c.mantissa * pb) * pa);
        assert((a.mantissa * pc == c.mantissa * pa) <==> ((a.mantissa * pc) * pb == (c.mantissa
            * pa) * pb));
        assert((b.mantissa * pc == c.mantissa * pb) <==> ((b.mantissa * pc) * pa == (c.mantissa
            * pb) * pa));
    }
}

/// An amount of so many hundredths is that many minor units, and zero is
/// no minor unit at any scale.
pub proof fn law_minor_units_round_trip(units: int, scale: nat)
    ensures
        DecimalValue::of_minor_units(units).minor_units() == units,
        (DecimalValue { mantissa: 0, scale }).minor_units() == 0,
{
    reveal_with_fuel(pow10, 3);
    assert(pow10(2) == 100);
    if units >= 0 {
        assert((units * 100) / 100 == units);
    } else {
        assert((-(units * 100)) / 100 == -units);
    }
    lemma_pow10_positive(scale);
    assert(0int / (pow10(scale) as int) == 0) by (nonlinear_arith)
        requires
            pow10(scale) > 0,
    ;
}

/// Minor units round toward zero: they never overstate the magnitude of an
/// amount, and fall short of it by less than one unit.
pub proof fn law_minor_units_truncate(d: DecimalValue)
    ensures
        d.mantissa >= 0 ==> d.minor_units() * pow10(d.scale) <= d.mantissa * 100 < (d.minor_units()
            + 1) * pow10(d.scale),
        d.mantissa < 0 ==> (d.minor_units() - 1) * pow10(d.scale) < d.mantissa * 100
            <= d.minor_units() * pow10(d.scale),
{
    let p = pow10(d.scale) as int;
    lemma_pow10_positive(d.scale);
    if d.mantissa >= 0 {
        let x = d.mantissa * 100;
        vstd::arithmetic::div_mod::lemma_fundamental_div_mod(x, p);
        assert((x / p) * p == p * (x / p)) by (nonlinear_arith);
        assert((x / p + 1) * p == p * (x / p) + p) by (nonlinear_arith);
    } else {
        let x = -(d.mantissa * 100);
        vstd::arithmetic::div_mod::lemma_fundamental_div_mod(x, p);
        assert(d.minor_units() == -(x / p));
        assert((-(x / p)) * p == -(p * (x / p))) by (nonlinear_arith);
        assert((-(x / p) - 1) * p == -(p * (x / p)) - p) by (nonlinear_arith);
    }
}

} // verus!
