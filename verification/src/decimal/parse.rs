//! Reading a decimal from its text: `[+-] digits [. digits]`.

use vstd::prelude::*;
use crate::decimal::{Decimal, DecimalValue, MAX_MANTISSA, MAX_SCALE};
use crate::text::{chars_of, first_index, lemma_first_index_at, lemma_first_index_bounds};

verus! {

/// Whether `c` is one of `0` to `9`.
pub open spec fn is_digit(c: char) -> bool {
    '0' <= c && c <= '9'
}

/// The number that the digit `c` stands for.
pub open spec fn digit_value(c: char) -> nat {
    (c as u32 - '0' as u32) as nat
}

/// Whether every character of `s` is a digit.
pub open spec fn all_digits(s: Seq<char>) -> bool {
    forall|i: int| 0 <= i < s.len() ==> is_digit(#[trigger] s[i])
}

/// The number written by the digits `s`, read in base ten.
pub open spec fn digits_value(s: Seq<char>) -> nat
    decreases s.len(),
{
    if s.len() == 0 {
        0
    } else {
        10 * digits_value(s.drop_last()) + digit_value(s.last())
    }
}

/// Index of the first `.` in `s`, or `s.len()` where there is none.
pub open spec fn first_point(s: Seq<char>) -> int {
    first_index(s, '.')
}

/// Whether `s` begins with a sign character.
pub open spec fn has_sign(s: Seq<char>) -> bool {
    s.len() > 0 && (s[0] == '-' || s[0] == '+')
}

/// The digits before the point of the unsigned text `body`.
pub open spec fn whole_part(body: Seq<char>) -> Seq<char> {
    body.take(first_point(body))
}

/// The digits after the point of the unsigned text `body`; empty where there is no point.
pub open spec fn fraction_part(body: Seq<char>) -> Seq<char> {
    if first_point(body) < body.len() {
        body.skip(first_point(body) + 1)
    } else {
        Seq::empty()
    }
}

/// Whether the unsigned text `body` reads `digits` or `digits . digits`, within range.
pub open spec fn is_unsigned_decimal(body: Seq<char>) -> bool {
    &&& whole_part(body).len() > 0
    &&& all_digits(whole_part(body))
    &&& all_digits(fraction_part(body))
    &&& first_point(body) < body.len() ==> fraction_part(body).len() > 0
    &&& fraction_part(body).len() <= MAX_SCALE
    &&& digits_value(whole_part(body) + fraction_part(body)) <= MAX_MANTISSA
}

/// The decimal that the text `s` writes, if it writes one.
///
/// The text is an optional sign, one or more digits, and optionally a point
/// followed by one or more digits. Each digit after the point adds one to the
/// scale, so `"1.50"` is `150 / 10^2`.
pub open spec fn parse_decimal(s: Seq<char>) -> Option<DecimalValue> {
    let body = if has_sign(s) { s.skip(1) } else { s };
    let magnitude = digits_value(whole_part(body) + fraction_part(body)) as int;
    if is_unsigned_decimal(body) {
        Some(
            DecimalValue {
                mantissa: if has_sign(s) && s[0] == '-' { -magnitude } else { magnitude },
                scale: fraction_part(body).len(),
            },
        )
    } else {
        None
    }
}

proof fn lemma_first_point_at(s: Seq<char>, i: int)
    requires
        0 <= i <= s.len(),
        forall|j: int| 0 <= j < i ==> s[j] != '.',
        i < s.len() ==> s[i] == '.',
    ensures
        first_point(s) == i,
{
    lemma_first_index_at(s, '.', i);
}

proof fn lemma_first_point_bounds(s: Seq<char>)
    ensures
        0 <= first_point(s) <= s.len(),
        forall|j: int| 0 <= j < first_point(s) ==> s[j] != '.',
        first_point(s) < s.len() ==> s[first_point(s)] == '.',
{
    lemma_first_index_bounds(s, '.');
}

/// Appending one digit multiplies the value by ten and adds the digit.
pub proof fn lemma_digits_value_push(s: Seq<char>, c: char)
    ensures
        digits_value(s.push(c)) == 10 * digits_value(s) + digit_value(c),
{
    assert(s.push(c).drop_last() =~= s);
}

/// Digits appended to a text never lower the value it writes.
pub proof fn lemma_digits_value_extends(s: Seq<char>, t: Seq<char>)
    ensures
        digits_value(s + t) >= digits_value(s),
    decreases t.len(),
{
    if t.len() == 0 {
        assert(s + t =~= s);
    } else {
        assert((s + t).drop_last() =~= s + t.drop_last());
        lemma_digits_value_extends(s, t.drop_last());
    }
}

fn is_digit_char(c: char) -> (d: bool)
    ensures
        d == is_digit(c),
{
    '0' <= c && c <= '9'
}

fn digit_of(c: char) -> (v: u128)
    requires
        is_digit(c),
    ensures
        v == digit_value(c),
        v <= 9,
{
    (c as u32 - '0' as u32) as u128
}

/// A value above the limit after `k + 1` leading digits rules the text out.
proof fn lemma_leading_digits_too_large(body: Seq<char>, k: int)
    requires
        0 <= k < body.len(),
        forall|j: int| 0 <= j <= k ==> is_digit(#[trigger] body[j]),
        digits_value(body.take(k + 1)) > MAX_MANTISSA,
    ensures
        !is_unsigned_decimal(body),
{
    lemma_first_point_bounds(body);
    let fp = first_point(body);
    if fp <= k {
        assert(is_digit(body[fp]));
    } else {
        let whole = whole_part(body);
        let fraction = fraction_part(body);
        let tail = body.subrange(k + 1, fp) + fraction;
        assert(whole + fraction =~= body.take(k + 1) + tail);
        lemma_digits_value_extends(body.take(k + 1), tail);
    }
}

/// A character that is neither a digit nor the first point rules the text out.
proof fn lemma_stray_character(body: Seq<char>, k: int)
    requires
        0 <= k < body.len(),
        forall|j: int| 0 <= j < k ==> is_digit(#[trigger] body[j]),
        !is_digit(body[k]),
        body[k] != '.',
    ensures
        !is_unsigned_decimal(body),
{
    lemma_first_point_bounds(body);
    let fp = first_point(body);
    if fp <= k {
        if fp < k {
            assert(is_digit(body[fp]));
        }
    } else {
        assert(whole_part(body)[k] == body[k]);
    }
}

/// Reads the unsigned text `cs[start..]`: its digits as one number, and how many follow the point.
fn parse_unsigned(cs: &Vec<char>, start: usize) -> (r: Option<(u128, u32)>)
    requires
        start <= cs.len(),
    ensures
        r is Some <==> is_unsigned_decimal(cs@.skip(start as int)),
        r matches Some((magnitude, scale)) ==> {
            &&& magnitude == digits_value(
                whole_part(cs@.skip(start as int)) + fraction_part(cs@.skip(start as int)),
            )
            &&& scale == fraction_part(cs@.skip(start as int)).len()
            &&& magnitude <= MAX_MANTISSA
            &&& scale <= MAX_SCALE
        },
{
    let ghost body = cs@.skip(start as int);
    let n: usize = cs.len();
    let mut i: usize = start;
    let mut acc: u128 = 0;
    assert(body.take(0) =~= Seq::<char>::empty());
    while i < n && is_digit_char(cs[i])
        invariant
            start <= i <= n,
            n == cs.len(),
            body == cs@.skip(start as int),
            forall|j: int| 0 <= j < i - start ==> is_digit(#[trigger] body[j]),
            acc == digits_value(body.take(i - start)),
            acc <= MAX_MANTISSA,
        decreases n - i,
    {
        let d: u128 = digit_of(cs[i]);
        let next: u128 = acc * 10 + d;
        proof {
            assert(body[i - start] == cs@[i as int]);
            assert(body.take(i - start + 1) =~= body.take(i - start).push(body[i - start]));
            lemma_digits_value_push(body.take(i - start), body[i - start]);
        }
        if next > MAX_MANTISSA as u128 {
            proof {
                lemma_leading_digits_too_large(body, i - start);
            }
            return None;
        }
        acc = next;
        i = i + 1;
    }
    let ghost k: int = i - start;
    if i == start {
        proof {
            lemma_first_point_bounds(body);
            if first_point(body) > 0 {
                assert(body[0] == cs@[start as int]);
                assert(whole_part(body)[0] == body[0]);
            }
        }
        return None;
    }
    if i == n {
        proof {
            assert forall|j: int| 0 <= j < k implies body[j] != '.' by {
                assert(is_digit(body[j]));
            }
            lemma_first_point_at(body, k);
            assert(whole_part(body) =~= body.take(k));
            assert(whole_part(body) + fraction_part(body) =~= body.take(k));
        }
        return Some((acc, 0));
    }
    proof {
        assert(body[k] == cs@[i as int]);
    }
    if cs[i] != '.' {
        proof {
            lemma_stray_character(body, k);
        }
        return None;
    }
    proof {
        assert forall|j: int| 0 <= j < k implies body[j] != '.' by {
            assert(is_digit(body[j]));
        }
        lemma_first_point_at(body, k);
    }
    let ghost whole = whole_part(body);
    let ghost fraction = fraction_part(body);
    let first: usize = i + 1;
    let mut j: usize = first;
    let mut scale: u32 = 0;
    proof {
        assert(whole =~= body.take(k));
        assert(whole + fraction.take(0) =~= body.take(k));
        assert(all_digits(whole));
    }
    while j < n && is_digit_char(cs[j])
        invariant
            first <= j <= n,
            first == start + k + 1,
            n == cs.len(),
            body == cs@.skip(start as int),
            whole == whole_part(body),
            fraction == fraction_part(body),
            fraction == body.skip(k + 1),
            fraction.len() == n - first,
            body.len() == n - start,
            0 <= k,
            all_digits(whole),
            whole.len() > 0,
            first_point(body) == k,
            k < body.len(),
            scale == j - first,
            scale <= MAX_SCALE,
            forall|x: int| 0 <= x < j - first ==> is_digit(#[trigger] fraction[x]),
            acc == digits_value(whole + fraction.take(j - first)),
            acc <= MAX_MANTISSA,
        decreases n - j,
    {
        proof {
            assert(body[j - start] == cs@[j as int]);
            assert(fraction[j - first] == body[k + 1 + (j - first)]);
        }
        if scale == MAX_SCALE {
            return None;
        }
        let d: u128 = digit_of(cs[j]);
        let next: u128 = acc * 10 + d;
        proof {
            let so_far = whole + fraction.take(j - first);
            assert(whole + fraction.take(j - first + 1) =~= so_far.push(fraction[j - first]));
            lemma_digits_value_push(so_far, fraction[j - first]);
        }
        if next > MAX_MANTISSA as u128 {
            proof {
                let read = whole + fraction.take(j - first + 1);
                let rest = fraction.skip(j - first + 1);
                assert(whole + fraction =~= read + rest);
                lemma_digits_value_extends(read, rest);
            }
            return None;
        }
        acc = next;
        scale = scale + 1;
        j = j + 1;
    }
    if j < n {
        proof {
            assert(body[j - start] == cs@[j as int]);
            assert(fraction[j - first] == body[k + 1 + (j - first)]);
            assert(!is_digit(fraction[j - first]));
        }
        return None;
    }
    if j == first {
        return None;
    }
    proof {
        assert(fraction.take(j - first) =~= fraction);
    }
    Some((acc, scale))
}

impl Decimal {
    /// Reads a decimal from its text.
    ///
    /// Succeeds exactly on the texts that [`parse_decimal`] accepts, and then
    /// returns the very number written, digit for digit.
    pub fn parse(s: &str) -> (r: Option<Decimal>)
        ensures
            r is Some <==> parse_decimal(s@) is Some,
            r matches Some(d) ==> parse_decimal(s@) == Some(d@),
    {
        let cs: Vec<char> = chars_of(s);
        let signed: bool = cs.len() > 0 && (cs[0] == '-' || cs[0] == '+');
        let negative: bool = signed && cs[0] == '-';
        let start: usize = if signed { 1 } else { 0 };
        proof {
            assert(cs@.skip(0) =~= cs@);
        }
        match parse_unsigned(&cs, start) {
            Some((magnitude, scale)) => {
                let mantissa: i128 = if negative { -(magnitude as i128) } else { magnitude as i128 };
                Decimal::new(mantissa, scale)
            },
            None => None,
        }
    }
}

} // verus!
