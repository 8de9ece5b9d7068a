//! Writing a decimal as text, digit for digit.

use vstd::prelude::*;
use crate::decimal::{pow10, pow10_u128, Decimal, DecimalValue};
use crate::text::{nat_digits, padded_digits, push_nat_digits, push_padded_digits, string_of};

verus! {

impl DecimalValue {
    /// The magnitude of the mantissa.
    pub open spec fn magnitude(self) -> nat {
        if self.mantissa < 0 {
            (-self.mantissa) as nat
        } else {
            self.mantissa as nat
        }
    }

    /// The text of the amount: a `-` for a negative mantissa, the whole
    /// digits, and for a scale above zero a point and exactly `scale` digits.
    pub open spec fn text(self) -> Seq<char> {
        let sign = if self.mantissa < 0 { seq!['-'] } else { Seq::<char>::empty() };
        let whole = nat_digits(self.magnitude() / pow10(self.scale));
        if self.scale == 0 {
            sign + whole
        } else {
            sign + whole + seq!['.'] + padded_digits(self.magnitude() % pow10(self.scale), self.scale)
        }
    }
}

impl Decimal {
    /// The amount as text; [`Decimal::parse`] reads it back.
    pub fn to_text(&self) -> (s: String)
        ensures
            s@ == self@.text(),
    {
        let mantissa: i128 = self.mantissa();
        let scale: u32 = self.scale();
        let magnitude: u128 = if mantissa < 0 { (-mantissa) as u128 } else { mantissa as u128 };
        let unit: u128 = pow10_u128(scale);
        let mut out: Vec<char> = Vec::new();
        if mantissa < 0 {
            out.push('-');
        }
        push_nat_digits(&mut out, magnitude / unit);
        if scale > 0 {
            out.push('.');
            push_padded_digits(&mut out, magnitude % unit, scale);
        }
        string_of(&out)
    }
}

} // verus!
