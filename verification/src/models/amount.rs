//! Monetary amounts as fixed-point decimals.

use vstd::prelude::*;
use crate::trusted::{decimal_at_most_zero, decimal_holds, decimal_text, decimal_to_text};

verus! {

/// A fixed-point decimal: the number `mantissa / 10^scale`. Every value of this
/// type is one that a 96-bit decimal with at most 28 fractional digits holds.
/// Two amounts are equal when mantissa and scale both are: `1.0` and `1.00`
/// differ.
#[derive(Debug, Clone, Copy, PartialEq, Eq, Structural)]
pub struct Amount {
    mantissa: i128,
    scale: u32,
}

impl Amount {
    /// Every amount is one that a 96-bit decimal holds.
    #[verifier::type_invariant]
    spec fn representable(self) -> bool {
        decimal_holds(self.mantissa, self.scale)
    }

    /// The integer that the amount is made of, before scaling.
    pub closed spec fn spec_mantissa(&self) -> i128 {
        self.mantissa
    }

    /// The number of digits after the decimal point.
    pub closed spec fn spec_scale(&self) -> u32 {
        self.scale
    }

    /// Whether the amount is greater than zero.
    pub open spec fn is_positive(&self) -> bool {
        self.mantissa() > 0
    }

    /// The amount `mantissa / 10^scale`, or `None` where no 96-bit decimal with
    /// at most 28 fractional digits holds that number.
    pub fn new(mantissa: i128, scale: u32) -> (amount: Option<Amount>)
        ensures
            amount is Some <==> decimal_holds(mantissa, scale),
            amount matches Some(a) ==> a.mantissa() == mantissa && a.scale() == scale,
    {
        if -crate::trusted::MAX_MANTISSA <= mantissa && mantissa <= crate::trusted::MAX_MANTISSA
            && scale <= crate::trusted::MAX_SCALE {
            Some(Amount { mantissa, scale })
        } else {
            None
        }
    }

    /// The integer that the amount is made of, before scaling.
    #[verifier::when_used_as_spec(spec_mantissa)]
    pub fn mantissa(&self) -> (m: i128)
        ensures
            m == self.mantissa(),
            decimal_holds(m, self.scale()),
    {
        proof {
            use_type_invariant(self);
        }
        self.mantissa
    }

    /// The number of digits after the decimal point.
    #[verifier::when_used_as_spec(spec_scale)]
    pub fn scale(&self) -> (s: u32)
        ensures
            s == self.scale(),
            decimal_holds(self.mantissa(), s),
    {
        proof {
            use_type_invariant(self);
        }
        self.scale
    }

    /// The amount as text, as a decimal number is written: `12.50` for a
    /// mantissa of 1250 at scale 2.
    pub open spec fn text(&self) -> Seq<char> {
        decimal_text(self.mantissa(), self.scale())
    }

    /// The amount as text.
    pub fn to_string(&self) -> (text: String)
        ensures
            text@ == self.text(),
    {
        proof {
            use_type_invariant(self);
        }
        decimal_to_text(self.mantissa, self.scale)
    }

    /// Decides whether the amount is zero or below.
    pub fn at_most_zero(&self) -> (at_most: bool)
        ensures
            at_most == !self.is_positive(),
    {
        proof {
            use_type_invariant(self);
        }
        decimal_at_most_zero(self.mantissa, self.scale)
    }
}

} // verus!
