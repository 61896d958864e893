//! Exact rational numbers, the payload type of the real-valued tunables.

use vstd::prelude::*;
use crate::decimal::{push_decimal_signed, spec_dec_int};

verus! {

/// An exact rational `num / den`.  Well-formed values keep `den` positive;
/// the constructor enforces this.  Equality is structural, so values are
/// compared in the normal form their producer chose (`1/2` and `2/4` are
/// distinct values).
#[derive(Clone, Copy, Debug, PartialEq, Eq, Structural)]
pub struct Rational {
    pub num: i64,
    pub den: i64,
}

/// The rendering of a rational: numerator, a slash, denominator.
pub open spec fn spec_rational_display(r: Rational) -> Seq<char> {
    spec_dec_int(r.num as int) + "/"@ + spec_dec_int(r.den as int)
}

impl Rational {
    /// Builds the rational `num / den`.
    pub fn new(num: i64, den: i64) -> (r: Rational)
        requires
            den >= 1,
        ensures
            r == (Rational { num, den }),
    {
        Rational { num, den }
    }

    /// Renders the value as `num/den`, e.g. `1/100000`.
    pub fn display_string(&self) -> (r: String)
        ensures
            r@ == spec_rational_display(*self),
    {
        let mut s = String::new();
        push_decimal_signed(&mut s, self.num);
        s.append("/");
        push_decimal_signed(&mut s, self.den);
        s
    }
}

} // verus!
