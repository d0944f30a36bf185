//! Decimal numbers, as `rust_decimal` makes them.

use vstd::prelude::*;

verus! {

/// The number `mantissa / 10^scale`.
#[derive(Debug, Clone, Copy, PartialEq, Eq, Structural)]
pub struct Decimal {
    pub mantissa: i128,
    pub scale: u32,
}

/// `Decimal::new` of `rust_decimal` keeps the number and the scale that it is given, and its
/// `mantissa` and `scale` give them back. It panics for scales above 28.
#[verifier::external_body]
fn decimal_new(num: i64, scale: u32) -> (parts: (i128, u32))
    requires
        scale <= 28,
    ensures
        parts.0 == num,
        parts.1 == scale,
{
    let decimal = rust_decimal::Decimal::new(num, scale);
    (decimal.mantissa(), decimal.scale())
}

impl Decimal {
    /// The number `num / 10^scale`.
    pub fn new(num: i64, scale: u32) -> (decimal: Self)
        requires
            scale <= 28,
        ensures
            decimal == (Decimal { mantissa: num as i128, scale }),
    {
        let (mantissa, scale) = decimal_new(num, scale);
        Decimal { mantissa, scale }
    }
}

} // verus!
