//! Decimal amounts of money or of units of an asset.
use vstd::prelude::*;

verus! {

/// A decimal number: `mantissa` divided by ten to the power of `scale`. No floating point is
/// involved, so an amount is exactly what was written down.
#[derive(Debug, PartialEq, Eq, Clone, Copy, Hash, Structural)]
pub struct Amount {
    /// The digits of the number, as a signed integer.
    pub mantissa: i128,
    /// How many of the digits stand behind the decimal point.
    pub scale: u32,
}

impl Amount {
    /// The amount with the given digits and number of decimal places.
    pub fn new(mantissa: i128, scale: u32) -> (r: Amount)
        ensures
            r.mantissa == mantissa,
            r.scale == scale,
    {
        Amount { mantissa, scale }
    }
}

} // verus!
