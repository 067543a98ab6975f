//! Amounts of money, in dollars of the United States.

use vstd::prelude::*;

verus! {

/// A price. It is kept as the bits of a single-precision number: the library hands
/// prices on and does not compute with them.
#[derive(Clone, Copy, Debug, PartialEq, Eq, Structural)]
pub struct PriceUSD(pub u32);

impl PriceUSD {
    /// The price whose single-precision number has the given bits.
    pub fn from_bits(bits: u32) -> (price: PriceUSD)
        ensures
            price.0 == bits,
    {
        PriceUSD(bits)
    }

    /// The bits of the single-precision number that the price is.
    pub fn to_bits(&self) -> (bits: u32)
        ensures
            bits == self.0,
    {
        self.0
    }
}

} // verus!
