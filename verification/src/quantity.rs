//! Measured quantities.

use vstd::prelude::*;

verus! {

/// A measured quantity: an IEEE 754 double, carried by its bit pattern.
///
/// The library never computes with quantities, it only moves them from a
/// document to a gauge, so the 64 bits are all it needs to hold. Two
/// quantities are equal where their bits are: positive and negative zero
/// differ, and a NaN equals itself.
#[derive(Clone, Copy, Debug, PartialEq, Eq, Structural)]
pub struct Quantity {
    pub bits: u64,
}

impl View for Quantity {
    type V = Quantity;

    open spec fn view(&self) -> Quantity {
        *self
    }
}

impl Quantity {
    /// The bit pattern of positive zero.
    pub open spec fn spec_zero() -> Quantity {
        Quantity { bits: 0 }
    }

    /// Positive zero.
    #[verifier::when_used_as_spec(spec_zero)]
    pub fn zero() -> (q: Quantity)
        ensures
            q == Quantity::spec_zero(),
    {
        Quantity { bits: 0 }
    }
}

} // verus!
