//! Numbers as the telemetry reports them.

use vstd::prelude::*;

verus! {

/// An IEEE 754 double-precision number, held as its 64-bit pattern.
///
/// Accuracy, unstable rate and health travel through the library in this
/// form and reach the store unchanged.
#[derive(Clone, Copy, Debug, PartialEq, Eq, Structural)]
pub struct Number {
    /// Sign bit, eleven exponent bits, fifty-two fraction bits.
    pub bits: u64,
}

/// The pattern of negative zero: the sign bit alone.
pub const NEGATIVE_ZERO: u64 = 0x8000_0000_0000_0000;

impl Number {
    /// Whether the number equals zero: positive and negative zero both do,
    /// and nothing else does.
    pub open spec fn is_zero(self) -> bool {
        self.bits == 0 || self.bits == NEGATIVE_ZERO
    }

    /// Whether the number equals zero.
    pub fn equals_zero(&self) -> (zero: bool)
        ensures
            zero == self.is_zero(),
    {
        self.bits == 0 || self.bits == NEGATIVE_ZERO
    }
}

} // verus!
