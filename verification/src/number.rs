//! Numbers as the split engine sees them: IEEE 754 double precision values,
//! held by their bit pattern so that they can be compared without
//! floating-point arithmetic.

use vstd::prelude::*;
use vstd::std_specs::cmp::PartialEqSpecImpl;

verus! {

/// Two to the power of 63: the weight of the sign bit.
pub const SIGN_BIT: u64 = 0x8000_0000_0000_0000;

/// The bit pattern of positive infinity. Every magnitude above it is a NaN.
pub const INFINITY_BITS: u64 = 0x7ff0_0000_0000_0000;

/// A double precision number, stored as its IEEE 754 bit pattern.
#[derive(Clone, Copy, Debug)]
pub struct Number {
    pub bits: u64,
}

impl Number {
    /// The bit pattern without its sign bit.
    pub open spec fn magnitude(self) -> int {
        self.bits as int % SIGN_BIT as int
    }

    /// Whether the pattern encodes "not a number".
    pub open spec fn is_nan(self) -> bool {
        self.magnitude() > INFINITY_BITS as int
    }

    /// Whether the pattern encodes positive or negative zero.
    pub open spec fn is_zero(self) -> bool {
        self.magnitude() == 0
    }

    /// Numeric equality as IEEE 754 defines it: a NaN equals nothing, not
    /// even itself; the two zeros equal each other; every other value equals
    /// exactly the values with the same bit pattern.
    pub open spec fn equals(self, other: Number) -> bool {
        &&& !self.is_nan()
        &&& !other.is_nan()
        &&& (self.bits == other.bits || (self.is_zero() && other.is_zero()))
    }

    /// The number with the given bit pattern.
    pub fn from_bits(bits: u64) -> (n: Number)
        ensures
            n.bits == bits,
    {
        Number { bits }
    }

    /// The bit pattern of the number.
    pub fn to_bits(&self) -> (bits: u64)
        ensures
            bits == self.bits,
    {
        self.bits
    }

    fn exec_magnitude(&self) -> (m: u64)
        ensures
            m == self.magnitude(),
    {
        self.bits % SIGN_BIT
    }
}

impl PartialEq for Number {
    fn eq(&self, other: &Number) -> (r: bool) {
        let a: u64 = self.exec_magnitude();
        let b: u64 = other.exec_magnitude();
        a <= INFINITY_BITS && b <= INFINITY_BITS && (self.bits == other.bits || (a == 0 && b == 0))
    }
}

impl PartialEqSpecImpl for Number {
    open spec fn obeys_eq_spec() -> bool {
        true
    }

    open spec fn eq_spec(&self, other: &Number) -> bool {
        self.equals(*other)
    }
}

} // verus!
