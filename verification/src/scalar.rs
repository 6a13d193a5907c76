//! Single-precision numbers carried by their bit pattern.
//!
//! The behaviours never add or multiply: the only arithmetic they perform on a
//! speed is to negate it, which for an IEEE 754 number is exactly a flip of the
//! sign bit. A [`Scalar`] therefore holds the 32 bits of such a number and is
//! described by its sign and its magnitude.

use vstd::prelude::*;

verus! {

/// The sign bit of a single-precision number.
pub const SIGN_BIT: u32 = 0x8000_0000;

/// A single-precision number, held as its 32 bits.
///
/// Two scalars are equal when their bits are equal, so a negative zero differs
/// from a positive one and a not-a-number equals itself.
#[derive(Clone, Copy, Debug, PartialEq, Eq, Hash, Structural)]
pub struct Scalar {
    pub bits: u32,
}

impl Scalar {
    /// Whether the sign bit is set.
    pub open spec fn is_negative(self) -> bool {
        self.bits >= SIGN_BIT
    }

    /// The bits below the sign bit: exponent and fraction.
    pub open spec fn magnitude(self) -> nat {
        if self.bits >= SIGN_BIT {
            (self.bits - SIGN_BIT) as nat
        } else {
            self.bits as nat
        }
    }

    /// The scalar with the same magnitude and the other sign.
    pub open spec fn negation(self) -> Scalar {
        if self.bits >= SIGN_BIT {
            Scalar { bits: (self.bits - SIGN_BIT) as u32 }
        } else {
            Scalar { bits: (self.bits + SIGN_BIT) as u32 }
        }
    }

    /// The scalar multiplied by a sign: itself for a sign that is not
    /// negative, its negation otherwise.
    pub open spec fn signed(self, sign: int) -> Scalar {
        if sign < 0 {
            self.negation()
        } else {
            self
        }
    }

    /// The scalar with the given bit pattern.
    pub fn from_bits(bits: u32) -> (scalar: Scalar)
        ensures
            scalar.bits == bits,
    {
        Scalar { bits }
    }

    /// The bit pattern of the scalar.
    pub fn to_bits(self) -> (bits: u32)
        ensures
            bits == self.bits,
    {
        self.bits
    }

    /// Negates the scalar by flipping its sign bit.
    pub fn negated(self) -> (opposite: Scalar)
        ensures
            opposite == self.negation(),
            opposite.magnitude() == self.magnitude(),
            opposite.is_negative() == !self.is_negative(),
    {
        let bits: u32 = self.bits;
        let flipped: u32 = bits ^ SIGN_BIT;
        assert(flipped == if bits >= 0x8000_0000u32 {
            (bits - 0x8000_0000u32) as u32
        } else {
            (bits + 0x8000_0000u32) as u32
        }) by (bit_vector)
            requires
                flipped == bits ^ 0x8000_0000u32,
        ;
        Scalar { bits: flipped }
    }
}

/// Negating twice gives the scalar back.
pub proof fn lemma_negation_involution(scalar: Scalar)
    ensures
        scalar.negation().negation() == scalar,
{
}

/// Negation keeps the magnitude and changes the sign.
pub proof fn lemma_negation_flips_sign(scalar: Scalar)
    ensures
        scalar.negation().magnitude() == scalar.magnitude(),
        scalar.negation().is_negative() == !scalar.is_negative(),
        scalar.negation() != scalar,
{
}

} // verus!
