//! Identifiers of in-game objects.

use vstd::prelude::*;

verus! {

/// The identifier of one in-game object.
///
/// The 64 bits are those a host engine packs its own identifier into; the
/// rules only ever compare two identifiers for equality.
#[derive(Clone, Copy, Debug, PartialEq, Eq, Hash, Structural)]
pub struct Entity {
    pub bits: u64,
}

impl Entity {
    /// The identifier with the given bits.
    pub fn from_bits(bits: u64) -> (entity: Entity)
        ensures
            entity.bits == bits,
    {
        Entity { bits }
    }

    /// The bits of the identifier.
    pub fn to_bits(self) -> (bits: u64)
        ensures
            bits == self.bits,
    {
        self.bits
    }
}

} // verus!
