//! Capability flags: the auxiliary input that an algorithm's options must carry.

use vstd::prelude::*;

verus! {

/// The bit that marks an algorithm reading a 64-bit seed from its options.
pub const SEEDED_BIT: u16 = 1;

/// The bit that marks an algorithm reading a secret byte buffer from its options.
pub const SECRET_BIT: u16 = 2;

/// The bit that marks an algorithm reading a pair of 64-bit keys from its options.
pub const KEYED_BIT: u16 = 4;

/// The capability flags of an algorithm: which auxiliary input its options carry.
#[derive(Clone, Copy, Debug, PartialEq, Eq, Structural)]
pub struct HashFlags {
    pub bits: u16,
}

impl HashFlags {
    pub open spec fn has_bit(self, bit: u16) -> bool {
        self.bits & bit != 0
    }

    pub open spec fn is_seeded(self) -> bool {
        self.has_bit(SEEDED_BIT)
    }

    pub open spec fn is_secret(self) -> bool {
        self.has_bit(SECRET_BIT)
    }

    pub open spec fn is_keyed(self) -> bool {
        self.has_bit(KEYED_BIT)
    }

    /// No flag: the algorithm reads nothing from its options.
    pub fn empty() -> (r: Self)
        ensures
            r.bits == 0,
    {
        HashFlags { bits: 0 }
    }

    pub fn seeded() -> (r: Self)
        ensures
            r.bits == SEEDED_BIT,
    {
        HashFlags { bits: SEEDED_BIT }
    }

    pub fn secret() -> (r: Self)
        ensures
            r.bits == SECRET_BIT,
    {
        HashFlags { bits: SECRET_BIT }
    }

    pub fn keyed() -> (r: Self)
        ensures
            r.bits == KEYED_BIT,
    {
        HashFlags { bits: KEYED_BIT }
    }

    /// Keeps the known bits of `bits` and drops the others.
    pub fn from_bits_truncate(bits: u16) -> (r: Self)
        ensures
            r.bits == bits & (SEEDED_BIT | SECRET_BIT | KEYED_BIT),
    {
        HashFlags { bits: bits & (SEEDED_BIT | SECRET_BIT | KEYED_BIT) }
    }

    pub fn bits(&self) -> (r: u16)
        ensures
            r == self.bits,
    {
        self.bits
    }

    pub fn is_empty(&self) -> (r: bool)
        ensures
            r == (self.bits == 0),
    {
        self.bits == 0
    }

    /// Whether every flag of `other` is set in `self`.
    pub fn contains(&self, other: HashFlags) -> (r: bool)
        ensures
            r == (self.bits & other.bits == other.bits),
    {
        self.bits & other.bits == other.bits
    }

    /// The flags of both: an algorithm advertises the union of the inputs it needs.
    pub fn union(&self, other: HashFlags) -> (r: Self)
        ensures
            r.bits == self.bits | other.bits,
    {
        HashFlags { bits: self.bits | other.bits }
    }
}

} // verus!
