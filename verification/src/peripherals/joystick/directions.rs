//! Joystick direction flags.
use vstd::prelude::*;

verus! {

/// Flags for reading and writing the current stick direction.
/// * Bit = 1 a direction is active.
/// * Bit = 0 a direction is inactive.
#[derive(Debug, Clone, Copy, PartialEq, Eq, PartialOrd, Ord, Hash, Structural)]
pub struct Directions {
    /// The raw bits of the flags.
    pub bits: u8,
}

impl Directions {
    /// The up direction.
    #[allow(non_snake_case)]
    pub fn UP() -> (r: Self)
        ensures r.bits == 0b00000001,
    {
        Directions { bits: 0b00000001 }
    }

    /// The right direction.
    #[allow(non_snake_case)]
    pub fn RIGHT() -> (r: Self)
        ensures r.bits == 0b00000010,
    {
        Directions { bits: 0b00000010 }
    }

    /// The down direction.
    #[allow(non_snake_case)]
    pub fn DOWN() -> (r: Self)
        ensures r.bits == 0b00000100,
    {
        Directions { bits: 0b00000100 }
    }

    /// The left direction.
    #[allow(non_snake_case)]
    pub fn LEFT() -> (r: Self)
        ensures r.bits == 0b00001000,
    {
        Directions { bits: 0b00001000 }
    }

    /// All bits that belong to some defined flag.
    pub open spec fn spec_all_bits() -> u8 {
        0b00001111
    }

    /// Returns flags with no bit set.
    pub fn empty() -> (r: Self)
        ensures r.bits == 0,
    {
        Directions { bits: 0 }
    }

    /// Returns flags with every defined bit set.
    pub fn all() -> (r: Self)
        ensures r.bits == Self::spec_all_bits(),
    {
        Directions { bits: 0b00001111 }
    }

    /// Returns the raw bits of the flags.
    pub fn bits(&self) -> (r: u8)
        ensures r == self.bits,
    {
        self.bits
    }

    /// Converts raw bits into flags if no undefined bit is set.
    pub fn from_bits(bits: u8) -> (r: Option<Self>)
        ensures
            r == (if bits & !Self::spec_all_bits() == 0 { Some(Directions { bits }) } else { None }),
    {
        if bits & !0b00001111u8 == 0 {
            Some(Directions { bits })
        } else {
            None
        }
    }

    /// Converts raw bits into flags, dropping every undefined bit.
    pub fn from_bits_truncate(bits: u8) -> (r: Self)
        ensures r.bits == bits & Self::spec_all_bits(),
    {
        Directions { bits: bits & 0b00001111 }
    }

    /// Converts raw bits into flags, keeping every bit.
    pub fn from_bits_retain(bits: u8) -> (r: Self)
        ensures r.bits == bits,
    {
        Directions { bits }
    }

    /// Create flags from raw bits in `data` by truncating unused bits.
    pub fn from_data(data: u8) -> (r: Self)
        ensures r.bits == data & Self::spec_all_bits(),
    {
        Directions { bits: data & 0b00001111 }
    }

    /// Returns `true` if no bit is set.
    pub fn is_empty(&self) -> (r: bool)
        ensures r == (self.bits == 0),
    {
        self.bits == 0
    }

    /// Returns `true` if every defined bit is set.
    pub fn is_all(&self) -> (r: bool)
        ensures r == (self.bits & Self::spec_all_bits() == Self::spec_all_bits()),
    {
        self.bits & 0b00001111 == 0b00001111
    }

    /// Returns `true` if every bit of `other` is also set in `self`.
    pub fn contains(&self, other: Self) -> (r: bool)
        ensures r == (self.bits & other.bits == other.bits),
    {
        self.bits & other.bits == other.bits
    }

    /// Returns `true` if any bit of `other` is also set in `self`.
    pub fn intersects(&self, other: Self) -> (r: bool)
        ensures r == (self.bits & other.bits != 0),
    {
        self.bits & other.bits != 0
    }

    /// Sets every bit of `other` in `self`.
    pub fn insert(&mut self, other: Self)
        ensures final(self).bits == old(self).bits | other.bits,
    {
        self.bits = self.bits | other.bits;
    }

    /// Clears every bit of `other` in `self`.
    pub fn remove(&mut self, other: Self)
        ensures final(self).bits == old(self).bits & !other.bits,
    {
        self.bits = self.bits & !other.bits;
    }

    /// Flips every bit of `other` in `self`.
    pub fn toggle(&mut self, other: Self)
        ensures final(self).bits == old(self).bits ^ other.bits,
    {
        self.bits = self.bits ^ other.bits;
    }

    /// Sets (if `value` is `true`) or clears (otherwise) every bit of `other` in `self`.
    pub fn set(&mut self, other: Self, value: bool)
        ensures
            final(self).bits == (if value { old(self).bits | other.bits } else { old(self).bits & !other.bits }),
    {
        if value {
            self.bits = self.bits | other.bits;
        } else {
            self.bits = self.bits & !other.bits;
        }
    }

    /// Returns the bitwise union of `self` and `other`.
    pub fn union(self, other: Self) -> (r: Self)
        ensures r.bits == self.bits | other.bits,
    {
        Directions { bits: self.bits | other.bits }
    }

    /// Returns the bitwise intersection of `self` and `other`.
    pub fn intersection(self, other: Self) -> (r: Self)
        ensures r.bits == self.bits & other.bits,
    {
        Directions { bits: self.bits & other.bits }
    }

    /// Returns the bits of `self` that are not set in `other`.
    pub fn difference(self, other: Self) -> (r: Self)
        ensures r.bits == self.bits & !other.bits,
    {
        Directions { bits: self.bits & !other.bits }
    }

    /// Returns the bits set in exactly one of `self` and `other`.
    pub fn symmetric_difference(self, other: Self) -> (r: Self)
        ensures r.bits == self.bits ^ other.bits,
    {
        Directions { bits: self.bits ^ other.bits }
    }

    /// Returns the defined bits that are not set in `self`.
    pub fn complement(self) -> (r: Self)
        ensures r.bits == !self.bits & Self::spec_all_bits(),
    {
        Directions { bits: !self.bits & 0b00001111 }
    }
}

impl Default for Directions {
    fn default() -> (r: Self)
        ensures r.bits == 0,
    {
        Directions { bits: 0 }
    }
}

} // verus!
