//! Structures and flags shared by the **Z80** snapshot loader and saver.
use vstd::prelude::*;

use crate::chip::flags::ReadEarMode;
use crate::formats::read_exact_or_none;
use crate::formats::snapshot::{spec_frame_tstates, ComputerModel, InterruptMode, JoystickModel};
use crate::formats::stream::{new_io_error, read_exact, IoErrorKind};
use crate::video::{spec_border_value, BorderColor};

verus! {

/// The size of a memory page in bytes.
pub const PAGE_SIZE: usize = 0x4000;

/// The versions of the **Z80** format.
#[derive(Debug, Clone, Copy, PartialEq, Eq, Structural)]
pub enum Z80Version {
    V1,
    V2,
    V3,
}

/// The byte 12 flags of the **Z80** header.
#[derive(Debug, Clone, Copy, PartialEq, Eq, Hash, Structural)]
pub struct Flags1 {
    /// The raw bits of the flags.
    pub bits: u8,
}

impl Flags1 {
    /// Bit 7 of the R register.
    #[allow(non_snake_case)]
    pub fn R_HIGH_BIT() -> (r: Self)
        ensures r.bits == 0b00000001,
    {
        Flags1 { bits: 0b00000001 }
    }

    /// The border colour.
    #[allow(non_snake_case)]
    pub fn BORDER_COLOR() -> (r: Self)
        ensures r.bits == 0b00001110,
    {
        Flags1 { bits: 0b00001110 }
    }

    /// SamRom BASIC switched in.
    #[allow(non_snake_case)]
    pub fn BASIC_SAMROM() -> (r: Self)
        ensures r.bits == 0b00010000,
    {
        Flags1 { bits: 0b00010000 }
    }

    /// The memory block is compressed.
    #[allow(non_snake_case)]
    pub fn MEM_COMPRESSED() -> (r: Self)
        ensures r.bits == 0b00100000,
    {
        Flags1 { bits: 0b00100000 }
    }

    /// All bits that belong to some defined flag.
    pub open spec fn spec_all_bits() -> u8 {
        0b00111111
    }

    /// Returns flags with no bit set.
    pub fn empty() -> (r: Self)
        ensures r.bits == 0,
    {
        Flags1 { bits: 0 }
    }

    /// Returns flags with every defined bit set.
    pub fn all() -> (r: Self)
        ensures r.bits == Self::spec_all_bits(),
    {
        Flags1 { bits: 0b00111111 }
    }

    /// Returns the raw bits of the flags.
    pub fn bits(&self) -> (r: u8)
        ensures r == self.bits,
    {
        self.bits
    }

    /// Converts raw bits into flags if no undefined bit is set.
    pub fn from_bits(bits: u8) -> (r: Option<Self>)
        ensures
            r == (if bits & !Self::spec_all_bits() == 0 { Some(Flags1 { bits }) } else { None }),
    {
        if bits & !0b00111111u8 == 0 {
            Some(Flags1 { bits })
        } else {
            None
        }
    }

    /// Converts raw bits into flags, dropping every undefined bit.
    pub fn from_bits_truncate(bits: u8) -> (r: Self)
        ensures r.bits == bits & Self::spec_all_bits(),
    {
        Flags1 { bits: bits & 0b00111111 }
    }

    /// Converts raw bits into flags, keeping every bit.
    pub fn from_bits_retain(bits: u8) -> (r: Self)
        ensures r.bits == bits,
    {
        Flags1 { bits }
    }

    /// Create flags from raw bits in `data` by truncating unused bits.
    pub fn from_data(data: u8) -> (r: Self)
        ensures r.bits == data & Self::spec_all_bits(),
    {
        Flags1 { bits: data & 0b00111111 }
    }

    /// Returns `true` if no bit is set.
    pub fn is_empty(&self) -> (r: bool)
        ensures r == (self.bits == 0),
    {
        self.bits == 0
    }

    /// Returns `true` if every defined bit is set.
    pub fn is_all(&self) -> (r: bool)
        ensures r == (self.bits & Self::spec_all_bits() == Self::spec_all_bits()),
    {
        self.bits & 0b00111111 == 0b00111111
    }

    /// Returns `true` if every bit of `other` is also set in `self`.
    pub fn contains(&self, other: Self) -> (r: bool)
        ensures r == (self.bits & other.bits == other.bits),
    {
        self.bits & other.bits == other.bits
    }

    /// Returns `true` if any bit of `other` is also set in `self`.
    pub fn intersects(&self, other: Self) -> (r: bool)
        ensures r == (self.bits & other.bits != 0),
    {
        self.bits & other.bits != 0
    }

    /// Sets every bit of `other` in `self`.
    pub fn insert(&mut self, other: Self)
        ensures final(self).bits == old(self).bits | other.bits,
    {
        self.bits = self.bits | other.bits;
    }

    /// Clears every bit of `other` in `self`.
    pub fn remove(&mut self, other: Self)
        ensures final(self).bits == old(self).bits & !other.bits,
    {
        self.bits = self.bits & !other.bits;
    }

    /// Flips every bit of `other` in `self`.
    pub fn toggle(&mut self, other: Self)
        ensures final(self).bits == old(self).bits ^ other.bits,
    {
        self.bits = self.bits ^ other.bits;
    }

    /// Sets (if `value` is `true`) or clears (otherwise) every bit of `other` in `self`.
    pub fn set(&mut self, other: Self, value: bool)
        ensures
            final(self).bits == (if value { old(self).bits | other.bits } else { old(self).bits & !other.bits }),
    {
        if value {
            self.bits = self.bits | other.bits;
        } else {
            self.bits = self.bits & !other.bits;
        }
    }

    /// Returns the bitwise union of `self` and `other`.
    pub fn union(self, other: Self) -> (r: Self)
        ensures r.bits == self.bits | other.bits,
    {
        Flags1 { bits: self.bits | other.bits }
    }

    /// Returns the bitwise intersection of `self` and `other`.
    pub fn intersection(self, other: Self) -> (r: Self)
        ensures r.bits == self.bits & other.bits,
    {
        Flags1 { bits: self.bits & other.bits }
    }

    /// Returns the bits of `self` that are not set in `other`.
    pub fn difference(self, other: Self) -> (r: Self)
        ensures r.bits == self.bits & !other.bits,
    {
        Flags1 { bits: self.bits & !other.bits }
    }

    /// Returns the bits set in exactly one of `self` and `other`.
    pub fn symmetric_difference(self, other: Self) -> (r: Self)
        ensures r.bits == self.bits ^ other.bits,
    {
        Flags1 { bits: self.bits ^ other.bits }
    }

    /// Returns the defined bits that are not set in `self`.
    pub fn complement(self) -> (r: Self)
        ensures r.bits == !self.bits & Self::spec_all_bits(),
    {
        Flags1 { bits: !self.bits & 0b00111111 }
    }
}

impl Default for Flags1 {
    fn default() -> (r: Self)
        ensures r.bits == 0,
    {
        Flags1 { bits: 0 }
    }
}

impl core::ops::BitOr for Flags1 {
    type Output = Flags1;

    fn bitor(self, rhs: Flags1) -> (r: Flags1) {
        Flags1 { bits: self.bits | rhs.bits }
    }
}

impl vstd::std_specs::ops::BitOrSpecImpl for Flags1 {
    open spec fn obeys_bitor_spec() -> bool {
        true
    }

    open spec fn bitor_req(self, rhs: Flags1) -> bool {
        true
    }

    open spec fn bitor_spec(self, rhs: Flags1) -> Flags1 {
        Flags1 { bits: self.bits | rhs.bits }
    }
}

impl core::ops::BitAnd for Flags1 {
    type Output = Flags1;

    fn bitand(self, rhs: Flags1) -> (r: Flags1) {
        Flags1 { bits: self.bits & rhs.bits }
    }
}

impl vstd::std_specs::ops::BitAndSpecImpl for Flags1 {
    open spec fn obeys_bitand_spec() -> bool {
        true
    }

    open spec fn bitand_req(self, rhs: Flags1) -> bool {
        true
    }

    open spec fn bitand_spec(self, rhs: Flags1) -> Flags1 {
        Flags1 { bits: self.bits & rhs.bits }
    }
}

impl core::ops::Sub for Flags1 {
    type Output = Flags1;

    fn sub(self, rhs: Flags1) -> (r: Flags1) {
        Flags1 { bits: self.bits & !rhs.bits }
    }
}

impl vstd::std_specs::ops::SubSpecImpl for Flags1 {
    open spec fn obeys_sub_spec() -> bool {
        true
    }

    open spec fn sub_req(self, rhs: Flags1) -> bool {
        true
    }

    open spec fn sub_spec(self, rhs: Flags1) -> Flags1 {
        Flags1 { bits: self.bits & !rhs.bits }
    }
}

impl core::ops::Not for Flags1 {
    type Output = Flags1;

    fn not(self) -> (r: Flags1) {
        Flags1 { bits: !self.bits & 0b00111111 }
    }
}

impl vstd::std_specs::ops::NotSpecImpl for Flags1 {
    open spec fn obeys_not_spec() -> bool {
        true
    }

    open spec fn not_req(self) -> bool {
        true
    }

    open spec fn not_spec(self) -> Flags1 {
        Flags1 { bits: !self.bits & Flags1::spec_all_bits() }
    }
}

/// The byte 29 flags of the **Z80** header.
#[derive(Debug, Clone, Copy, PartialEq, Eq, Hash, Structural)]
pub struct Flags2 {
    /// The raw bits of the flags.
    pub bits: u8,
}

impl Flags2 {
    /// Interrupt mode 0.
    #[allow(non_snake_case)]
    pub fn INTR_MODE0() -> (r: Self)
        ensures r.bits == 0b00000000,
    {
        Flags2 { bits: 0b00000000 }
    }

    /// Interrupt mode 1.
    #[allow(non_snake_case)]
    pub fn INTR_MODE1() -> (r: Self)
        ensures r.bits == 0b00000001,
    {
        Flags2 { bits: 0b00000001 }
    }

    /// Interrupt mode 2.
    #[allow(non_snake_case)]
    pub fn INTR_MODE2() -> (r: Self)
        ensures r.bits == 0b00000010,
    {
        Flags2 { bits: 0b00000010 }
    }

    /// The interrupt mode bits.
    #[allow(non_snake_case)]
    pub fn INTR_MODE_MASK() -> (r: Self)
        ensures r.bits == 0b00000011,
    {
        Flags2 { bits: 0b00000011 }
    }

    /// Issue 2 emulation.
    #[allow(non_snake_case)]
    pub fn ISSUE2_EMULATION() -> (r: Self)
        ensures r.bits == 0b00000100,
    {
        Flags2 { bits: 0b00000100 }
    }

    /// Double interrupt frequency.
    #[allow(non_snake_case)]
    pub fn DOUBLE_INTERRUPT() -> (r: Self)
        ensures r.bits == 0b00001000,
    {
        Flags2 { bits: 0b00001000 }
    }

    /// Video synchronisation.
    #[allow(non_snake_case)]
    pub fn VIDEO_SYNC() -> (r: Self)
        ensures r.bits == 0b00110000,
    {
        Flags2 { bits: 0b00110000 }
    }

    /// The joystick model.
    #[allow(non_snake_case)]
    pub fn JOYSTICK_MODEL() -> (r: Self)
        ensures r.bits == 0b11000000,
    {
        Flags2 { bits: 0b11000000 }
    }

    /// All bits that belong to some defined flag.
    pub open spec fn spec_all_bits() -> u8 {
        0b11111111
    }

    /// Returns flags with no bit set.
    pub fn empty() -> (r: Self)
        ensures r.bits == 0,
    {
        Flags2 { bits: 0 }
    }

    /// Returns flags with every defined bit set.
    pub fn all() -> (r: Self)
        ensures r.bits == Self::spec_all_bits(),
    {
        Flags2 { bits: 0b11111111 }
    }

    /// Returns the raw bits of the flags.
    pub fn bits(&self) -> (r: u8)
        ensures r == self.bits,
    {
        self.bits
    }

    /// Converts raw bits into flags if no undefined bit is set.
    pub fn from_bits(bits: u8) -> (r: Option<Self>)
        ensures
            r == (if bits & !Self::spec_all_bits() == 0 { Some(Flags2 { bits }) } else { None }),
    {
        if bits & !0b11111111u8 == 0 {
            Some(Flags2 { bits })
        } else {
            None
        }
    }

    /// Converts raw bits into flags, dropping every undefined bit.
    pub fn from_bits_truncate(bits: u8) -> (r: Self)
        ensures r.bits == bits & Self::spec_all_bits(),
    {
        Flags2 { bits: bits & 0b11111111 }
    }

    /// Converts raw bits into flags, keeping every bit.
    pub fn from_bits_retain(bits: u8) -> (r: Self)
        ensures r.bits == bits,
    {
        Flags2 { bits }
    }

    /// Create flags from raw bits in `data` by truncating unused bits.
    pub fn from_data(data: u8) -> (r: Self)
        ensures r.bits == data & Self::spec_all_bits(),
    {
        Flags2 { bits: data & 0b11111111 }
    }

    /// Returns `true` if no bit is set.
    pub fn is_empty(&self) -> (r: bool)
        ensures r == (self.bits == 0),
    {
        self.bits == 0
    }

    /// Returns `true` if every defined bit is set.
    pub fn is_all(&self) -> (r: bool)
        ensures r == (self.bits & Self::spec_all_bits() == Self::spec_all_bits()),
    {
        self.bits & 0b11111111 == 0b11111111
    }

    /// Returns `true` if every bit of `other` is also set in `self`.
    pub fn contains(&self, other: Self) -> (r: bool)
        ensures r == (self.bits & other.bits == other.bits),
    {
        self.bits & other.bits == other.bits
    }

    /// Returns `true` if any bit of `other` is also set in `self`.
    pub fn intersects(&self, other: Self) -> (r: bool)
        ensures r == (self.bits & other.bits != 0),
    {
        self.bits & other.bits != 0
    }

    /// Sets every bit of `other` in `self`.
    pub fn insert(&mut self, other: Self)
        ensures final(self).bits == old(self).bits | other.bits,
    {
        self.bits = self.bits | other.bits;
    }

    /// Clears every bit of `other` in `self`.
    pub fn remove(&mut self, other: Self)
        ensures final(self).bits == old(self).bits & !other.bits,
    {
        self.bits = self.bits & !other.bits;
    }

    /// Flips every bit of `other` in `self`.
    pub fn toggle(&mut self, other: Self)
        ensures final(self).bits == old(self).bits ^ other.bits,
    {
        self.bits = self.bits ^ other.bits;
    }

    /// Sets (if `value` is `true`) or clears (otherwise) every bit of `other` in `self`.
    pub fn set(&mut self, other: Self, value: bool)
        ensures
            final(self).bits == (if value { old(self).bits | other.bits } else { old(self).bits & !other.bits }),
    {
        if value {
            self.bits = self.bits | other.bits;
        } else {
            self.bits = self.bits & !other.bits;
        }
    }

    /// Returns the bitwise union of `self` and `other`.
    pub fn union(self, other: Self) -> (r: Self)
        ensures r.bits == self.bits | other.bits,
    {
        Flags2 { bits: self.bits | other.bits }
    }

    /// Returns the bitwise intersection of `self` and `other`.
    pub fn intersection(self, other: Self) -> (r: Self)
        ensures r.bits == self.bits & other.bits,
    {
        Flags2 { bits: self.bits & other.bits }
    }

    /// Returns the bits of `self` that are not set in `other`.
    pub fn difference(self, other: Self) -> (r: Self)
        ensures r.bits == self.bits & !other.bits,
    {
        Flags2 { bits: self.bits & !other.bits }
    }

    /// Returns the bits set in exactly one of `self` and `other`.
    pub fn symmetric_difference(self, other: Self) -> (r: Self)
        ensures r.bits == self.bits ^ other.bits,
    {
        Flags2 { bits: self.bits ^ other.bits }
    }

    /// Returns the defined bits that are not set in `self`.
    pub fn complement(self) -> (r: Self)
        ensures r.bits == !self.bits & Self::spec_all_bits(),
    {
        Flags2 { bits: !self.bits & 0b11111111 }
    }
}

impl Default for Flags2 {
    fn default() -> (r: Self)
        ensures r.bits == 0,
    {
        Flags2 { bits: 0 }
    }
}

impl core::ops::BitOr for Flags2 {
    type Output = Flags2;

    fn bitor(self, rhs: Flags2) -> (r: Flags2) {
        Flags2 { bits: self.bits | rhs.bits }
    }
}

impl vstd::std_specs::ops::BitOrSpecImpl for Flags2 {
    open spec fn obeys_bitor_spec() -> bool {
        true
    }

    open spec fn bitor_req(self, rhs: Flags2) -> bool {
        true
    }

    open spec fn bitor_spec(self, rhs: Flags2) -> Flags2 {
        Flags2 { bits: self.bits | rhs.bits }
    }
}

impl core::ops::BitAnd for Flags2 {
    type Output = Flags2;

    fn bitand(self, rhs: Flags2) -> (r: Flags2) {
        Flags2 { bits: self.bits & rhs.bits }
    }
}

impl vstd::std_specs::ops::BitAndSpecImpl for Flags2 {
    open spec fn obeys_bitand_spec() -> bool {
        true
    }

    open spec fn bitand_req(self, rhs: Flags2) -> bool {
        true
    }

    open spec fn bitand_spec(self, rhs: Flags2) -> Flags2 {
        Flags2 { bits: self.bits & rhs.bits }
    }
}

impl core::ops::Sub for Flags2 {
    type Output = Flags2;

    fn sub(self, rhs: Flags2) -> (r: Flags2) {
        Flags2 { bits: self.bits & !rhs.bits }
    }
}

impl vstd::std_specs::ops::SubSpecImpl for Flags2 {
    open spec fn obeys_sub_spec() -> bool {
        true
    }

    open spec fn sub_req(self, rhs: Flags2) -> bool {
        true
    }

    open spec fn sub_spec(self, rhs: Flags2) -> Flags2 {
        Flags2 { bits: self.bits & !rhs.bits }
    }
}

impl core::ops::Not for Flags2 {
    type Output = Flags2;

    fn not(self) -> (r: Flags2) {
        Flags2 { bits: !self.bits & 0b11111111 }
    }
}

impl vstd::std_specs::ops::NotSpecImpl for Flags2 {
    open spec fn obeys_not_spec() -> bool {
        true
    }

    open spec fn not_req(self) -> bool {
        true
    }

    open spec fn not_spec(self) -> Flags2 {
        Flags2 { bits: !self.bits & Flags2::spec_all_bits() }
    }
}

/// The byte 37 flags of the extended **Z80** header.
#[derive(Debug, Clone, Copy, PartialEq, Eq, Hash, Structural)]
pub struct Flags3 {
    /// The raw bits of the flags.
    pub bits: u8,
}

impl Flags3 {
    /// R register emulation on.
    #[allow(non_snake_case)]
    pub fn REG_R_EMU() -> (r: Self)
        ensures r.bits == 0b00000001,
    {
        Flags3 { bits: 0b00000001 }
    }

    /// LDIR emulation on.
    #[allow(non_snake_case)]
    pub fn LDIR_EMU() -> (r: Self)
        ensures r.bits == 0b00000010,
    {
        Flags3 { bits: 0b00000010 }
    }

    /// AY sound in use.
    #[allow(non_snake_case)]
    pub fn AY_SOUND_EMU() -> (r: Self)
        ensures r.bits == 0b00000100,
    {
        Flags3 { bits: 0b00000100 }
    }

    /// Fuller Audio Box emulation.
    #[allow(non_snake_case)]
    pub fn AY_FULLER_BOX() -> (r: Self)
        ensures r.bits == 0b01000000,
    {
        Flags3 { bits: 0b01000000 }
    }

    /// The modified hardware.
    #[allow(non_snake_case)]
    pub fn ALT_HW_MODE() -> (r: Self)
        ensures r.bits == 0b10000000,
    {
        Flags3 { bits: 0b10000000 }
    }

    /// All bits that belong to some defined flag.
    pub open spec fn spec_all_bits() -> u8 {
        0b11000111
    }

    /// Returns flags with no bit set.
    pub fn empty() -> (r: Self)
        ensures r.bits == 0,
    {
        Flags3 { bits: 0 }
    }

    /// Returns flags with every defined bit set.
    pub fn all() -> (r: Self)
        ensures r.bits == Self::spec_all_bits(),
    {
        Flags3 { bits: 0b11000111 }
    }

    /// Returns the raw bits of the flags.
    pub fn bits(&self) -> (r: u8)
        ensures r == self.bits,
    {
        self.bits
    }

    /// Converts raw bits into flags if no undefined bit is set.
    pub fn from_bits(bits: u8) -> (r: Option<Self>)
        ensures
            r == (if bits & !Self::spec_all_bits() == 0 { Some(Flags3 { bits }) } else { None }),
    {
        if bits & !0b11000111u8 == 0 {
            Some(Flags3 { bits })
        } else {
            None
        }
    }

    /// Converts raw bits into flags, dropping every undefined bit.
    pub fn from_bits_truncate(bits: u8) -> (r: Self)
        ensures r.bits == bits & Self::spec_all_bits(),
    {
        Flags3 { bits: bits & 0b11000111 }
    }

    /// Converts raw bits into flags, keeping every bit.
    pub fn from_bits_retain(bits: u8) -> (r: Self)
        ensures r.bits == bits,
    {
        Flags3 { bits }
    }

    /// Create flags from raw bits in `data` by truncating unused bits.
    pub fn from_data(data: u8) -> (r: Self)
        ensures r.bits == data & Self::spec_all_bits(),
    {
        Flags3 { bits: data & 0b11000111 }
    }

    /// Returns `true` if no bit is set.
    pub fn is_empty(&self) -> (r: bool)
        ensures r == (self.bits == 0),
    {
        self.bits == 0
    }

    /// Returns `true` if every defined bit is set.
    pub fn is_all(&self) -> (r: bool)
        ensures r == (self.bits & Self::spec_all_bits() == Self::spec_all_bits()),
    {
        self.bits & 0b11000111 == 0b11000111
    }

    /// Returns `true` if every bit of `other` is also set in `self`.
    pub fn contains(&self, other: Self) -> (r: bool)
        ensures r == (self.bits & other.bits == other.bits),
    {
        self.bits & other.bits == other.bits
    }

    /// Returns `true` if any bit of `other` is also set in `self`.
    pub fn intersects(&self, other: Self) -> (r: bool)
        ensures r == (self.bits & other.bits != 0),
    {
        self.bits & other.bits != 0
    }

    /// Sets every bit of `other` in `self`.
    pub fn insert(&mut self, other: Self)
        ensures final(self).bits == old(self).bits | other.bits,
    {
        self.bits = self.bits | other.bits;
    }

    /// Clears every bit of `other` in `self`.
    pub fn remove(&mut self, other: Self)
        ensures final(self).bits == old(self).bits & !other.bits,
    {
        self.bits = self.bits & !other.bits;
    }

    /// Flips every bit of `other` in `self`.
    pub fn toggle(&mut self, other: Self)
        ensures final(self).bits == old(self).bits ^ other.bits,
    {
        self.bits = self.bits ^ other.bits;
    }

    /// Sets (if `value` is `true`) or clears (otherwise) every bit of `other` in `self`.
    pub fn set(&mut self, other: Self, value: bool)
        ensures
            final(self).bits == (if value { old(self).bits | other.bits } else { old(self).bits & !other.bits }),
    {
        if value {
            self.bits = self.bits | other.bits;
        } else {
            self.bits = self.bits & !other.bits;
        }
    }

    /// Returns the bitwise union of `self` and `other`.
    pub fn union(self, other: Self) -> (r: Self)
        ensures r.bits == self.bits | other.bits,
    {
        Flags3 { bits: self.bits | other.bits }
    }

    /// Returns the bitwise intersection of `self` and `other`.
    pub fn intersection(self, other: Self) -> (r: Self)
        ensures r.bits == self.bits & other.bits,
    {
        Flags3 { bits: self.bits & other.bits }
    }

    /// Returns the bits of `self` that are not set in `other`.
    pub fn difference(self, other: Self) -> (r: Self)
        ensures r.bits == self.bits & !other.bits,
    {
        Flags3 { bits: self.bits & !other.bits }
    }

    /// Returns the bits set in exactly one of `self` and `other`.
    pub fn symmetric_difference(self, other: Self) -> (r: Self)
        ensures r.bits == self.bits ^ other.bits,
    {
        Flags3 { bits: self.bits ^ other.bits }
    }

    /// Returns the defined bits that are not set in `self`.
    pub fn complement(self) -> (r: Self)
        ensures r.bits == !self.bits & Self::spec_all_bits(),
    {
        Flags3 { bits: !self.bits & 0b11000111 }
    }
}

impl Default for Flags3 {
    fn default() -> (r: Self)
        ensures r.bits == 0,
    {
        Flags3 { bits: 0 }
    }
}

impl core::ops::BitOr for Flags3 {
    type Output = Flags3;

    fn bitor(self, rhs: Flags3) -> (r: Flags3) {
        Flags3 { bits: self.bits | rhs.bits }
    }
}

impl vstd::std_specs::ops::BitOrSpecImpl for Flags3 {
    open spec fn obeys_bitor_spec() -> bool {
        true
    }

    open spec fn bitor_req(self, rhs: Flags3) -> bool {
        true
    }

    open spec fn bitor_spec(self, rhs: Flags3) -> Flags3 {
        Flags3 { bits: self.bits | rhs.bits }
    }
}

impl core::ops::BitAnd for Flags3 {
    type Output = Flags3;

    fn bitand(self, rhs: Flags3) -> (r: Flags3) {
        Flags3 { bits: self.bits & rhs.bits }
    }
}

impl vstd::std_specs::ops::BitAndSpecImpl for Flags3 {
    open spec fn obeys_bitand_spec() -> bool {
        true
    }

    open spec fn bitand_req(self, rhs: Flags3) -> bool {
        true
    }

    open spec fn bitand_spec(self, rhs: Flags3) -> Flags3 {
        Flags3 { bits: self.bits & rhs.bits }
    }
}

impl core::ops::Sub for Flags3 {
    type Output = Flags3;

    fn sub(self, rhs: Flags3) -> (r: Flags3) {
        Flags3 { bits: self.bits & !rhs.bits }
    }
}

impl vstd::std_specs::ops::SubSpecImpl for Flags3 {
    open spec fn obeys_sub_spec() -> bool {
        true
    }

    open spec fn sub_req(self, rhs: Flags3) -> bool {
        true
    }

    open spec fn sub_spec(self, rhs: Flags3) -> Flags3 {
        Flags3 { bits: self.bits & !rhs.bits }
    }
}

impl core::ops::Not for Flags3 {
    type Output = Flags3;

    fn not(self) -> (r: Flags3) {
        Flags3 { bits: !self.bits & 0b11000111 }
    }
}

impl vstd::std_specs::ops::NotSpecImpl for Flags3 {
    open spec fn obeys_not_spec() -> bool {
        true
    }

    open spec fn not_req(self) -> bool {
        true
    }

    open spec fn not_spec(self) -> Flags3 {
        Flags3 { bits: !self.bits & Flags3::spec_all_bits() }
    }
}

/// The header of the **Z80** format, all versions.
#[derive(Clone, Copy, Debug, Default, PartialEq, Eq)]
pub struct Header {
    pub a: u8,
    pub f: u8,
    pub bc: [u8; 2],
    pub hl: [u8; 2],
    pub pc: [u8; 2],
    pub sp: [u8; 2],
    pub i: u8,
    pub r7: u8,
    pub flags1: u8,
    pub de: [u8; 2],
    pub bc_alt: [u8; 2],
    pub de_alt: [u8; 2],
    pub hl_alt: [u8; 2],
    pub a_alt: u8,
    pub f_alt: u8,
    pub iy: [u8; 2],
    pub ix: [u8; 2],
    pub iff1: u8,
    pub iff2: u8,
    pub flags2: u8,
}

/// The bytes of `h` in the order of the file.
pub open spec fn spec_header_bytes(h: Header) -> Seq<u8> {
    seq![h.a, h.f, h.bc[0], h.bc[1], h.hl[0], h.hl[1], h.pc[0], h.pc[1], h.sp[0], h.sp[1], h.i, h.r7, h.flags1, h.de[0], h.de[1], h.bc_alt[0], h.bc_alt[1], h.de_alt[0], h.de_alt[1], h.hl_alt[0], h.hl_alt[1], h.a_alt, h.f_alt, h.iy[0], h.iy[1], h.ix[0], h.ix[1], h.iff1, h.iff2, h.flags2]
}

impl Header {
    /// Makes the header of the first 30 bytes of `b`.
    pub fn from_bytes(b: &[u8]) -> (r: Self)
        requires
            b@.len() >= 30,
        ensures
            spec_header_bytes(r) == b@.subrange(0, 30),
    {
        let r = Header {
            a: b[0],
            f: b[1],
            bc: [b[2], b[3]],
            hl: [b[4], b[5]],
            pc: [b[6], b[7]],
            sp: [b[8], b[9]],
            i: b[10],
            r7: b[11],
            flags1: b[12],
            de: [b[13], b[14]],
            bc_alt: [b[15], b[16]],
            de_alt: [b[17], b[18]],
            hl_alt: [b[19], b[20]],
            a_alt: b[21],
            f_alt: b[22],
            iy: [b[23], b[24]],
            ix: [b[25], b[26]],
            iff1: b[27],
            iff2: b[28],
            flags2: b[29],
        };
        assert(spec_header_bytes(r) =~= b@.subrange(0, 30));
        r
    }

    /// Returns the bytes of the header in the order of the file.
    pub fn to_bytes(&self) -> (r: Vec<u8>)
        ensures
            r@ == spec_header_bytes(*self),
    {
        let r: Vec<u8> = vec![
            self.a,
            self.f,
            self.bc[0],
            self.bc[1],
            self.hl[0],
            self.hl[1],
            self.pc[0],
            self.pc[1],
            self.sp[0],
            self.sp[1],
            self.i,
            self.r7,
            self.flags1,
            self.de[0],
            self.de[1],
            self.bc_alt[0],
            self.bc_alt[1],
            self.de_alt[0],
            self.de_alt[1],
            self.hl_alt[0],
            self.hl_alt[1],
            self.a_alt,
            self.f_alt,
            self.iy[0],
            self.iy[1],
            self.ix[0],
            self.ix[1],
            self.iff1,
            self.iff2,
            self.flags2,
        ];
        assert(r@ =~= spec_header_bytes(*self));
        r
    }
}

/// The extended header of the **Z80** format, versions 2 and 3.
#[derive(Clone, Copy, Debug, Default, PartialEq, Eq)]
pub struct HeaderEx {
    pub pc: [u8; 2],
    pub hw_mode: u8,
    pub port1: u8,
    pub ifrom: u8,
    pub flags3: u8,
    pub ay_sel_reg: u8,
    pub ay_regs: [u8; 16],
    pub ts_lo: [u8; 2],
    pub ts_hi: u8,
    pub flags4: u8,
    pub mgt_rom: u8,
    pub mf_rom: u8,
    pub fn1: u8,
    pub fn2: u8,
    pub joy_bindings: [u8; 10],
    pub joy_ascii: [u8; 10],
    pub mgt_type: u8,
    pub disciple1: u8,
    pub disciple2: u8,
    pub port2: u8,
}

/// The bytes of `h` in the order of the file.
pub open spec fn spec_headerex_bytes(h: HeaderEx) -> Seq<u8> {
    seq![h.pc[0], h.pc[1], h.hw_mode, h.port1, h.ifrom, h.flags3, h.ay_sel_reg, h.ay_regs[0], h.ay_regs[1], h.ay_regs[2], h.ay_regs[3], h.ay_regs[4], h.ay_regs[5], h.ay_regs[6], h.ay_regs[7], h.ay_regs[8], h.ay_regs[9], h.ay_regs[10], h.ay_regs[11], h.ay_regs[12], h.ay_regs[13], h.ay_regs[14], h.ay_regs[15], h.ts_lo[0], h.ts_lo[1], h.ts_hi, h.flags4, h.mgt_rom, h.mf_rom, h.fn1, h.fn2, h.joy_bindings[0], h.joy_bindings[1], h.joy_bindings[2], h.joy_bindings[3], h.joy_bindings[4], h.joy_bindings[5], h.joy_bindings[6], h.joy_bindings[7], h.joy_bindings[8], h.joy_bindings[9], h.joy_ascii[0], h.joy_ascii[1], h.joy_ascii[2], h.joy_ascii[3], h.joy_ascii[4], h.joy_ascii[5], h.joy_ascii[6], h.joy_ascii[7], h.joy_ascii[8], h.joy_ascii[9], h.mgt_type, h.disciple1, h.disciple2, h.port2]
}

impl HeaderEx {
    /// Makes the header of the first bytes of `b`, the rest of it zeroed, as reading a short
    /// header into a zeroed one does.
    pub fn from_bytes(b: &[u8]) -> (r: Self)
        requires
            b@.len() <= 55,
        ensures
            spec_headerex_bytes(r) == b@ + Seq::new((55 - b@.len()) as nat, |i: int| 0u8),
    {
        let mut full: [u8; 55] = [0u8; 55];
        let mut i: usize = 0;
        while i < b.len()
            invariant
                i <= b@.len() <= 55,
                forall|j: int| 0 <= j < i ==> full@[j] == b@[j],
                forall|j: int| i <= j < 55 ==> full@[j] == 0u8,
            decreases b@.len() - i,
        {
            full[i] = b[i];
            i = i + 1;
        }
        let r = HeaderEx {
            pc: [full[0], full[1]],
            hw_mode: full[2],
            port1: full[3],
            ifrom: full[4],
            flags3: full[5],
            ay_sel_reg: full[6],
            ay_regs: [full[7], full[8], full[9], full[10], full[11], full[12], full[13], full[14], full[15], full[16], full[17], full[18], full[19], full[20], full[21], full[22]],
            ts_lo: [full[23], full[24]],
            ts_hi: full[25],
            flags4: full[26],
            mgt_rom: full[27],
            mf_rom: full[28],
            fn1: full[29],
            fn2: full[30],
            joy_bindings: [full[31], full[32], full[33], full[34], full[35], full[36], full[37], full[38], full[39], full[40]],
            joy_ascii: [full[41], full[42], full[43], full[44], full[45], full[46], full[47], full[48], full[49], full[50]],
            mgt_type: full[51],
            disciple1: full[52],
            disciple2: full[53],
            port2: full[54],
        };
        assert(spec_headerex_bytes(r) =~= b@ + Seq::new((55 - b@.len()) as nat, |i: int| 0u8));
        r
    }

    /// Returns the bytes of the header in the order of the file.
    pub fn to_bytes(&self) -> (r: Vec<u8>)
        ensures
            r@ == spec_headerex_bytes(*self),
    {
        let r: Vec<u8> = vec![
            self.pc[0],
            self.pc[1],
            self.hw_mode,
            self.port1,
            self.ifrom,
            self.flags3,
            self.ay_sel_reg,
            self.ay_regs[0],
            self.ay_regs[1],
            self.ay_regs[2],
            self.ay_regs[3],
            self.ay_regs[4],
            self.ay_regs[5],
            self.ay_regs[6],
            self.ay_regs[7],
            self.ay_regs[8],
            self.ay_regs[9],
            self.ay_regs[10],
            self.ay_regs[11],
            self.ay_regs[12],
            self.ay_regs[13],
            self.ay_regs[14],
            self.ay_regs[15],
            self.ts_lo[0],
            self.ts_lo[1],
            self.ts_hi,
            self.flags4,
            self.mgt_rom,
            self.mf_rom,
            self.fn1,
            self.fn2,
            self.joy_bindings[0],
            self.joy_bindings[1],
            self.joy_bindings[2],
            self.joy_bindings[3],
            self.joy_bindings[4],
            self.joy_bindings[5],
            self.joy_bindings[6],
            self.joy_bindings[7],
            self.joy_bindings[8],
            self.joy_bindings[9],
            self.joy_ascii[0],
            self.joy_ascii[1],
            self.joy_ascii[2],
            self.joy_ascii[3],
            self.joy_ascii[4],
            self.joy_ascii[5],
            self.joy_ascii[6],
            self.joy_ascii[7],
            self.joy_ascii[8],
            self.joy_ascii[9],
            self.mgt_type,
            self.disciple1,
            self.disciple2,
            self.port2,
        ];
        assert(r@ =~= spec_headerex_bytes(*self));
        r
    }
}

/// The memory block header of the **Z80** format, versions 2 and 3.
#[derive(Clone, Copy, Debug, Default, PartialEq, Eq)]
pub struct MemoryHeader {
    length: [u8; 2],
    page: u8,
}

/// The terminator of a compressed memory block of a version 1 **Z80** file.
pub const MEMORY_V1_TERM: [u8; 4] = [0, 0xED, 0xED, 0];

/// Facts about the bits of the flag bytes of the **Z80** header.
proof fn lemma_z80_flag_bits(bits: u8, v: u8)
    by (bit_vector)
    ensures
        v < 8 ==> (v << 1) != 255 && (v << 1) & 0x3F == v << 1 && (((bits & 0x31) | (v << 1)) & 0x0E)
            >> 1 == v,
        (bits & 0x0E) >> 1 < 8,
        !0x0Eu8 & 0x3F == 0x31,
        !0x03u8 & 0xFF == 0xFC,
        v < 3 ==> ((bits & 0xFC) | v) & 3 == v && v & 0xFF == v,
        v < 4 ==> (((bits & !0xC0u8) | (v << 6)) & 0xC0) >> 6 == v && (v << 6) & 0xFF == v << 6,
        (bits & 0xC0) >> 6 < 4,
        bits & 3 < 4,
        4u8 | 0x40 == 0x44,
        (v & 0x7F) | (((if v & 0x80 != 0 { bits | 1 } else { bits & !1u8 }) & 1) << 7) == v,
{
}

impl From<u8> for Flags1 {
    fn from(byte: u8) -> (r: Flags1) {
        let byte = if byte == 0xFF {
            1
        } else {
            byte
        };
        Flags1::from_bits_truncate(byte)
    }
}

impl vstd::std_specs::convert::FromSpecImpl<u8> for Flags1 {
    open spec fn obeys_from_spec() -> bool {
        true
    }

    open spec fn from_spec(byte: u8) -> Flags1 {
        Flags1 { bits: (if byte == 0xFF { 1u8 } else { byte }) & 0b0011_1111 }
    }
}

impl Flags1 {
    /// Returns the flags with the border colour replaced by `border`.
    pub fn with_border_color(self, border: BorderColor) -> (r: Self)
        ensures
            r.bits == (self.bits & 0b0011_0001) | (spec_border_value(border) << 1),
    {
        let color: u8 = u8::from(border);
        proof {
            lemma_z80_flag_bits(self.bits, color);
        }
        self.intersection(Flags1::BORDER_COLOR().complement()).union(Flags1::from(color << 1))
    }

    /// Returns the flags with bit 7 of the R register taken from `r`.
    pub fn with_refresh_high_bit(self, r: u8) -> (res: Self)
        ensures
            res.bits == (if r & 0x80 != 0 { self.bits | 1 } else { self.bits & !1u8 }),
    {
        let mut flags = self;
        flags.set(Flags1::R_HIGH_BIT(), (r & 0x80) != 0);
        flags
    }

    /// Returns the border colour.
    pub fn border_color(self) -> (r: BorderColor)
        ensures
            spec_border_value(r) == (self.bits & 0b0000_1110) >> 1,
    {
        let color: u8 = self.intersection(Flags1::BORDER_COLOR()).bits() >> 1;
        proof {
            lemma_z80_flag_bits(self.bits, 0);
        }
        match BorderColor::try_from(color) {
            Ok(border) => border,
            Err(_) => BorderColor::BLACK,
        }
    }

    /// Returns `true` if the memory is compressed.
    pub fn is_mem_compressed(self) -> (r: bool)
        ensures
            r == (self.bits & 0b0010_0000 != 0),
    {
        self.intersects(Flags1::MEM_COMPRESSED())
    }

    /// Returns `r` with its bit 7 taken from the flags.
    pub fn mix_r(self, r: u8) -> (res: u8)
        ensures
            res == (r & 0x7F) | ((self.bits & 1) << 7),
    {
        (r & 0x7F) | (self.intersection(Flags1::R_HIGH_BIT()).bits() << 7)
    }
}

impl From<u8> for Flags2 {
    fn from(byte: u8) -> (r: Flags2) {
        Flags2::from_bits_truncate(byte)
    }
}

impl vstd::std_specs::convert::FromSpecImpl<u8> for Flags2 {
    open spec fn obeys_from_spec() -> bool {
        true
    }

    open spec fn from_spec(byte: u8) -> Flags2 {
        Flags2 { bits: byte & 0xFF }
    }
}

/// The bits of an interrupt mode in the flags.
pub open spec fn spec_interrupt_mode_bits(im: InterruptMode) -> u8 {
    match im {
        InterruptMode::Mode0 => 0,
        InterruptMode::Mode1 => 1,
        InterruptMode::Mode2 => 2,
    }
}

/// The joystick code of a joystick model, if the format has one.
pub open spec fn spec_joystick_code(joystick: JoystickModel) -> Option<u8> {
    match joystick {
        JoystickModel::Cursor => Some(0u8),
        JoystickModel::Kempston => Some(1u8),
        JoystickModel::Sinclair2 => Some(2u8),
        JoystickModel::Sinclair1 => Some(3u8),
        _ => None,
    }
}

/// The joystick model of a 2-bit joystick code.
pub open spec fn spec_joystick_of_code(code: u8) -> JoystickModel {
    if code == 0 {
        JoystickModel::Cursor
    } else if code == 1 {
        JoystickModel::Kempston
    } else if code == 2 {
        JoystickModel::Sinclair2
    } else {
        JoystickModel::Sinclair1
    }
}

impl Flags2 {
    /// Returns the flags with the interrupt mode replaced by `im`.
    pub fn with_interrupt_mode(self, im: InterruptMode) -> (r: Self)
        ensures
            r.bits == (self.bits & 0xFC) | spec_interrupt_mode_bits(im),
    {
        let mode = match im {
            InterruptMode::Mode0 => Flags2::INTR_MODE0(),
            InterruptMode::Mode1 => Flags2::INTR_MODE1(),
            InterruptMode::Mode2 => Flags2::INTR_MODE2(),
        };
        proof {
            lemma_z80_flag_bits(self.bits, 0);
        }
        self.intersection(Flags2::INTR_MODE_MASK().complement()).union(mode)
    }

    /// Returns the flags with the issue 2 emulation bit set if `issue` is the issue 2 mode,
    /// cleared otherwise.
    pub fn with_issue2_emulation(self, issue: ReadEarMode) -> (r: Self)
        ensures
            r.bits == (if issue == ReadEarMode::Issue2 { self.bits | 4 } else { self.bits & !4u8 }),
    {
        let mut flags = self;
        flags.set(Flags2::ISSUE2_EMULATION(), issue == ReadEarMode::Issue2);
        flags
    }

    /// Sets the joystick model bits and returns `true` if the format has a code for `joystick`;
    /// returns `false`, leaving the flags as they are, otherwise.
    pub fn insert_joystick_model(&mut self, joystick: JoystickModel) -> (r: bool)
        ensures
            r == (spec_joystick_code(joystick) is Some),
            r ==> final(self).bits == (old(self).bits & !0xC0u8) | (spec_joystick_code(joystick)->0
                << 6),
            !r ==> *final(self) == *old(self),
    {
        let code: u8 = match joystick {
            JoystickModel::Cursor => 0,
            JoystickModel::Kempston => 1,
            JoystickModel::Sinclair2 => 2,
            JoystickModel::Sinclair1 => 3,
            _ => {
                return false;
            },
        };
        let joy: u8 = code << 6;
        proof {
            lemma_z80_flag_bits(self.bits, code);
        }
        self.remove(Flags2::JOYSTICK_MODEL());
        self.insert(Flags2::from(joy));
        true
    }

    /// Returns the interrupt mode, or an error of the kind `InvalidData` when the mode bits
    /// hold no mode.
    pub fn interrupt_mode(self) -> (r: Result<InterruptMode, std::io::Error>)
        ensures
            self.bits & 3 == 0 ==> r == Ok::<InterruptMode, std::io::Error>(InterruptMode::Mode0),
            self.bits & 3 == 1 ==> r == Ok::<InterruptMode, std::io::Error>(InterruptMode::Mode1),
            self.bits & 3 == 2 ==> r == Ok::<InterruptMode, std::io::Error>(InterruptMode::Mode2),
            self.bits & 3 == 3 ==> r is Err,
    {
        let mode: u8 = self.intersection(Flags2::INTR_MODE_MASK()).bits();
        if mode == 0 {
            Ok(InterruptMode::Mode0)
        } else if mode == 1 {
            Ok(InterruptMode::Mode1)
        } else if mode == 2 {
            Ok(InterruptMode::Mode2)
        } else {
            Err(new_io_error(IoErrorKind::InvalidData, "invalid interrupt mode"))
        }
    }

    /// Returns `true` if the issue 2 emulation bit is set.
    pub fn is_issue2_emulation(self) -> (r: bool)
        ensures
            r == (self.bits & 4 != 0),
    {
        self.intersects(Flags2::ISSUE2_EMULATION())
    }

    /// Returns the joystick model.
    pub fn joystick_model(self) -> (r: JoystickModel)
        ensures
            r == spec_joystick_of_code((self.bits & 0xC0) >> 6),
    {
        let code: u8 = self.intersection(Flags2::JOYSTICK_MODEL()).bits() >> 6;
        if code == 0 {
            JoystickModel::Cursor
        } else if code == 1 {
            JoystickModel::Kempston
        } else if code == 2 {
            JoystickModel::Sinclair2
        } else {
            JoystickModel::Sinclair1
        }
    }
}

impl From<u8> for Flags3 {
    fn from(byte: u8) -> (r: Flags3) {
        Flags3::from_bits_truncate(byte)
    }
}

impl vstd::std_specs::convert::FromSpecImpl<u8> for Flags3 {
    open spec fn obeys_from_spec() -> bool {
        true
    }

    open spec fn from_spec(byte: u8) -> Flags3 {
        Flags3 { bits: byte & 0b1100_0111 }
    }
}

impl Flags3 {
    /// Returns `true` if the AY sound chip is the Melodik one.
    pub fn is_ay_melodik(self) -> (r: bool)
        ensures
            r == (self.bits & 0x44 == 0x04),
    {
        proof {
            lemma_z80_flag_bits(self.bits, 0);
        }
        self.intersection(Flags3::AY_SOUND_EMU().union(Flags3::AY_FULLER_BOX())) == Flags3::AY_SOUND_EMU()
    }

    /// Returns `true` if the AY sound chip is the Fuller Box one.
    pub fn is_ay_fuller_box(self) -> (r: bool)
        ensures
            r == (self.bits & 0x44 == 0x44),
    {
        proof {
            lemma_z80_flag_bits(self.bits, 0);
        }
        self.contains(Flags3::AY_SOUND_EMU().union(Flags3::AY_FULLER_BOX()))
    }

    /// Returns `true` if the hardware is the modified one.
    pub fn is_alt_hw_mode(self) -> (r: bool)
        ensures
            r == (self.bits & 0x80 != 0),
    {
        self.intersects(Flags3::ALT_HW_MODE())
    }
}

/// Writing a border colour, an interrupt mode, a joystick model or bit 7 of the R register
/// into the header flags and reading it back gives what was written.
pub proof fn lemma_flags_read_back(flags1: Flags1, flags2: Flags2, border: BorderColor, im: InterruptMode, joystick: JoystickModel, r: u8)
    ensures
        (((flags1.bits & 0b0011_0001) | (spec_border_value(border) << 1)) & 0b0000_1110) >> 1
            == spec_border_value(border),
        ((flags2.bits & 0xFC) | spec_interrupt_mode_bits(im)) & 3 == spec_interrupt_mode_bits(im),
        spec_joystick_code(joystick) is Some ==> spec_joystick_of_code(
            (((flags2.bits & !0xC0u8) | (spec_joystick_code(joystick)->0 << 6)) & 0xC0) >> 6,
        ) == joystick,
        (r & 0x7F) | (((if r & 0x80 != 0 { flags1.bits | 1 } else { flags1.bits & !1u8 }) & 1) << 7)
            == r,
{
    lemma_z80_flag_bits(flags1.bits, spec_border_value(border));
    lemma_z80_flag_bits(flags2.bits, spec_interrupt_mode_bits(im));
    if spec_joystick_code(joystick) is Some {
        lemma_z80_flag_bits(flags2.bits, spec_joystick_code(joystick)->0);
    }
    lemma_z80_flag_bits(flags1.bits, r);
}

/// The T-state counter of a **Z80** header (a countdown within a quarter of the frame and
/// the quarter) converted to the number of T-states since the start of the frame.
pub open spec fn spec_z80_to_cycles(ts_lo: u16, ts_hi: u8, model: ComputerModel) -> int {
    let total = spec_frame_tstates(model) as int;
    let qts = total / 4;
    (((ts_hi as int + 1) % 4 + 1) * qts - (ts_lo as int + 1)) % total
}

/// The number of T-states since the start of the frame converted to the T-state counter
/// of a **Z80** header.
pub open spec fn spec_cycles_to_z80(ts: i32, model: ComputerModel) -> (u16, u8) {
    let total = spec_frame_tstates(model) as int;
    let qts = total / 4;
    ((qts - ts as int % qts - 1) as u16, ((ts as int % total / qts - 1) % 4) as u8)
}

/// `x` modulo `m`, never negative.
fn rem_euclid(x: i32, m: i32) -> (r: i32)
    requires
        m > 0,
    ensures
        r == x as int % m as int,
        0 <= r < m,
{
    if x >= 0 {
        ((x as u32) % (m as u32)) as i32
    } else {
        let a: u32 = (-(x as i64)) as u32;
        let q: u32 = a / (m as u32);
        let rem: u32 = a % (m as u32);
        proof {
            vstd::arithmetic::div_mod::lemma_fundamental_div_mod(a as int, m as int);
        }
        proof {
            assert(x as int == (-(q as int)) * m as int - rem as int) by (nonlinear_arith)
                requires
                    a as int == m as int * q as int + rem as int,
                    x as int == -(a as int),
            ;
            assert(x as int == (-(q as int) - 1) * m as int + (m - rem)) by (nonlinear_arith)
                requires
                    x as int == (-(q as int)) * m as int - rem as int,
            ;
        }
        if rem == 0 {
            proof {
                vstd::arithmetic::div_mod::lemma_fundamental_div_mod_converse_mod(
                    x as int,
                    m as int,
                    -(q as int),
                    0,
                );
            }
            0
        } else {
            proof {
                vstd::arithmetic::div_mod::lemma_fundamental_div_mod_converse_mod(
                    x as int,
                    m as int,
                    -(q as int) - 1,
                    m - rem,
                );
            }
            (m as u32 - rem) as i32
        }
    }
}

/// Converts the T-state counter of a **Z80** header to the number of T-states since the start
/// of the frame.
pub fn z80_to_cycles(ts_lo: u16, ts_hi: u8, model: ComputerModel) -> (r: i32)
    requires
        ts_hi < 255,
    ensures
        r == spec_z80_to_cycles(ts_lo, ts_hi, model),
        0 <= r < spec_frame_tstates(model),
{
    let total_ts: i32 = model.frame_tstates();
    let qts: i32 = total_ts / 4;
    let qcountdown: i32 = ts_lo as i32;
    let quarter: i32 = ((ts_hi + 1) % 4 + 1) as i32;
    proof {
        assert(quarter * qts <= 4 * qts) by (nonlinear_arith)
            requires
                quarter <= 4,
                qts >= 0,
        ;
    }
    rem_euclid(quarter * qts - (qcountdown + 1), total_ts)
}

/// Converts the number of T-states since the start of the frame to the T-state counter
/// of a **Z80** header.
pub fn cycles_to_z80(ts: i32, model: ComputerModel) -> (r: (u16, u8))
    ensures
        r == spec_cycles_to_z80(ts, model),
        r.0 < spec_frame_tstates(model) / 4,
        r.1 <= 3,
{
    let total_ts: i32 = model.frame_tstates();
    let qts: i32 = total_ts / 4;
    let ts_lo = (qts - rem_euclid(ts, qts) - 1) as u16;
    let ts_hi = rem_euclid(rem_euclid(ts, total_ts) / qts - 1, 4) as u8;
    (ts_lo, ts_hi)
}

/// The T-state counter that a frame position is saved as in a **Z80** header loads as the
/// same position within the frame.
pub proof fn lemma_cycles_z80_round_trip(ts: i32, model: ComputerModel)
    ensures
        spec_cycles_to_z80(ts, model).1 < 255,
        spec_z80_to_cycles(spec_cycles_to_z80(ts, model).0, spec_cycles_to_z80(ts, model).1, model)
            == ts as int % spec_frame_tstates(model) as int,
{
    let total = spec_frame_tstates(model) as int;
    let qts = total / 4;
    assert(total == 4 * qts);
    let t = ts as int % total;
    let k = t / qts;
    let r = ts as int % qts;
    vstd::arithmetic::div_mod::lemma_fundamental_div_mod(ts as int, total);
    vstd::arithmetic::div_mod::lemma_fundamental_div_mod(t, qts);
    let a = ts as int / total;
    assert(ts as int == qts * (4 * a + k) + t % qts) by (nonlinear_arith)
        requires
            ts as int == total * a + t,
            t == qts * k + t % qts,
            total == 4 * qts,
    ;
    vstd::arithmetic::div_mod::lemma_fundamental_div_mod_converse_mod(ts as int, qts, 4 * a + k, t % qts);
    assert(0 <= k < 4) by (nonlinear_arith)
        requires
            0 <= t < total,
            total == 4 * qts,
            qts > 0,
            k == t / qts,
    ;
    let lo = qts - r - 1;
    let hi = (k - 1) % 4;
    assert((hi + 1) % 4 == k);
    assert((((hi + 1) % 4 + 1) * qts - (lo + 1)) == t) by (nonlinear_arith)
        requires
            (hi + 1) % 4 == k,
            lo == qts - r - 1,
            t == qts * k + r,
    ;
    assert(0 <= t < total);
    vstd::arithmetic::div_mod::lemma_fundamental_div_mod_converse_mod(
        (((hi + 1) % 4 + 1) * qts - (lo + 1)),
        total,
        0,
        t,
    );
}

/// The version of an extended **Z80** header of `header_length` bytes, if there is one.
pub open spec fn spec_header_ex_version(header_length: u16) -> Option<Z80Version> {
    if header_length == 23 {
        Some(Z80Version::V2)
    } else if header_length == 54 || header_length == 55 {
        Some(Z80Version::V3)
    } else {
        None
    }
}

/// Returns the version of an extended **Z80** header of `header_length` bytes, if there is one.
pub fn header_ex_version(header_length: u16) -> (r: Option<Z80Version>)
    ensures
        r == spec_header_ex_version(header_length),
{
    match header_length {
        23 => Some(Z80Version::V2),
        54 | 55 => Some(Z80Version::V3),
        _ => None,
    }
}

/// Reads the extended header of a **Z80** V2/V3 file: its length, then as many bytes as it says.
///
/// Fails with an error of the kind `InvalidData` when the length is not one of a known version.
pub fn load_header_ex<R: std::io::Read>(mut rd: R) -> (r: Result<(Z80Version, HeaderEx), std::io::Error>)
    ensures
        (r matches Ok((version, header_ex)) ==> exists|b: Seq<u8>|
            spec_header_ex_version(b.len() as u16) == Some(version) && b.len() <= 55
                && spec_headerex_bytes(header_ex) == b + Seq::new((55 - b.len()) as nat, |i: int| 0u8)),
{
    let mut len_buf: Vec<u8> = vec![0u8, 0u8];
    match read_exact(&mut rd, len_buf.as_mut_slice()) {
        Ok(()) => {},
        Err(e) => {
            return Err(e);
        },
    }
    let header_length: u16 = len_buf[0] as u16 + len_buf[1] as u16 * 256;
    let version = match header_ex_version(header_length) {
        Some(version) => version,
        None => {
            return Err(new_io_error(IoErrorKind::InvalidData, "invalid extended header size "));
        },
    };
    let mut buf: Vec<u8> = Vec::new();
    let mut i: u16 = 0;
    while i < header_length
        invariant
            i <= header_length <= 55,
            buf@.len() == i,
        decreases header_length - i,
    {
        buf.push(0);
        i = i + 1;
    }
    match read_exact(&mut rd, buf.as_mut_slice()) {
        Ok(()) => {},
        Err(e) => {
            return Err(e);
        },
    }
    let header_ex = HeaderEx::from_bytes(buf.as_slice());
    Ok((version, header_ex))
}

/// The length of a memory block, its page and whether it is compressed, as a memory block
/// header says: the length `0xFFFF` stands for an uncompressed page.
pub open spec fn spec_mem_header_info(length: u16, page: u8) -> (usize, u8, bool) {
    if length == 0xFFFF {
        (PAGE_SIZE, page, false)
    } else {
        (length as usize, page, true)
    }
}

impl MemoryHeader {
    /// The length field.
    pub closed spec fn spec_length(&self) -> u16 {
        (self.length[0] as int + self.length[1] as int * 256) as u16
    }

    /// The page field.
    pub closed spec fn spec_page(&self) -> u8 {
        self.page
    }

    /// Creates a memory block header.
    pub fn new(length: u16, page: u8) -> (r: Self)
        ensures
            r.spec_length() == length,
            r.spec_page() == page,
    {
        let length = [(length % 256) as u8, (length / 256) as u8];
        MemoryHeader { length, page }
    }

    /// Makes the header of the 3 bytes `b`.
    pub fn from_bytes(b: &[u8]) -> (r: Self)
        requires
            b@.len() >= 3,
        ensures
            r.spec_length() == b@[0] as int + b@[1] as int * 256,
            r.spec_page() == b@[2],
    {
        MemoryHeader { length: [b[0], b[1]], page: b[2] }
    }

    /// Returns the bytes of the header in the order of the file.
    pub fn to_bytes(&self) -> (r: Vec<u8>)
        ensures
            r@.len() == 3,
            r@[0] as int + r@[1] as int * 256 == self.spec_length(),
            r@[2] == self.spec_page(),
    {
        vec![self.length[0], self.length[1], self.page]
    }

    /// Returns the length of the memory block, its page and whether it is compressed.
    pub fn info(&self) -> (r: (usize, u8, bool))
        ensures
            r == spec_mem_header_info(self.spec_length(), self.spec_page()),
    {
        let length: u16 = self.length[0] as u16 + self.length[1] as u16 * 256;
        if length == 0xFFFF {
            (PAGE_SIZE, self.page, false)
        } else {
            (length as usize, self.page, true)
        }
    }
}

/// Reads a **Z80** V2/V3 memory header and returns `(length, page, is_compressed)` on success,
/// or `None` if the source has ended.
pub fn load_mem_header<R: std::io::Read>(mut rd: R) -> (r: Result<Option<(usize, u8, bool)>, std::io::Error>)
    ensures
        (r matches Ok(Some(info)) ==> exists|b: Seq<u8>|
            b.len() == 3 && info == spec_mem_header_info((b[0] as int + b[1] as int * 256) as u16, b[2])),
{
    let mut buf: Vec<u8> = vec![0u8, 0u8, 0u8];
    match read_exact_or_none(&mut rd, buf.as_mut_slice()) {
        Ok(true) => {
            let header = MemoryHeader::from_bytes(buf.as_slice());
            Ok(Some(header.info()))
        },
        Ok(false) => Ok(None),
        Err(e) => Err(e),
    }
}

} // verus!
