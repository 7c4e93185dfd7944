//! Flags and modes of the ZX Spectrum chipsets' I/O ports.
use vstd::prelude::*;
use vstd::string::StringSliceAdditionalSpecFns;

verus! {

/// This enum determines the EAR input (bit 6) read from the 0xFE port when there is no EAR input feed.
#[derive(Debug, Clone, Copy, PartialEq, Eq, Hash, Structural)]
pub enum ReadEarMode {
    /// Issue 3 keyboard behavior - EAR input is 1 when EAR output is 1
    Issue3,
    /// Issue 2 keyboard behavior - EAR input is 1 when either EAR or MIC output is 1
    Issue2,
    /// Always clear - EAR input is always 0
    Clear,
    /// Always set - EAR input is always 1
    AlwaysSet,
}

/// The error returned when a string does not name a [ReadEarMode].
#[derive(Clone, Debug, PartialEq, Eq, Structural)]
pub struct ParseReadEarModeError;

/// The error returned when an integer has bits that do not belong to [EarMic].
#[derive(Clone, Debug, PartialEq, Eq, Structural)]
pub struct TryFromU8EarMicError(pub u8);

/// The error returned when an integer does not name a [Ula3Paging] layout.
#[derive(Clone, Debug, PartialEq, Eq, Structural)]
pub struct TryFromU8Ula3PagingError(pub u8);

/// The error returned when an integer has bits that do not belong to [ColorMode].
#[derive(Clone, Debug, PartialEq, Eq, Structural)]
pub struct TryFromU8ColorModeError(pub u8);

/// A selection enum for [Ula3CtrlFlags] special paging mode.
#[derive(Debug, PartialEq, Eq, PartialOrd, Ord, Hash, Clone, Copy, Structural)]
pub enum Ula3Paging {
    /// RAM0, RAM1, RAM2, RAM3
    Banks0123,
    /// RAM4, RAM5, RAM6, RAM7
    Banks4567,
    /// RAM4, RAM5, RAM6, RAM3
    Banks4563,
    /// RAM4, RAM7, RAM6, RAM3
    Banks4763,
}

/// This type represents packed EAR and MIC output data.
///
/// Bits `b3-b4` of the [UlaPortFlags] at the position of `b0-b1`.
#[derive(Debug, Clone, Copy, PartialEq, Eq, PartialOrd, Ord, Hash, Structural)]
pub struct EarMic {
    /// The raw bits of the flags.
    pub bits: u8,
}

impl EarMic {
    /// The MIC output bit.
    #[allow(non_snake_case)]
    pub fn MIC() -> (r: Self)
        ensures r.bits == 0b00000001,
    {
        EarMic { bits: 0b00000001 }
    }

    /// The EAR output bit.
    #[allow(non_snake_case)]
    pub fn EAR() -> (r: Self)
        ensures r.bits == 0b00000010,
    {
        EarMic { bits: 0b00000010 }
    }

    /// Both EAR and MIC output bits.
    #[allow(non_snake_case)]
    pub fn EARMIC() -> (r: Self)
        ensures r.bits == 0b00000011,
    {
        EarMic { bits: 0b00000011 }
    }

    /// All bits that belong to some defined flag.
    pub open spec fn spec_all_bits() -> u8 {
        0b00000011
    }

    /// Returns flags with no bit set.
    pub fn empty() -> (r: Self)
        ensures r.bits == 0,
    {
        EarMic { bits: 0 }
    }

    /// Returns flags with every defined bit set.
    pub fn all() -> (r: Self)
        ensures r.bits == Self::spec_all_bits(),
    {
        EarMic { bits: 0b00000011 }
    }

    /// Returns the raw bits of the flags.
    pub fn bits(&self) -> (r: u8)
        ensures r == self.bits,
    {
        self.bits
    }

    /// Converts raw bits into flags if no undefined bit is set.
    pub fn from_bits(bits: u8) -> (r: Option<Self>)
        ensures
            r == (if bits & !Self::spec_all_bits() == 0 { Some(EarMic { bits }) } else { None }),
    {
        if bits & !0b00000011u8 == 0 {
            Some(EarMic { bits })
        } else {
            None
        }
    }

    /// Converts raw bits into flags, dropping every undefined bit.
    pub fn from_bits_truncate(bits: u8) -> (r: Self)
        ensures r.bits == bits & Self::spec_all_bits(),
    {
        EarMic { bits: bits & 0b00000011 }
    }

    /// Converts raw bits into flags, keeping every bit.
    pub fn from_bits_retain(bits: u8) -> (r: Self)
        ensures r.bits == bits,
    {
        EarMic { bits }
    }

    /// Create flags from raw bits in `data` by truncating unused bits.
    pub fn from_data(data: u8) -> (r: Self)
        ensures r.bits == data & Self::spec_all_bits(),
    {
        EarMic { bits: data & 0b00000011 }
    }

    /// Returns `true` if no bit is set.
    pub fn is_empty(&self) -> (r: bool)
        ensures r == (self.bits == 0),
    {
        self.bits == 0
    }

    /// Returns `true` if every defined bit is set.
    pub fn is_all(&self) -> (r: bool)
        ensures r == (self.bits & Self::spec_all_bits() == Self::spec_all_bits()),
    {
        self.bits & 0b00000011 == 0b00000011
    }

    /// Returns `true` if every bit of `other` is also set in `self`.
    pub fn contains(&self, other: Self) -> (r: bool)
        ensures r == (self.bits & other.bits == other.bits),
    {
        self.bits & other.bits == other.bits
    }

    /// Returns `true` if any bit of `other` is also set in `self`.
    pub fn intersects(&self, other: Self) -> (r: bool)
        ensures r == (self.bits & other.bits != 0),
    {
        self.bits & other.bits != 0
    }

    /// Sets every bit of `other` in `self`.
    pub fn insert(&mut self, other: Self)
        ensures final(self).bits == old(self).bits | other.bits,
    {
        self.bits = self.bits | other.bits;
    }

    /// Clears every bit of `other` in `self`.
    pub fn remove(&mut self, other: Self)
        ensures final(self).bits == old(self).bits & !other.bits,
    {
        self.bits = self.bits & !other.bits;
    }

    /// Flips every bit of `other` in `self`.
    pub fn toggle(&mut self, other: Self)
        ensures final(self).bits == old(self).bits ^ other.bits,
    {
        self.bits = self.bits ^ other.bits;
    }

    /// Sets (if `value` is `true`) or clears (otherwise) every bit of `other` in `self`.
    pub fn set(&mut self, other: Self, value: bool)
        ensures
            final(self).bits == (if value { old(self).bits | other.bits } else { old(self).bits & !other.bits }),
    {
        if value {
            self.bits = self.bits | other.bits;
        } else {
            self.bits = self.bits & !other.bits;
        }
    }

    /// Returns the bitwise union of `self` and `other`.
    pub fn union(self, other: Self) -> (r: Self)
        ensures r.bits == self.bits | other.bits,
    {
        EarMic { bits: self.bits | other.bits }
    }

    /// Returns the bitwise intersection of `self` and `other`.
    pub fn intersection(self, other: Self) -> (r: Self)
        ensures r.bits == self.bits & other.bits,
    {
        EarMic { bits: self.bits & other.bits }
    }

    /// Returns the bits of `self` that are not set in `other`.
    pub fn difference(self, other: Self) -> (r: Self)
        ensures r.bits == self.bits & !other.bits,
    {
        EarMic { bits: self.bits & !other.bits }
    }

    /// Returns the bits set in exactly one of `self` and `other`.
    pub fn symmetric_difference(self, other: Self) -> (r: Self)
        ensures r.bits == self.bits ^ other.bits,
    {
        EarMic { bits: self.bits ^ other.bits }
    }

    /// Returns the defined bits that are not set in `self`.
    pub fn complement(self) -> (r: Self)
        ensures r.bits == !self.bits & Self::spec_all_bits(),
    {
        EarMic { bits: !self.bits & 0b00000011 }
    }
}

impl Default for EarMic {
    fn default() -> (r: Self)
        ensures r.bits == 0,
    {
        EarMic { bits: 0 }
    }
}

impl core::ops::BitOr for EarMic {
    type Output = EarMic;

    fn bitor(self, rhs: EarMic) -> (r: EarMic) {
        EarMic { bits: self.bits | rhs.bits }
    }
}

impl vstd::std_specs::ops::BitOrSpecImpl for EarMic {
    open spec fn obeys_bitor_spec() -> bool {
        true
    }

    open spec fn bitor_req(self, rhs: EarMic) -> bool {
        true
    }

    open spec fn bitor_spec(self, rhs: EarMic) -> EarMic {
        EarMic { bits: self.bits | rhs.bits }
    }
}

impl core::ops::BitAnd for EarMic {
    type Output = EarMic;

    fn bitand(self, rhs: EarMic) -> (r: EarMic) {
        EarMic { bits: self.bits & rhs.bits }
    }
}

impl vstd::std_specs::ops::BitAndSpecImpl for EarMic {
    open spec fn obeys_bitand_spec() -> bool {
        true
    }

    open spec fn bitand_req(self, rhs: EarMic) -> bool {
        true
    }

    open spec fn bitand_spec(self, rhs: EarMic) -> EarMic {
        EarMic { bits: self.bits & rhs.bits }
    }
}

impl core::ops::Sub for EarMic {
    type Output = EarMic;

    fn sub(self, rhs: EarMic) -> (r: EarMic) {
        EarMic { bits: self.bits & !rhs.bits }
    }
}

impl vstd::std_specs::ops::SubSpecImpl for EarMic {
    open spec fn obeys_sub_spec() -> bool {
        true
    }

    open spec fn sub_req(self, rhs: EarMic) -> bool {
        true
    }

    open spec fn sub_spec(self, rhs: EarMic) -> EarMic {
        EarMic { bits: self.bits & !rhs.bits }
    }
}

impl core::ops::Not for EarMic {
    type Output = EarMic;

    fn not(self) -> (r: EarMic) {
        EarMic { bits: !self.bits & 0b00000011 }
    }
}

impl vstd::std_specs::ops::NotSpecImpl for EarMic {
    open spec fn obeys_not_spec() -> bool {
        true
    }

    open spec fn not_req(self) -> bool {
        true
    }

    open spec fn not_spec(self) -> EarMic {
        EarMic { bits: !self.bits & EarMic::spec_all_bits() }
    }
}

/// ZX Spectrum's ULA port flags.
///
/// Any even-numbered I/O port:
///
/// | Dir | b7  | b6  | b5  | b4  | b3  | b2  | b1  | b0  |
/// |-----|-----|-----|-----|-----|-----|-----|-----|-----|
/// | IN  |     | EAR |     | KB4 | KB3 | KB2 | KB1 | KB0 |
/// | OUT |     |     |     | EAR | MIC | BO2 | BO1 | BO0 |
///
/// Border color: `BO2 * 4 + BO1 * 2 + BO0`.
///
/// 0 - key pressed, 1 - key not pressed.
#[derive(Debug, Clone, Copy, PartialEq, Eq, PartialOrd, Ord, Hash, Structural)]
pub struct UlaPortFlags {
    /// The raw bits of the flags.
    pub bits: u8,
}

impl UlaPortFlags {
    /// Border color bit 0.
    #[allow(non_snake_case)]
    pub fn BORDER0() -> (r: Self)
        ensures r.bits == 0b00000001,
    {
        UlaPortFlags { bits: 0b00000001 }
    }

    /// Border color bit 1.
    #[allow(non_snake_case)]
    pub fn BORDER1() -> (r: Self)
        ensures r.bits == 0b00000010,
    {
        UlaPortFlags { bits: 0b00000010 }
    }

    /// Border color bit 2.
    #[allow(non_snake_case)]
    pub fn BORDER2() -> (r: Self)
        ensures r.bits == 0b00000100,
    {
        UlaPortFlags { bits: 0b00000100 }
    }

    /// MIC output bit.
    #[allow(non_snake_case)]
    pub fn MIC_OUT() -> (r: Self)
        ensures r.bits == 0b00001000,
    {
        UlaPortFlags { bits: 0b00001000 }
    }

    /// EAR output bit.
    #[allow(non_snake_case)]
    pub fn EAR_OUT() -> (r: Self)
        ensures r.bits == 0b00010000,
    {
        UlaPortFlags { bits: 0b00010000 }
    }

    /// Unused bit 5.
    #[allow(non_snake_case)]
    pub fn UNUSED5() -> (r: Self)
        ensures r.bits == 0b00100000,
    {
        UlaPortFlags { bits: 0b00100000 }
    }

    /// EAR input bit.
    #[allow(non_snake_case)]
    pub fn EAR_IN() -> (r: Self)
        ensures r.bits == 0b01000000,
    {
        UlaPortFlags { bits: 0b01000000 }
    }

    /// Unused bit 7.
    #[allow(non_snake_case)]
    pub fn UNUSED7() -> (r: Self)
        ensures r.bits == 0b10000000,
    {
        UlaPortFlags { bits: 0b10000000 }
    }

    /// Border color bits.
    #[allow(non_snake_case)]
    pub fn BORDER_MASK() -> (r: Self)
        ensures r.bits == 0b00000111,
    {
        UlaPortFlags { bits: 0b00000111 }
    }

    /// EAR and MIC output bits.
    #[allow(non_snake_case)]
    pub fn EAR_MIC_MASK() -> (r: Self)
        ensures r.bits == 0b00011000,
    {
        UlaPortFlags { bits: 0b00011000 }
    }

    /// Keyboard line bits.
    #[allow(non_snake_case)]
    pub fn KEYBOARD_MASK() -> (r: Self)
        ensures r.bits == 0b00011111,
    {
        UlaPortFlags { bits: 0b00011111 }
    }

    /// Unused bits.
    #[allow(non_snake_case)]
    pub fn UNUSED_MASK() -> (r: Self)
        ensures r.bits == 0b10100000,
    {
        UlaPortFlags { bits: 0b10100000 }
    }

    /// All bits that belong to some defined flag.
    pub open spec fn spec_all_bits() -> u8 {
        0b11111111
    }

    /// Returns flags with no bit set.
    pub fn empty() -> (r: Self)
        ensures r.bits == 0,
    {
        UlaPortFlags { bits: 0 }
    }

    /// Returns flags with every defined bit set.
    pub fn all() -> (r: Self)
        ensures r.bits == Self::spec_all_bits(),
    {
        UlaPortFlags { bits: 0b11111111 }
    }

    /// Returns the raw bits of the flags.
    pub fn bits(&self) -> (r: u8)
        ensures r == self.bits,
    {
        self.bits
    }

    /// Converts raw bits into flags if no undefined bit is set.
    pub fn from_bits(bits: u8) -> (r: Option<Self>)
        ensures
            r == (if bits & !Self::spec_all_bits() == 0 { Some(UlaPortFlags { bits }) } else { None }),
    {
        if bits & !0b11111111u8 == 0 {
            Some(UlaPortFlags { bits })
        } else {
            None
        }
    }

    /// Converts raw bits into flags, dropping every undefined bit.
    pub fn from_bits_truncate(bits: u8) -> (r: Self)
        ensures r.bits == bits & Self::spec_all_bits(),
    {
        UlaPortFlags { bits: bits & 0b11111111 }
    }

    /// Converts raw bits into flags, keeping every bit.
    pub fn from_bits_retain(bits: u8) -> (r: Self)
        ensures r.bits == bits,
    {
        UlaPortFlags { bits }
    }

    /// Create flags from raw bits in `data` by truncating unused bits.
    pub fn from_data(data: u8) -> (r: Self)
        ensures r.bits == data & Self::spec_all_bits(),
    {
        UlaPortFlags { bits: data & 0b11111111 }
    }

    /// Returns `true` if no bit is set.
    pub fn is_empty(&self) -> (r: bool)
        ensures r == (self.bits == 0),
    {
        self.bits == 0
    }

    /// Returns `true` if every defined bit is set.
    pub fn is_all(&self) -> (r: bool)
        ensures r == (self.bits & Self::spec_all_bits() == Self::spec_all_bits()),
    {
        self.bits & 0b11111111 == 0b11111111
    }

    /// Returns `true` if every bit of `other` is also set in `self`.
    pub fn contains(&self, other: Self) -> (r: bool)
        ensures r == (self.bits & other.bits == other.bits),
    {
        self.bits & other.bits == other.bits
    }

    /// Returns `true` if any bit of `other` is also set in `self`.
    pub fn intersects(&self, other: Self) -> (r: bool)
        ensures r == (self.bits & other.bits != 0),
    {
        self.bits & other.bits != 0
    }

    /// Sets every bit of `other` in `self`.
    pub fn insert(&mut self, other: Self)
        ensures final(self).bits == old(self).bits | other.bits,
    {
        self.bits = self.bits | other.bits;
    }

    /// Clears every bit of `other` in `self`.
    pub fn remove(&mut self, other: Self)
        ensures final(self).bits == old(self).bits & !other.bits,
    {
        self.bits = self.bits & !other.bits;
    }

    /// Flips every bit of `other` in `self`.
    pub fn toggle(&mut self, other: Self)
        ensures final(self).bits == old(self).bits ^ other.bits,
    {
        self.bits = self.bits ^ other.bits;
    }

    /// Sets (if `value` is `true`) or clears (otherwise) every bit of `other` in `self`.
    pub fn set(&mut self, other: Self, value: bool)
        ensures
            final(self).bits == (if value { old(self).bits | other.bits } else { old(self).bits & !other.bits }),
    {
        if value {
            self.bits = self.bits | other.bits;
        } else {
            self.bits = self.bits & !other.bits;
        }
    }

    /// Returns the bitwise union of `self` and `other`.
    pub fn union(self, other: Self) -> (r: Self)
        ensures r.bits == self.bits | other.bits,
    {
        UlaPortFlags { bits: self.bits | other.bits }
    }

    /// Returns the bitwise intersection of `self` and `other`.
    pub fn intersection(self, other: Self) -> (r: Self)
        ensures r.bits == self.bits & other.bits,
    {
        UlaPortFlags { bits: self.bits & other.bits }
    }

    /// Returns the bits of `self` that are not set in `other`.
    pub fn difference(self, other: Self) -> (r: Self)
        ensures r.bits == self.bits & !other.bits,
    {
        UlaPortFlags { bits: self.bits & !other.bits }
    }

    /// Returns the bits set in exactly one of `self` and `other`.
    pub fn symmetric_difference(self, other: Self) -> (r: Self)
        ensures r.bits == self.bits ^ other.bits,
    {
        UlaPortFlags { bits: self.bits ^ other.bits }
    }

    /// Returns the defined bits that are not set in `self`.
    pub fn complement(self) -> (r: Self)
        ensures r.bits == !self.bits & Self::spec_all_bits(),
    {
        UlaPortFlags { bits: !self.bits & 0b11111111 }
    }
}

impl Default for UlaPortFlags {
    fn default() -> (r: Self)
        ensures r.bits == 0,
    {
        UlaPortFlags { bits: 0 }
    }
}

impl core::ops::BitOr for UlaPortFlags {
    type Output = UlaPortFlags;

    fn bitor(self, rhs: UlaPortFlags) -> (r: UlaPortFlags) {
        UlaPortFlags { bits: self.bits | rhs.bits }
    }
}

impl vstd::std_specs::ops::BitOrSpecImpl for UlaPortFlags {
    open spec fn obeys_bitor_spec() -> bool {
        true
    }

    open spec fn bitor_req(self, rhs: UlaPortFlags) -> bool {
        true
    }

    open spec fn bitor_spec(self, rhs: UlaPortFlags) -> UlaPortFlags {
        UlaPortFlags { bits: self.bits | rhs.bits }
    }
}

impl core::ops::BitAnd for UlaPortFlags {
    type Output = UlaPortFlags;

    fn bitand(self, rhs: UlaPortFlags) -> (r: UlaPortFlags) {
        UlaPortFlags { bits: self.bits & rhs.bits }
    }
}

impl vstd::std_specs::ops::BitAndSpecImpl for UlaPortFlags {
    open spec fn obeys_bitand_spec() -> bool {
        true
    }

    open spec fn bitand_req(self, rhs: UlaPortFlags) -> bool {
        true
    }

    open spec fn bitand_spec(self, rhs: UlaPortFlags) -> UlaPortFlags {
        UlaPortFlags { bits: self.bits & rhs.bits }
    }
}

impl core::ops::Sub for UlaPortFlags {
    type Output = UlaPortFlags;

    fn sub(self, rhs: UlaPortFlags) -> (r: UlaPortFlags) {
        UlaPortFlags { bits: self.bits & !rhs.bits }
    }
}

impl vstd::std_specs::ops::SubSpecImpl for UlaPortFlags {
    open spec fn obeys_sub_spec() -> bool {
        true
    }

    open spec fn sub_req(self, rhs: UlaPortFlags) -> bool {
        true
    }

    open spec fn sub_spec(self, rhs: UlaPortFlags) -> UlaPortFlags {
        UlaPortFlags { bits: self.bits & !rhs.bits }
    }
}

impl core::ops::Not for UlaPortFlags {
    type Output = UlaPortFlags;

    fn not(self) -> (r: UlaPortFlags) {
        UlaPortFlags { bits: !self.bits & 0b11111111 }
    }
}

impl vstd::std_specs::ops::NotSpecImpl for UlaPortFlags {
    open spec fn obeys_not_spec() -> bool {
        true
    }

    open spec fn not_req(self) -> bool {
        true
    }

    open spec fn not_spec(self) -> UlaPortFlags {
        UlaPortFlags { bits: !self.bits & UlaPortFlags::spec_all_bits() }
    }
}

/// ZX Spectrum 128K / +2 memory control flags and +2A / +3 primary control flags.
///
/// Any I/O port matching: `0xxx xxxx  xxxx xx0x` (`0x7ffd`).
///
/// | Dir | b7  | b6  | b5  | b4  | b3  | b2  | b1  | b0  |
/// |-----|-----|-----|-----|-----|-----|-----|-----|-----|
/// | OUT |     |     | LCK | ROM | SCR | RB2 | RB1 | RB0 |
///
/// RAM bank: `RB2 * 4 + RB1 * 2 + RB0`.
///
/// SCR bank: `0 in RAM5, 1 in RAM7`.
#[derive(Debug, Clone, Copy, PartialEq, Eq, PartialOrd, Ord, Hash, Structural)]
pub struct Ula128MemFlags {
    /// The raw bits of the flags.
    pub bits: u8,
}

impl Ula128MemFlags {
    /// RAM bank bit 0.
    #[allow(non_snake_case)]
    pub fn RAM_BANK0() -> (r: Self)
        ensures r.bits == 0b00000001,
    {
        Ula128MemFlags { bits: 0b00000001 }
    }

    /// RAM bank bit 1.
    #[allow(non_snake_case)]
    pub fn RAM_BANK1() -> (r: Self)
        ensures r.bits == 0b00000010,
    {
        Ula128MemFlags { bits: 0b00000010 }
    }

    /// RAM bank bit 2.
    #[allow(non_snake_case)]
    pub fn RAM_BANK2() -> (r: Self)
        ensures r.bits == 0b00000100,
    {
        Ula128MemFlags { bits: 0b00000100 }
    }

    /// Shadow screen bank bit.
    #[allow(non_snake_case)]
    pub fn SCREEN_BANK() -> (r: Self)
        ensures r.bits == 0b00001000,
    {
        Ula128MemFlags { bits: 0b00001000 }
    }

    /// ROM bank bit.
    #[allow(non_snake_case)]
    pub fn ROM_BANK() -> (r: Self)
        ensures r.bits == 0b00010000,
    {
        Ula128MemFlags { bits: 0b00010000 }
    }

    /// Paging lock bit.
    #[allow(non_snake_case)]
    pub fn LOCK_MMU() -> (r: Self)
        ensures r.bits == 0b00100000,
    {
        Ula128MemFlags { bits: 0b00100000 }
    }

    /// RAM bank bits.
    #[allow(non_snake_case)]
    pub fn RAM_BANK_MASK() -> (r: Self)
        ensures r.bits == 0b00000111,
    {
        Ula128MemFlags { bits: 0b00000111 }
    }

    /// All bits that belong to some defined flag.
    pub open spec fn spec_all_bits() -> u8 {
        0b00111111
    }

    /// Returns flags with no bit set.
    pub fn empty() -> (r: Self)
        ensures r.bits == 0,
    {
        Ula128MemFlags { bits: 0 }
    }

    /// Returns flags with every defined bit set.
    pub fn all() -> (r: Self)
        ensures r.bits == Self::spec_all_bits(),
    {
        Ula128MemFlags { bits: 0b00111111 }
    }

    /// Returns the raw bits of the flags.
    pub fn bits(&self) -> (r: u8)
        ensures r == self.bits,
    {
        self.bits
    }

    /// Converts raw bits into flags if no undefined bit is set.
    pub fn from_bits(bits: u8) -> (r: Option<Self>)
        ensures
            r == (if bits & !Self::spec_all_bits() == 0 { Some(Ula128MemFlags { bits }) } else { None }),
    {
        if bits & !0b00111111u8 == 0 {
            Some(Ula128MemFlags { bits })
        } else {
            None
        }
    }

    /// Converts raw bits into flags, dropping every undefined bit.
    pub fn from_bits_truncate(bits: u8) -> (r: Self)
        ensures r.bits == bits & Self::spec_all_bits(),
    {
        Ula128MemFlags { bits: bits & 0b00111111 }
    }

    /// Converts raw bits into flags, keeping every bit.
    pub fn from_bits_retain(bits: u8) -> (r: Self)
        ensures r.bits == bits,
    {
        Ula128MemFlags { bits }
    }

    /// Create flags from raw bits in `data` by truncating unused bits.
    pub fn from_data(data: u8) -> (r: Self)
        ensures r.bits == data & Self::spec_all_bits(),
    {
        Ula128MemFlags { bits: data & 0b00111111 }
    }

    /// Returns `true` if no bit is set.
    pub fn is_empty(&self) -> (r: bool)
        ensures r == (self.bits == 0),
    {
        self.bits == 0
    }

    /// Returns `true` if every defined bit is set.
    pub fn is_all(&self) -> (r: bool)
        ensures r == (self.bits & Self::spec_all_bits() == Self::spec_all_bits()),
    {
        self.bits & 0b00111111 == 0b00111111
    }

    /// Returns `true` if every bit of `other` is also set in `self`.
    pub fn contains(&self, other: Self) -> (r: bool)
        ensures r == (self.bits & other.bits == other.bits),
    {
        self.bits & other.bits == other.bits
    }

    /// Returns `true` if any bit of `other` is also set in `self`.
    pub fn intersects(&self, other: Self) -> (r: bool)
        ensures r == (self.bits & other.bits != 0),
    {
        self.bits & other.bits != 0
    }

    /// Sets every bit of `other` in `self`.
    pub fn insert(&mut self, other: Self)
        ensures final(self).bits == old(self).bits | other.bits,
    {
        self.bits = self.bits | other.bits;
    }

    /// Clears every bit of `other` in `self`.
    pub fn remove(&mut self, other: Self)
        ensures final(self).bits == old(self).bits & !other.bits,
    {
        self.bits = self.bits & !other.bits;
    }

    /// Flips every bit of `other` in `self`.
    pub fn toggle(&mut self, other: Self)
        ensures final(self).bits == old(self).bits ^ other.bits,
    {
        self.bits = self.bits ^ other.bits;
    }

    /// Sets (if `value` is `true`) or clears (otherwise) every bit of `other` in `self`.
    pub fn set(&mut self, other: Self, value: bool)
        ensures
            final(self).bits == (if value { old(self).bits | other.bits } else { old(self).bits & !other.bits }),
    {
        if value {
            self.bits = self.bits | other.bits;
        } else {
            self.bits = self.bits & !other.bits;
        }
    }

    /// Returns the bitwise union of `self` and `other`.
    pub fn union(self, other: Self) -> (r: Self)
        ensures r.bits == self.bits | other.bits,
    {
        Ula128MemFlags { bits: self.bits | other.bits }
    }

    /// Returns the bitwise intersection of `self` and `other`.
    pub fn intersection(self, other: Self) -> (r: Self)
        ensures r.bits == self.bits & other.bits,
    {
        Ula128MemFlags { bits: self.bits & other.bits }
    }

    /// Returns the bits of `self` that are not set in `other`.
    pub fn difference(self, other: Self) -> (r: Self)
        ensures r.bits == self.bits & !other.bits,
    {
        Ula128MemFlags { bits: self.bits & !other.bits }
    }

    /// Returns the bits set in exactly one of `self` and `other`.
    pub fn symmetric_difference(self, other: Self) -> (r: Self)
        ensures r.bits == self.bits ^ other.bits,
    {
        Ula128MemFlags { bits: self.bits ^ other.bits }
    }

    /// Returns the defined bits that are not set in `self`.
    pub fn complement(self) -> (r: Self)
        ensures r.bits == !self.bits & Self::spec_all_bits(),
    {
        Ula128MemFlags { bits: !self.bits & 0b00111111 }
    }
}

impl Default for Ula128MemFlags {
    fn default() -> (r: Self)
        ensures r.bits == 0,
    {
        Ula128MemFlags { bits: 0 }
    }
}

impl core::ops::BitOr for Ula128MemFlags {
    type Output = Ula128MemFlags;

    fn bitor(self, rhs: Ula128MemFlags) -> (r: Ula128MemFlags) {
        Ula128MemFlags { bits: self.bits | rhs.bits }
    }
}

impl vstd::std_specs::ops::BitOrSpecImpl for Ula128MemFlags {
    open spec fn obeys_bitor_spec() -> bool {
        true
    }

    open spec fn bitor_req(self, rhs: Ula128MemFlags) -> bool {
        true
    }

    open spec fn bitor_spec(self, rhs: Ula128MemFlags) -> Ula128MemFlags {
        Ula128MemFlags { bits: self.bits | rhs.bits }
    }
}

impl core::ops::BitAnd for Ula128MemFlags {
    type Output = Ula128MemFlags;

    fn bitand(self, rhs: Ula128MemFlags) -> (r: Ula128MemFlags) {
        Ula128MemFlags { bits: self.bits & rhs.bits }
    }
}

impl vstd::std_specs::ops::BitAndSpecImpl for Ula128MemFlags {
    open spec fn obeys_bitand_spec() -> bool {
        true
    }

    open spec fn bitand_req(self, rhs: Ula128MemFlags) -> bool {
        true
    }

    open spec fn bitand_spec(self, rhs: Ula128MemFlags) -> Ula128MemFlags {
        Ula128MemFlags { bits: self.bits & rhs.bits }
    }
}

impl core::ops::Sub for Ula128MemFlags {
    type Output = Ula128MemFlags;

    fn sub(self, rhs: Ula128MemFlags) -> (r: Ula128MemFlags) {
        Ula128MemFlags { bits: self.bits & !rhs.bits }
    }
}

impl vstd::std_specs::ops::SubSpecImpl for Ula128MemFlags {
    open spec fn obeys_sub_spec() -> bool {
        true
    }

    open spec fn sub_req(self, rhs: Ula128MemFlags) -> bool {
        true
    }

    open spec fn sub_spec(self, rhs: Ula128MemFlags) -> Ula128MemFlags {
        Ula128MemFlags { bits: self.bits & !rhs.bits }
    }
}

impl core::ops::Not for Ula128MemFlags {
    type Output = Ula128MemFlags;

    fn not(self) -> (r: Ula128MemFlags) {
        Ula128MemFlags { bits: !self.bits & 0b00111111 }
    }
}

impl vstd::std_specs::ops::NotSpecImpl for Ula128MemFlags {
    open spec fn obeys_not_spec() -> bool {
        true
    }

    open spec fn not_req(self) -> bool {
        true
    }

    open spec fn not_spec(self) -> Ula128MemFlags {
        Ula128MemFlags { bits: !self.bits & Ula128MemFlags::spec_all_bits() }
    }
}

/// ZX Spectrum +2A / +3 secondary control flags.
///
/// Any I/O port matching: `0001_xxxx_xxxx_xx0x` (`0x1ffd`).
///
/// | Dir | b7  | b6  | b5  | b4  | b3  | b2  | b1  | b0  |
/// |-----|-----|-----|-----|-----|-----|-----|-----|-----|
/// | OUT |     |     |     | PRT | DSK | ROH |     |  0  |
/// | OUT |     |     |     | PRT | DSK | PL1 | PL0 |  1  |
///
/// ROM bank: `ROH * 2 + ROL`. Special [paging][Ula3Paging]: `b0 = 1`, page layout: `PL1 * 2 + PL0`.
#[derive(Debug, Clone, Copy, PartialEq, Eq, PartialOrd, Ord, Hash, Structural)]
pub struct Ula3CtrlFlags {
    /// The raw bits of the flags.
    pub bits: u8,
}

impl Ula3CtrlFlags {
    /// Special paging layout 0.
    #[allow(non_snake_case)]
    pub fn PAGE_LAYOUT0() -> (r: Self)
        ensures r.bits == 0b00000000,
    {
        Ula3CtrlFlags { bits: 0b00000000 }
    }

    /// Special paging enable bit.
    #[allow(non_snake_case)]
    pub fn EXT_PAGING() -> (r: Self)
        ensures r.bits == 0b00000001,
    {
        Ula3CtrlFlags { bits: 0b00000001 }
    }

    /// Special paging layout 1.
    #[allow(non_snake_case)]
    pub fn PAGE_LAYOUT1() -> (r: Self)
        ensures r.bits == 0b00000010,
    {
        Ula3CtrlFlags { bits: 0b00000010 }
    }

    /// Special paging layout 2.
    #[allow(non_snake_case)]
    pub fn PAGE_LAYOUT2() -> (r: Self)
        ensures r.bits == 0b00000100,
    {
        Ula3CtrlFlags { bits: 0b00000100 }
    }

    /// ROM bank high bit.
    #[allow(non_snake_case)]
    pub fn ROM_BANK_HI() -> (r: Self)
        ensures r.bits == 0b00000100,
    {
        Ula3CtrlFlags { bits: 0b00000100 }
    }

    /// Disc motor bit.
    #[allow(non_snake_case)]
    pub fn DISC_MOTOR() -> (r: Self)
        ensures r.bits == 0b00001000,
    {
        Ula3CtrlFlags { bits: 0b00001000 }
    }

    /// Printer strobe bit.
    #[allow(non_snake_case)]
    pub fn PRINTER_STROBE() -> (r: Self)
        ensures r.bits == 0b00010000,
    {
        Ula3CtrlFlags { bits: 0b00010000 }
    }

    /// Special paging layout 3.
    #[allow(non_snake_case)]
    pub fn PAGE_LAYOUT3() -> (r: Self)
        ensures r.bits == 0b00000110,
    {
        Ula3CtrlFlags { bits: 0b00000110 }
    }

    /// Special paging layout bits.
    #[allow(non_snake_case)]
    pub fn PAGE_LAYOUT_MASK() -> (r: Self)
        ensures r.bits == 0b00000110,
    {
        Ula3CtrlFlags { bits: 0b00000110 }
    }

    /// All bits that belong to some defined flag.
    pub open spec fn spec_all_bits() -> u8 {
        0b00011111
    }

    /// Returns flags with no bit set.
    pub fn empty() -> (r: Self)
        ensures r.bits == 0,
    {
        Ula3CtrlFlags { bits: 0 }
    }

    /// Returns flags with every defined bit set.
    pub fn all() -> (r: Self)
        ensures r.bits == Self::spec_all_bits(),
    {
        Ula3CtrlFlags { bits: 0b00011111 }
    }

    /// Returns the raw bits of the flags.
    pub fn bits(&self) -> (r: u8)
        ensures r == self.bits,
    {
        self.bits
    }

    /// Converts raw bits into flags if no undefined bit is set.
    pub fn from_bits(bits: u8) -> (r: Option<Self>)
        ensures
            r == (if bits & !Self::spec_all_bits() == 0 { Some(Ula3CtrlFlags { bits }) } else { None }),
    {
        if bits & !0b00011111u8 == 0 {
            Some(Ula3CtrlFlags { bits })
        } else {
            None
        }
    }

    /// Converts raw bits into flags, dropping every undefined bit.
    pub fn from_bits_truncate(bits: u8) -> (r: Self)
        ensures r.bits == bits & Self::spec_all_bits(),
    {
        Ula3CtrlFlags { bits: bits & 0b00011111 }
    }

    /// Converts raw bits into flags, keeping every bit.
    pub fn from_bits_retain(bits: u8) -> (r: Self)
        ensures r.bits == bits,
    {
        Ula3CtrlFlags { bits }
    }

    /// Create flags from raw bits in `data` by truncating unused bits.
    pub fn from_data(data: u8) -> (r: Self)
        ensures r.bits == data & Self::spec_all_bits(),
    {
        Ula3CtrlFlags { bits: data & 0b00011111 }
    }

    /// Returns `true` if no bit is set.
    pub fn is_empty(&self) -> (r: bool)
        ensures r == (self.bits == 0),
    {
        self.bits == 0
    }

    /// Returns `true` if every defined bit is set.
    pub fn is_all(&self) -> (r: bool)
        ensures r == (self.bits & Self::spec_all_bits() == Self::spec_all_bits()),
    {
        self.bits & 0b00011111 == 0b00011111
    }

    /// Returns `true` if every bit of `other` is also set in `self`.
    pub fn contains(&self, other: Self) -> (r: bool)
        ensures r == (self.bits & other.bits == other.bits),
    {
        self.bits & other.bits == other.bits
    }

    /// Returns `true` if any bit of `other` is also set in `self`.
    pub fn intersects(&self, other: Self) -> (r: bool)
        ensures r == (self.bits & other.bits != 0),
    {
        self.bits & other.bits != 0
    }

    /// Sets every bit of `other` in `self`.
    pub fn insert(&mut self, other: Self)
        ensures final(self).bits == old(self).bits | other.bits,
    {
        self.bits = self.bits | other.bits;
    }

    /// Clears every bit of `other` in `self`.
    pub fn remove(&mut self, other: Self)
        ensures final(self).bits == old(self).bits & !other.bits,
    {
        self.bits = self.bits & !other.bits;
    }

    /// Flips every bit of `other` in `self`.
    pub fn toggle(&mut self, other: Self)
        ensures final(self).bits == old(self).bits ^ other.bits,
    {
        self.bits = self.bits ^ other.bits;
    }

    /// Sets (if `value` is `true`) or clears (otherwise) every bit of `other` in `self`.
    pub fn set(&mut self, other: Self, value: bool)
        ensures
            final(self).bits == (if value { old(self).bits | other.bits } else { old(self).bits & !other.bits }),
    {
        if value {
            self.bits = self.bits | other.bits;
        } else {
            self.bits = self.bits & !other.bits;
        }
    }

    /// Returns the bitwise union of `self` and `other`.
    pub fn union(self, other: Self) -> (r: Self)
        ensures r.bits == self.bits | other.bits,
    {
        Ula3CtrlFlags { bits: self.bits | other.bits }
    }

    /// Returns the bitwise intersection of `self` and `other`.
    pub fn intersection(self, other: Self) -> (r: Self)
        ensures r.bits == self.bits & other.bits,
    {
        Ula3CtrlFlags { bits: self.bits & other.bits }
    }

    /// Returns the bits of `self` that are not set in `other`.
    pub fn difference(self, other: Self) -> (r: Self)
        ensures r.bits == self.bits & !other.bits,
    {
        Ula3CtrlFlags { bits: self.bits & !other.bits }
    }

    /// Returns the bits set in exactly one of `self` and `other`.
    pub fn symmetric_difference(self, other: Self) -> (r: Self)
        ensures r.bits == self.bits ^ other.bits,
    {
        Ula3CtrlFlags { bits: self.bits ^ other.bits }
    }

    /// Returns the defined bits that are not set in `self`.
    pub fn complement(self) -> (r: Self)
        ensures r.bits == !self.bits & Self::spec_all_bits(),
    {
        Ula3CtrlFlags { bits: !self.bits & 0b00011111 }
    }
}

impl Default for Ula3CtrlFlags {
    fn default() -> (r: Self)
        ensures r.bits == 0,
    {
        Ula3CtrlFlags { bits: 0 }
    }
}

impl core::ops::BitOr for Ula3CtrlFlags {
    type Output = Ula3CtrlFlags;

    fn bitor(self, rhs: Ula3CtrlFlags) -> (r: Ula3CtrlFlags) {
        Ula3CtrlFlags { bits: self.bits | rhs.bits }
    }
}

impl vstd::std_specs::ops::BitOrSpecImpl for Ula3CtrlFlags {
    open spec fn obeys_bitor_spec() -> bool {
        true
    }

    open spec fn bitor_req(self, rhs: Ula3CtrlFlags) -> bool {
        true
    }

    open spec fn bitor_spec(self, rhs: Ula3CtrlFlags) -> Ula3CtrlFlags {
        Ula3CtrlFlags { bits: self.bits | rhs.bits }
    }
}

impl core::ops::BitAnd for Ula3CtrlFlags {
    type Output = Ula3CtrlFlags;

    fn bitand(self, rhs: Ula3CtrlFlags) -> (r: Ula3CtrlFlags) {
        Ula3CtrlFlags { bits: self.bits & rhs.bits }
    }
}

impl vstd::std_specs::ops::BitAndSpecImpl for Ula3CtrlFlags {
    open spec fn obeys_bitand_spec() -> bool {
        true
    }

    open spec fn bitand_req(self, rhs: Ula3CtrlFlags) -> bool {
        true
    }

    open spec fn bitand_spec(self, rhs: Ula3CtrlFlags) -> Ula3CtrlFlags {
        Ula3CtrlFlags { bits: self.bits & rhs.bits }
    }
}

impl core::ops::Sub for Ula3CtrlFlags {
    type Output = Ula3CtrlFlags;

    fn sub(self, rhs: Ula3CtrlFlags) -> (r: Ula3CtrlFlags) {
        Ula3CtrlFlags { bits: self.bits & !rhs.bits }
    }
}

impl vstd::std_specs::ops::SubSpecImpl for Ula3CtrlFlags {
    open spec fn obeys_sub_spec() -> bool {
        true
    }

    open spec fn sub_req(self, rhs: Ula3CtrlFlags) -> bool {
        true
    }

    open spec fn sub_spec(self, rhs: Ula3CtrlFlags) -> Ula3CtrlFlags {
        Ula3CtrlFlags { bits: self.bits & !rhs.bits }
    }
}

impl core::ops::Not for Ula3CtrlFlags {
    type Output = Ula3CtrlFlags;

    fn not(self) -> (r: Ula3CtrlFlags) {
        Ula3CtrlFlags { bits: !self.bits & 0b00011111 }
    }
}

impl vstd::std_specs::ops::NotSpecImpl for Ula3CtrlFlags {
    open spec fn obeys_not_spec() -> bool {
        true
    }

    open spec fn not_req(self) -> bool {
        true
    }

    open spec fn not_spec(self) -> Ula3CtrlFlags {
        Ula3CtrlFlags { bits: !self.bits & Ula3CtrlFlags::spec_all_bits() }
    }
}

/// Timex TC2048/TC2068/TS2068 screen and memory control flags.
///
/// I/O port `0xff`:
///
/// | Dir     | b7  | b6  | b5  | b4  | b3  | b2  | b1  | b0  |
/// |---------|-----|-----|-----|-----|-----|-----|-----|-----|
/// | IN/OUT  | ROM | INT | CL2 | CL1 | CL0 | HIR | ATR | SCR |
#[derive(Debug, Clone, Copy, PartialEq, Eq, PartialOrd, Ord, Hash, Structural)]
pub struct ScldCtrlFlags {
    /// The raw bits of the flags.
    pub bits: u8,
}

impl ScldCtrlFlags {
    /// Secondary screen bit.
    #[allow(non_snake_case)]
    pub fn SCREEN_SECONDARY() -> (r: Self)
        ensures r.bits == 0b00000001,
    {
        ScldCtrlFlags { bits: 0b00000001 }
    }

    /// High color attributes bit.
    #[allow(non_snake_case)]
    pub fn SCREEN_HI_ATTRS() -> (r: Self)
        ensures r.bits == 0b00000010,
    {
        ScldCtrlFlags { bits: 0b00000010 }
    }

    /// High resolution bit.
    #[allow(non_snake_case)]
    pub fn SCREEN_HI_RES() -> (r: Self)
        ensures r.bits == 0b00000100,
    {
        ScldCtrlFlags { bits: 0b00000100 }
    }

    /// High resolution color bit 0.
    #[allow(non_snake_case)]
    pub fn HIRES_COLOR0() -> (r: Self)
        ensures r.bits == 0b00001000,
    {
        ScldCtrlFlags { bits: 0b00001000 }
    }

    /// High resolution color bit 1.
    #[allow(non_snake_case)]
    pub fn HIRES_COLOR1() -> (r: Self)
        ensures r.bits == 0b00010000,
    {
        ScldCtrlFlags { bits: 0b00010000 }
    }

    /// High resolution color bit 2.
    #[allow(non_snake_case)]
    pub fn HIRES_COLOR2() -> (r: Self)
        ensures r.bits == 0b00100000,
    {
        ScldCtrlFlags { bits: 0b00100000 }
    }

    /// Interrupt disable bit.
    #[allow(non_snake_case)]
    pub fn INTR_DISABLED() -> (r: Self)
        ensures r.bits == 0b01000000,
    {
        ScldCtrlFlags { bits: 0b01000000 }
    }

    /// EX-ROM mapping bit.
    #[allow(non_snake_case)]
    pub fn MAP_EX_ROM() -> (r: Self)
        ensures r.bits == 0b10000000,
    {
        ScldCtrlFlags { bits: 0b10000000 }
    }

    /// Screen source bits.
    #[allow(non_snake_case)]
    pub fn SCREEN_SOURCE_MASK() -> (r: Self)
        ensures r.bits == 0b00000011,
    {
        ScldCtrlFlags { bits: 0b00000011 }
    }

    /// Screen mode bits.
    #[allow(non_snake_case)]
    pub fn SCREEN_MODE_MASK() -> (r: Self)
        ensures r.bits == 0b00000111,
    {
        ScldCtrlFlags { bits: 0b00000111 }
    }

    /// High resolution color bits.
    #[allow(non_snake_case)]
    pub fn HIRES_COLOR_MASK() -> (r: Self)
        ensures r.bits == 0b00111000,
    {
        ScldCtrlFlags { bits: 0b00111000 }
    }

    /// All bits that belong to some defined flag.
    pub open spec fn spec_all_bits() -> u8 {
        0b11111111
    }

    /// Returns flags with no bit set.
    pub fn empty() -> (r: Self)
        ensures r.bits == 0,
    {
        ScldCtrlFlags { bits: 0 }
    }

    /// Returns flags with every defined bit set.
    pub fn all() -> (r: Self)
        ensures r.bits == Self::spec_all_bits(),
    {
        ScldCtrlFlags { bits: 0b11111111 }
    }

    /// Returns the raw bits of the flags.
    pub fn bits(&self) -> (r: u8)
        ensures r == self.bits,
    {
        self.bits
    }

    /// Converts raw bits into flags if no undefined bit is set.
    pub fn from_bits(bits: u8) -> (r: Option<Self>)
        ensures
            r == (if bits & !Self::spec_all_bits() == 0 { Some(ScldCtrlFlags { bits }) } else { None }),
    {
        if bits & !0b11111111u8 == 0 {
            Some(ScldCtrlFlags { bits })
        } else {
            None
        }
    }

    /// Converts raw bits into flags, dropping every undefined bit.
    pub fn from_bits_truncate(bits: u8) -> (r: Self)
        ensures r.bits == bits & Self::spec_all_bits(),
    {
        ScldCtrlFlags { bits: bits & 0b11111111 }
    }

    /// Converts raw bits into flags, keeping every bit.
    pub fn from_bits_retain(bits: u8) -> (r: Self)
        ensures r.bits == bits,
    {
        ScldCtrlFlags { bits }
    }

    /// Create flags from raw bits in `data` by truncating unused bits.
    pub fn from_data(data: u8) -> (r: Self)
        ensures r.bits == data & Self::spec_all_bits(),
    {
        ScldCtrlFlags { bits: data & 0b11111111 }
    }

    /// Returns `true` if no bit is set.
    pub fn is_empty(&self) -> (r: bool)
        ensures r == (self.bits == 0),
    {
        self.bits == 0
    }

    /// Returns `true` if every defined bit is set.
    pub fn is_all(&self) -> (r: bool)
        ensures r == (self.bits & Self::spec_all_bits() == Self::spec_all_bits()),
    {
        self.bits & 0b11111111 == 0b11111111
    }

    /// Returns `true` if every bit of `other` is also set in `self`.
    pub fn contains(&self, other: Self) -> (r: bool)
        ensures r == (self.bits & other.bits == other.bits),
    {
        self.bits & other.bits == other.bits
    }

    /// Returns `true` if any bit of `other` is also set in `self`.
    pub fn intersects(&self, other: Self) -> (r: bool)
        ensures r == (self.bits & other.bits != 0),
    {
        self.bits & other.bits != 0
    }

    /// Sets every bit of `other` in `self`.
    pub fn insert(&mut self, other: Self)
        ensures final(self).bits == old(self).bits | other.bits,
    {
        self.bits = self.bits | other.bits;
    }

    /// Clears every bit of `other` in `self`.
    pub fn remove(&mut self, other: Self)
        ensures final(self).bits == old(self).bits & !other.bits,
    {
        self.bits = self.bits & !other.bits;
    }

    /// Flips every bit of `other` in `self`.
    pub fn toggle(&mut self, other: Self)
        ensures final(self).bits == old(self).bits ^ other.bits,
    {
        self.bits = self.bits ^ other.bits;
    }

    /// Sets (if `value` is `true`) or clears (otherwise) every bit of `other` in `self`.
    pub fn set(&mut self, other: Self, value: bool)
        ensures
            final(self).bits == (if value { old(self).bits | other.bits } else { old(self).bits & !other.bits }),
    {
        if value {
            self.bits = self.bits | other.bits;
        } else {
            self.bits = self.bits & !other.bits;
        }
    }

    /// Returns the bitwise union of `self` and `other`.
    pub fn union(self, other: Self) -> (r: Self)
        ensures r.bits == self.bits | other.bits,
    {
        ScldCtrlFlags { bits: self.bits | other.bits }
    }

    /// Returns the bitwise intersection of `self` and `other`.
    pub fn intersection(self, other: Self) -> (r: Self)
        ensures r.bits == self.bits & other.bits,
    {
        ScldCtrlFlags { bits: self.bits & other.bits }
    }

    /// Returns the bits of `self` that are not set in `other`.
    pub fn difference(self, other: Self) -> (r: Self)
        ensures r.bits == self.bits & !other.bits,
    {
        ScldCtrlFlags { bits: self.bits & !other.bits }
    }

    /// Returns the bits set in exactly one of `self` and `other`.
    pub fn symmetric_difference(self, other: Self) -> (r: Self)
        ensures r.bits == self.bits ^ other.bits,
    {
        ScldCtrlFlags { bits: self.bits ^ other.bits }
    }

    /// Returns the defined bits that are not set in `self`.
    pub fn complement(self) -> (r: Self)
        ensures r.bits == !self.bits & Self::spec_all_bits(),
    {
        ScldCtrlFlags { bits: !self.bits & 0b11111111 }
    }
}

impl Default for ScldCtrlFlags {
    fn default() -> (r: Self)
        ensures r.bits == 0,
    {
        ScldCtrlFlags { bits: 0 }
    }
}

impl core::ops::BitOr for ScldCtrlFlags {
    type Output = ScldCtrlFlags;

    fn bitor(self, rhs: ScldCtrlFlags) -> (r: ScldCtrlFlags) {
        ScldCtrlFlags { bits: self.bits | rhs.bits }
    }
}

impl vstd::std_specs::ops::BitOrSpecImpl for ScldCtrlFlags {
    open spec fn obeys_bitor_spec() -> bool {
        true
    }

    open spec fn bitor_req(self, rhs: ScldCtrlFlags) -> bool {
        true
    }

    open spec fn bitor_spec(self, rhs: ScldCtrlFlags) -> ScldCtrlFlags {
        ScldCtrlFlags { bits: self.bits | rhs.bits }
    }
}

impl core::ops::BitAnd for ScldCtrlFlags {
    type Output = ScldCtrlFlags;

    fn bitand(self, rhs: ScldCtrlFlags) -> (r: ScldCtrlFlags) {
        ScldCtrlFlags { bits: self.bits & rhs.bits }
    }
}

impl vstd::std_specs::ops::BitAndSpecImpl for ScldCtrlFlags {
    open spec fn obeys_bitand_spec() -> bool {
        true
    }

    open spec fn bitand_req(self, rhs: ScldCtrlFlags) -> bool {
        true
    }

    open spec fn bitand_spec(self, rhs: ScldCtrlFlags) -> ScldCtrlFlags {
        ScldCtrlFlags { bits: self.bits & rhs.bits }
    }
}

impl core::ops::Sub for ScldCtrlFlags {
    type Output = ScldCtrlFlags;

    fn sub(self, rhs: ScldCtrlFlags) -> (r: ScldCtrlFlags) {
        ScldCtrlFlags { bits: self.bits & !rhs.bits }
    }
}

impl vstd::std_specs::ops::SubSpecImpl for ScldCtrlFlags {
    open spec fn obeys_sub_spec() -> bool {
        true
    }

    open spec fn sub_req(self, rhs: ScldCtrlFlags) -> bool {
        true
    }

    open spec fn sub_spec(self, rhs: ScldCtrlFlags) -> ScldCtrlFlags {
        ScldCtrlFlags { bits: self.bits & !rhs.bits }
    }
}

impl core::ops::Not for ScldCtrlFlags {
    type Output = ScldCtrlFlags;

    fn not(self) -> (r: ScldCtrlFlags) {
        ScldCtrlFlags { bits: !self.bits & 0b11111111 }
    }
}

impl vstd::std_specs::ops::NotSpecImpl for ScldCtrlFlags {
    open spec fn obeys_not_spec() -> bool {
        true
    }

    open spec fn not_req(self) -> bool {
        true
    }

    open spec fn not_spec(self) -> ScldCtrlFlags {
        ScldCtrlFlags { bits: !self.bits & ScldCtrlFlags::spec_all_bits() }
    }
}

/// ULAplus register port flags.
///
/// I/O port `0xbf3b`:
///
/// | Dir | b7  | b6  | b5  | b4  | b3  | b2  | b1  | b0  |
/// |-----|-----|-----|-----|-----|-----|-----|-----|-----|
/// | OUT | 0   | 0   | PA5 | PA4 | PA3 | PA2 | PA1 | PA0 |
/// | OUT | 0   | 1   | CL2 | CL1 | CL0 | HIR | ATR | SCR |
///
/// `b6-b7` determine whether a `PALETTE: 0b00` or a `MODE: 0b01` group is selected.
#[derive(Debug, Clone, Copy, PartialEq, Eq, PartialOrd, Ord, Hash, Structural)]
pub struct UlaPlusRegFlags {
    /// The raw bits of the flags.
    pub bits: u8,
}

impl UlaPlusRegFlags {
    /// Palette group selector.
    #[allow(non_snake_case)]
    pub fn PALETTE_GROUP() -> (r: Self)
        ensures r.bits == 0b00000000,
    {
        UlaPlusRegFlags { bits: 0b00000000 }
    }

    /// Screen bit 0.
    #[allow(non_snake_case)]
    pub fn SCREEN_UNUSED() -> (r: Self)
        ensures r.bits == 0b00000001,
    {
        UlaPlusRegFlags { bits: 0b00000001 }
    }

    /// High color attributes bit.
    #[allow(non_snake_case)]
    pub fn SCREEN_HI_ATTRS() -> (r: Self)
        ensures r.bits == 0b00000010,
    {
        UlaPlusRegFlags { bits: 0b00000010 }
    }

    /// High resolution bit.
    #[allow(non_snake_case)]
    pub fn SCREEN_HI_RES() -> (r: Self)
        ensures r.bits == 0b00000100,
    {
        UlaPlusRegFlags { bits: 0b00000100 }
    }

    /// High resolution color bit 0.
    #[allow(non_snake_case)]
    pub fn HIRES_COLOR0() -> (r: Self)
        ensures r.bits == 0b00001000,
    {
        UlaPlusRegFlags { bits: 0b00001000 }
    }

    /// High resolution color bit 1.
    #[allow(non_snake_case)]
    pub fn HIRES_COLOR1() -> (r: Self)
        ensures r.bits == 0b00010000,
    {
        UlaPlusRegFlags { bits: 0b00010000 }
    }

    /// High resolution color bit 2.
    #[allow(non_snake_case)]
    pub fn HIRES_COLOR2() -> (r: Self)
        ensures r.bits == 0b00100000,
    {
        UlaPlusRegFlags { bits: 0b00100000 }
    }

    /// Mode group selector.
    #[allow(non_snake_case)]
    pub fn MODE_GROUP() -> (r: Self)
        ensures r.bits == 0b01000000,
    {
        UlaPlusRegFlags { bits: 0b01000000 }
    }

    /// Reserved group bit.
    #[allow(non_snake_case)]
    pub fn RESERVED_GROUP() -> (r: Self)
        ensures r.bits == 0b10000000,
    {
        UlaPlusRegFlags { bits: 0b10000000 }
    }

    /// Screen mode bits.
    #[allow(non_snake_case)]
    pub fn SCREEN_MODE_MASK() -> (r: Self)
        ensures r.bits == 0b00000111,
    {
        UlaPlusRegFlags { bits: 0b00000111 }
    }

    /// High resolution color bits.
    #[allow(non_snake_case)]
    pub fn HIRES_COLOR_MASK() -> (r: Self)
        ensures r.bits == 0b00111000,
    {
        UlaPlusRegFlags { bits: 0b00111000 }
    }

    /// Group selector bits.
    #[allow(non_snake_case)]
    pub fn GROUP_MASK() -> (r: Self)
        ensures r.bits == 0b11000000,
    {
        UlaPlusRegFlags { bits: 0b11000000 }
    }

    /// Palette index bits.
    #[allow(non_snake_case)]
    pub fn PALETTE_MASK() -> (r: Self)
        ensures r.bits == 0b00111111,
    {
        UlaPlusRegFlags { bits: 0b00111111 }
    }

    /// All bits that belong to some defined flag.
    pub open spec fn spec_all_bits() -> u8 {
        0b11111111
    }

    /// Returns flags with no bit set.
    pub fn empty() -> (r: Self)
        ensures r.bits == 0,
    {
        UlaPlusRegFlags { bits: 0 }
    }

    /// Returns flags with every defined bit set.
    pub fn all() -> (r: Self)
        ensures r.bits == Self::spec_all_bits(),
    {
        UlaPlusRegFlags { bits: 0b11111111 }
    }

    /// Returns the raw bits of the flags.
    pub fn bits(&self) -> (r: u8)
        ensures r == self.bits,
    {
        self.bits
    }

    /// Converts raw bits into flags if no undefined bit is set.
    pub fn from_bits(bits: u8) -> (r: Option<Self>)
        ensures
            r == (if bits & !Self::spec_all_bits() == 0 { Some(UlaPlusRegFlags { bits }) } else { None }),
    {
        if bits & !0b11111111u8 == 0 {
            Some(UlaPlusRegFlags { bits })
        } else {
            None
        }
    }

    /// Converts raw bits into flags, dropping every undefined bit.
    pub fn from_bits_truncate(bits: u8) -> (r: Self)
        ensures r.bits == bits & Self::spec_all_bits(),
    {
        UlaPlusRegFlags { bits: bits & 0b11111111 }
    }

    /// Converts raw bits into flags, keeping every bit.
    pub fn from_bits_retain(bits: u8) -> (r: Self)
        ensures r.bits == bits,
    {
        UlaPlusRegFlags { bits }
    }

    /// Create flags from raw bits in `data` by truncating unused bits.
    pub fn from_data(data: u8) -> (r: Self)
        ensures r.bits == data & Self::spec_all_bits(),
    {
        UlaPlusRegFlags { bits: data & 0b11111111 }
    }

    /// Returns `true` if no bit is set.
    pub fn is_empty(&self) -> (r: bool)
        ensures r == (self.bits == 0),
    {
        self.bits == 0
    }

    /// Returns `true` if every defined bit is set.
    pub fn is_all(&self) -> (r: bool)
        ensures r == (self.bits & Self::spec_all_bits() == Self::spec_all_bits()),
    {
        self.bits & 0b11111111 == 0b11111111
    }

    /// Returns `true` if every bit of `other` is also set in `self`.
    pub fn contains(&self, other: Self) -> (r: bool)
        ensures r == (self.bits & other.bits == other.bits),
    {
        self.bits & other.bits == other.bits
    }

    /// Returns `true` if any bit of `other` is also set in `self`.
    pub fn intersects(&self, other: Self) -> (r: bool)
        ensures r == (self.bits & other.bits != 0),
    {
        self.bits & other.bits != 0
    }

    /// Sets every bit of `other` in `self`.
    pub fn insert(&mut self, other: Self)
        ensures final(self).bits == old(self).bits | other.bits,
    {
        self.bits = self.bits | other.bits;
    }

    /// Clears every bit of `other` in `self`.
    pub fn remove(&mut self, other: Self)
        ensures final(self).bits == old(self).bits & !other.bits,
    {
        self.bits = self.bits & !other.bits;
    }

    /// Flips every bit of `other` in `self`.
    pub fn toggle(&mut self, other: Self)
        ensures final(self).bits == old(self).bits ^ other.bits,
    {
        self.bits = self.bits ^ other.bits;
    }

    /// Sets (if `value` is `true`) or clears (otherwise) every bit of `other` in `self`.
    pub fn set(&mut self, other: Self, value: bool)
        ensures
            final(self).bits == (if value { old(self).bits | other.bits } else { old(self).bits & !other.bits }),
    {
        if value {
            self.bits = self.bits | other.bits;
        } else {
            self.bits = self.bits & !other.bits;
        }
    }

    /// Returns the bitwise union of `self` and `other`.
    pub fn union(self, other: Self) -> (r: Self)
        ensures r.bits == self.bits | other.bits,
    {
        UlaPlusRegFlags { bits: self.bits | other.bits }
    }

    /// Returns the bitwise intersection of `self` and `other`.
    pub fn intersection(self, other: Self) -> (r: Self)
        ensures r.bits == self.bits & other.bits,
    {
        UlaPlusRegFlags { bits: self.bits & other.bits }
    }

    /// Returns the bits of `self` that are not set in `other`.
    pub fn difference(self, other: Self) -> (r: Self)
        ensures r.bits == self.bits & !other.bits,
    {
        UlaPlusRegFlags { bits: self.bits & !other.bits }
    }

    /// Returns the bits set in exactly one of `self` and `other`.
    pub fn symmetric_difference(self, other: Self) -> (r: Self)
        ensures r.bits == self.bits ^ other.bits,
    {
        UlaPlusRegFlags { bits: self.bits ^ other.bits }
    }

    /// Returns the defined bits that are not set in `self`.
    pub fn complement(self) -> (r: Self)
        ensures r.bits == !self.bits & Self::spec_all_bits(),
    {
        UlaPlusRegFlags { bits: !self.bits & 0b11111111 }
    }
}

impl Default for UlaPlusRegFlags {
    fn default() -> (r: Self)
        ensures r.bits == 0,
    {
        UlaPlusRegFlags { bits: 0 }
    }
}

impl core::ops::BitOr for UlaPlusRegFlags {
    type Output = UlaPlusRegFlags;

    fn bitor(self, rhs: UlaPlusRegFlags) -> (r: UlaPlusRegFlags) {
        UlaPlusRegFlags { bits: self.bits | rhs.bits }
    }
}

impl vstd::std_specs::ops::BitOrSpecImpl for UlaPlusRegFlags {
    open spec fn obeys_bitor_spec() -> bool {
        true
    }

    open spec fn bitor_req(self, rhs: UlaPlusRegFlags) -> bool {
        true
    }

    open spec fn bitor_spec(self, rhs: UlaPlusRegFlags) -> UlaPlusRegFlags {
        UlaPlusRegFlags { bits: self.bits | rhs.bits }
    }
}

impl core::ops::BitAnd for UlaPlusRegFlags {
    type Output = UlaPlusRegFlags;

    fn bitand(self, rhs: UlaPlusRegFlags) -> (r: UlaPlusRegFlags) {
        UlaPlusRegFlags { bits: self.bits & rhs.bits }
    }
}

impl vstd::std_specs::ops::BitAndSpecImpl for UlaPlusRegFlags {
    open spec fn obeys_bitand_spec() -> bool {
        true
    }

    open spec fn bitand_req(self, rhs: UlaPlusRegFlags) -> bool {
        true
    }

    open spec fn bitand_spec(self, rhs: UlaPlusRegFlags) -> UlaPlusRegFlags {
        UlaPlusRegFlags { bits: self.bits & rhs.bits }
    }
}

impl core::ops::Sub for UlaPlusRegFlags {
    type Output = UlaPlusRegFlags;

    fn sub(self, rhs: UlaPlusRegFlags) -> (r: UlaPlusRegFlags) {
        UlaPlusRegFlags { bits: self.bits & !rhs.bits }
    }
}

impl vstd::std_specs::ops::SubSpecImpl for UlaPlusRegFlags {
    open spec fn obeys_sub_spec() -> bool {
        true
    }

    open spec fn sub_req(self, rhs: UlaPlusRegFlags) -> bool {
        true
    }

    open spec fn sub_spec(self, rhs: UlaPlusRegFlags) -> UlaPlusRegFlags {
        UlaPlusRegFlags { bits: self.bits & !rhs.bits }
    }
}

impl core::ops::Not for UlaPlusRegFlags {
    type Output = UlaPlusRegFlags;

    fn not(self) -> (r: UlaPlusRegFlags) {
        UlaPlusRegFlags { bits: !self.bits & 0b11111111 }
    }
}

impl vstd::std_specs::ops::NotSpecImpl for UlaPlusRegFlags {
    open spec fn obeys_not_spec() -> bool {
        true
    }

    open spec fn not_req(self) -> bool {
        true
    }

    open spec fn not_spec(self) -> UlaPlusRegFlags {
        UlaPlusRegFlags { bits: !self.bits & UlaPlusRegFlags::spec_all_bits() }
    }
}

/// ULAplus data port flags when register port is set to [UlaPlusRegFlags::MODE_GROUP].
///
/// `PAL`: 1 - palette mode, 0 - legacy color mode.
/// `GRAY`: 1 - grayscale mode, 0 - color mode.
#[derive(Debug, Clone, Copy, PartialEq, Eq, PartialOrd, Ord, Hash, Structural)]
pub struct ColorMode {
    /// The raw bits of the flags.
    pub bits: u8,
}

impl ColorMode {
    /// Palette mode bit.
    #[allow(non_snake_case)]
    pub fn PALETTE() -> (r: Self)
        ensures r.bits == 0b00000001,
    {
        ColorMode { bits: 0b00000001 }
    }

    /// Grayscale mode bit.
    #[allow(non_snake_case)]
    pub fn GRAYSCALE() -> (r: Self)
        ensures r.bits == 0b00000010,
    {
        ColorMode { bits: 0b00000010 }
    }

    /// All bits that belong to some defined flag.
    pub open spec fn spec_all_bits() -> u8 {
        0b00000011
    }

    /// Returns flags with no bit set.
    pub fn empty() -> (r: Self)
        ensures r.bits == 0,
    {
        ColorMode { bits: 0 }
    }

    /// Returns flags with every defined bit set.
    pub fn all() -> (r: Self)
        ensures r.bits == Self::spec_all_bits(),
    {
        ColorMode { bits: 0b00000011 }
    }

    /// Returns the raw bits of the flags.
    pub fn bits(&self) -> (r: u8)
        ensures r == self.bits,
    {
        self.bits
    }

    /// Converts raw bits into flags if no undefined bit is set.
    pub fn from_bits(bits: u8) -> (r: Option<Self>)
        ensures
            r == (if bits & !Self::spec_all_bits() == 0 { Some(ColorMode { bits }) } else { None }),
    {
        if bits & !0b00000011u8 == 0 {
            Some(ColorMode { bits })
        } else {
            None
        }
    }

    /// Converts raw bits into flags, dropping every undefined bit.
    pub fn from_bits_truncate(bits: u8) -> (r: Self)
        ensures r.bits == bits & Self::spec_all_bits(),
    {
        ColorMode { bits: bits & 0b00000011 }
    }

    /// Converts raw bits into flags, keeping every bit.
    pub fn from_bits_retain(bits: u8) -> (r: Self)
        ensures r.bits == bits,
    {
        ColorMode { bits }
    }

    /// Create flags from raw bits in `data` by truncating unused bits.
    pub fn from_data(data: u8) -> (r: Self)
        ensures r.bits == data & Self::spec_all_bits(),
    {
        ColorMode { bits: data & 0b00000011 }
    }

    /// Returns `true` if no bit is set.
    pub fn is_empty(&self) -> (r: bool)
        ensures r == (self.bits == 0),
    {
        self.bits == 0
    }

    /// Returns `true` if every defined bit is set.
    pub fn is_all(&self) -> (r: bool)
        ensures r == (self.bits & Self::spec_all_bits() == Self::spec_all_bits()),
    {
        self.bits & 0b00000011 == 0b00000011
    }

    /// Returns `true` if every bit of `other` is also set in `self`.
    pub fn contains(&self, other: Self) -> (r: bool)
        ensures r == (self.bits & other.bits == other.bits),
    {
        self.bits & other.bits == other.bits
    }

    /// Returns `true` if any bit of `other` is also set in `self`.
    pub fn intersects(&self, other: Self) -> (r: bool)
        ensures r == (self.bits & other.bits != 0),
    {
        self.bits & other.bits != 0
    }

    /// Sets every bit of `other` in `self`.
    pub fn insert(&mut self, other: Self)
        ensures final(self).bits == old(self).bits | other.bits,
    {
        self.bits = self.bits | other.bits;
    }

    /// Clears every bit of `other` in `self`.
    pub fn remove(&mut self, other: Self)
        ensures final(self).bits == old(self).bits & !other.bits,
    {
        self.bits = self.bits & !other.bits;
    }

    /// Flips every bit of `other` in `self`.
    pub fn toggle(&mut self, other: Self)
        ensures final(self).bits == old(self).bits ^ other.bits,
    {
        self.bits = self.bits ^ other.bits;
    }

    /// Sets (if `value` is `true`) or clears (otherwise) every bit of `other` in `self`.
    pub fn set(&mut self, other: Self, value: bool)
        ensures
            final(self).bits == (if value { old(self).bits | other.bits } else { old(self).bits & !other.bits }),
    {
        if value {
            self.bits = self.bits | other.bits;
        } else {
            self.bits = self.bits & !other.bits;
        }
    }

    /// Returns the bitwise union of `self` and `other`.
    pub fn union(self, other: Self) -> (r: Self)
        ensures r.bits == self.bits | other.bits,
    {
        ColorMode { bits: self.bits | other.bits }
    }

    /// Returns the bitwise intersection of `self` and `other`.
    pub fn intersection(self, other: Self) -> (r: Self)
        ensures r.bits == self.bits & other.bits,
    {
        ColorMode { bits: self.bits & other.bits }
    }

    /// Returns the bits of `self` that are not set in `other`.
    pub fn difference(self, other: Self) -> (r: Self)
        ensures r.bits == self.bits & !other.bits,
    {
        ColorMode { bits: self.bits & !other.bits }
    }

    /// Returns the bits set in exactly one of `self` and `other`.
    pub fn symmetric_difference(self, other: Self) -> (r: Self)
        ensures r.bits == self.bits ^ other.bits,
    {
        ColorMode { bits: self.bits ^ other.bits }
    }

    /// Returns the defined bits that are not set in `self`.
    pub fn complement(self) -> (r: Self)
        ensures r.bits == !self.bits & Self::spec_all_bits(),
    {
        ColorMode { bits: !self.bits & 0b00000011 }
    }
}

impl Default for ColorMode {
    fn default() -> (r: Self)
        ensures r.bits == 0,
    {
        ColorMode { bits: 0 }
    }
}

impl core::ops::BitOr for ColorMode {
    type Output = ColorMode;

    fn bitor(self, rhs: ColorMode) -> (r: ColorMode) {
        ColorMode { bits: self.bits | rhs.bits }
    }
}

impl vstd::std_specs::ops::BitOrSpecImpl for ColorMode {
    open spec fn obeys_bitor_spec() -> bool {
        true
    }

    open spec fn bitor_req(self, rhs: ColorMode) -> bool {
        true
    }

    open spec fn bitor_spec(self, rhs: ColorMode) -> ColorMode {
        ColorMode { bits: self.bits | rhs.bits }
    }
}

impl core::ops::BitAnd for ColorMode {
    type Output = ColorMode;

    fn bitand(self, rhs: ColorMode) -> (r: ColorMode) {
        ColorMode { bits: self.bits & rhs.bits }
    }
}

impl vstd::std_specs::ops::BitAndSpecImpl for ColorMode {
    open spec fn obeys_bitand_spec() -> bool {
        true
    }

    open spec fn bitand_req(self, rhs: ColorMode) -> bool {
        true
    }

    open spec fn bitand_spec(self, rhs: ColorMode) -> ColorMode {
        ColorMode { bits: self.bits & rhs.bits }
    }
}

impl core::ops::Sub for ColorMode {
    type Output = ColorMode;

    fn sub(self, rhs: ColorMode) -> (r: ColorMode) {
        ColorMode { bits: self.bits & !rhs.bits }
    }
}

impl vstd::std_specs::ops::SubSpecImpl for ColorMode {
    open spec fn obeys_sub_spec() -> bool {
        true
    }

    open spec fn sub_req(self, rhs: ColorMode) -> bool {
        true
    }

    open spec fn sub_spec(self, rhs: ColorMode) -> ColorMode {
        ColorMode { bits: self.bits & !rhs.bits }
    }
}

impl core::ops::Not for ColorMode {
    type Output = ColorMode;

    fn not(self) -> (r: ColorMode) {
        ColorMode { bits: !self.bits & 0b00000011 }
    }
}

impl vstd::std_specs::ops::NotSpecImpl for ColorMode {
    open spec fn obeys_not_spec() -> bool {
        true
    }

    open spec fn not_req(self) -> bool {
        true
    }

    open spec fn not_spec(self) -> ColorMode {
        ColorMode { bits: !self.bits & ColorMode::spec_all_bits() }
    }
}

/****************************** ReadEarMode ******************************/

/// Returns `c` with an ASCII upper case letter turned into lower case.
pub open spec fn ascii_lower(c: u8) -> u8 {
    if 0x41 <= c <= 0x5a { (c + 0x20) as u8 } else { c }
}

/// `true` if `a` and `b` are equal ignoring the case of ASCII letters.
pub open spec fn spec_eq_ignore_ascii_case(a: Seq<u8>, b: Seq<u8>) -> bool {
    &&& a.len() == b.len()
    &&& forall|i: int| 0 <= i < a.len() ==> ascii_lower(#[trigger] a[i]) == ascii_lower(b[i])
}

/// Compares two byte strings ignoring the case of ASCII letters.
pub fn eq_ignore_ascii_case(a: &[u8], b: &[u8]) -> (r: bool)
    ensures r == spec_eq_ignore_ascii_case(a@, b@),
{
    if a.len() != b.len() {
        return false;
    }
    let mut i: usize = 0;
    while i < a.len()
        invariant
            a.len() == b.len(),
            0 <= i <= a.len(),
            forall|j: int| 0 <= j < i ==> ascii_lower(#[trigger] a@[j]) == ascii_lower(b@[j]),
        decreases a.len() - i,
    {
        let x = a[i];
        let y = b[i];
        let lx: u8 = if 0x41 <= x && x <= 0x5a { x + 0x20 } else { x };
        let ly: u8 = if 0x41 <= y && y <= 0x5a { y + 0x20 } else { y };
        if lx != ly {
            return false;
        }
        i += 1;
    }
    true
}

/// The name of each [ReadEarMode].
pub open spec fn read_ear_mode_name(mode: ReadEarMode) -> Seq<char> {
    match mode {
        ReadEarMode::Issue3 => "Issue 3"@,
        ReadEarMode::Issue2 => "Issue 2"@,
        ReadEarMode::Clear => "Clear"@,
        ReadEarMode::AlwaysSet => "Set"@,
    }
}

impl ReadEarMode {
    /// Returns the name of the mode.
    pub fn as_str(self) -> (r: &'static str)
        ensures r@ == read_ear_mode_name(self),
    {
        match self {
            ReadEarMode::Issue3 => "Issue 3",
            ReadEarMode::Issue2 => "Issue 2",
            ReadEarMode::Clear => "Clear",
            ReadEarMode::AlwaysSet => "Set",
        }
    }

    /// Parses the name of a mode, ignoring the case of letters.
    ///
    /// Accepts `"issue 3"`, `"issue 2"`, `"clear"` and `"set"`.
    pub fn parse_name(mode: &str) -> (r: Result<ReadEarMode, ParseReadEarModeError>)
        ensures
            r == (if spec_eq_ignore_ascii_case(mode.spec_bytes(), "issue 3".spec_bytes()) {
                Ok(ReadEarMode::Issue3)
            } else if spec_eq_ignore_ascii_case(mode.spec_bytes(), "issue 2".spec_bytes()) {
                Ok(ReadEarMode::Issue2)
            } else if spec_eq_ignore_ascii_case(mode.spec_bytes(), "clear".spec_bytes()) {
                Ok(ReadEarMode::Clear)
            } else if spec_eq_ignore_ascii_case(mode.spec_bytes(), "set".spec_bytes()) {
                Ok(ReadEarMode::AlwaysSet)
            } else {
                Err(ParseReadEarModeError)
            }),
    {
        let m = mode.as_bytes();
        if eq_ignore_ascii_case(m, "issue 3".as_bytes()) {
            Ok(ReadEarMode::Issue3)
        } else if eq_ignore_ascii_case(m, "issue 2".as_bytes()) {
            Ok(ReadEarMode::Issue2)
        } else if eq_ignore_ascii_case(m, "clear".as_bytes()) {
            Ok(ReadEarMode::Clear)
        } else if eq_ignore_ascii_case(m, "set".as_bytes()) {
            Ok(ReadEarMode::AlwaysSet)
        } else {
            Err(ParseReadEarModeError)
        }
    }
}

impl core::str::FromStr for ReadEarMode {
    type Err = ParseReadEarModeError;

    fn from_str(mode: &str) -> Result<ReadEarMode, ParseReadEarModeError> {
        ReadEarMode::parse_name(mode)
    }
}

/****************************** EarMic ******************************/

impl core::convert::TryFrom<u8> for EarMic {
    type Error = TryFromU8EarMicError;

    fn try_from(earmic: u8) -> (r: Result<EarMic, TryFromU8EarMicError>) {
        if earmic & !0b11u8 == 0 {
            Ok(EarMic { bits: earmic })
        } else {
            Err(TryFromU8EarMicError(earmic))
        }
    }
}

impl vstd::std_specs::convert::TryFromSpecImpl<u8> for EarMic {
    open spec fn obeys_try_from_spec() -> bool {
        true
    }

    open spec fn try_from_spec(earmic: u8) -> Result<EarMic, TryFromU8EarMicError> {
        if earmic & !0b11u8 == 0 {
            Ok(EarMic { bits: earmic })
        } else {
            Err(TryFromU8EarMicError(earmic))
        }
    }
}

impl From<EarMic> for u8 {
    fn from(earmic: EarMic) -> (r: u8) {
        earmic.bits
    }
}

impl vstd::std_specs::convert::FromSpecImpl<EarMic> for u8 {
    open spec fn obeys_from_spec() -> bool {
        true
    }

    open spec fn from_spec(earmic: EarMic) -> u8 {
        earmic.bits
    }
}

/****************************** UlaPortFlags ******************************/

impl From<UlaPortFlags> for EarMic {
    fn from(flags: UlaPortFlags) -> (r: EarMic) {
        EarMic { bits: (flags.bits & 0b1_1000) >> 3 }
    }
}

impl vstd::std_specs::convert::FromSpecImpl<UlaPortFlags> for EarMic {
    open spec fn obeys_from_spec() -> bool {
        true
    }

    open spec fn from_spec(flags: UlaPortFlags) -> EarMic {
        EarMic { bits: (flags.bits & 0b1_1000) >> 3 }
    }
}

/****************************** bit facts ******************************/

/// Facts about the bit-level operations on flag bits used below.
proof fn lemma_flag_bits(b: u8)
    by (bit_vector)
    ensures
        b & 0b111u8 == b % 8,
        !(0b110u8) & 0b11111u8 == 0b11001u8,
        (b & 0b110u8) == 0 || (b & 0b110u8) == 0b010u8 || (b & 0b110u8) == 0b100u8 || (b & 0b110u8) == 0b110u8,
        (b & 0b100u8) >> 1u8 == (if b & 0b100u8 != 0 { 2u8 } else { 0u8 }),
        0b111u8 | 0b11_1000u8 == 0b11_1111u8,
        b & 0b1100_0000u8 == 0 ==> b & 0b11_1111u8 == b,
        (b & 0b11_1000u8) >> 3u8 == (b / 8) % 8,
{
}

/// The lowest 3 bits of a bank index.
proof fn lemma_bank_bits(bank: usize)
    by (bit_vector)
    ensures (bank as u8) & 0b111u8 == (bank % 8) as u8,
{
}

/****************************** Ula128MemFlags ******************************/

impl Ula128MemFlags {
    /// Returns modified flags with the last memory page RAM bank index set to `bank`.
    ///
    /// Only the 3 lowest bits of `bank` are used.
    pub fn with_last_ram_page_bank(self, bank: usize) -> (r: Self)
        ensures r.bits == (self.bits & !0b111u8) | ((bank % 8) as u8),
    {
        let mut flags = self;
        flags.remove(Ula128MemFlags::RAM_BANK_MASK());
        flags.insert(Ula128MemFlags::from_bits_retain(bank as u8).intersection(Ula128MemFlags::RAM_BANK_MASK()));
        proof { lemma_bank_bits(bank); }
        flags
    }
    /// Returns a RAM bank index mapped at the last memory page.
    pub fn last_ram_page_bank(self) -> (r: usize)
        ensures r == self.bits % 8,
    {
        let b = self.bits;
        proof { lemma_flag_bits(b); }
        (self.bits & 0b111) as usize
    }
    /// Returns a ROM bank index mapped at the first memory page.
    pub fn rom_page_bank(self) -> (r: usize)
        ensures r == (if self.bits & 0b1_0000 != 0 { 1usize } else { 0usize }),
    {
        if self.intersects(Ula128MemFlags::ROM_BANK()) { 1 } else { 0 }
    }
    /// Returns `true` if a shadow screen bank bit is 1. Otherwise returns `false`.
    pub fn is_shadow_screen(self) -> (r: bool)
        ensures r == (self.bits & 0b1000 != 0),
    {
        self.intersects(Ula128MemFlags::SCREEN_BANK())
    }
    /// Returns `true` if a mmu lock bit is 1. Otherwise returns `false`.
    pub fn is_mmu_locked(self) -> (r: bool)
        ensures r == (self.bits & 0b10_0000 != 0),
    {
        self.intersects(Ula128MemFlags::LOCK_MMU())
    }
}

/****************************** Ula3CtrlFlags ******************************/

/// The page layout bits (`b1-b2`) of [Ula3CtrlFlags] selecting each [Ula3Paging].
pub open spec fn spec_page_layout_bits(paging: Ula3Paging) -> u8 {
    match paging {
        Ula3Paging::Banks0123 => 0b000,
        Ula3Paging::Banks4567 => 0b010,
        Ula3Paging::Banks4563 => 0b100,
        Ula3Paging::Banks4763 => 0b110,
    }
}

/// The [Ula3Paging] selected by the page layout bits (`b1-b2`) of `bits`.
pub open spec fn spec_paging_of_bits(bits: u8) -> Ula3Paging {
    let l = bits & 0b110;
    if l == 0 {
        Ula3Paging::Banks0123
    } else if l == 0b010 {
        Ula3Paging::Banks4567
    } else if l == 0b100 {
        Ula3Paging::Banks4563
    } else {
        Ula3Paging::Banks4763
    }
}

impl Ula3CtrlFlags {
    /// Returns modified flags with the special paging enabled and its layout set to the specified value.
    pub fn with_special_paging(self, paging: Ula3Paging) -> (r: Self)
        ensures r.bits == ((self.bits | 1) & 0b1_1001) | spec_page_layout_bits(paging),
    {
        let layout = match paging {
            Ula3Paging::Banks0123 => Ula3CtrlFlags::PAGE_LAYOUT0(),
            Ula3Paging::Banks4567 => Ula3CtrlFlags::PAGE_LAYOUT1(),
            Ula3Paging::Banks4563 => Ula3CtrlFlags::PAGE_LAYOUT2(),
            Ula3Paging::Banks4763 => Ula3CtrlFlags::PAGE_LAYOUT3(),
        };
        proof { lemma_flag_bits(self.bits); }
        ((self | Ula3CtrlFlags::EXT_PAGING()) & Ula3CtrlFlags::PAGE_LAYOUT_MASK().complement()) | layout
    }
    /// Returns modified flags with the special paging disabled and with the rom bank high flag set from
    /// the `rom_bank` bit1.
    pub fn with_rom_page_bank_hi(self, rom_bank: usize) -> (r: Self)
        ensures
            r.bits == (if rom_bank & 2 != 0 { (self.bits & !1u8) | 0b100 } else { self.bits & !1u8 & !0b100u8 }),
    {
        let mut flags = self;
        flags.remove(Ula3CtrlFlags::EXT_PAGING());
        flags.set(Ula3CtrlFlags::ROM_BANK_HI(), rom_bank & 2 != 0);
        flags
    }
    /// Returns `true` if a special paging is enabled. Otherwise returns `false`.
    pub fn has_special_paging(self) -> (r: bool)
        ensures r == (self.bits & 1 != 0),
    {
        self.intersects(Ula3CtrlFlags::EXT_PAGING())
    }
    /// Returns a special paging layout if it is enabled.
    pub fn special_paging(self) -> (r: Option<Ula3Paging>)
        ensures r == (if self.bits & 1 != 0 { Some(spec_paging_of_bits(self.bits)) } else { None }),
    {
        if self.has_special_paging() {
            let l = self.bits & 0b110;
            let b = self.bits;
            proof { lemma_flag_bits(b); }
            Some(if l == 0 {
                Ula3Paging::Banks0123
            } else if l == 0b010 {
                Ula3Paging::Banks4567
            } else if l == 0b100 {
                Ula3Paging::Banks4563
            } else {
                Ula3Paging::Banks4763
            })
        } else {
            None
        }
    }
    /// Returns a bit 1 value of rom bank index mapped at the first RAM page.
    ///
    /// The complete rom page bank index can be obtained by bitwise ORing the returned value with
    /// the result from [Ula128MemFlags::rom_page_bank].
    pub fn rom_page_bank_hi(self) -> (r: usize)
        ensures r == (if self.bits & 0b100 != 0 { 2usize } else { 0usize }),
    {
        let b = self.bits;
        proof { lemma_flag_bits(b); }
        ((self.bits & 0b100) >> 1) as usize
    }
    /// Returns `true` if a disc motor bit is 1. Otherwise returns `false`.
    pub fn is_disc_motor_on(self) -> (r: bool)
        ensures r == (self.bits & 0b1000 != 0),
    {
        self.intersects(Ula3CtrlFlags::DISC_MOTOR())
    }
    /// Returns `true` if a printer strobe bit is 1. Otherwise returns `false`.
    pub fn is_printer_strobe_on(self) -> (r: bool)
        ensures r == (self.bits & 0b1_0000 != 0),
    {
        self.intersects(Ula3CtrlFlags::PRINTER_STROBE())
    }
}

/****************************** Ula3Paging ******************************/

/// The numeric value of each [Ula3Paging] layout.
pub open spec fn spec_ula3_paging_value(paging: Ula3Paging) -> u8 {
    match paging {
        Ula3Paging::Banks0123 => 0,
        Ula3Paging::Banks4567 => 1,
        Ula3Paging::Banks4563 => 2,
        Ula3Paging::Banks4763 => 3,
    }
}

/// The RAM banks paged in at the consecutive memory pages for each [Ula3Paging] layout.
pub open spec fn spec_ram_banks(paging: Ula3Paging) -> Seq<u8> {
    match paging {
        Ula3Paging::Banks0123 => seq![0u8, 1, 2, 3],
        Ula3Paging::Banks4567 => seq![4u8, 5, 6, 7],
        Ula3Paging::Banks4563 => seq![4u8, 5, 6, 3],
        Ula3Paging::Banks4763 => seq![4u8, 7, 6, 3],
    }
}

impl From<Ula3Paging> for u8 {
    fn from(paging: Ula3Paging) -> (r: u8) {
        match paging {
            Ula3Paging::Banks0123 => 0,
            Ula3Paging::Banks4567 => 1,
            Ula3Paging::Banks4563 => 2,
            Ula3Paging::Banks4763 => 3,
        }
    }
}

impl vstd::std_specs::convert::FromSpecImpl<Ula3Paging> for u8 {
    open spec fn obeys_from_spec() -> bool {
        true
    }

    open spec fn from_spec(paging: Ula3Paging) -> u8 {
        spec_ula3_paging_value(paging)
    }
}

impl core::convert::TryFrom<u8> for Ula3Paging {
    type Error = TryFromU8Ula3PagingError;

    fn try_from(bank: u8) -> (r: Result<Ula3Paging, TryFromU8Ula3PagingError>) {
        match bank {
            0 => Ok(Ula3Paging::Banks0123),
            1 => Ok(Ula3Paging::Banks4567),
            2 => Ok(Ula3Paging::Banks4563),
            3 => Ok(Ula3Paging::Banks4763),
            _ => Err(TryFromU8Ula3PagingError(bank)),
        }
    }
}

impl vstd::std_specs::convert::TryFromSpecImpl<u8> for Ula3Paging {
    open spec fn obeys_try_from_spec() -> bool {
        true
    }

    open spec fn try_from_spec(bank: u8) -> Result<Ula3Paging, TryFromU8Ula3PagingError> {
        if bank == 0 {
            Ok(Ula3Paging::Banks0123)
        } else if bank == 1 {
            Ok(Ula3Paging::Banks4567)
        } else if bank == 2 {
            Ok(Ula3Paging::Banks4563)
        } else if bank == 3 {
            Ok(Ula3Paging::Banks4763)
        } else {
            Err(TryFromU8Ula3PagingError(bank))
        }
    }
}

impl Ula3Paging {
    /// Returns an array of RAM bank indexes for a current paging variant layout.
    pub fn ram_banks(self) -> (r: [u8; 4])
        ensures r@ == spec_ram_banks(self),
    {
        let r: [u8; 4] = match self {
            Ula3Paging::Banks0123 => [0, 1, 2, 3],
            Ula3Paging::Banks4567 => [4, 5, 6, 7],
            Ula3Paging::Banks4563 => [4, 5, 6, 3],
            Ula3Paging::Banks4763 => [4, 7, 6, 3],
        };
        assert(r@ =~= spec_ram_banks(self));
        r
    }
    /// Returns tuples of RAM bank indexes with memory page indexes for a current
    /// paging variant layout.
    pub fn ram_banks_with_pages_iter(self) -> (r: Vec<(usize, u8)>)
        ensures
            r@.len() == 4,
            forall|i: int| 0 <= i < 4 ==> #[trigger] r@[i] == (spec_ram_banks(self)[i] as usize, i as u8),
    {
        let banks = self.ram_banks();
        let mut r: Vec<(usize, u8)> = Vec::new();
        let mut page: u8 = 0;
        while page < 4
            invariant
                banks@ == spec_ram_banks(self),
                page <= 4,
                r@.len() == page,
                forall|i: int| 0 <= i < page ==> #[trigger] r@[i] == (spec_ram_banks(self)[i] as usize, i as u8),
            decreases 4 - page,
        {
            r.push((banks[page as usize] as usize, page));
            page += 1;
        }
        r
    }
}

/****************************** ScldCtrlFlags ******************************/

impl ScldCtrlFlags {
    /// Returns scren mode with hi-res colors from `flags` as ULAplus register flags in mode group.
    pub fn into_plus_mode(self) -> (r: UlaPlusRegFlags)
        ensures r.bits == (self.bits & 0b11_1111) | 0b0100_0000,
    {
        proof { lemma_flag_bits(self.bits); }
        UlaPlusRegFlags::from_bits_retain(
            (self & (ScldCtrlFlags::SCREEN_MODE_MASK() | ScldCtrlFlags::HIRES_COLOR_MASK())).bits()
        ) | UlaPlusRegFlags::MODE_GROUP()
    }
    /// Returns a color index from high resolution color mask: [0, 7].
    pub fn hires_color_index(self) -> (r: u8)
        ensures r == (self.bits / 8) % 8,
    {
        let b = self.bits;
        proof { lemma_flag_bits(b); }
        (self & ScldCtrlFlags::HIRES_COLOR_MASK()).bits() >> 3
    }
    /// Returns `true` if a map ex rom bit is 1. Otherwise returns `false`.
    pub fn is_map_ex_rom(self) -> (r: bool)
        ensures r == (self.bits & 0b1000_0000 != 0),
    {
        self.intersects(ScldCtrlFlags::MAP_EX_ROM())
    }
    /// Returns `true` if a interrupt disabled bit is 1. Otherwise returns `false`.
    pub fn is_intr_disabled(self) -> (r: bool)
        ensures r == (self.bits & 0b0100_0000 != 0),
    {
        self.intersects(ScldCtrlFlags::INTR_DISABLED())
    }
    /// Returns `true` if a screen high resolution bit is 1. Otherwise returns `false`.
    pub fn is_screen_hi_res(self) -> (r: bool)
        ensures r == (self.bits & 0b100 != 0),
    {
        self.intersects(ScldCtrlFlags::SCREEN_HI_RES())
    }
    /// Returns `true` if a screen high color bit is 1. Otherwise returns `false`.
    pub fn is_screen_hi_attrs(self) -> (r: bool)
        ensures r == (self.bits & 0b10 != 0),
    {
        self.intersects(ScldCtrlFlags::SCREEN_HI_ATTRS())
    }
    /// Returns `true` if a screen secondary bit is 1. Otherwise returns `false`.
    pub fn is_screen_secondary(self) -> (r: bool)
        ensures r == (self.bits & 1 != 0),
    {
        self.intersects(ScldCtrlFlags::SCREEN_SECONDARY())
    }
}

impl From<ScldCtrlFlags> for u8 {
    fn from(flags: ScldCtrlFlags) -> (r: u8) {
        flags.bits
    }
}

impl vstd::std_specs::convert::FromSpecImpl<ScldCtrlFlags> for u8 {
    open spec fn obeys_from_spec() -> bool {
        true
    }

    open spec fn from_spec(flags: ScldCtrlFlags) -> u8 {
        flags.bits
    }
}

impl From<u8> for ScldCtrlFlags {
    fn from(flags: u8) -> (r: ScldCtrlFlags) {
        ScldCtrlFlags { bits: flags }
    }
}

impl vstd::std_specs::convert::FromSpecImpl<u8> for ScldCtrlFlags {
    open spec fn obeys_from_spec() -> bool {
        true
    }

    open spec fn from_spec(flags: u8) -> ScldCtrlFlags {
        ScldCtrlFlags { bits: flags }
    }
}

/****************************** UlaPlusRegFlags ******************************/

impl UlaPlusRegFlags {
    /// Returns an `index` [0, 63] to the palette entry if `self` selects a palette group.
    pub fn palette_group(self) -> (r: Option<u8>)
        ensures
            r == (if self.bits & 0b1100_0000 == 0 { Some(self.bits) } else { None }),
    {
        if (self & UlaPlusRegFlags::GROUP_MASK()) == UlaPlusRegFlags::PALETTE_GROUP() {
            let b = self.bits;
            proof { lemma_flag_bits(b); }
            return Some((self & UlaPlusRegFlags::PALETTE_MASK()).bits());
        }
        None
    }
    /// Returns an `true` if `self` selects a mode group.
    pub fn is_mode_group(self) -> (r: bool)
        ensures r == (self.bits & 0b1100_0000 == 0b0100_0000),
    {
        (self & UlaPlusRegFlags::GROUP_MASK()) == UlaPlusRegFlags::MODE_GROUP()
    }
    /// Returns a color index from high resolution color mask: [0, 7].
    pub fn hires_color_index(self) -> (r: u8)
        ensures r == (self.bits / 8) % 8,
    {
        let b = self.bits;
        proof { lemma_flag_bits(b); }
        (self & UlaPlusRegFlags::HIRES_COLOR_MASK()).bits() >> 3
    }
    /// Returns `true` if a screen high resolution bit is 1. Otherwise returns `false`.
    pub fn is_screen_hi_res(self) -> (r: bool)
        ensures r == (self.bits & 0b100 != 0),
    {
        self.intersects(UlaPlusRegFlags::SCREEN_HI_RES())
    }
}

impl From<UlaPlusRegFlags> for u8 {
    fn from(flags: UlaPlusRegFlags) -> (r: u8) {
        flags.bits
    }
}

impl vstd::std_specs::convert::FromSpecImpl<UlaPlusRegFlags> for u8 {
    open spec fn obeys_from_spec() -> bool {
        true
    }

    open spec fn from_spec(flags: UlaPlusRegFlags) -> u8 {
        flags.bits
    }
}

impl From<u8> for UlaPlusRegFlags {
    fn from(flags: u8) -> (r: UlaPlusRegFlags) {
        UlaPlusRegFlags { bits: flags }
    }
}

impl vstd::std_specs::convert::FromSpecImpl<u8> for UlaPlusRegFlags {
    open spec fn obeys_from_spec() -> bool {
        true
    }

    open spec fn from_spec(flags: u8) -> UlaPlusRegFlags {
        UlaPlusRegFlags { bits: flags }
    }
}

/****************************** ColorMode ******************************/

impl core::convert::TryFrom<u8> for ColorMode {
    type Error = TryFromU8ColorModeError;

    fn try_from(color_mode: u8) -> (r: Result<ColorMode, TryFromU8ColorModeError>) {
        if color_mode & !0b11u8 == 0 {
            Ok(ColorMode { bits: color_mode })
        } else {
            Err(TryFromU8ColorModeError(color_mode))
        }
    }
}

impl vstd::std_specs::convert::TryFromSpecImpl<u8> for ColorMode {
    open spec fn obeys_try_from_spec() -> bool {
        true
    }

    open spec fn try_from_spec(color_mode: u8) -> Result<ColorMode, TryFromU8ColorModeError> {
        if color_mode & !0b11u8 == 0 {
            Ok(ColorMode { bits: color_mode })
        } else {
            Err(TryFromU8ColorModeError(color_mode))
        }
    }
}

impl From<ColorMode> for u8 {
    fn from(color_mode: ColorMode) -> (r: u8) {
        color_mode.bits
    }
}

impl vstd::std_specs::convert::FromSpecImpl<ColorMode> for u8 {
    open spec fn obeys_from_spec() -> bool {
        true
    }

    open spec fn from_spec(color_mode: ColorMode) -> u8 {
        color_mode.bits
    }
}

/****************************** laws ******************************/

/// Facts about setting and reading back the paging bits.
proof fn lemma_paging_bits(b: u8, bank: u8, layout: u8)
    by (bit_vector)
    requires
        bank < 8,
        layout == 0 || layout == 2 || layout == 4 || layout == 6,
    ensures
        ((b & !0b111u8) | bank) % 8 == bank,
        (((b | 1) & 0b1_1001) | layout) & 1 != 0,
        ((((b | 1) & 0b1_1001) | layout) & 0b110) == layout,
        ((b & !1u8) | 0b100) & 0b100 != 0,
        (b & !1u8 & !0b100u8) & 0b100 == 0,
{
}

/// The RAM bank set at the last page of the 128k paging flags is read back, as its 3 lowest bits.
pub proof fn lemma_last_ram_page_bank_read_back(flags: Ula128MemFlags, bank: usize)
    ensures
        ((flags.bits & !0b111u8) | ((bank % 8) as u8)) % 8 == bank % 8,
{
    lemma_paging_bits(flags.bits, (bank % 8) as u8, 0);
}

/// The special paging layout set in the +3 control flags is read back, with the special paging
/// enabled.
pub proof fn lemma_special_paging_read_back(flags: Ula3CtrlFlags, paging: Ula3Paging)
    ensures
        ({
            let bits = ((flags.bits | 1) & 0b1_1001) | spec_page_layout_bits(paging);
            bits & 1 != 0 && spec_paging_of_bits(bits) == paging
        }),
{
    lemma_paging_bits(flags.bits, 0, spec_page_layout_bits(paging));
}

/// The high bit of the ROM bank set in the +3 control flags is read back.
pub proof fn lemma_rom_page_bank_hi_read_back(flags: Ula3CtrlFlags, rom_bank: usize)
    ensures
        ({
            let bits = if rom_bank & 2 != 0 { (flags.bits & !1u8) | 0b100 } else { flags.bits & !1u8 & !0b100u8 };
            (if bits & 0b100 != 0 { 2usize } else { 0usize }) == rom_bank & 2
        }),
{
    lemma_paging_bits(flags.bits, 0, 0);
    assert(rom_bank & 2 == 0 || rom_bank & 2 == 2) by (bit_vector);
}

} // verus!
