//! Types describing the emulated computer, shared by the snapshot formats.
use vstd::prelude::*;

use crate::chip::flags::{ReadEarMode, ScldCtrlFlags, Ula128MemFlags, Ula3CtrlFlags};
use crate::memory::ZxMemoryError;
use crate::peripherals::ay::AyRegister;
use crate::video::BorderColor;

verus! {

/// Computer models recognised by the snapshot formats.
#[non_exhaustive]
#[derive(Debug, Clone, Copy, PartialEq, Eq, Hash, Structural)]
pub enum ComputerModel {
    Spectrum16,
    Spectrum48,
    SpectrumNTSC,
    Spectrum128,
    SpectrumPlus2,
    SpectrumPlus2A,
    SpectrumPlus3,
    SpectrumPlus3e,
    SpectrumSE,
    TimexTC2048,
    TimexTC2068,
    TimexTS2068,
}

/// Joystick models recognised by the snapshot formats.
#[non_exhaustive]
#[derive(Debug, Clone, Copy, PartialEq, Eq, Hash, Structural)]
pub enum JoystickModel {
    Kempston,
    Sinclair1,
    Sinclair2,
    Cursor,
    Fuller,
}

/// The variants of the AY-3-891x sound chip attached to the computer.
#[non_exhaustive]
#[derive(Debug, Clone, Copy, PartialEq, Eq, Hash, Structural)]
pub enum Ay3_891xDevice {
    Ay128k,
    Melodik,
    FullerBox,
    Timex,
}

/// The interrupt modes of the Z80 CPU.
#[derive(Debug, Clone, Copy, PartialEq, Eq, Hash, Structural)]
pub enum InterruptMode {
    Mode0,
    Mode1,
    Mode2,
}

/// A memory region of the emulated computer.
#[non_exhaustive]
#[derive(Debug, PartialEq, Eq, Hash)]
pub enum MemoryRange {
    /// A range of ROM addresses.
    Rom(core::ops::Range<usize>),
    /// A range of RAM addresses.
    Ram(core::ops::Range<usize>),
    /// The ROM of the ZX Interface 1.
    Interface1Rom,
    /// The ROM of the MGT +D.
    PlusDRom,
    /// The ROM of the DISCiPLE.
    DiscipleRom,
    /// The ROM of the Multiface.
    MultifaceRom,
    /// A range of the SamRam ROM addresses.
    SamRamRom(core::ops::Range<usize>),
}

/// Extensions of the emulated computer.
#[derive(Debug, Clone, Copy, PartialEq, Eq, PartialOrd, Ord, Hash, Structural)]
pub struct Extensions {
    /// The raw bits of the flags.
    pub bits: u64,
}

impl Extensions {
    /// No extension.
    #[allow(non_snake_case)]
    pub fn NONE() -> (r: Self)
        ensures r.bits == 0,
    {
        Extensions { bits: 0 }
    }

    /// ZX Interface 1.
    #[allow(non_snake_case)]
    pub fn IF1() -> (r: Self)
        ensures r.bits == 1,
    {
        Extensions { bits: 1 }
    }

    /// MGT +D.
    #[allow(non_snake_case)]
    pub fn PLUS_D() -> (r: Self)
        ensures r.bits == 2,
    {
        Extensions { bits: 2 }
    }

    /// DISCiPLE.
    #[allow(non_snake_case)]
    pub fn DISCIPLE() -> (r: Self)
        ensures r.bits == 4,
    {
        Extensions { bits: 4 }
    }

    /// SamRam.
    #[allow(non_snake_case)]
    pub fn SAM_RAM() -> (r: Self)
        ensures r.bits == 8,
    {
        Extensions { bits: 8 }
    }

    /// ULAplus.
    #[allow(non_snake_case)]
    pub fn ULA_PLUS() -> (r: Self)
        ensures r.bits == 0x10,
    {
        Extensions { bits: 0x10 }
    }

    /// TR-DOS.
    #[allow(non_snake_case)]
    pub fn TR_DOS() -> (r: Self)
        ensures r.bits == 0x20,
    {
        Extensions { bits: 0x20 }
    }

    /// Bits reserved for future extensions.
    #[allow(non_snake_case)]
    pub fn RESERVED() -> (r: Self)
        ensures r.bits == 0xFFFFFFFFFFFFFFC0,
    {
        Extensions { bits: 0xFFFFFFFFFFFFFFC0 }
    }

    /// All bits that belong to some defined flag.
    pub open spec fn spec_all_bits() -> u64 {
        0xFFFFFFFFFFFFFFFF
    }

    /// Returns flags with no bit set.
    pub fn empty() -> (r: Self)
        ensures r.bits == 0,
    {
        Extensions { bits: 0 }
    }

    /// Returns flags with every defined bit set.
    pub fn all() -> (r: Self)
        ensures r.bits == Self::spec_all_bits(),
    {
        Extensions { bits: 0xFFFFFFFFFFFFFFFF }
    }

    /// Returns the raw bits of the flags.
    pub fn bits(&self) -> (r: u64)
        ensures r == self.bits,
    {
        self.bits
    }

    /// Converts raw bits into flags if no undefined bit is set.
    pub fn from_bits(bits: u64) -> (r: Option<Self>)
        ensures
            r == (if bits & !Self::spec_all_bits() == 0 { Some(Extensions { bits }) } else { None }),
    {
        if bits & !0xFFFFFFFFFFFFFFFFu64 == 0 {
            Some(Extensions { bits })
        } else {
            None
        }
    }

    /// Converts raw bits into flags, dropping every undefined bit.
    pub fn from_bits_truncate(bits: u64) -> (r: Self)
        ensures r.bits == bits & Self::spec_all_bits(),
    {
        Extensions { bits: bits & 0xFFFFFFFFFFFFFFFF }
    }

    /// Converts raw bits into flags, keeping every bit.
    pub fn from_bits_retain(bits: u64) -> (r: Self)
        ensures r.bits == bits,
    {
        Extensions { bits }
    }

    /// Create flags from raw bits in `data` by truncating unused bits.
    pub fn from_data(data: u64) -> (r: Self)
        ensures r.bits == data & Self::spec_all_bits(),
    {
        Extensions { bits: data & 0xFFFFFFFFFFFFFFFF }
    }

    /// Returns `true` if no bit is set.
    pub fn is_empty(&self) -> (r: bool)
        ensures r == (self.bits == 0),
    {
        self.bits == 0
    }

    /// Returns `true` if every defined bit is set.
    pub fn is_all(&self) -> (r: bool)
        ensures r == (self.bits & Self::spec_all_bits() == Self::spec_all_bits()),
    {
        self.bits & 0xFFFFFFFFFFFFFFFF == 0xFFFFFFFFFFFFFFFF
    }

    /// Returns `true` if every bit of `other` is also set in `self`.
    pub fn contains(&self, other: Self) -> (r: bool)
        ensures r == (self.bits & other.bits == other.bits),
    {
        self.bits & other.bits == other.bits
    }

    /// Returns `true` if any bit of `other` is also set in `self`.
    pub fn intersects(&self, other: Self) -> (r: bool)
        ensures r == (self.bits & other.bits != 0),
    {
        self.bits & other.bits != 0
    }

    /// Sets every bit of `other` in `self`.
    pub fn insert(&mut self, other: Self)
        ensures final(self).bits == old(self).bits | other.bits,
    {
        self.bits = self.bits | other.bits;
    }

    /// Clears every bit of `other` in `self`.
    pub fn remove(&mut self, other: Self)
        ensures final(self).bits == old(self).bits & !other.bits,
    {
        self.bits = self.bits & !other.bits;
    }

    /// Flips every bit of `other` in `self`.
    pub fn toggle(&mut self, other: Self)
        ensures final(self).bits == old(self).bits ^ other.bits,
    {
        self.bits = self.bits ^ other.bits;
    }

    /// Sets (if `value` is `true`) or clears (otherwise) every bit of `other` in `self`.
    pub fn set(&mut self, other: Self, value: bool)
        ensures
            final(self).bits == (if value { old(self).bits | other.bits } else { old(self).bits & !other.bits }),
    {
        if value {
            self.bits = self.bits | other.bits;
        } else {
            self.bits = self.bits & !other.bits;
        }
    }

    /// Returns the bitwise union of `self` and `other`.
    pub fn union(self, other: Self) -> (r: Self)
        ensures r.bits == self.bits | other.bits,
    {
        Extensions { bits: self.bits | other.bits }
    }

    /// Returns the bitwise intersection of `self` and `other`.
    pub fn intersection(self, other: Self) -> (r: Self)
        ensures r.bits == self.bits & other.bits,
    {
        Extensions { bits: self.bits & other.bits }
    }

    /// Returns the bits of `self` that are not set in `other`.
    pub fn difference(self, other: Self) -> (r: Self)
        ensures r.bits == self.bits & !other.bits,
    {
        Extensions { bits: self.bits & !other.bits }
    }

    /// Returns the bits set in exactly one of `self` and `other`.
    pub fn symmetric_difference(self, other: Self) -> (r: Self)
        ensures r.bits == self.bits ^ other.bits,
    {
        Extensions { bits: self.bits ^ other.bits }
    }

    /// Returns the defined bits that are not set in `self`.
    pub fn complement(self) -> (r: Self)
        ensures r.bits == !self.bits & Self::spec_all_bits(),
    {
        Extensions { bits: !self.bits & 0xFFFFFFFFFFFFFFFF }
    }
}

/// The parts of the description of the extension bits `bits`: the IF1, the ULAplus, the MGT +D,
/// the DISCiPLE and the SamRam, each as `" + "` and its name.
pub open spec fn spec_extension_parts(bits: u64) -> Seq<&'static str> {
    (if bits & 1 != 0 { seq![" + IF1"] } else { Seq::empty() })
        + (if bits & 0x10 != 0 { seq![" + ULAPlus"] } else { Seq::empty() })
        + (if bits & 2 != 0 { seq![" + MGT+D"] } else { Seq::empty() })
        + (if bits & 4 != 0 { seq![" + DISCiPLE"] } else { Seq::empty() })
        + (if bits & 8 != 0 { seq![" + SamRam"] } else { Seq::empty() })
}

impl Extensions {
    /// Returns the parts of the description of the extensions, as they are displayed one after
    /// another: `" + IF1"`, `" + ULAPlus"`, `" + MGT+D"`, `" + DISCiPLE"`, `" + SamRam"`.
    pub fn display_parts(&self) -> (r: Vec<&'static str>)
        ensures
            r@ == spec_extension_parts(self.bits),
    {
        let mut r: Vec<&'static str> = Vec::new();
        if self.bits & 1 != 0 {
            r.push(" + IF1");
        }
        if self.bits & 0x10 != 0 {
            r.push(" + ULAPlus");
        }
        if self.bits & 2 != 0 {
            r.push(" + MGT+D");
        }
        if self.bits & 4 != 0 {
            r.push(" + DISCiPLE");
        }
        if self.bits & 8 != 0 {
            r.push(" + SamRam");
        }
        assert(r@ =~= spec_extension_parts(self.bits));
        r
    }
}

impl Default for Extensions {
    fn default() -> (r: Self)
        ensures r.bits == 0,
    {
        Extensions { bits: 0 }
    }
}

impl core::ops::BitOr for Extensions {
    type Output = Extensions;

    fn bitor(self, rhs: Extensions) -> (r: Extensions) {
        Extensions { bits: self.bits | rhs.bits }
    }
}

impl vstd::std_specs::ops::BitOrSpecImpl for Extensions {
    open spec fn obeys_bitor_spec() -> bool {
        true
    }

    open spec fn bitor_req(self, rhs: Extensions) -> bool {
        true
    }

    open spec fn bitor_spec(self, rhs: Extensions) -> Extensions {
        Extensions { bits: self.bits | rhs.bits }
    }
}

impl core::ops::BitAnd for Extensions {
    type Output = Extensions;

    fn bitand(self, rhs: Extensions) -> (r: Extensions) {
        Extensions { bits: self.bits & rhs.bits }
    }
}

impl vstd::std_specs::ops::BitAndSpecImpl for Extensions {
    open spec fn obeys_bitand_spec() -> bool {
        true
    }

    open spec fn bitand_req(self, rhs: Extensions) -> bool {
        true
    }

    open spec fn bitand_spec(self, rhs: Extensions) -> Extensions {
        Extensions { bits: self.bits & rhs.bits }
    }
}

impl core::ops::Sub for Extensions {
    type Output = Extensions;

    fn sub(self, rhs: Extensions) -> (r: Extensions) {
        Extensions { bits: self.bits & !rhs.bits }
    }
}

impl vstd::std_specs::ops::SubSpecImpl for Extensions {
    open spec fn obeys_sub_spec() -> bool {
        true
    }

    open spec fn sub_req(self, rhs: Extensions) -> bool {
        true
    }

    open spec fn sub_spec(self, rhs: Extensions) -> Extensions {
        Extensions { bits: self.bits & !rhs.bits }
    }
}

impl core::ops::Not for Extensions {
    type Output = Extensions;

    fn not(self) -> (r: Extensions) {
        Extensions { bits: !self.bits & 0xFFFFFFFFFFFFFFFF }
    }
}

impl vstd::std_specs::ops::NotSpecImpl for Extensions {
    open spec fn obeys_not_spec() -> bool {
        true
    }

    open spec fn not_req(self) -> bool {
        true
    }

    open spec fn not_spec(self) -> Extensions {
        Extensions { bits: !self.bits & Extensions::spec_all_bits() }
    }
}

impl Clone for MemoryRange {
    fn clone(&self) -> (r: MemoryRange)
        ensures
            r == *self,
    {
        match self {
            MemoryRange::Rom(range) => MemoryRange::Rom(range.start..range.end),
            MemoryRange::Ram(range) => MemoryRange::Ram(range.start..range.end),
            MemoryRange::Interface1Rom => MemoryRange::Interface1Rom,
            MemoryRange::PlusDRom => MemoryRange::PlusDRom,
            MemoryRange::DiscipleRom => MemoryRange::DiscipleRom,
            MemoryRange::MultifaceRom => MemoryRange::MultifaceRom,
            MemoryRange::SamRamRom(range) => MemoryRange::SamRamRom(range.start..range.end),
        }
    }
}

/// Facts about the extension bits used when validating extensions.
proof fn lemma_extension_bits(bits: u64)
    by (bit_vector)
    ensures
        (bits & 0x08 != 0) ==> (bits & 0x08 == 0x08),
        0x08u64 | 0x01u64 | 0x02u64 | 0x04u64 == 0x0F,
        bits & 0 == 0,
{
}

/// The number of T-states of a single frame of each model.
pub open spec fn spec_frame_tstates(model: ComputerModel) -> i32 {
    match model {
        ComputerModel::SpectrumNTSC => 59136,
        ComputerModel::Spectrum16 | ComputerModel::Spectrum48 | ComputerModel::TimexTC2048
        | ComputerModel::TimexTC2068 | ComputerModel::TimexTS2068 => 69888,
        _ => 70908,
    }
}

/// The models with a ULA that reads the EAR input depending on the keyboard issue.
pub open spec fn spec_has_keyboard_issue(model: ComputerModel) -> bool {
    match model {
        ComputerModel::Spectrum16 | ComputerModel::Spectrum48 | ComputerModel::SpectrumNTSC
        | ComputerModel::Spectrum128 | ComputerModel::SpectrumPlus2 => true,
        _ => false,
    }
}

/// The extension bits that can not be used with `model`.
pub open spec fn spec_unsupported_extensions(model: ComputerModel) -> u64 {
    match model {
        ComputerModel::Spectrum128 | ComputerModel::SpectrumPlus2 | ComputerModel::SpectrumSE
        | ComputerModel::TimexTC2068 | ComputerModel::TimexTS2068 => 0x08,
        ComputerModel::SpectrumPlus2A | ComputerModel::SpectrumPlus3
        | ComputerModel::SpectrumPlus3e => 0x0F,
        _ => 0,
    }
}

impl ComputerModel {
    /// Returns the number of T-states of a single frame.
    pub fn frame_tstates(self) -> (r: i32)
        ensures
            r == spec_frame_tstates(self),
            59136 <= r <= 70908,
    {
        match self {
            ComputerModel::SpectrumNTSC => 59136,
            ComputerModel::Spectrum16 | ComputerModel::Spectrum48 | ComputerModel::TimexTC2048
            | ComputerModel::TimexTC2068 | ComputerModel::TimexTS2068 => 69888,
            ComputerModel::Spectrum128 | ComputerModel::SpectrumPlus2 | ComputerModel::SpectrumPlus2A
            | ComputerModel::SpectrumPlus3 | ComputerModel::SpectrumPlus3e
            | ComputerModel::SpectrumSE => 70908,
        }
    }

    /// Returns the keyboard issue mode that applies to this model: models without a
    /// keyboard issue always read the EAR input as clear.
    pub fn applicable_issue(self, issue: ReadEarMode) -> (r: ReadEarMode)
        ensures
            r == (if spec_has_keyboard_issue(self) { issue } else { ReadEarMode::Clear }),
    {
        match self {
            ComputerModel::Spectrum16 | ComputerModel::Spectrum48 | ComputerModel::SpectrumNTSC
            | ComputerModel::Spectrum128 | ComputerModel::SpectrumPlus2 => issue,
            _ => ReadEarMode::Clear,
        }
    }

    /// Checks if the extensions can be used with this model; returns the offending extensions if not.
    pub fn validate_extensions(self, ext: Extensions) -> (r: Result<(), Extensions>)
        ensures
            r == (if ext.bits & spec_unsupported_extensions(self) == 0 {
                Ok::<(), Extensions>(())
            } else {
                Err(Extensions { bits: ext.bits & spec_unsupported_extensions(self) })
            }),
    {
        proof {
            lemma_extension_bits(ext.bits);
        }
        match self {
            ComputerModel::Spectrum128 | ComputerModel::SpectrumPlus2 | ComputerModel::SpectrumSE
            | ComputerModel::TimexTC2068 | ComputerModel::TimexTS2068 => {
                if ext.intersects(Extensions::SAM_RAM()) {
                    Err(Extensions::SAM_RAM())
                } else {
                    Ok(())
                }
            },
            ComputerModel::SpectrumPlus2A | ComputerModel::SpectrumPlus3
            | ComputerModel::SpectrumPlus3e => {
                let unsupported = Extensions::SAM_RAM().union(Extensions::IF1()).union(
                    Extensions::PLUS_D(),
                ).union(Extensions::DISCIPLE());
                if ext.intersects(unsupported) {
                    Err(ext.intersection(unsupported))
                } else {
                    Ok(())
                }
            },
            _ => Ok(()),
        }
    }

    /// Returns the name of the model.
    pub fn as_str(self) -> (r: &'static str)
        ensures
            r@ == Self::spec_name(self)@,
    {
        match self {
            ComputerModel::Spectrum16 => "ZX Spectrum 16k",
            ComputerModel::Spectrum48 => "ZX Spectrum 48k",
            ComputerModel::SpectrumNTSC => "ZX Spectrum NTSC",
            ComputerModel::Spectrum128 => "ZX Spectrum 128k",
            ComputerModel::SpectrumPlus2 => "ZX Spectrum +2",
            ComputerModel::SpectrumPlus2A => "ZX Spectrum +2A",
            ComputerModel::SpectrumPlus3 => "ZX Spectrum +3",
            ComputerModel::SpectrumPlus3e => "ZX Spectrum +3e",
            ComputerModel::SpectrumSE => "ZX Spectrum SE",
            ComputerModel::TimexTC2048 => "Timex TC2048",
            ComputerModel::TimexTC2068 => "Timex TC2068",
            ComputerModel::TimexTS2068 => "Timex TS2068",
        }
    }

    /// The name of the model.
    pub open spec fn spec_name(self) -> &'static str {
        match self {
            ComputerModel::Spectrum16 => "ZX Spectrum 16k",
            ComputerModel::Spectrum48 => "ZX Spectrum 48k",
            ComputerModel::SpectrumNTSC => "ZX Spectrum NTSC",
            ComputerModel::Spectrum128 => "ZX Spectrum 128k",
            ComputerModel::SpectrumPlus2 => "ZX Spectrum +2",
            ComputerModel::SpectrumPlus2A => "ZX Spectrum +2A",
            ComputerModel::SpectrumPlus3 => "ZX Spectrum +3",
            ComputerModel::SpectrumPlus3e => "ZX Spectrum +3e",
            ComputerModel::SpectrumSE => "ZX Spectrum SE",
            ComputerModel::TimexTC2048 => "Timex TC2048",
            ComputerModel::TimexTC2068 => "Timex TC2068",
            ComputerModel::TimexTS2068 => "Timex TS2068",
        }
    }
}


/// The state of the Z80 CPU carried by the snapshots.
#[derive(Debug, Clone, Copy, PartialEq, Eq, Structural)]
pub struct CpuState {
    pub af: u16,
    pub bc: u16,
    pub de: u16,
    pub hl: u16,
    pub af_alt: u16,
    pub bc_alt: u16,
    pub de_alt: u16,
    pub hl_alt: u16,
    pub ix: u16,
    pub iy: u16,
    pub sp: u16,
    pub pc: u16,
    pub memptr: u16,
    pub i: u8,
    pub r: u8,
    pub iff1: bool,
    pub iff2: bool,
    pub im: InterruptMode,
    pub halt: bool,
    /// The last instruction was `EI`: an interrupt is not accepted before the next one.
    pub last_ei: bool,
    /// The last byte executed was a `0xDD` or `0xFD` prefix.
    pub after_prefix: bool,
}

/// The state of the CPU after a reset.
pub open spec fn spec_cpu_reset() -> CpuState {
    CpuState {
        af: 0xFFFF,
        bc: 0,
        de: 0,
        hl: 0,
        af_alt: 0xFFFF,
        bc_alt: 0,
        de_alt: 0,
        hl_alt: 0,
        ix: 0,
        iy: 0,
        sp: 0xFFFF,
        pc: 0,
        memptr: 0,
        i: 0,
        r: 0,
        iff1: false,
        iff2: false,
        im: InterruptMode::Mode0,
        halt: false,
        last_ei: false,
        after_prefix: false,
    }
}

impl CpuState {
    /// The state of the CPU after a reset: `AF`, `AF'` and `SP` all ones, the other registers
    /// zero, interrupts disabled in mode 0.
    pub fn reset() -> (r: CpuState)
        ensures r == spec_cpu_reset(),
    {
        CpuState {
            af: 0xFFFF,
            bc: 0,
            de: 0,
            hl: 0,
            af_alt: 0xFFFF,
            bc_alt: 0,
            de_alt: 0,
            hl_alt: 0,
            ix: 0,
            iy: 0,
            sp: 0xFFFF,
            pc: 0,
            memptr: 0,
            i: 0,
            r: 0,
            iff1: false,
            iff2: false,
            im: InterruptMode::Mode0,
            halt: false,
            last_ei: false,
            after_prefix: false,
        }
    }

    /// The accumulator.
    pub fn acc(&self) -> (r: u8)
        ensures r == self.af / 256,
    {
        (self.af / 256) as u8
    }

    /// The flags.
    pub fn flags(&self) -> (r: u8)
        ensures r == self.af % 256,
    {
        (self.af % 256) as u8
    }
}

impl Default for CpuState {
    fn default() -> (r: Self)
        ensures r == spec_cpu_reset(),
    {
        CpuState::reset()
    }
}

/// The CPU of the emulated computer, by its variant.
#[non_exhaustive]
#[derive(Debug, Clone, Copy, PartialEq, Eq, Structural)]
pub enum CpuModel {
    NMOS(CpuState),
    CMOS(CpuState),
    BM1(CpuState),
}

impl CpuModel {
    /// The state of the CPU, whatever its variant.
    pub open spec fn spec_state(self) -> CpuState {
        match self {
            CpuModel::NMOS(c) => c,
            CpuModel::CMOS(c) => c,
            CpuModel::BM1(c) => c,
        }
    }

    /// Returns the state of the CPU, whatever its variant.
    pub fn state(&self) -> (r: CpuState)
        ensures
            r == self.spec_state(),
    {
        match *self {
            CpuModel::NMOS(c) => c,
            CpuModel::CMOS(c) => c,
            CpuModel::BM1(c) => c,
        }
    }
}

/// Returns `true` if a `cpu` is safe for a snapshot using lossy formats: it is not between a
/// `0xDD` or `0xFD` prefix and the instruction it prefixes.
pub fn is_cpu_safe_for_snapshot(cpu: &CpuState) -> (r: bool)
    ensures r == !cpu.after_prefix,
{
    !cpu.after_prefix
}

/// The flags of what a snapshot could not hold of the emulated computer.
#[derive(Debug, Clone, Copy, PartialEq, Eq, Hash, Structural)]
pub struct SnapshotResult {
    /// The raw bits of the flags.
    pub bits: u64,
}

impl SnapshotResult {
    /// Everything was saved.
    #[allow(non_snake_case)]
    pub fn OK() -> (r: Self)
        ensures r.bits == 0,
    {
        SnapshotResult { bits: 0 }
    }
    /// The computer model is not supported.
    #[allow(non_snake_case)]
    pub fn MODEL_NSUP() -> (r: Self)
        ensures r.bits == 0x0000_0001,
    {
        SnapshotResult { bits: 0x0000_0001 }
    }
    /// Some of the extensions are not supported.
    #[allow(non_snake_case)]
    pub fn EXTENSTION_NSUP() -> (r: Self)
        ensures r.bits == 0x0000_0010,
    {
        SnapshotResult { bits: 0x0000_0010 }
    }
    /// The CPU model is not supported.
    #[allow(non_snake_case)]
    pub fn CPU_MODEL_NSUP() -> (r: Self)
        ensures r.bits == 0x0000_0100,
    {
        SnapshotResult { bits: 0x0000_0100 }
    }
    /// The joystick is not supported.
    #[allow(non_snake_case)]
    pub fn JOYSTICK_NSUP() -> (r: Self)
        ensures r.bits == 0x0000_1000,
    {
        SnapshotResult { bits: 0x0000_1000 }
    }
    /// The sound chip is not supported.
    #[allow(non_snake_case)]
    pub fn SOUND_CHIP_NSUP() -> (r: Self)
        ensures r.bits == 0x0001_0000,
    {
        SnapshotResult { bits: 0x0001_0000 }
    }
    /// The keyboard issue is not supported.
    #[allow(non_snake_case)]
    pub fn KEYB_ISSUE_NSUP() -> (r: Self)
        ensures r.bits == 0x0010_0000,
    {
        SnapshotResult { bits: 0x0010_0000 }
    }
    /// Returns the raw bits of the flags.
    pub fn bits(&self) -> (r: u64)
        ensures r == self.bits,
    {
        self.bits
    }
    /// Sets every bit of `other` in `self`.
    pub fn insert(&mut self, other: Self)
        ensures final(self).bits == old(self).bits | other.bits,
    {
        self.bits = self.bits | other.bits;
    }
    /// Returns `true` if every bit of `other` is also set in `self`.
    pub fn contains(&self, other: Self) -> (r: bool)
        ensures r == (self.bits & other.bits == other.bits),
    {
        self.bits & other.bits == other.bits
    }
    /// Returns `true` if any bit of `other` is also set in `self`.
    pub fn intersects(&self, other: Self) -> (r: bool)
        ensures r == (self.bits & other.bits != 0),
    {
        self.bits & other.bits != 0
    }
    /// Returns `true` if no bit is set.
    pub fn is_empty(&self) -> (r: bool)
        ensures r == (self.bits == 0),
    {
        self.bits == 0
    }
}

impl Default for SnapshotResult {
    fn default() -> (r: Self)
        ensures r.bits == 0,
    {
        SnapshotResult { bits: 0 }
    }
}

/// The interface of an emulated computer for saving its state into a snapshot.
pub trait SnapshotCreator {
    /// The model of the computer.
    fn model(&self) -> ComputerModel;
    /// The extensions attached to the computer.
    fn extensions(&self) -> Extensions;
    /// The state of the CPU.
    fn cpu(&self) -> CpuModel;
    /// The value of the T-state counter.
    fn current_clock(&self) -> i32;
    /// The border colour.
    fn border_color(&self) -> BorderColor;
    /// The keyboard issue.
    fn issue(&self) -> ReadEarMode;
    /// The memory at `range`.
    fn memory_ref(&self, range: MemoryRange) -> Result<&[u8], ZxMemoryError>;
    /// The joystick attached, if any.
    fn joystick(&self) -> (r: Option<JoystickModel>)
        default_ensures
            r is None,
    {
        None
    }
    /// The register selected and the values of the registers of the sound chip `choice`, if
    /// it is attached.
    fn ay_state(&self, choice: Ay3_891xDevice) -> (r: Option<(AyRegister, &[u8; 16])>)
        default_ensures
            r is None,
    {
        None
    }
    /// The memory paging flags of the 128k computers.
    fn ula128_flags(&self) -> Ula128MemFlags;
    /// The control flags of the +3 computers.
    fn ula3_flags(&self) -> Ula3CtrlFlags;
    /// The control flags of the Timex computers.
    fn timex_flags(&self) -> ScldCtrlFlags;
    /// The memory banks paged in on the Timex computers.
    fn timex_memory_banks(&self) -> u8;
    /// Whether the ROM of the ZX Interface 1 is paged in.
    fn is_interface1_rom_paged_in(&self) -> bool;
    /// Whether the ROM of the MGT +D is paged in.
    fn is_plus_d_rom_paged_in(&self) -> bool;
    /// Whether the ROM of the DISCiPLE is paged in.
    fn is_disciple_rom_paged_in(&self) -> bool;
    /// Whether the TR-DOS ROM is paged in.
    fn is_tr_dos_rom_paged_in(&self) -> bool;
}

/// The interface of an emulated computer for restoring its state from a snapshot.
pub trait SnapshotLoader {
    /// The error of selecting a model.
    type Error: core::fmt::Display;
    /// Selects the model of the computer, with its extensions, border colour and keyboard issue.
    fn select_model(
        &mut self,
        model: ComputerModel,
        extensions: Extensions,
        border: BorderColor,
        issue: ReadEarMode,
    ) -> Result<(), Self::Error>;
    /// Reads the memory at `range` from `reader`.
    fn read_into_memory<R: std::io::Read>(&mut self, range: MemoryRange, reader: R) -> Result<(), ZxMemoryError>;
    /// Sets the state of the CPU.
    fn assign_cpu(&mut self, cpu: CpuModel);
    /// Sets the T-state counter.
    fn set_clock(&mut self, tstates: i32);
    /// Writes `data` to `port`.
    fn write_port(&mut self, port: u16, data: u8);
    /// Attaches the joystick `joystick`.
    fn select_joystick(&mut self, joystick: JoystickModel) {
    }
    /// Attaches the sound chip `choice` with the register selected and the values of the registers.
    fn setup_ay(&mut self, choice: Ay3_891xDevice, reg_selected: AyRegister, reg_values: &[u8; 16]) {
    }
    /// Pages in the ROM of the ZX Interface 1.
    fn interface1_rom_paged_in(&mut self);
    /// Pages in the ROM of the MGT +D.
    fn plus_d_rom_paged_in(&mut self);
    /// Pages in the TR-DOS ROM.
    fn tr_dos_rom_paged_in(&mut self);
}

} // verus!
