//! Saving the state of an emulated computer into **Z80** snapshots.
use vstd::prelude::*;

use crate::chip::flags::ReadEarMode;
use crate::formats::sna::{le_bytes, spec_le16, spec_le_bytes};
use crate::formats::snapshot::{
    is_cpu_safe_for_snapshot, spec_cpu_reset, spec_unsupported_extensions, Ay3_891xDevice, ComputerModel, CpuModel, CpuState, Extensions,
    InterruptMode, JoystickModel, MemoryRange, SnapshotCreator, SnapshotResult,
};
use crate::formats::stream::{concat_strs, flush, new_io_error, write_all, IoErrorKind};
use crate::formats::z80::compress::{compress, compress_repeat_write_all, compress_write_all, spec_compress};
use crate::formats::z80::decompress::spec_decompress;
use crate::formats::z80::loader::{spec_is_128_family, spec_is_timex, spec_mem_block, spec_mem_block_cut, MemBlock};
use crate::formats::z80::lemma_decompress_compressed;
use crate::formats::z80::common::{cycles_to_z80, HeaderEx, MEMORY_V1_TERM};
use crate::formats::z80::common::{
    spec_interrupt_mode_bits, spec_joystick_code, Flags1, Flags2, Header, Z80Version,
};
use crate::formats::z80::loader::{spec_flags1_bits, spec_flags2_interrupt_mode, spec_hw_model, spec_z80_cpu};
use crate::video::{spec_border_value, BorderColor};

verus! {

/// The flags byte 12 of a **Z80** header of `version`: memory compressed for version 1, the
/// border colour, and bit 7 of the refresh register `r`.
pub open spec fn spec_header_flags1(version: Z80Version, r: u8, border: BorderColor) -> u8 {
    let base: u8 = if version == Z80Version::V1 { 0x20 } else { 0 };
    let b = (base & 0b0011_0001) | (spec_border_value(border) << 1);
    if r & 0x80 != 0 { b | 1 } else { b & !1u8 }
}

/// The flags byte 29 of a **Z80** header: the interrupt mode, the issue 2 emulation, and the
/// joystick when the format has a code for it.
pub open spec fn spec_header_flags2(im: InterruptMode, issue: ReadEarMode, joystick: Option<JoystickModel>) -> u8 {
    let f0 = (0u8 & 0xFC) | spec_interrupt_mode_bits(im);
    let f1 = if issue == ReadEarMode::Issue2 { f0 | 4 } else { f0 & !4u8 };
    match joystick {
        Some(joy) => match spec_joystick_code(joy) {
            Some(code) => (f1 & !0xC0u8) | (code << 6),
            None => f1,
        },
        None => f1,
    }
}

/// Whether a **Z80** header holds the joystick: there is one and the format has a code for it.
pub open spec fn spec_joystick_saved(joystick: Option<JoystickModel>) -> bool {
    joystick matches Some(joy) && spec_joystick_code(joy) is Some
}

/// The **Z80** header of `version` that holds the state of `cpu`, the `border` colour, the
/// keyboard `issue` and the `joystick`; versions 2 and 3 keep the program counter in the
/// extended header.
pub open spec fn spec_z80_header(
    version: Z80Version,
    cpu: CpuState,
    border: BorderColor,
    issue: ReadEarMode,
    joystick: Option<JoystickModel>,
) -> Header {
    Header {
        a: (cpu.af / 256) as u8,
        f: (cpu.af % 256) as u8,
        bc: spec_le_bytes(cpu.bc),
        hl: spec_le_bytes(cpu.hl),
        pc: spec_le_bytes(if version == Z80Version::V1 { cpu.pc } else { 0 }),
        sp: spec_le_bytes(cpu.sp),
        i: cpu.i,
        r7: cpu.r & 0x7F,
        flags1: spec_header_flags1(version, cpu.r, border),
        de: spec_le_bytes(cpu.de),
        bc_alt: spec_le_bytes(cpu.bc_alt),
        de_alt: spec_le_bytes(cpu.de_alt),
        hl_alt: spec_le_bytes(cpu.hl_alt),
        a_alt: (cpu.af_alt / 256) as u8,
        f_alt: (cpu.af_alt % 256) as u8,
        iy: spec_le_bytes(cpu.iy),
        ix: spec_le_bytes(cpu.ix),
        iff1: if cpu.iff1 { 0xFF } else { 0 },
        iff2: if cpu.iff2 { 0xFF } else { 0 },
        flags2: spec_header_flags2(cpu.im, issue, joystick),
    }
}

/// Returns the **Z80** header of `version` that holds the state of `cpu`, the `border`
/// colour, the keyboard `issue` and the `joystick`, and whether the joystick could not be
/// saved: when there is none, or the format has no code for it.
pub fn init_z80_header(
    version: Z80Version,
    cpu: &CpuState,
    border: BorderColor,
    issue: ReadEarMode,
    joystick: Option<JoystickModel>,
) -> (r: (Header, bool))
    ensures
        r.0 == spec_z80_header(version, *cpu, border, issue, joystick),
        r.1 == !spec_joystick_saved(joystick),
{
    let flags1 = if version == Z80Version::V1 {
        Flags1::MEM_COMPRESSED()
    } else {
        Flags1::empty()
    }.with_border_color(border).with_refresh_high_bit(cpu.r);
    let mut flags2 = Flags2::empty().with_interrupt_mode(cpu.im).with_issue2_emulation(issue);
    let joystick_nsup = match joystick {
        Some(joy) => !flags2.insert_joystick_model(joy),
        None => true,
    };
    let header = Header {
        a: (cpu.af / 256) as u8,
        f: (cpu.af % 256) as u8,
        bc: le_bytes(cpu.bc),
        hl: le_bytes(cpu.hl),
        pc: le_bytes(if version == Z80Version::V1 { cpu.pc } else { 0 }),
        sp: le_bytes(cpu.sp),
        i: cpu.i,
        r7: cpu.r & 0x7F,
        flags1: flags1.bits(),
        de: le_bytes(cpu.de),
        bc_alt: le_bytes(cpu.bc_alt),
        de_alt: le_bytes(cpu.de_alt),
        hl_alt: le_bytes(cpu.hl_alt),
        a_alt: (cpu.af_alt / 256) as u8,
        f_alt: (cpu.af_alt % 256) as u8,
        iy: le_bytes(cpu.iy),
        ix: le_bytes(cpu.ix),
        iff1: if cpu.iff1 { 0xFF } else { 0 },
        iff2: if cpu.iff2 { 0xFF } else { 0 },
        flags2: flags2.bits(),
    };
    (header, joystick_nsup)
}

/// Facts about the bits of the flag bytes a **Z80** header is written with.
proof fn lemma_header_flag_bits(r: u8, v: u8, base: u8, m: u8, c: u8)
    by (bit_vector)
    requires
        v < 8,
        base == 0 || base == 0x20,
        m < 3,
        c < 4,
    ensures
        ((if r & 0x80 != 0 { ((base & 0x31) | (v << 1)) | 1 } else { ((base & 0x31) | (v << 1)) & !1u8 })) != 0xFF,
        ((r & 0x7F) & 0x7F) | ((((if r & 0x80 != 0 { ((base & 0x31) | (v << 1)) | 1 } else { ((base & 0x31) | (v << 1)) & !1u8 })) & 0x3F & 1) << 7) == r,
        ((0u8 & 0xFC) | m) | 4 == (m | 4),
        (m | 4) & 3 == m,
        (m & !4u8) & 3 == m,
        (((m | 4) & !0xC0u8) | (c << 6)) & 3 == m,
        (((m & !4u8) & !0xC0u8) | (c << 6)) & 3 == m,
        (0u8 & 0xFC) | m == m,
{
}

/// The state of a CPU written into a **Z80** header is read back from it: its registers,
/// interrupt flip-flops and mode, with the program counter for version 1 (versions 2 and 3
/// keep it in the extended header); the header holds nothing of the rest of the state.
pub proof fn lemma_z80_header_round_trip(
    version: Z80Version,
    cpu: CpuState,
    border: BorderColor,
    issue: ReadEarMode,
    joystick: Option<JoystickModel>,
)
    ensures
        spec_flags2_interrupt_mode(spec_z80_header(version, cpu, border, issue, joystick).flags2) is Some,
        spec_z80_cpu(spec_z80_header(version, cpu, border, issue, joystick)) == (CpuState {
            pc: if version == Z80Version::V1 { cpu.pc } else { 0 },
            memptr: 0,
            halt: false,
            last_ei: false,
            after_prefix: false,
            ..cpu
        }),
{
    let h = spec_z80_header(version, cpu, border, issue, joystick);
    let base: u8 = if version == Z80Version::V1 { 0x20 } else { 0 };
    let m = spec_interrupt_mode_bits(cpu.im);
    let c: u8 = match joystick {
        Some(joy) => match spec_joystick_code(joy) {
            Some(code) => code,
            None => 0,
        },
        None => 0,
    };
    lemma_header_flag_bits(cpu.r, spec_border_value(border), base, m, c);
    assert(spec_flags1_bits(h.flags1) == h.flags1 & 0x3F);
    assert(h.flags2 & 3 == m);
}

/// The ROMs of the extensions of a computer that are paged in: each one only when the computer
/// has that extension.
#[derive(Clone, Copy, Debug, PartialEq, Eq, Structural)]
pub struct PagedRoms {
    pub if1: bool,
    pub plus_d: bool,
    pub disciple: bool,
    pub tr_dos: bool,
}

/// The hardware mode of a **Z80** V2 file and whether the hardware is the modified one, for
/// `model` with the extension bits `ext`, or `None` when the file can't hold the computer: an
/// extension ROM of the MGT interfaces or TR-DOS paged in, the IF1 ROM paged in with both the
/// IF1 and the SamRam, the Spectrum SE, or a Timex computer with the IF1 ROM paged in.
pub open spec fn spec_hw_mode_v2(model: ComputerModel, ext: u64, roms: PagedRoms) -> Option<(u8, bool)> {
    let sam = ext & 8 != 0;
    let if1 = ext & 1 != 0;
    if roms.plus_d || roms.disciple || roms.tr_dos || (ext & 9 == 9 && roms.if1) {
        None
    } else {
        match model {
            ComputerModel::Spectrum16 => Some((if sam { 2u8 } else if if1 { 1u8 } else { 0u8 }, true)),
            ComputerModel::Spectrum48 | ComputerModel::SpectrumNTSC => Some(
                (if sam { 2u8 } else if if1 { 1u8 } else { 0u8 }, false),
            ),
            ComputerModel::Spectrum128 => Some((if if1 { 4u8 } else { 3u8 }, false)),
            ComputerModel::SpectrumPlus2 => Some((if if1 { 4u8 } else { 3u8 }, true)),
            ComputerModel::SpectrumPlus2A => Some((7u8, true)),
            ComputerModel::SpectrumPlus3 | ComputerModel::SpectrumPlus3e => Some((7u8, false)),
            ComputerModel::SpectrumSE => None,
            ComputerModel::TimexTC2048 => if if1 && roms.if1 { None } else { Some((14u8, false)) },
            ComputerModel::TimexTC2068 => if if1 && roms.if1 { None } else { Some((15u8, false)) },
            ComputerModel::TimexTS2068 => if if1 && roms.if1 { None } else { Some((128u8, false)) },
        }
    }
}

/// The flags of what a **Z80** V2 file can't hold of the model and of the extension bits
/// `ext`: extensions other than the IF1 and the SamRam, or both of them; the NTSC Spectrum and
/// the +3e.
pub open spec fn spec_hw_flags_v2(model: ComputerModel, ext: u64) -> u64 {
    spec_flag_if((ext & !9u64) != 0 || ext & 9 == 9, 0x10)
        | spec_flag_if(model == ComputerModel::SpectrumNTSC || model == ComputerModel::SpectrumPlus3e, 1)
}

/// The hardware mode of a **Z80** V3 file and whether the hardware is the modified one, for
/// `model` with the extension bits `ext`, or `None` when the file can't hold the computer: the
/// TR-DOS ROM paged in, the IF1 ROM paged in with both the IF1 and the SamRam, the Spectrum SE,
/// or a Timex computer with an extension ROM paged in.
pub open spec fn spec_hw_mode_v3(model: ComputerModel, ext: u64, roms: PagedRoms) -> Option<(u8, bool)> {
    let sam = ext & 8 != 0;
    let if1 = ext & 1 != 0;
    let mgt = ext & 6 != 0;
    let timex_ok = !roms.if1 && !roms.plus_d && !roms.disciple;
    if roms.tr_dos || (ext & 9 == 9 && roms.if1) {
        None
    } else {
        match model {
            ComputerModel::Spectrum16 => Some(
                (if sam { 2u8 } else if if1 { 1u8 } else if mgt { 3u8 } else { 0u8 }, true),
            ),
            ComputerModel::Spectrum48 | ComputerModel::SpectrumNTSC => Some(
                (if sam { 2u8 } else if if1 { 1u8 } else if mgt { 3u8 } else { 0u8 }, false),
            ),
            ComputerModel::Spectrum128 => Some((if if1 { 5u8 } else if mgt { 6u8 } else { 4u8 }, false)),
            ComputerModel::SpectrumPlus2 => Some((if if1 { 5u8 } else if mgt { 6u8 } else { 4u8 }, true)),
            ComputerModel::SpectrumPlus2A => Some((7u8, true)),
            ComputerModel::SpectrumPlus3 | ComputerModel::SpectrumPlus3e => Some((7u8, false)),
            ComputerModel::SpectrumSE => None,
            ComputerModel::TimexTC2048 => if timex_ok { Some((14u8, false)) } else { None },
            ComputerModel::TimexTC2068 => if timex_ok { Some((15u8, false)) } else { None },
            ComputerModel::TimexTS2068 => if timex_ok { Some((128u8, false)) } else { None },
        }
    }
}

/// The model a **Z80** file keeps of a computer of `model`: the NTSC Spectrum is kept as a 48k
/// one and the +3e as a +3.
pub open spec fn spec_z80_kept_model(model: ComputerModel) -> ComputerModel {
    match model {
        ComputerModel::SpectrumNTSC => ComputerModel::Spectrum48,
        ComputerModel::SpectrumPlus3e => ComputerModel::SpectrumPlus3,
        _ => model,
    }
}

/// The hardware mode a **Z80** file of version 2 (or 3, when `v3`) is saved with for a computer
/// of `model` with the extension bits `ext` (IF1 = 1, +D = 2, DISCiPLE = 4, SamRam = 8) and the
/// ROMs `roms` paged in, is read back as the same computer (see [spec_z80_kept_model]; the
/// SamRam mode names a 48k machine, so a 16k one with the SamRam comes back as a 48k one, and the
/// modes with the IF1 or the MGT interface name a 128k machine, so a +2 with one comes back as a
/// 128k one), with the
/// extensions the file keeps: on a 16k or 48k machine the SamRam, else the IF1, else (version 3)
/// the MGT interface, the +D when the file names it (it does when the computer has one), else the
/// DISCiPLE; on a 128k or +2 the IF1, else (version 3) the MGT interface; none on the others.
pub proof fn lemma_hw_mode_read_back(v3: bool, model: ComputerModel, ext: u64, roms: PagedRoms)
    requires
        (if v3 { spec_hw_mode_v3(model, ext, roms) } else { spec_hw_mode_v2(model, ext, roms) }) is Some,
    ensures
        ({
            let (mode, alt) = (if v3 { spec_hw_mode_v3(model, ext, roms) } else { spec_hw_mode_v2(model, ext, roms) })->0;
            let version = if v3 { Z80Version::V3 } else { Z80Version::V2 };
            let mgt_type: u8 = if ext & 2 != 0 { 16 } else { 0 };
            let mgt_ext: u64 = if ext & 2 != 0 { 2 } else { 4 };
            let kept: u64 = match model {
                ComputerModel::Spectrum16 | ComputerModel::Spectrum48 | ComputerModel::SpectrumNTSC =>
                    if ext & 8 != 0 { 8 } else if ext & 1 != 0 { 1 } else if v3 && ext & 6 != 0 { mgt_ext } else { 0 },
                ComputerModel::Spectrum128 | ComputerModel::SpectrumPlus2 =>
                    if ext & 1 != 0 { 1 } else if v3 && ext & 6 != 0 { mgt_ext } else { 0 },
                _ => 0,
            };
            let kept_model = if model == ComputerModel::Spectrum16 && ext & 8 != 0 {
                ComputerModel::Spectrum48
            } else if model == ComputerModel::SpectrumPlus2 && (ext & 1 != 0 || (v3 && ext & 6 != 0)) {
                ComputerModel::Spectrum128
            } else {
                spec_z80_kept_model(model)
            };
            spec_hw_model(mode, version, alt, mgt_type) == Some((kept_model, kept))
        }),
{
}

/// The flags of what a **Z80** V3 file can't hold of the model and of the extension bits
/// `ext`: both the IF1 and the SamRam; the NTSC Spectrum and the +3e.
pub open spec fn spec_hw_flags_v3(model: ComputerModel, ext: u64) -> u64 {
    spec_flag_if(ext & 9 == 9, 0x10)
        | spec_flag_if(model == ComputerModel::SpectrumNTSC || model == ComputerModel::SpectrumPlus3e, 1)
}

/// `bit` when `c` holds, else no bit.
pub open spec fn spec_flag_if(c: bool, bit: u64) -> u64 {
    if c { bit } else { 0 }
}

fn flag_if(c: bool, bit: u64) -> (r: u64)
    ensures
        r == spec_flag_if(c, bit),
{
    if c { bit } else { 0 }
}

/// Returns the hardware mode of a **Z80** file of version 2 (or 3, when `v3`) and whether the
/// hardware is the modified one, and adds to `result` what the file can't hold.
///
/// # Errors
/// `InvalidInput` when the file can't hold the computer.
pub fn select_hw_mode(
    v3: bool,
    model: ComputerModel,
    ext: Extensions,
    roms: PagedRoms,
    result: &mut SnapshotResult,
) -> (r: Result<(u8, bool), std::io::Error>)
    ensures
        (if v3 { spec_hw_mode_v3(model, ext.bits, roms) } else { spec_hw_mode_v2(model, ext.bits, roms) }) matches Some(m)
            ==> r matches Ok(res) && res == m,
        (if v3 { spec_hw_mode_v3(model, ext.bits, roms) } else { spec_hw_mode_v2(model, ext.bits, roms) }) is None
            ==> r is Err,
        r is Ok ==> final(result).bits == old(result).bits | (if v3 { spec_hw_flags_v3(model, ext.bits) } else {
            spec_hw_flags_v2(model, ext.bits)
        }),
{
    let bits = ext.bits;
    let sam = bits & 8 != 0;
    let if1 = bits & 1 != 0;
    let mgt = bits & 6 != 0;
    let both = bits & 9 == 9;
    if (!v3 && (roms.plus_d || roms.disciple)) || roms.tr_dos || (both && roms.if1) {
        return Err(new_io_error(IoErrorKind::InvalidInput, "Z80: can't create a snapshot with the external ROM paged in"));
    }
    let small: u8 = if sam { 2 } else if if1 { 1 } else if v3 && mgt { 3 } else { 0 };
    let big: u8 = if v3 {
        if if1 { 5 } else if mgt { 6 } else { 4 }
    } else {
        if if1 { 4 } else { 3 }
    };
    let timex_ok = if v3 { !roms.if1 && !roms.plus_d && !roms.disciple } else { !(if1 && roms.if1) };
    let mode: (u8, bool) = match model {
        ComputerModel::Spectrum16 => (small, true),
        ComputerModel::Spectrum48 | ComputerModel::SpectrumNTSC => (small, false),
        ComputerModel::Spectrum128 => (big, false),
        ComputerModel::SpectrumPlus2 => (big, true),
        ComputerModel::SpectrumPlus2A => (7, true),
        ComputerModel::SpectrumPlus3 | ComputerModel::SpectrumPlus3e => (7, false),
        ComputerModel::SpectrumSE => {
            return Err(new_io_error(IoErrorKind::InvalidInput, "Z80: can't create a snapshot of SpectrumSE"));
        },
        ComputerModel::TimexTC2048 | ComputerModel::TimexTC2068 | ComputerModel::TimexTS2068 => {
            if !timex_ok {
                return Err(new_io_error(IoErrorKind::InvalidInput, "Z80: can't create a snapshot of Timex with extension ROM paged in"));
            }
            match model {
                ComputerModel::TimexTC2048 => (14, false),
                ComputerModel::TimexTC2068 => (15, false),
                _ => (128, false),
            }
        },
    };
    let ext_nsup = if v3 { both } else { (bits & !9u64) != 0 || both };
    let model_nsup = model == ComputerModel::SpectrumNTSC || model == ComputerModel::SpectrumPlus3e;
    result.bits = result.bits | (flag_if(ext_nsup, 0x10) | flag_if(model_nsup, 1));
    Ok(mode)
}

/// The sound chip whose registers a **Z80** V2/V3 file keeps, the bits it adds to the flags
/// byte 37, and whether a chip is left out: the 128k one before the others, which are then
/// left out; else the Fuller Box, the Melodik, or the Timex one.
pub open spec fn spec_ay_choice(ay128: bool, fuller: bool, melodik: bool) -> (Ay3_891xDevice, u8, bool) {
    if ay128 {
        (Ay3_891xDevice::Ay128k, 0, fuller || melodik)
    } else if fuller {
        (Ay3_891xDevice::FullerBox, 0x44, false)
    } else if melodik {
        (Ay3_891xDevice::Melodik, 0x04, false)
    } else {
        (Ay3_891xDevice::Timex, 0, false)
    }
}

/// Returns the sound chip whose registers a **Z80** V2/V3 file keeps, when the 128k one, the
/// Fuller Box and the Melodik are attached as the arguments say.
pub fn ay_choice(ay128: bool, fuller: bool, melodik: bool) -> (r: (Ay3_891xDevice, u8, bool))
    ensures
        r == spec_ay_choice(ay128, fuller, melodik),
{
    if ay128 {
        (Ay3_891xDevice::Ay128k, 0, fuller || melodik)
    } else if fuller {
        (Ay3_891xDevice::FullerBox, 0x44, false)
    } else if melodik {
        (Ay3_891xDevice::Melodik, 0x04, false)
    } else {
        (Ay3_891xDevice::Timex, 0, false)
    }
}

/// The RAM banks a **Z80** V2/V3 file of `model` holds, each with its page number in the file:
/// the 16k of RAM of the Spectrum 16k, the 48k of the 48k ones, the 8 banks of the 128k ones.
pub open spec fn spec_z80_ram_pages(model: ComputerModel) -> Seq<(u8, usize)> {
    match model {
        ComputerModel::Spectrum16 => seq![(8u8, 0usize)],
        ComputerModel::Spectrum48 | ComputerModel::SpectrumNTSC | ComputerModel::TimexTC2048
        | ComputerModel::TimexTS2068 | ComputerModel::TimexTC2068 => seq![(8u8, 0usize), (4u8, 1usize), (5u8, 2usize)],
        ComputerModel::SpectrumSE => Seq::empty(),
        _ => Seq::new(8, |i: int| ((i + 3) as u8, i as usize)),
    }
}

/// Returns the RAM banks a **Z80** V2/V3 file of `model` holds, with their page numbers.
pub fn z80_ram_pages(model: ComputerModel) -> (r: Vec<(u8, usize)>)
    ensures
        r@ == spec_z80_ram_pages(model),
{
    let r: Vec<(u8, usize)> = match model {
        ComputerModel::Spectrum16 => vec![(8u8, 0usize)],
        ComputerModel::Spectrum48 | ComputerModel::SpectrumNTSC | ComputerModel::TimexTC2048
        | ComputerModel::TimexTS2068 | ComputerModel::TimexTC2068 => vec![(8u8, 0usize), (4u8, 1usize), (5u8, 2usize)],
        ComputerModel::SpectrumSE => Vec::new(),
        _ => {
            let mut v: Vec<(u8, usize)> = Vec::new();
            let mut i: usize = 0;
            while i < 8
                invariant
                    i <= 8,
                    v@ == Seq::new(i as nat, |j: int| ((j + 3) as u8, j as usize)),
                decreases 8 - i,
            {
                v.push(((i + 3) as u8, i));
                proof {
                    assert(v@ =~= Seq::new((i + 1) as nat, |j: int| ((j + 3) as u8, j as usize)));
                }
                i = i + 1;
            }
            v
        },
    };
    proof {
        if r@ != spec_z80_ram_pages(model) {
            assert(r@ =~= spec_z80_ram_pages(model));
        }
    }
    r
}

/// The bytes of a memory block of a **Z80** V2/V3 file holding `data` as the page `ptype`:
/// the compressed data after its length, or, when it would take `0xFFFF` bytes or more, the
/// data as it is after the length `0xFFFF`.
pub open spec fn spec_mem_block_bytes(ptype: u8, data: Seq<u8>) -> Seq<u8> {
    let c = spec_compress(data);
    if c.len() >= 0xFFFF {
        seq![0xFFu8, 0xFFu8, ptype] + data
    } else {
        seq![(c.len() % 256) as u8, (c.len() / 256) as u8, ptype] + c
    }
}

/// Returns the bytes of a memory block of a **Z80** V2/V3 file holding `data` as the page
/// `ptype`.
pub fn mem_block_bytes(ptype: u8, data: &[u8]) -> (r: Vec<u8>)
    requires
        data@.len() < usize::MAX,
    ensures
        r@ == spec_mem_block_bytes(ptype, data@),
{
    let c = compress(data);
    let mut r: Vec<u8>;
    if c.len() >= 0xFFFF {
        r = vec![0xFFu8, 0xFFu8, ptype];
        let mut i: usize = 0;
        while i < data.len()
            invariant
                i <= data@.len(),
                r@ == seq![0xFFu8, 0xFFu8, ptype] + data@.subrange(0, i as int),
            decreases data@.len() - i,
        {
            r.push(data[i]);
            proof {
                assert(data@.subrange(0, i + 1) =~= data@.subrange(0, i as int).push(data@[i as int]));
            }
            i = i + 1;
        }
        assert(data@.subrange(0, data@.len() as int) =~= data@);
    } else {
        let len = c.len();
        r = vec![(len % 256) as u8, (len / 256) as u8, ptype];
        let ghost head = r@;
        let mut i: usize = 0;
        while i < c.len()
            invariant
                i <= c@.len(),
                r@ == head + c@.subrange(0, i as int),
            decreases c@.len() - i,
        {
            r.push(c[i]);
            proof {
                assert(c@.subrange(0, i + 1) =~= c@.subrange(0, i as int).push(c@[i as int]));
            }
            i = i + 1;
        }
        assert(c@.subrange(0, c@.len() as int) =~= c@);
    }
    r
}

/// A RAM page written as a memory block of a **Z80** V2/V3 file is read back as that page:
/// the block is whole, takes all its bytes, has the page number it was written with, and its
/// bytes (decompressed when compressed) are the page.
pub proof fn lemma_mem_block_round_trip(ptype: u8, data: Seq<u8>)
    requires
        data.len() == 0x4000,
    ensures
        ({
            let b = spec_mem_block_bytes(ptype, data);
            let blk = spec_mem_block(b, 0);
            &&& !spec_mem_block_cut(b, 0)
            &&& blk.page == ptype
            &&& blk.start == 3
            &&& blk.end == b.len()
            &&& (if blk.compressed {
                spec_decompress(b.subrange(3, b.len() as int))
            } else {
                b.subrange(3, b.len() as int)
            }) == data
        }),
{
    let b = spec_mem_block_bytes(ptype, data);
    let c = spec_compress(data);
    lemma_decompress_compressed(data);
    if c.len() >= 0xFFFF {
        assert(b[0] == 0xFF && b[1] == 0xFF && b[2] == ptype);
        assert(b.subrange(3, b.len() as int) =~= data);
    } else {
        assert(b[0] == (c.len() % 256) as u8 && b[1] == (c.len() / 256) as u8 && b[2] == ptype);
        assert(b.subrange(3, b.len() as int) =~= c);
    }
}

/// Returns which extension ROMs of `snapshot` are paged in, asking only about the extensions it
/// has.
fn paged_roms<S: SnapshotCreator>(snapshot: &S, ext: Extensions) -> (r: PagedRoms)
    ensures
        r.if1 ==> ext.bits & 1 != 0,
        r.plus_d ==> ext.bits & 2 != 0,
        r.disciple ==> ext.bits & 4 != 0,
        r.tr_dos ==> ext.bits & 0x20 != 0,
{
    PagedRoms {
        if1: ext.intersects(Extensions::IF1()) && snapshot.is_interface1_rom_paged_in(),
        plus_d: ext.intersects(Extensions::PLUS_D()) && snapshot.is_plus_d_rom_paged_in(),
        disciple: ext.intersects(Extensions::DISCIPLE()) && snapshot.is_disciple_rom_paged_in(),
        tr_dos: ext.intersects(Extensions::TR_DOS()) && snapshot.is_tr_dos_rom_paged_in(),
    }
}

/// The state of the CPU of `cpu` as an `NMOS` one; adds to `result` that the CPU model is not
/// supported when it is another.
fn nmos_cpu_state(cpu: CpuModel, result: &mut SnapshotResult) -> (r: CpuState)
    ensures
        r == cpu.spec_state(),
        final(result).bits == old(result).bits | spec_flag_if(!(cpu is NMOS), 0x100),
{
    let nmos = match cpu {
        CpuModel::NMOS(_) => true,
        _ => false,
    };
    result.bits = result.bits | flag_if(!nmos, 0x100);
    cpu.state()
}

/// An error of the kind `InvalidInput` saying that `model` can't be saved with the extensions
/// `bad_ext`.
fn unsupported_extensions_error(model: ComputerModel, bad_ext: Extensions) -> (r: std::io::Error) {
    let mut parts: Vec<&str> = vec!["Z80: the model ", model.as_str(), " can't be saved with "];
    let names = bad_ext.display_parts();
    let mut i: usize = 0;
    while i < names.len()
        decreases names@.len() - i,
    {
        parts.push(names[i]);
        i = i + 1;
    }
    let msg = concat_strs(parts.as_slice());
    new_io_error(IoErrorKind::InvalidInput, msg.as_str())
}

/// Makes the extended header of a **Z80** V2 (or V3, when `v3`) file of `snapshot`, with the
/// program counter `pc`, and adds to `result` what the file can't hold.
fn init_z80_header_ex<S: SnapshotCreator>(
    v3: bool,
    pc: u16,
    model: ComputerModel,
    ext: Extensions,
    roms: PagedRoms,
    snapshot: &S,
    result: &mut SnapshotResult,
) -> (r: Result<HeaderEx, std::io::Error>)
    ensures
        r matches Ok(h) ==> h.pc == spec_le_bytes(pc) && Some((h.hw_mode, h.flags3 & 0x80 != 0)) == (if v3 {
            spec_hw_mode_v3(model, ext.bits, roms)
        } else {
            spec_hw_mode_v2(model, ext.bits, roms)
        }),
        r is Ok <==> (if v3 { spec_hw_mode_v3(model, ext.bits, roms) } else { spec_hw_mode_v2(model, ext.bits, roms) }) is Some,
        r matches Ok(h) ==> h.ts_lo == [0u8, 0u8] && h.ts_hi == 0 && h.flags4 == 0 && h.mgt_rom == 0 && h.mf_rom == 0
            && h.fn1 == 0 && h.fn2 == 0 && h.mgt_type == 0 && h.disciple1 == 0 && h.disciple2 == 0 && h.port2 == 0
            && (!spec_is_timex(model) ==> h.ifrom == (if roms.if1 { 0xFFu8 } else { 0u8 }))
            && (!spec_is_timex(model) && !spec_is_128_family(model) ==> h.port1 == 0),
{
    let (hw_mode, alt_hw) = match select_hw_mode(v3, model, ext, roms, result) {
        Ok(mode) => mode,
        Err(e) => return Err(e),
    };
    let ay128 = snapshot.ay_state(Ay3_891xDevice::Ay128k).is_some();
    let fuller = snapshot.ay_state(Ay3_891xDevice::FullerBox).is_some();
    let melodik = snapshot.ay_state(Ay3_891xDevice::Melodik).is_some();
    let (device, ay_flags, sound_nsup) = ay_choice(ay128, fuller, melodik);
    if sound_nsup {
        result.bits = result.bits | 0x0001_0000;
    }
    let flags3: u8 = (if alt_hw { 0x80u8 } else { 0u8 }) | ay_flags;
    proof {
        assert((0x80u8 | 0u8) & 0x80 != 0 && (0x80u8 | 0x44u8) & 0x80 != 0 && (0x80u8 | 0x04u8) & 0x80 != 0
            && (0u8 | 0u8) & 0x80 == 0 && (0u8 | 0x44u8) & 0x80 == 0 && (0u8 | 0x04u8) & 0x80 == 0) by (bit_vector);
    }
    let mut ay_sel_reg: u8 = 0;
    let mut ay_regs: [u8; 16] = [0u8; 16];
    match snapshot.ay_state(device) {
        Some((reg, regs)) => {
            ay_sel_reg = u8::from(reg);
            ay_regs = *regs;
        },
        None => {},
    }
    let is_timex = match model {
        ComputerModel::TimexTC2048 | ComputerModel::TimexTC2068 | ComputerModel::TimexTS2068 => true,
        _ => false,
    };
    let is_128 = match model {
        ComputerModel::Spectrum128 | ComputerModel::SpectrumPlus2 | ComputerModel::SpectrumPlus2A
        | ComputerModel::SpectrumPlus3 | ComputerModel::SpectrumPlus3e | ComputerModel::SpectrumSE => true,
        _ => false,
    };
    let port1: u8 = if is_128 {
        snapshot.ula128_flags().bits
    } else if is_timex {
        snapshot.timex_memory_banks()
    } else {
        0
    };
    let ifrom: u8 = if is_timex {
        if ext.intersects(Extensions::IF1().union(Extensions::PLUS_D()).union(Extensions::DISCIPLE())) {
            result.bits = result.bits | 0x10;
        }
        snapshot.timex_flags().bits
    } else if roms.if1 {
        0xFF
    } else {
        0
    };
    Ok(HeaderEx {
        pc: le_bytes(pc),
        hw_mode,
        port1,
        ifrom,
        flags3,
        ay_sel_reg,
        ay_regs,
        ts_lo: [0u8; 2],
        ts_hi: 0,
        flags4: 0,
        mgt_rom: 0,
        mf_rom: 0,
        fn1: 0,
        fn2: 0,
        joy_bindings: [0u8; 10],
        joy_ascii: [0u8; 10],
        mgt_type: 0,
        disciple1: 0,
        disciple2: 0,
        port2: 0,
    })
}

/// The length of the extended header of a **Z80** file: 23 bytes for version 2, 54 for
/// version 3, 55 when the port `0x1ffd` is saved.
pub open spec fn spec_header_ex_len(v3: bool, port2: u8) -> u16 {
    if !v3 { 23 } else if port2 != 0 { 55 } else { 54 }
}

/// Writes a **Z80** V2/V3 file of `snapshot`: the header, the extended header and the RAM of
/// `model` in memory blocks.
fn save_all_v2v3<S: SnapshotCreator, W: std::io::Write>(
    v3: bool,
    snapshot: &S,
    model: ComputerModel,
    header: &Header,
    head_ex: &HeaderEx,
    wr: W,
) -> (r: Result<(), std::io::Error>) {
    let mut wr = wr;
    match write_all(&mut wr, header.to_bytes().as_slice()) {
        Ok(()) => {},
        Err(e) => return Err(e),
    }
    let ex_len: u16 = if !v3 { 23 } else if head_ex.port2 != 0 { 55 } else { 54 };
    match write_all(&mut wr, le_bytes(ex_len).as_slice()) {
        Ok(()) => {},
        Err(e) => return Err(e),
    }
    let ex_bytes = head_ex.to_bytes();
    match write_all(&mut wr, vstd::slice::slice_subrange(ex_bytes.as_slice(), 0, ex_len as usize)) {
        Ok(()) => {},
        Err(e) => return Err(e),
    }
    let pages = z80_ram_pages(model);
    let mut i: usize = 0;
    while i < pages.len()
        invariant
            pages@ == spec_z80_ram_pages(model),
        decreases pages@.len() - i,
    {
        let (ptype, page) = pages[i];
        assert(page < 8);
        let mem = match snapshot.memory_ref(MemoryRange::Ram(page * 0x4000..(page + 1) * 0x4000)) {
            Ok(mem) => mem,
            Err(e) => return Err(e.into_io_error()),
        };
        if mem.len() == usize::MAX {
            return Err(new_io_error(IoErrorKind::InvalidData, "Z80: the memory page is too large"));
        }
        let block = mem_block_bytes(ptype, mem);
        match write_all(&mut wr, block.as_slice()) {
            Ok(()) => {},
            Err(e) => return Err(e),
        }
        i = i + 1;
    }
    flush(&mut wr)
}

/// The flags a **Z80** V1 file adds for `model`, or `None` when it can't hold the model: it
/// holds the Spectrum 48k, and the 16k, the NTSC one and the Timex TC2048 as if they were it.
pub open spec fn spec_z80v1_model_flags(model: ComputerModel) -> Option<u64> {
    match model {
        ComputerModel::Spectrum48 => Some(0),
        ComputerModel::Spectrum16 | ComputerModel::SpectrumNTSC | ComputerModel::TimexTC2048 => Some(1),
        _ => None,
    }
}

/// Returns the flags a **Z80** V1 file adds for `model`, or `None` when it can't hold the model.
pub fn z80v1_model_flags(model: ComputerModel) -> (r: Option<u64>)
    ensures
        r == spec_z80v1_model_flags(model),
{
    match model {
        ComputerModel::Spectrum48 => Some(0),
        ComputerModel::Spectrum16 | ComputerModel::SpectrumNTSC | ComputerModel::TimexTC2048 => Some(1),
        _ => None,
    }
}

/// A computer of `model`, with the extension bits `ext` and the extension ROMs `roms` paged in,
/// can be saved as a **Z80** V1 file: the file holds the model and its extensions, and no
/// extension ROM is paged in.
pub open spec fn spec_z80v1_savable(model: ComputerModel, ext: u64, roms: PagedRoms) -> bool {
    &&& spec_z80v1_model_flags(model) is Some
    &&& ext & spec_unsupported_extensions(model) == 0
    &&& !(roms.if1 || roms.plus_d || roms.disciple || roms.tr_dos)
}

/// The flags of what a **Z80** V1 file can't hold of a computer of `model` with the extension
/// bits `ext`: the model (see [spec_z80v1_model_flags]), the extensions when there are any, the
/// CPU unless `nmos`, a sound chip when `chip`, and the joystick when `joystick` can't be kept.
pub open spec fn spec_z80v1_flags(model: ComputerModel, ext: u64, nmos: bool, chip: bool, joystick: bool) -> u64 {
    spec_z80v1_model_flags(model)->0 | spec_flag_if(ext != 0, 0x10) | spec_flag_if(!nmos, 0x100)
        | spec_flag_if(chip, 0x0001_0000) | spec_flag_if(joystick, 0x1000)
}

/// A computer of `model`, with the extension bits `ext`, the extension ROMs `roms` paged in and
/// the CPU state `cpu`, can be saved as a **Z80** V2 file, or V3 when `v3`: the CPU is not
/// between a prefix and its instruction, the model can have its extensions, and the file has a
/// hardware mode for them.
pub open spec fn spec_z80_savable(v3: bool, model: ComputerModel, ext: u64, roms: PagedRoms, cpu: CpuState) -> bool {
    &&& !cpu.after_prefix
    &&& ext & spec_unsupported_extensions(model) == 0
    &&& (if v3 { spec_hw_mode_v3(model, ext, roms) } else { spec_hw_mode_v2(model, ext, roms) }) is Some
}

/// Saves a **Z80** file version 1 into `wr` from the provided reference to a `snapshot` struct
/// implementing [SnapshotCreator].
///
/// The flags returned say what the file could not hold: the model (see
/// [spec_z80v1_model_flags]), the extensions, the CPU unless it is an `NMOS` one, the joystick
/// (when there is none too), the sound chips.
///
/// # Errors
/// `InvalidInput` when the file can't hold the model, when the model can't have its extensions
/// or when an extension ROM is paged in; the errors of the snapshot and of the writer.
pub fn save_z80v1<C: SnapshotCreator, W: std::io::Write>(snapshot: &C, wr: W) -> (r: Result<SnapshotResult, std::io::Error>)
    ensures
        r matches Ok(res) ==> exists|model: ComputerModel, ext: u64, roms: PagedRoms, nmos: bool, chip: bool, joystick: bool|
            #[trigger] spec_z80v1_savable(model, ext, roms) && res.bits == #[trigger] spec_z80v1_flags(model, ext, nmos, chip, joystick),
{
    let mut wr = wr;
    let model = snapshot.model();
    let mut result = match z80v1_model_flags(model) {
        Some(bits) => SnapshotResult { bits },
        None => return Err(new_io_error(IoErrorKind::InvalidInput, "Z80: can't create a version 1 snapshot of this computer model")),
    };
    let extensions = snapshot.extensions();
    match model.validate_extensions(extensions) {
        Ok(()) => {},
        Err(bad_ext) => return Err(unsupported_extensions_error(model, bad_ext)),
    }
    let roms = paged_roms(snapshot, extensions);
    if roms.if1 || roms.plus_d || roms.disciple || roms.tr_dos {
        return Err(new_io_error(IoErrorKind::InvalidInput, "Z80: can't create a version 1 snapshot with the external ROM paged in"));
    }
    result.bits = result.bits | flag_if(extensions.bits != 0, 0x10);
    let cpu_model = snapshot.cpu();
    let cpu = nmos_cpu_state(cpu_model, &mut result);
    let border = snapshot.border_color();
    let issue = snapshot.issue();
    let joystick = snapshot.joystick();
    let chip = snapshot.ay_state(Ay3_891xDevice::Ay128k).is_some() || snapshot.ay_state(Ay3_891xDevice::Melodik).is_some()
        || snapshot.ay_state(Ay3_891xDevice::FullerBox).is_some() || snapshot.ay_state(Ay3_891xDevice::Timex).is_some();
    result.bits = result.bits | flag_if(chip, 0x0001_0000);
    let (header, joystick_nsup) = init_z80_header(Z80Version::V1, &cpu, border, issue, joystick);
    result.bits = result.bits | flag_if(joystick_nsup, 0x1000);
    assert(result.bits == spec_z80v1_flags(model, extensions.bits, cpu_model is NMOS, chip, joystick_nsup));
    match write_all(&mut wr, header.to_bytes().as_slice()) {
        Ok(()) => {},
        Err(e) => return Err(e),
    }
    let is_16k = model == ComputerModel::Spectrum16;
    let ramend: usize = if is_16k { 0x4000 } else { 0xC000 };
    let mem = match snapshot.memory_ref(MemoryRange::Ram(0..ramend)) {
        Ok(mem) => mem,
        Err(e) => return Err(e.into_io_error()),
    };
    if mem.len() == usize::MAX {
        return Err(new_io_error(IoErrorKind::InvalidData, "Z80: the memory is too large"));
    }
    match compress_write_all(mem, &mut wr) {
        Ok(()) => {},
        Err(e) => return Err(e),
    }
    if is_16k {
        match compress_repeat_write_all(0xFF, 0x8000, &mut wr) {
            Ok(()) => {},
            Err(e) => return Err(e),
        }
    }
    match write_all(&mut wr, MEMORY_V1_TERM.as_slice()) {
        Ok(()) => {},
        Err(e) => return Err(e),
    }
    match flush(&mut wr) {
        Ok(()) => {},
        Err(e) => return Err(e),
    }
    let r: Result<SnapshotResult, std::io::Error> = Ok(result);
    assert(r matches Ok(res) ==> spec_z80v1_savable(model, extensions.bits, roms)
        && res.bits == spec_z80v1_flags(model, extensions.bits, cpu_model is NMOS, chip, joystick_nsup));
    r
}

/// Saves a **Z80** file version 2 into `wr` from the provided reference to a `snapshot` struct
/// implementing [SnapshotCreator].
///
/// The flags returned say what the file could not hold: the CPU unless it is an `NMOS` one,
/// the joystick (when there is none too), the model and the extensions (see
/// [spec_hw_flags_v2]), the sound chips left out (see [spec_ay_choice]), and the extensions of
/// the Timex computers.
///
/// # Errors
/// `InvalidInput` when the CPU is between a prefix and its instruction, when the model can't
/// have its extensions, or when the file can't hold the computer (see [spec_hw_mode_v2]); the
/// errors of the snapshot and of the writer.
pub fn save_z80v2<C: SnapshotCreator, W: std::io::Write>(snapshot: &C, wr: W) -> (r: Result<SnapshotResult, std::io::Error>)
    ensures
        r is Ok ==> exists|model: ComputerModel, ext: u64, roms: PagedRoms, cpu: CpuState|
            #[trigger] spec_z80_savable(false, model, ext, roms, cpu),
{
    let mut result = SnapshotResult::OK();
    let model = snapshot.model();
    let ext = snapshot.extensions();
    let border = snapshot.border_color();
    let issue = snapshot.issue();
    let joystick = snapshot.joystick();
    let cpu = nmos_cpu_state(snapshot.cpu(), &mut result);
    if !is_cpu_safe_for_snapshot(&cpu) {
        return Err(new_io_error(IoErrorKind::InvalidInput, "Z80: can't safely snapshot the CPU state"));
    }
    match model.validate_extensions(ext) {
        Ok(()) => {},
        Err(bad_ext) => return Err(unsupported_extensions_error(model, bad_ext)),
    }
    let (header, joystick_nsup) = init_z80_header(Z80Version::V2, &cpu, border, issue, joystick);
    if joystick_nsup {
        result.bits = result.bits | 0x1000;
    }
    let roms = paged_roms(snapshot, ext);
    let head_ex = match init_z80_header_ex(false, cpu.pc, model, ext, roms, snapshot, &mut result) {
        Ok(h) => h,
        Err(e) => return Err(e),
    };
    match save_all_v2v3(false, snapshot, model, &header, &head_ex, wr) {
        Ok(()) => {},
        Err(e) => return Err(e),
    }
    let r: Result<SnapshotResult, std::io::Error> = Ok(result);
    assert(r is Ok ==> spec_z80_savable(false, model, ext.bits, roms, cpu));
    r
}

/// The joystick bindings a **Z80** V3 file keeps for the Sinclair 2 joystick.
pub const SINCLAIR2_JOY_BINDINGS: [u8; 10] = [3, 1, 3, 2, 3, 4, 3, 8, 3, 10];
/// The ASCII codes a **Z80** V3 file keeps for the Sinclair 2 joystick.
pub const SINCLAIR2_JOY_ASCII: [u8; 10] = [31, 0, 32, 0, 33, 0, 34, 0, 35, 0];

/// Saves a **Z80** file version 3 into `wr` from the provided reference to a `snapshot` struct
/// implementing [SnapshotCreator].
///
/// Beyond version 2 the file keeps the T-state counter, whether the MGT ROM is paged in, the
/// bindings of the Sinclair 2 joystick, the port `0x1ffd` of the +2A/+3 family, and the MGT
/// interface type.
///
/// # Errors
/// As [save_z80v2], with the rules of version 3 (see [spec_hw_mode_v3]).
pub fn save_z80v3<C: SnapshotCreator, W: std::io::Write>(snapshot: &C, wr: W) -> (r: Result<SnapshotResult, std::io::Error>)
    ensures
        r is Ok ==> exists|model: ComputerModel, ext: u64, roms: PagedRoms, cpu: CpuState|
            #[trigger] spec_z80_savable(true, model, ext, roms, cpu),
{
    let mut result = SnapshotResult::OK();
    let model = snapshot.model();
    let ext = snapshot.extensions();
    let border = snapshot.border_color();
    let issue = snapshot.issue();
    let joystick = snapshot.joystick();
    let cpu = nmos_cpu_state(snapshot.cpu(), &mut result);
    if !is_cpu_safe_for_snapshot(&cpu) {
        return Err(new_io_error(IoErrorKind::InvalidInput, "Z80: can't safely snapshot the CPU state"));
    }
    match model.validate_extensions(ext) {
        Ok(()) => {},
        Err(bad_ext) => return Err(unsupported_extensions_error(model, bad_ext)),
    }
    let (header, joystick_nsup) = init_z80_header(Z80Version::V3, &cpu, border, issue, joystick);
    if joystick_nsup {
        result.bits = result.bits | 0x1000;
    }
    let roms = paged_roms(snapshot, ext);
    let mut head_ex = match init_z80_header_ex(true, cpu.pc, model, ext, roms, snapshot, &mut result) {
        Ok(h) => h,
        Err(e) => return Err(e),
    };
    let (ts_lo, ts_hi) = cycles_to_z80(snapshot.current_clock(), model);
    head_ex.ts_lo = le_bytes(ts_lo);
    head_ex.ts_hi = ts_hi;
    if roms.plus_d || roms.disciple {
        head_ex.mgt_rom = 0xFF;
    }
    match joystick {
        Some(JoystickModel::Sinclair2) => {
            head_ex.joy_bindings = SINCLAIR2_JOY_BINDINGS;
            head_ex.joy_ascii = SINCLAIR2_JOY_ASCII;
        },
        _ => {},
    }
    match model {
        ComputerModel::SpectrumPlus2A | ComputerModel::SpectrumPlus3 | ComputerModel::SpectrumPlus3e => {
            head_ex.port2 = snapshot.ula3_flags().bits;
        },
        _ => {
            head_ex.fn1 = 0xFF;
            if !roms.plus_d {
                head_ex.fn2 = 0xFF;
            }
        },
    }
    if ext.intersects(Extensions::PLUS_D()) {
        head_ex.mgt_type = 16;
    }
    match save_all_v2v3(true, snapshot, model, &header, &head_ex, wr) {
        Ok(()) => {},
        Err(e) => return Err(e),
    }
    let r: Result<SnapshotResult, std::io::Error> = Ok(result);
    assert(r is Ok ==> spec_z80_savable(true, model, ext.bits, roms, cpu));
    r
}

} // verus!
