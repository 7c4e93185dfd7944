//! Loading **Z80** snapshots into an emulated computer.
use vstd::prelude::*;

use crate::chip::flags::ReadEarMode;
use crate::formats::sna::{le16, spec_le16};
use crate::formats::snapshot::{
    spec_cpu_reset, Ay3_891xDevice, ComputerModel, CpuModel, CpuState, Extensions, InterruptMode, MemoryRange,
    SnapshotLoader,
};
use crate::formats::stream::{new_io_error, other_io_error, read_exact, read_to_end, IoErrorKind};
use crate::formats::z80::common::z80_to_cycles;
use crate::peripherals::ay::AyRegister;
use crate::formats::z80::common::{
    load_header_ex, spec_header_bytes, spec_mem_header_info, Flags1, Flags2, Flags3, Header, HeaderEx,
    MemoryHeader, Z80Version, PAGE_SIZE,
};
use crate::formats::z80::decompress::{decompress_all, spec_decompress};

verus! {

/// The model and the extensions of a **Z80** V2/V3 file: by the hardware mode, the version,
/// whether the hardware is the modified one (`alt`: a 48k machine becomes a 16k one, a 128k
/// one a +2 and a +3 one a +2A) and the type of the MGT interface.
pub open spec fn spec_hw_model(hw_mode: u8, version: Z80Version, alt: bool, mgt_type: u8) -> Option<(ComputerModel, u64)> {
    let v2 = version == Z80Version::V2;
    let v3 = version == Z80Version::V3;
    if hw_mode == 0 {
        Some((if alt { ComputerModel::Spectrum16 } else { ComputerModel::Spectrum48 }, 0))
    } else if hw_mode == 1 {
        Some((if alt { ComputerModel::Spectrum16 } else { ComputerModel::Spectrum48 }, 1))
    } else if hw_mode == 2 {
        Some((ComputerModel::Spectrum48, 8))
    } else if (hw_mode == 3 && v2) || (hw_mode == 4 && v3) {
        Some((if alt { ComputerModel::SpectrumPlus2 } else { ComputerModel::Spectrum128 }, 0))
    } else if hw_mode == 3 && v3 {
        if mgt_type == 16 {
            Some((if alt { ComputerModel::Spectrum16 } else { ComputerModel::Spectrum48 }, 2))
        } else if mgt_type <= 1 {
            Some((if alt { ComputerModel::Spectrum16 } else { ComputerModel::Spectrum48 }, 4))
        } else {
            None
        }
    } else if (hw_mode == 4 && v2) || (hw_mode == 5 && v3) {
        Some((ComputerModel::Spectrum128, 1))
    } else if hw_mode == 6 && v3 {
        if mgt_type == 16 {
            Some((ComputerModel::Spectrum128, 2))
        } else if mgt_type <= 1 {
            Some((ComputerModel::Spectrum128, 4))
        } else {
            None
        }
    } else if hw_mode == 7 || hw_mode == 8 {
        Some((if alt { ComputerModel::SpectrumPlus2A } else { ComputerModel::SpectrumPlus3 }, 0))
    } else if hw_mode == 12 {
        Some((ComputerModel::SpectrumPlus2, 0))
    } else if hw_mode == 13 {
        Some((ComputerModel::SpectrumPlus2A, 0))
    } else if hw_mode == 14 {
        Some((ComputerModel::TimexTC2048, 0))
    } else if hw_mode == 15 {
        Some((ComputerModel::TimexTC2068, 0))
    } else if hw_mode == 128 {
        Some((ComputerModel::TimexTS2068, 0))
    } else {
        None
    }
}

/// The computers the hardware modes of **Z80** files name, by version. The extension bits are
/// those of [Extensions]: IF1 = 1, +D = 2, DISCiPLE = 4, SamRam = 8. The modified-hardware flag
/// (bit 7 of the third flags byte) turns a 48k machine into a 16k one and a 128k one into a +2.
/// Version 2: 0 is the 48k, 1 the 48k with the IF1, 2 the 48k with the SamRam, 3 the 128k, 4
/// the 128k with the IF1. Version 3: 0, 1 and 2 as version 2, 3 the 48k with the MGT interface
/// (the +D when its type is 16, the DISCiPLE when it is 0 or 1), 4 the 128k, 5 the 128k with the
/// IF1, 6 the 128k with the MGT interface. Both: 12 the +2, 13 the +2A, 14 the TC2048, 15 the
/// TC2068, 128 the TS2068, all without extensions; the Pentagon, Scorpion and Didaktik modes 9
/// to 11, and the modes not named, are not supported.
pub proof fn lemma_hw_mode_models(hw_mode: u8, flags3: u8, mgt_type: u8)
    ensures
        ({
            let alt = flags3 & 0x80 != 0;
            let small = if alt { ComputerModel::Spectrum16 } else { ComputerModel::Spectrum48 };
            let big = if alt { ComputerModel::SpectrumPlus2 } else { ComputerModel::Spectrum128 };
            let mgt: Option<u64> = if mgt_type == 16 { Some(2u64) } else if mgt_type <= 1 { Some(4u64) } else { None };
            let v2 = spec_hw_model(hw_mode, Z80Version::V2, alt, mgt_type);
            let v3 = spec_hw_model(hw_mode, Z80Version::V3, alt, mgt_type);
            &&& hw_mode == 0 ==> v2 == Some((small, 0u64)) && v3 == Some((small, 0u64))
            &&& hw_mode == 1 ==> v2 == Some((small, 1u64)) && v3 == Some((small, 1u64))
            &&& hw_mode == 2 ==> v2 == Some((ComputerModel::Spectrum48, 8u64)) && v3 == Some((ComputerModel::Spectrum48, 8u64))
            &&& hw_mode == 3 ==> v2 == Some((big, 0u64))
                && v3 == (match mgt { Some(e) => Some((small, e)), None => None })
            &&& hw_mode == 4 ==> v2 == Some((ComputerModel::Spectrum128, 1u64)) && v3 == Some((big, 0u64))
            &&& hw_mode == 5 ==> v3 == Some((ComputerModel::Spectrum128, 1u64))
            &&& hw_mode == 6 ==> v3 == (match mgt { Some(e) => Some((ComputerModel::Spectrum128, e)), None => None })
            &&& hw_mode == 12 ==> v2 == Some((ComputerModel::SpectrumPlus2, 0u64)) && v3 == v2
            &&& hw_mode == 13 ==> v2 == Some((ComputerModel::SpectrumPlus2A, 0u64)) && v3 == v2
            &&& hw_mode == 14 ==> v2 == Some((ComputerModel::TimexTC2048, 0u64)) && v3 == v2
            &&& hw_mode == 15 ==> v2 == Some((ComputerModel::TimexTC2068, 0u64)) && v3 == v2
            &&& hw_mode == 128 ==> v2 == Some((ComputerModel::TimexTS2068, 0u64)) && v3 == v2
            &&& (9 <= hw_mode <= 11 || (16 <= hw_mode && hw_mode != 128)) ==> v2 is None && v3 is None
        }),
{
}

/// The hardware modes 7 and 8 name the Spectrum +3 family: the +3 itself, or the +2A when the
/// modified-hardware flag (bit 7 of the third flags byte) is set; no extension comes with it.
pub proof fn lemma_hw_mode_plus3(hw_mode: u8, version: Z80Version, flags3: u8, mgt_type: u8)
    requires
        hw_mode == 7 || hw_mode == 8,
    ensures
        spec_hw_model(hw_mode, version, flags3 & 0x80 != 0, mgt_type) == Some((
            if flags3 & 0x80 == 0 { ComputerModel::SpectrumPlus3 } else { ComputerModel::SpectrumPlus2A },
            0u64,
        )),
{
}

/// Returns the model and the extensions of a **Z80** file of `version` with the extended
/// header `head_ex`, or `None` when the hardware it names is not supported.
pub fn select_hw_model(version: Z80Version, head_ex: &HeaderEx) -> (r: Option<(ComputerModel, Extensions)>)
    ensures
        match spec_hw_model(head_ex.hw_mode, version, head_ex.flags3 & 0x80 != 0, head_ex.mgt_type) {
            Some((model, bits)) => r matches Some((m, e)) && m == model && e.bits == bits,
            None => r is None,
        },
        head_ex.hw_mode == 7 || head_ex.hw_mode == 8 ==> (r matches Some((m, e)) && e.bits == 0
            && m == (if head_ex.flags3 & 0x80 == 0 { ComputerModel::SpectrumPlus3 } else { ComputerModel::SpectrumPlus2A })),
{
    proof {
        if head_ex.hw_mode == 7 || head_ex.hw_mode == 8 {
            lemma_hw_mode_plus3(head_ex.hw_mode, version, head_ex.flags3, head_ex.mgt_type);
        }
    }
    let hw_mode = head_ex.hw_mode;
    let alt = Flags3::from(head_ex.flags3).is_alt_hw_mode();
    proof {
        let b = head_ex.flags3;
        assert((b & 0b1100_0111) & 0x80 == b & 0x80) by (bit_vector);
    }
    let mgt_type = head_ex.mgt_type;
    let v2 = version == Z80Version::V2;
    let v3 = version == Z80Version::V3;
    let small = if alt { ComputerModel::Spectrum16 } else { ComputerModel::Spectrum48 };
    if hw_mode == 0 {
        Some((small, Extensions::NONE()))
    } else if hw_mode == 1 {
        Some((small, Extensions::IF1()))
    } else if hw_mode == 2 {
        Some((ComputerModel::Spectrum48, Extensions::SAM_RAM()))
    } else if (hw_mode == 3 && v2) || (hw_mode == 4 && v3) {
        Some((if alt { ComputerModel::SpectrumPlus2 } else { ComputerModel::Spectrum128 }, Extensions::NONE()))
    } else if hw_mode == 3 && v3 {
        if mgt_type == 16 {
            Some((small, Extensions::PLUS_D()))
        } else if mgt_type <= 1 {
            Some((small, Extensions::DISCIPLE()))
        } else {
            None
        }
    } else if (hw_mode == 4 && v2) || (hw_mode == 5 && v3) {
        Some((ComputerModel::Spectrum128, Extensions::IF1()))
    } else if hw_mode == 6 && v3 {
        if mgt_type == 16 {
            Some((ComputerModel::Spectrum128, Extensions::PLUS_D()))
        } else if mgt_type <= 1 {
            Some((ComputerModel::Spectrum128, Extensions::DISCIPLE()))
        } else {
            None
        }
    } else if hw_mode == 7 || hw_mode == 8 {
        Some((if alt { ComputerModel::SpectrumPlus2A } else { ComputerModel::SpectrumPlus3 }, Extensions::NONE()))
    } else if hw_mode == 12 {
        Some((ComputerModel::SpectrumPlus2, Extensions::NONE()))
    } else if hw_mode == 13 {
        Some((ComputerModel::SpectrumPlus2A, Extensions::NONE()))
    } else if hw_mode == 14 {
        Some((ComputerModel::TimexTC2048, Extensions::NONE()))
    } else if hw_mode == 15 {
        Some((ComputerModel::TimexTC2068, Extensions::NONE()))
    } else if hw_mode == 128 {
        Some((ComputerModel::TimexTS2068, Extensions::NONE()))
    } else {
        None
    }
}

/// Whether `model` belongs to the Spectrum 128k family.
pub open spec fn spec_is_128_family(model: ComputerModel) -> bool {
    match model {
        ComputerModel::Spectrum128 | ComputerModel::SpectrumPlus2 | ComputerModel::SpectrumPlus2A
        | ComputerModel::SpectrumPlus3 | ComputerModel::SpectrumPlus3e | ComputerModel::SpectrumSE => true,
        _ => false,
    }
}

/// Whether `model` is one of the Timex computers.
pub open spec fn spec_is_timex(model: ComputerModel) -> bool {
    match model {
        ComputerModel::TimexTC2048 | ComputerModel::TimexTC2068 | ComputerModel::TimexTS2068 => true,
        _ => false,
    }
}

/// The sound chip of a **Z80** file: the one of the 128k family, of the Timex TC2068 and
/// TS2068, else the Fuller Box or the Melodik as the flags say.
pub open spec fn spec_ay_model(model: ComputerModel, flags3: u8) -> Option<Ay3_891xDevice> {
    if spec_is_128_family(model) {
        Some(Ay3_891xDevice::Ay128k)
    } else if model == ComputerModel::TimexTC2068 || model == ComputerModel::TimexTS2068 {
        Some(Ay3_891xDevice::Timex)
    } else if flags3 & 0x44 == 0x44 {
        Some(Ay3_891xDevice::FullerBox)
    } else if flags3 & 0x44 == 0x04 {
        Some(Ay3_891xDevice::Melodik)
    } else {
        None
    }
}

/// Returns the sound chip of a **Z80** file of `model` with the flags `flags3`, if it has one.
pub fn select_ay_model(model: ComputerModel, flags3: Flags3) -> (r: Option<Ay3_891xDevice>)
    ensures
        r == spec_ay_model(model, flags3.bits),
{
    match model {
        ComputerModel::Spectrum128 | ComputerModel::SpectrumPlus2 | ComputerModel::SpectrumPlus2A
        | ComputerModel::SpectrumPlus3 | ComputerModel::SpectrumPlus3e | ComputerModel::SpectrumSE => {
            Some(Ay3_891xDevice::Ay128k)
        },
        ComputerModel::TimexTC2068 | ComputerModel::TimexTS2068 => Some(Ay3_891xDevice::Timex),
        _ => {
            if flags3.is_ay_fuller_box() {
                Some(Ay3_891xDevice::FullerBox)
            } else if flags3.is_ay_melodik() {
                Some(Ay3_891xDevice::Melodik)
            } else {
                None
            }
        },
    }
}

/// A range of addresses as a value.
pub open spec fn spec_range(start: int, end: int) -> core::ops::Range<usize> {
    core::ops::Range { start: start as usize, end: end as usize }
}

/// The memory that the page `page` of a **Z80** file of `model` with the extensions bits
/// `ext` holds, if the format has it for this model.
pub open spec fn spec_mem_page_range(page: u8, model: ComputerModel, ext: u64) -> Option<MemoryRange> {
    let p = 0x4000int;
    match model {
        ComputerModel::Spectrum16 | ComputerModel::Spectrum48 | ComputerModel::TimexTC2048
        | ComputerModel::TimexTS2068 | ComputerModel::TimexTC2068 => {
            if page == 0 {
                Some(MemoryRange::Rom(spec_range(0, p)))
            } else if page == 1 && ext & 1 != 0 {
                Some(MemoryRange::Interface1Rom)
            } else if page == 1 && ext & 2 != 0 {
                Some(MemoryRange::PlusDRom)
            } else if page == 1 && ext & 4 != 0 {
                Some(MemoryRange::DiscipleRom)
            } else if page == 2 && ext & 8 != 0 {
                Some(MemoryRange::SamRamRom(spec_range(0, p)))
            } else if page == 3 && ext & 8 != 0 {
                Some(MemoryRange::SamRamRom(spec_range(p, 2 * p)))
            } else if page == 4 {
                Some(MemoryRange::Ram(spec_range(p, 2 * p)))
            } else if page == 5 {
                Some(MemoryRange::Ram(spec_range(2 * p, 3 * p)))
            } else if page == 6 && ext & 8 != 0 {
                Some(MemoryRange::Ram(spec_range(3 * p, 4 * p)))
            } else if page == 7 && ext & 8 != 0 {
                Some(MemoryRange::Ram(spec_range(4 * p, 5 * p)))
            } else if page == 8 {
                Some(MemoryRange::Ram(spec_range(0, p)))
            } else if page == 11 {
                Some(MemoryRange::MultifaceRom)
            } else {
                None
            }
        },
        ComputerModel::Spectrum128 | ComputerModel::SpectrumPlus2 | ComputerModel::SpectrumPlus2A
        | ComputerModel::SpectrumPlus3 | ComputerModel::SpectrumPlus3e | ComputerModel::SpectrumSE => {
            if page == 0 {
                Some(MemoryRange::Rom(spec_range(p, 2 * p)))
            } else if page == 1 && ext & 1 != 0 {
                Some(MemoryRange::Interface1Rom)
            } else if page == 1 && ext & 2 != 0 {
                Some(MemoryRange::PlusDRom)
            } else if page == 1 && ext & 4 != 0 {
                Some(MemoryRange::DiscipleRom)
            } else if page == 2 {
                Some(MemoryRange::Rom(spec_range(0, p)))
            } else if 3 <= page <= 10 {
                Some(MemoryRange::Ram(spec_range((page - 3) * p, (page - 2) * p)))
            } else if 11 <= page <= 18 && model == ComputerModel::SpectrumSE {
                Some(MemoryRange::Ram(spec_range((page - 11) * p, (page - 10) * p)))
            } else if page == 11 {
                Some(MemoryRange::MultifaceRom)
            } else {
                None
            }
        },
        _ => None,
    }
}

/// Returns the memory that the page `page` of a **Z80** file of `model` with the extensions
/// `ext` holds, or `None` when the format has no such page for this model.
pub fn mem_page_to_range(page: u8, model: ComputerModel, ext: Extensions) -> (r: Option<MemoryRange>)
    ensures
        r == spec_mem_page_range(page, model, ext.bits),
{
    let if1 = ext.intersects(Extensions::IF1());
    let plus_d = ext.intersects(Extensions::PLUS_D());
    let disciple = ext.intersects(Extensions::DISCIPLE());
    let sam_ram = ext.intersects(Extensions::SAM_RAM());
    match model {
        ComputerModel::Spectrum16 | ComputerModel::Spectrum48 | ComputerModel::TimexTC2048
        | ComputerModel::TimexTS2068 | ComputerModel::TimexTC2068 => {
            if page == 0 {
                Some(MemoryRange::Rom(0..PAGE_SIZE))
            } else if page == 1 && if1 {
                Some(MemoryRange::Interface1Rom)
            } else if page == 1 && plus_d {
                Some(MemoryRange::PlusDRom)
            } else if page == 1 && disciple {
                Some(MemoryRange::DiscipleRom)
            } else if page == 2 && sam_ram {
                Some(MemoryRange::SamRamRom(0..PAGE_SIZE))
            } else if page == 3 && sam_ram {
                Some(MemoryRange::SamRamRom(PAGE_SIZE..2 * PAGE_SIZE))
            } else if page == 4 {
                Some(MemoryRange::Ram(PAGE_SIZE..2 * PAGE_SIZE))
            } else if page == 5 {
                Some(MemoryRange::Ram(2 * PAGE_SIZE..3 * PAGE_SIZE))
            } else if page == 6 && sam_ram {
                Some(MemoryRange::Ram(3 * PAGE_SIZE..4 * PAGE_SIZE))
            } else if page == 7 && sam_ram {
                Some(MemoryRange::Ram(4 * PAGE_SIZE..5 * PAGE_SIZE))
            } else if page == 8 {
                Some(MemoryRange::Ram(0..PAGE_SIZE))
            } else if page == 11 {
                Some(MemoryRange::MultifaceRom)
            } else {
                None
            }
        },
        ComputerModel::Spectrum128 | ComputerModel::SpectrumPlus2 | ComputerModel::SpectrumPlus2A
        | ComputerModel::SpectrumPlus3 | ComputerModel::SpectrumPlus3e | ComputerModel::SpectrumSE => {
            if page == 0 {
                Some(MemoryRange::Rom(PAGE_SIZE..2 * PAGE_SIZE))
            } else if page == 1 && if1 {
                Some(MemoryRange::Interface1Rom)
            } else if page == 1 && plus_d {
                Some(MemoryRange::PlusDRom)
            } else if page == 1 && disciple {
                Some(MemoryRange::DiscipleRom)
            } else if page == 2 {
                Some(MemoryRange::Rom(0..PAGE_SIZE))
            } else if 3 <= page && page <= 10 {
                let address = (page - 3) as usize * PAGE_SIZE;
                Some(MemoryRange::Ram(address..address + PAGE_SIZE))
            } else if 11 <= page && page <= 18 && model == ComputerModel::SpectrumSE {
                let address = (page - 11) as usize * PAGE_SIZE;
                Some(MemoryRange::Ram(address..address + PAGE_SIZE))
            } else if page == 11 {
                Some(MemoryRange::MultifaceRom)
            } else {
                None
            }
        },
        _ => None,
    }
}

/// The interrupt mode of the flags byte 29 of a **Z80** header, if its mode bits hold one.
pub open spec fn spec_flags2_interrupt_mode(flags2: u8) -> Option<InterruptMode> {
    if flags2 & 3 == 0 {
        Some(InterruptMode::Mode0)
    } else if flags2 & 3 == 1 {
        Some(InterruptMode::Mode1)
    } else if flags2 & 3 == 2 {
        Some(InterruptMode::Mode2)
    } else {
        None
    }
}

/// The flags byte 12 of a **Z80** header as it is read: `0xFF` stands for 1.
pub open spec fn spec_flags1_bits(byte: u8) -> u8 {
    (if byte == 0xFF { 1u8 } else { byte }) & 0x3F
}

/// The state of the CPU a **Z80** header holds: a CPU after a reset, its registers taken from
/// the header, bit 7 of `R` from the flags, when its interrupt mode is known.
pub open spec fn spec_z80_cpu(h: Header) -> CpuState {
    CpuState {
        i: h.i,
        hl_alt: spec_le16(h.hl_alt),
        de_alt: spec_le16(h.de_alt),
        bc_alt: spec_le16(h.bc_alt),
        af_alt: (h.a_alt * 256 + h.f_alt) as u16,
        hl: spec_le16(h.hl),
        de: spec_le16(h.de),
        bc: spec_le16(h.bc),
        iy: spec_le16(h.iy),
        ix: spec_le16(h.ix),
        iff1: h.iff1 != 0,
        iff2: h.iff2 != 0,
        r: (h.r7 & 0x7F) | ((spec_flags1_bits(h.flags1) & 1) << 7),
        af: (h.a * 256 + h.f) as u16,
        sp: spec_le16(h.sp),
        pc: spec_le16(h.pc),
        im: spec_flags2_interrupt_mode(h.flags2)->0,
        ..spec_cpu_reset()
    }
}

/// Returns the state of the CPU a **Z80** header holds.
///
/// # Errors
/// `InvalidData` when the interrupt mode bits hold no mode.
pub fn create_cpu(head: &Header) -> (r: Result<CpuState, std::io::Error>)
    ensures
        r is Ok <==> spec_flags2_interrupt_mode(head.flags2) is Some,
        r matches Ok(cpu) ==> cpu == spec_z80_cpu(*head),
{
    let f = head.flags2;
    proof {
        assert((f & 0xFF) & 3 == f & 3 && f & 3 < 4) by (bit_vector);
    }
    let im = match Flags2::from(head.flags2).interrupt_mode() {
        Ok(im) => im,
        Err(e) => return Err(e),
    };
    let mut cpu = CpuState::reset();
    cpu.i = head.i;
    cpu.hl_alt = le16(head.hl_alt);
    cpu.de_alt = le16(head.de_alt);
    cpu.bc_alt = le16(head.bc_alt);
    cpu.af_alt = head.a_alt as u16 * 256 + head.f_alt as u16;
    cpu.hl = le16(head.hl);
    cpu.de = le16(head.de);
    cpu.bc = le16(head.bc);
    cpu.iy = le16(head.iy);
    cpu.ix = le16(head.ix);
    cpu.iff1 = head.iff1 != 0;
    cpu.iff2 = head.iff2 != 0;
    cpu.r = Flags1::from(head.flags1).mix_r(head.r7);
    cpu.af = head.a as u16 * 256 + head.f as u16;
    cpu.sp = le16(head.sp);
    cpu.im = im;
    cpu.pc = le16(head.pc);
    Ok(cpu)
}

/// A memory block of a **Z80** V2/V3 file: its page, whether it is compressed, and where its
/// bytes lie in the data after the header.
#[derive(Clone, Copy, Debug, PartialEq, Eq, Structural)]
pub struct MemBlock {
    pub page: u8,
    pub compressed: bool,
    pub start: usize,
    pub end: usize,
}

/// The length, the page and whether it is compressed of the memory block at `pos` of `data`,
/// as its header says.
pub open spec fn spec_mem_block_info(data: Seq<u8>, pos: int) -> (usize, u8, bool) {
    spec_mem_header_info((data[pos] + data[pos + 1] * 256) as u16, data[pos + 2])
}

/// The memory block at `pos` of `data`, when its header is whole: an uncompressed block takes
/// the bytes of a page, or those left; a compressed one the bytes its header says.
pub open spec fn spec_mem_block(data: Seq<u8>, pos: int) -> MemBlock {
    let info = spec_mem_block_info(data, pos);
    let start = pos + 3;
    let end = if info.2 || start + info.0 <= data.len() { start + info.0 } else { data.len() as int };
    MemBlock { page: info.1, compressed: info.2, start: start as usize, end: end as usize }
}

/// Whether the memory block at `pos` of `data` is cut short: its header, or the bytes of a
/// compressed block.
pub open spec fn spec_mem_block_cut(data: Seq<u8>, pos: int) -> bool {
    pos < data.len() && (data.len() - pos < 3 || (spec_mem_block_info(data, pos).2
        && pos + 3 + spec_mem_block_info(data, pos).0 > data.len()))
}

/// Returns the memory block at `pos` of the memory data of a **Z80** V2/V3 file, or `None`
/// when the data ends there.
///
/// # Errors
/// `UnexpectedEof` when the block is cut short.
pub fn mem_block_at(data: &[u8], pos: usize) -> (r: Result<Option<MemBlock>, std::io::Error>)
    requires
        pos <= data@.len(),
    ensures
        (r matches Ok(None)) <==> pos == data@.len(),
        r is Err <==> spec_mem_block_cut(data@, pos as int),
        r matches Ok(Some(b)) ==> b == spec_mem_block(data@, pos as int) && pos < b.start <= b.end <= data@.len(),
{
    let len = data.len();
    if pos == len {
        return Ok(None);
    }
    if len - pos < 3 {
        return Err(new_io_error(IoErrorKind::UnexpectedEof, "failed to fill whole buffer"));
    }
    let head = vstd::slice::slice_subrange(data, pos, pos + 3);
    assert(head@[0] == data@[pos as int] && head@[1] == data@[pos + 1] && head@[2] == data@[pos + 2]);
    let header = MemoryHeader::from_bytes(head);
    let (length, page, compressed) = header.info();
    assert((length, page, compressed) == spec_mem_header_info(
        (data@[pos as int] + data@[pos + 1] * 256) as u16,
        data@[pos + 2],
    ));
    let start = pos + 3;
    let end = if compressed || length <= len - start {
        if length > len - start {
            return Err(new_io_error(IoErrorKind::UnexpectedEof, "failed to fill whole buffer"));
        }
        start + length
    } else {
        len
    };
    Ok(Some(MemBlock { page, compressed, start, end }))
}

/// The memory data of a version 1 **Z80** file without its end marker, when it has one.
pub open spec fn spec_strip_v1_term(data: Seq<u8>) -> Seq<u8> {
    if data.len() >= 4 && data.subrange(data.len() - 4, data.len() as int) == seq![0u8, 0xEDu8, 0xEDu8, 0u8] {
        data.subrange(0, data.len() - 4)
    } else {
        data
    }
}

/// Returns the memory data of a version 1 **Z80** file without its end marker.
pub fn strip_v1_term(data: &[u8]) -> (r: &[u8])
    ensures
        r@ == spec_strip_v1_term(data@),
{
    let len = data.len();
    if len >= 4 && data[len - 4] == 0 && data[len - 3] == 0xED && data[len - 2] == 0xED && data[len - 1] == 0 {
        proof {
            assert(data@.subrange(len - 4, len as int) =~= seq![0u8, 0xEDu8, 0xEDu8, 0u8]);
        }
        vstd::slice::slice_subrange(data, 0, len - 4)
    } else {
        proof {
            if len >= 4 {
                let t = data@.subrange(len - 4, len as int);
                if t == seq![0u8, 0xEDu8, 0xEDu8, 0u8] {
                    assert(t[0] == data@[len - 4]);
                    assert(t[1] == data@[len - 3]);
                    assert(t[2] == data@[len - 2]);
                    assert(t[3] == data@[len - 1]);
                }
            }
        }
        data
    }
}

/// Whether `model` is one of the +2A, +3 family, whose memory is paged with port `0x1ffd`.
pub open spec fn spec_is_plus3_family(model: ComputerModel) -> bool {
    match model {
        ComputerModel::SpectrumPlus2A | ComputerModel::SpectrumPlus3 | ComputerModel::SpectrumPlus3e
        | ComputerModel::SpectrumSE => true,
        _ => false,
    }
}

/// The port writes that restore the state of a computer of `model` from the extended header
/// `h` of a **Z80** file of `version`: port `0x1ffd` of the +2A/+3 family (V3, when not zero),
/// then port `0xf4` of the Timex computers or `0x7ffd` of the 128k family, then port `0xff` of
/// the Timex computers.
pub open spec fn spec_z80_port_writes(model: ComputerModel, version: Z80Version, h: HeaderEx) -> Seq<(u16, u8)> {
    let ctrl3 = if version == Z80Version::V3 && h.port2 != 0 && spec_is_plus3_family(model) {
        seq![(0x1ffdu16, h.port2)]
    } else {
        Seq::empty()
    };
    let mem = if spec_is_timex(model) {
        seq![(0xf4u16, h.port1)]
    } else if spec_is_128_family(model) {
        seq![(0x7ffdu16, h.port1)]
    } else {
        Seq::empty()
    };
    let timex = if spec_is_timex(model) {
        seq![(0xffu16, h.ifrom)]
    } else {
        Seq::empty()
    };
    ctrl3 + mem + timex
}

/// Returns the port writes that restore the state of a computer of `model` from the extended
/// header of a **Z80** file of `version`.
pub fn z80_port_writes(model: ComputerModel, version: Z80Version, h: &HeaderEx) -> (r: Vec<(u16, u8)>)
    ensures
        r@ == spec_z80_port_writes(model, version, *h),
{
    let mut r: Vec<(u16, u8)> = Vec::new();
    let is_timex = match model {
        ComputerModel::TimexTC2048 | ComputerModel::TimexTS2068 | ComputerModel::TimexTC2068 => true,
        _ => false,
    };
    let is_128 = match model {
        ComputerModel::Spectrum128 | ComputerModel::SpectrumPlus2 | ComputerModel::SpectrumPlus2A
        | ComputerModel::SpectrumPlus3 | ComputerModel::SpectrumPlus3e | ComputerModel::SpectrumSE => true,
        _ => false,
    };
    let is_plus3 = match model {
        ComputerModel::SpectrumPlus2A | ComputerModel::SpectrumPlus3 | ComputerModel::SpectrumPlus3e
        | ComputerModel::SpectrumSE => true,
        _ => false,
    };
    if version == Z80Version::V3 && h.port2 != 0 && is_plus3 {
        r.push((0x1ffd, h.port2));
    }
    if is_timex {
        r.push((0xf4, h.port1));
    } else if is_128 {
        r.push((0x7ffd, h.port1));
    }
    if is_timex {
        r.push((0xff, h.ifrom));
    }
    assert(r@ =~= spec_z80_port_writes(model, version, *h));
    r
}

/// Whether a **Z80** file pages in the ROM of the ZX Interface 1 of a computer of `model` with
/// the extension bits `ext`: the byte for it is `0xff`, for a model other than the NTSC and Timex
/// ones, with the ZX Interface 1.
pub open spec fn spec_z80_if1_paged(model: ComputerModel, ext: u64, ifrom: u8) -> bool {
    (model == ComputerModel::Spectrum16 || model == ComputerModel::Spectrum48 || spec_is_128_family(model))
        && ifrom == 0xff && ext & 1 != 0
}

fn z80_if1_paged(model: ComputerModel, ext: Extensions, ifrom: u8) -> (r: bool)
    ensures
        r == spec_z80_if1_paged(model, ext.bits, ifrom),
{
    let fits = match model {
        ComputerModel::Spectrum16 | ComputerModel::Spectrum48 | ComputerModel::Spectrum128
        | ComputerModel::SpectrumPlus2 | ComputerModel::SpectrumPlus2A | ComputerModel::SpectrumPlus3
        | ComputerModel::SpectrumPlus3e | ComputerModel::SpectrumSE => true,
        _ => false,
    };
    fits && ifrom == 0xff && ext.intersects(Extensions::IF1())
}

/// A **Z80** file with the header `head`, and the extended header `head_ex` of the version
/// `version` when there is one, can be loaded: the header names an interrupt mode, and when its
/// program counter is 0, an extended header of version 2 or 3 follows that names a computer.
pub open spec fn spec_z80_loadable(head: Header, head_ex: Option<HeaderEx>, version: Z80Version) -> bool {
    &&& spec_flags2_interrupt_mode(head.flags2) is Some
    &&& spec_z80_cpu(head).pc == 0 ==> (head_ex matches Some(hx) && version != Z80Version::V1
        && spec_hw_model(hx.hw_mode, version, hx.flags3 & 0x80 != 0, hx.mgt_type) is Some)
}

/// Loads a **Z80** file into the provided snapshot `loader` from a source.
///
/// The loader is given the model and extensions of the file (a 48k one for version 1), its
/// border colour and keyboard issue, its joystick, the state of an `NMOS` CPU, its memory, and,
/// for versions 2 and 3, its sound chip, the T-state counter (version 3) and its port writes.
///
/// # Errors
/// `InvalidData` when the interrupt mode, the hardware or a memory page is not one of the
/// format; `UnexpectedEof` when a memory block is cut short; the errors of the loader and of
/// the source.
pub fn load_z80<R: std::io::Read, S: SnapshotLoader>(rd: R, loader: &mut S) -> (r: Result<(), std::io::Error>)
    ensures
        r is Ok ==> exists|head: Header, head_ex: Option<HeaderEx>, version: Z80Version|
            #[trigger] spec_z80_loadable(head, head_ex, version),
{
    let mut rd = rd;
    let mut hbuf: [u8; 30] = [0u8; 30];
    {
        let hbufs: &mut [u8] = &mut hbuf;
        match read_exact(&mut rd, hbufs) {
            Ok(()) => {},
            Err(e) => return Err(e),
        }
    }
    let header = Header::from_bytes(hbuf.as_slice());
    let mut version = Z80Version::V1;
    let mut model = ComputerModel::Spectrum48;
    let mut extensions = Extensions::NONE();
    let mut cpu = match create_cpu(&header) {
        Ok(cpu) => cpu,
        Err(e) => return Err(e),
    };
    let mut header_ex: Option<HeaderEx> = None;
    if cpu.pc == 0 {
        let (ver, head_ex) = match load_header_ex(&mut rd) {
            Ok(res) => res,
            Err(e) => return Err(e),
        };
        version = ver;
        cpu.pc = le16(head_ex.pc);
        match select_hw_model(version, &head_ex) {
            Some((mdl, ext)) => {
                model = mdl;
                extensions = ext;
            },
            None => return Err(new_io_error(IoErrorKind::InvalidData, "unsupported model")),
        }
        header_ex = Some(head_ex);
    }
    let flags1 = Flags1::from(header.flags1);
    let border = flags1.border_color();
    let flags2 = Flags2::from(header.flags2);
    let joystick = flags2.joystick_model();
    let issue = model.applicable_issue(
        if flags2.is_issue2_emulation() {
            ReadEarMode::Issue2
        } else {
            ReadEarMode::Issue3
        },
    );
    match loader.select_model(model, extensions, border, issue) {
        Ok(()) => {},
        Err(e) => return Err(other_io_error(e)),
    }
    loader.select_joystick(joystick);
    loader.assign_cpu(CpuModel::NMOS(cpu));
    if version == Z80Version::V1 {
        if flags1.is_mem_compressed() {
            let mut buf: Vec<u8> = Vec::new();
            match read_to_end(&mut rd, &mut buf) {
                Ok(_) => {},
                Err(e) => return Err(e),
            }
            let mem = decompress_all(strip_v1_term(buf.as_slice()));
            match loader.read_into_memory(MemoryRange::Ram(0..3 * PAGE_SIZE), mem.as_slice()) {
                Ok(()) => {},
                Err(e) => return Err(e.into_io_error()),
            }
        } else {
            match loader.read_into_memory(MemoryRange::Ram(0..3 * PAGE_SIZE), &mut rd) {
                Ok(()) => {},
                Err(e) => return Err(e.into_io_error()),
            }
        }
    } else {
        let mut data: Vec<u8> = Vec::new();
        match read_to_end(&mut rd, &mut data) {
            Ok(_) => {},
            Err(e) => return Err(e),
        }
        let mut pos: usize = 0;
        loop
            invariant
                pos <= data@.len(),
            decreases data@.len() - pos,
        {
            let block = match mem_block_at(data.as_slice(), pos) {
                Ok(Some(block)) => block,
                Ok(None) => break,
                Err(e) => return Err(e),
            };
            let range = match mem_page_to_range(block.page, model, extensions) {
                Some(range) => range,
                None => return Err(new_io_error(IoErrorKind::InvalidData, "unsupported memory page")),
            };
            let bytes = vstd::slice::slice_subrange(data.as_slice(), block.start, block.end);
            if block.compressed {
                let mem = decompress_all(bytes);
                match loader.read_into_memory(range, mem.as_slice()) {
                    Ok(()) => {},
                    Err(e) => return Err(e.into_io_error()),
                }
            } else {
                match loader.read_into_memory(range, bytes) {
                    Ok(()) => {},
                    Err(e) => return Err(e.into_io_error()),
                }
            }
            pos = block.end;
        }
    }
    assert(spec_z80_loadable(header, header_ex, version));
    if let Some(head_ex) = header_ex {
        match select_ay_model(model, Flags3::from(head_ex.flags3)) {
            Some(choice) => loader.setup_ay(choice, AyRegister::from(head_ex.ay_sel_reg), &head_ex.ay_regs),
            None => {},
        }
        if version == Z80Version::V3 {
            // the quarter 255 wraps around to the one of 3
            let ts_hi = if head_ex.ts_hi == 255 { 3 } else { head_ex.ts_hi };
            let ts = z80_to_cycles(le16(head_ex.ts_lo), ts_hi, model);
            loader.set_clock(ts);
        }
        let writes = z80_port_writes(model, version, &head_ex);
        let mut i: usize = 0;
        while i < writes.len()
            decreases writes@.len() - i,
        {
            let (port, data) = writes[i];
            loader.write_port(port, data);
            i = i + 1;
        }
        if z80_if1_paged(model, extensions, head_ex.ifrom) {
            loader.interface1_rom_paged_in();
        }
    }
    let r: Result<(), std::io::Error> = Ok(());
    assert(r is Ok ==> spec_z80_loadable(header, header_ex, version));
    r
}

} // verus!
