//! **SNA** snapshot format utilities.
//!
//! ```text
//!    Offset   Size   Description
//!    ------------------------------------------------------------------------
//!    0        1      byte   I
//!    1        8      word   HL', DE', BC', AF'
//!    9        10     word   HL, DE, BC, IY, IX
//!    19       1      byte   Interrupt (bit 2 = IFF2, bit 1 = IFF1)
//!    20       1      byte   R
//!    21       4      word   AF
//!    23       4      word   SP
//!    25       1      byte   IntMode (0=IM0|1=IM1|2=IM2)
//!    26       1      byte   BorderColor (0..=7)
//!    27       49152  bytes  RAM 16384..=65535
//!    ------------------------------------------------------------------------
//!    Size: 49179 bytes
//!
//!    Offset   Size   Description
//!    ------------------------------------------------------------------------
//!    0        27     bytes  SNA header (see above)
//!    27       16Kb   bytes  RAM bank 5
//!    16411    16Kb   bytes  RAM bank 2
//!    32795    16Kb   bytes  RAM bank n / (currently paged bank)
//!    49179    2      word   PC
//!    49181    1      byte   port OUT 0x7ffd
//!    49182    1      byte   TR-DOS rom paged (1) or not (0)
//!    49183    16Kb   bytes  remaining RAM banks in ascending order
//!    ...
//!    ------------------------------------------------------------------------
//!    Size: 131103 or 147487 bytes
//! ```
use vstd::prelude::*;

use crate::chip::flags::{ReadEarMode, Ula128MemFlags};
use crate::formats::read_exact_or_none;
use crate::formats::snapshot::{
    is_cpu_safe_for_snapshot, spec_cpu_reset, Ay3_891xDevice, ComputerModel, CpuModel, CpuState, Extensions,
    InterruptMode, MemoryRange, SnapshotCreator, SnapshotLoader, SnapshotResult,
};
use crate::formats::stream::{
    flush, new_io_error, other_io_error, read_exact, seek_current, seek_start, write_all, IoErrorKind,
};
use crate::memory::{spec_page_size16, AddressBound, ZxMemory};
use crate::video::{spec_border_color, BorderColor};

verus! {

/// The length in bytes of the 48k **SNA** file.
pub const SNA_LENGTH: u64 = 49179;

/// The header of an **SNA** file.
#[derive(Clone, Copy, Debug, Default)]
pub struct SnaHeader {
    pub i: u8,
    pub hl_alt: [u8; 2],
    pub de_alt: [u8; 2],
    pub bc_alt: [u8; 2],
    pub f_alt: u8,
    pub a_alt: u8,
    pub hl: [u8; 2],
    pub de: [u8; 2],
    pub bc: [u8; 2],
    pub iy: [u8; 2],
    pub ix: [u8; 2],
    pub iffs: u8,
    pub r: u8,
    pub f: u8,
    pub a: u8,
    pub sp: [u8; 2],
    pub im: u8,
    pub border: u8,
}

/// The extension of the header of a 128k **SNA** file, following the first 48k of RAM.
#[derive(Clone, Copy, Debug, Default)]
pub struct SnaHeader128 {
    pub pc: [u8; 2],
    pub port_data: u8,
    pub trdos_rom: u8,
}

/// The bytes of `h` in the order of the file.
pub open spec fn spec_sna_header_bytes(h: SnaHeader) -> Seq<u8> {
    seq![h.i, h.hl_alt[0], h.hl_alt[1], h.de_alt[0], h.de_alt[1], h.bc_alt[0], h.bc_alt[1], h.f_alt, h.a_alt,
        h.hl[0], h.hl[1], h.de[0], h.de[1], h.bc[0], h.bc[1], h.iy[0], h.iy[1], h.ix[0], h.ix[1],
        h.iffs, h.r, h.f, h.a, h.sp[0], h.sp[1], h.im, h.border]
}

/// The little-endian 16-bit number of `b`.
pub open spec fn spec_le16(b: [u8; 2]) -> u16 {
    (b[0] + b[1] * 256) as u16
}

/// The little-endian bytes of `v`.
pub open spec fn spec_le_bytes(v: u16) -> [u8; 2] {
    [(v % 256) as u8, (v / 256) as u8]
}

pub(crate) fn le16(b: [u8; 2]) -> (r: u16)
    ensures r == spec_le16(b),
{
    b[0] as u16 + b[1] as u16 * 256
}

pub(crate) fn le_bytes(v: u16) -> (r: [u8; 2])
    ensures r == spec_le_bytes(v),
{
    let r = [(v % 256) as u8, (v / 256) as u8];
    assert(r =~= spec_le_bytes(v));
    r
}

/// The interrupt mode with the number `im`.
pub open spec fn spec_interrupt_mode(im: u8) -> Option<InterruptMode> {
    if im == 0 {
        Some(InterruptMode::Mode0)
    } else if im == 1 {
        Some(InterruptMode::Mode1)
    } else if im == 2 {
        Some(InterruptMode::Mode2)
    } else {
        None
    }
}

/// The number of the interrupt mode `im`.
pub open spec fn spec_interrupt_mode_number(im: InterruptMode) -> u8 {
    match im {
        InterruptMode::Mode0 => 0,
        InterruptMode::Mode1 => 1,
        InterruptMode::Mode2 => 2,
    }
}

/// The state of the CPU the header `h` holds: a CPU after a reset, its registers taken from the
/// header, when its interrupt mode is known.
pub open spec fn spec_sna_cpu(h: SnaHeader) -> CpuState {
    CpuState {
        i: h.i,
        hl_alt: spec_le16(h.hl_alt),
        de_alt: spec_le16(h.de_alt),
        bc_alt: spec_le16(h.bc_alt),
        af_alt: (h.a_alt * 256 + h.f_alt) as u16,
        hl: spec_le16(h.hl),
        de: spec_le16(h.de),
        bc: spec_le16(h.bc),
        iy: spec_le16(h.iy),
        ix: spec_le16(h.ix),
        iff1: h.iffs & 4 != 0,
        iff2: h.iffs & 4 != 0,
        r: h.r,
        af: (h.a * 256 + h.f) as u16,
        sp: spec_le16(h.sp),
        im: spec_interrupt_mode(h.im)->0,
        ..spec_cpu_reset()
    }
}

/// The header that holds the state of `cpu`, with a black border.
pub open spec fn spec_sna_header_of(cpu: CpuState) -> SnaHeader {
    SnaHeader {
        i: cpu.i,
        hl_alt: spec_le_bytes(cpu.hl_alt),
        de_alt: spec_le_bytes(cpu.de_alt),
        bc_alt: spec_le_bytes(cpu.bc_alt),
        f_alt: (cpu.af_alt % 256) as u8,
        a_alt: (cpu.af_alt / 256) as u8,
        hl: spec_le_bytes(cpu.hl),
        de: spec_le_bytes(cpu.de),
        bc: spec_le_bytes(cpu.bc),
        iy: spec_le_bytes(cpu.iy),
        ix: spec_le_bytes(cpu.ix),
        iffs: if cpu.iff1 { 4 } else { 0 },
        r: cpu.r,
        f: (cpu.af % 256) as u8,
        a: (cpu.af / 256) as u8,
        sp: spec_le_bytes(cpu.sp),
        im: spec_interrupt_mode_number(cpu.im),
        border: 0,
    }
}

/// The `R` register after it is increased: its lower 7 bits count, bit 7 stays.
pub open spec fn spec_inc_r(r: u8) -> u8 {
    (r & 0x80) | (((r + 1) % 128) as u8)
}

fn inc_r(r: u8) -> (res: u8)
    ensures res == spec_inc_r(r),
{
    (r & 0x80) | (((r as u16 + 1) % 128) as u8)
}

impl SnaHeader {
    /// Makes the header of the first 27 bytes of `b`.
    pub fn from_bytes(b: &[u8]) -> (r: Self)
        requires
            b@.len() >= 27,
        ensures
            spec_sna_header_bytes(r) == b@.subrange(0, 27),
    {
        let r = SnaHeader {
            i: b[0],
            hl_alt: [b[1], b[2]],
            de_alt: [b[3], b[4]],
            bc_alt: [b[5], b[6]],
            f_alt: b[7],
            a_alt: b[8],
            hl: [b[9], b[10]],
            de: [b[11], b[12]],
            bc: [b[13], b[14]],
            iy: [b[15], b[16]],
            ix: [b[17], b[18]],
            iffs: b[19],
            r: b[20],
            f: b[21],
            a: b[22],
            sp: [b[23], b[24]],
            im: b[25],
            border: b[26],
        };
        assert(spec_sna_header_bytes(r) =~= b@.subrange(0, 27));
        r
    }

    /// Returns the bytes of the header in the order of the file.
    pub fn to_bytes(&self) -> (r: Vec<u8>)
        ensures
            r@ == spec_sna_header_bytes(*self),
    {
        let r: Vec<u8> = vec![
            self.i, self.hl_alt[0], self.hl_alt[1], self.de_alt[0], self.de_alt[1], self.bc_alt[0], self.bc_alt[1],
            self.f_alt, self.a_alt, self.hl[0], self.hl[1], self.de[0], self.de[1], self.bc[0], self.bc[1],
            self.iy[0], self.iy[1], self.ix[0], self.ix[1], self.iffs, self.r, self.f, self.a,
            self.sp[0], self.sp[1], self.im, self.border,
        ];
        assert(r@ =~= spec_sna_header_bytes(*self));
        r
    }

    /// Returns the state of the CPU the header holds, with the program counter 0, and the
    /// border colour.
    ///
    /// # Errors
    /// `InvalidData` when the interrupt mode or the border colour is out of range.
    pub fn cpu(&self) -> (r: Result<(CpuState, BorderColor), std::io::Error>)
        ensures
            r is Ok <==> self.im <= 2 && self.border <= 7,
            r is Ok ==> r->Ok_0 == (spec_sna_cpu(*self), spec_border_color(self.border)->0),
    {
        let im = match self.im {
            0 => InterruptMode::Mode0,
            1 => InterruptMode::Mode1,
            2 => InterruptMode::Mode2,
            _ => return Err(new_io_error(IoErrorKind::InvalidData, "Not a proper SNA block: invalid interrupt mode")),
        };
        let border = match self.border {
            0 => BorderColor::BLACK,
            1 => BorderColor::BLUE,
            2 => BorderColor::RED,
            3 => BorderColor::MAGENTA,
            4 => BorderColor::GREEN,
            5 => BorderColor::CYAN,
            6 => BorderColor::YELLOW,
            7 => BorderColor::WHITE,
            _ => return Err(new_io_error(IoErrorKind::InvalidData, "SNA: invalid border color")),
        };
        let mut cpu = CpuState::reset();
        let iff = self.iffs & 4 != 0;
        cpu.i = self.i;
        cpu.hl_alt = le16(self.hl_alt);
        cpu.de_alt = le16(self.de_alt);
        cpu.bc_alt = le16(self.bc_alt);
        cpu.af_alt = self.a_alt as u16 * 256 + self.f_alt as u16;
        cpu.hl = le16(self.hl);
        cpu.de = le16(self.de);
        cpu.bc = le16(self.bc);
        cpu.iy = le16(self.iy);
        cpu.ix = le16(self.ix);
        cpu.iff1 = iff;
        cpu.iff2 = iff;
        cpu.r = self.r;
        cpu.af = self.a as u16 * 256 + self.f as u16;
        cpu.sp = le16(self.sp);
        cpu.im = im;
        Ok((cpu, border))
    }

    /// Makes the header that holds the state of `cpu`, with a black border.
    pub fn from_cpu(cpu: &CpuState) -> (r: SnaHeader)
        ensures r == spec_sna_header_of(*cpu),
    {
        SnaHeader {
            i: cpu.i,
            hl_alt: le_bytes(cpu.hl_alt),
            de_alt: le_bytes(cpu.de_alt),
            bc_alt: le_bytes(cpu.bc_alt),
            f_alt: (cpu.af_alt % 256) as u8,
            a_alt: (cpu.af_alt / 256) as u8,
            hl: le_bytes(cpu.hl),
            de: le_bytes(cpu.de),
            bc: le_bytes(cpu.bc),
            iy: le_bytes(cpu.iy),
            ix: le_bytes(cpu.ix),
            iffs: if cpu.iff1 { 4 } else { 0 },
            r: cpu.r,
            f: (cpu.af % 256) as u8,
            a: (cpu.af / 256) as u8,
            sp: le_bytes(cpu.sp),
            im: match cpu.im {
                InterruptMode::Mode0 => 0,
                InterruptMode::Mode1 => 1,
                InterruptMode::Mode2 => 2,
            },
            border: 0,
        }
    }
}

/// The registers of a state of the CPU stored in a header are those read back from it; the
/// header holds one interrupt flip-flop for both, and nothing of the rest of the state.
pub proof fn lemma_sna_header_round_trip(cpu: CpuState)
    ensures
        spec_sna_header_of(cpu).im <= 2,
        spec_sna_cpu(spec_sna_header_of(cpu)) == (CpuState {
            iff2: cpu.iff1,
            pc: 0,
            memptr: 0,
            halt: false,
            last_ei: false,
            after_prefix: false,
            ..cpu
        }),
{
    assert((4u8 & 4u8) != 0u8 && (0u8 & 4u8) == 0u8) by (bit_vector);
}

/// Whether the header `h` holds an interrupt mode and a border colour.
pub open spec fn spec_sna_header_valid(h: SnaHeader) -> bool {
    h.im <= 2 && h.border <= 7
}

/// Reads the header of an **SNA** file from `rd`: the state of the CPU, with the program
/// counter 0, and the border colour.
pub fn read_header<R: std::io::Read>(rd: &mut R) -> (r: Result<(CpuState, BorderColor), std::io::Error>)
    ensures
        r matches Ok(res) ==> exists|h: SnaHeader| #[trigger] spec_sna_header_valid(h) && res == (spec_sna_cpu(h), spec_border_color(h.border)->0),
{
    let mut buf: [u8; 27] = [0u8; 27];
    {
        let bufs: &mut [u8] = &mut buf;
        match read_exact(rd, bufs) {
            Ok(()) => {},
            Err(e) => return Err(e),
        }
    }
    let header = SnaHeader::from_bytes(buf.as_slice());
    let r = header.cpu();
    assert(r is Ok ==> spec_sna_header_valid(header));
    r
}

/// The state of a CPU that returned with `RETN` from the interrupt routine it was in when an
/// **SNA** file was saved: the stack pointer past the return address, the refresh register
/// increased twice.
pub open spec fn spec_after_retn(cpu: CpuState) -> CpuState {
    CpuState { sp: (if cpu.sp == 0xFFFF { 1u16 } else if cpu.sp == 0xFFFE { 0u16 } else { (cpu.sp + 2) as u16 }), r: spec_inc_r(spec_inc_r(cpu.r)), ..cpu }
}

fn after_retn(cpu: CpuState) -> (r: CpuState)
    ensures r == spec_after_retn(cpu),
{
    let mut cpu = cpu;
    cpu.sp = cpu.sp.wrapping_add(2);
    cpu.r = inc_r(inc_r(cpu.r));
    cpu
}

/// Reads a 48k **SNA** file and inserts its content into provided memory. Returns the state of
/// the CPU and the border color on success.
///
/// As the snapshot was taken inside an interrupt routine, the program counter is popped from
/// the stack, and the refresh register is increased twice, as `RETN` would.
///
/// # Note
/// This function handles only the 48k *SNA* file, that is the one with the size of 49179 bytes.
pub fn read_sna48<R: std::io::Read, M: ZxMemory>(rd: R, mem: &mut M) -> (r: Result<(CpuState, BorderColor), std::io::Error>)
    requires
        spec_page_size16(M::PAGE_SIZE) != 0,
    ensures
        r matches Ok(res) ==> exists|h: SnaHeader| #[trigger] spec_sna_header_valid(h) && res == ((CpuState {
            pc: res.0.pc,
            ..spec_after_retn(spec_sna_cpu(h))
        }), spec_border_color(h.border)->0),
{
    let mut rd = rd;
    let (cpu, border) = match read_header(&mut rd) {
        Ok(res) => res,
        Err(e) => return Err(e),
    };
    let sp = cpu.sp;
    let mut cpu = after_retn(cpu);
    match mem.load_into_mem(AddressBound::Included(0x4000), AddressBound::Included(0xFFFF), rd) {
        Ok(()) => {},
        Err(_) => return Err(new_io_error(IoErrorKind::InvalidData, "SNA: needs at least 48k RAM memory")),
    }
    cpu.pc = mem.read16(sp);
    Ok((cpu, border))
}

/// The size of a RAM bank in an **SNA** file.
const PAGE_SIZE: usize = 0x4000;

/// Whether `n` is one of the RAM banks of a 128k **SNA** file stored after its header
/// extension, when `last` is the bank paged in at the last page.
pub open spec fn spec_sna128_rest_bank(n: usize, last: usize) -> bool {
    n < 8 && n != 5 && n != 2 && n != last
}

/// The RAM banks of a 128k **SNA** file stored after its header extension, when `last` is the
/// bank paged in at the last page: the banks other than 5, 2 and `last`, in ascending order.
pub fn sna128_rest_banks(last: usize) -> (r: Vec<usize>)
    ensures
        forall|i: int, j: int| 0 <= i < j < r@.len() ==> r@[i] < r@[j],
        forall|n: usize| r@.contains(n) <==> spec_sna128_rest_bank(n, last),
{
    let mut r: Vec<usize> = Vec::new();
    let mut n: usize = 0;
    while n < 8
        invariant
            n <= 8,
            forall|i: int, j: int| 0 <= i < j < r@.len() ==> r@[i] < r@[j],
            forall|i: int| 0 <= i < r@.len() ==> r@[i] < n,
            forall|m: usize| r@.contains(m) <==> (m < n && spec_sna128_rest_bank(m, last)),
        decreases 8 - n,
    {
        let ghost prev = r@;
        if n != 5 && n != 2 && n != last {
            r.push(n);
            proof {
                assert forall|m: usize| r@.contains(m) <==> (m < n + 1 && spec_sna128_rest_bank(m, last)) by {
                    if m == n {
                        assert(r@[r@.len() - 1] == m);
                    }
                    if r@.contains(m) && m != n {
                        let k = choose|k: int| 0 <= k < r@.len() && r@[k] == m;
                        assert(prev[k] == m);
                    }
                    if m < n && spec_sna128_rest_bank(m, last) {
                        let k = choose|k: int| 0 <= k < prev.len() && prev[k] == m;
                        assert(r@[k] == m);
                    }
                }
            }
        } else {
            proof {
                assert forall|m: usize| r@.contains(m) <==> (m < n + 1 && spec_sna128_rest_bank(m, last)) by {
                    if r@.contains(m) {
                        let k = choose|k: int| 0 <= k < r@.len() && r@[k] == m;
                        assert(r@[k] < n);
                    }
                }
            }
        }
        n = n + 1;
    }
    r
}

/// The RAM banks of a 128k **SNA** file read before its header extension, when `last` is the
/// bank paged in at the last page: banks 5 and 2, then `last` unless it is one of them.
pub open spec fn spec_sna128_first_banks(last: usize) -> Seq<usize> {
    if last == 5 || last == 2 {
        seq![5usize, 2usize]
    } else {
        seq![5usize, 2usize, last]
    }
}

/// Each of the 8 RAM banks of a 128k **SNA** file is stored once: either among the banks
/// before the header extension (5, 2 and the paged one `last`) or among the banks after it.
pub proof fn lemma_sna128_banks_partition(last: usize, n: usize)
    requires
        last < 8,
        n < 8,
    ensures
        spec_sna128_first_banks(last).contains(n) <==> !spec_sna128_rest_bank(n, last),
{
    let first = spec_sna128_first_banks(last);
    if n == 5 {
        assert(first[0] == n);
    } else if n == 2 {
        assert(first[1] == n);
    } else if n == last {
        assert(first[2] == n);
    } else {
        assert(forall|i: int| 0 <= i < first.len() ==> first[i] != n);
    }
}

/// Returns the RAM banks of a 128k **SNA** file read before its header extension.
pub fn sna128_first_banks(last: usize) -> (r: Vec<usize>)
    ensures
        r@ == spec_sna128_first_banks(last),
{
    let mut r: Vec<usize> = vec![5usize, 2usize];
    if last != 5 && last != 2 {
        r.push(last);
    }
    assert(r@ =~= spec_sna128_first_banks(last));
    r
}

/// The range of RAM addresses of the bank `page`, counted from the start of the RAM.
pub open spec fn spec_bank_range(page: usize) -> (usize, usize) {
    ((page * 0x4000) as usize, ((page + 1) * 0x4000) as usize)
}

fn bank_range(page: usize) -> (r: MemoryRange)
    requires
        page < 8,
    ensures
        (r matches MemoryRange::Ram(rg) && rg.start == page * 0x4000 && rg.end == (page + 1) * 0x4000),
{
    MemoryRange::Ram(page * PAGE_SIZE..(page + 1) * PAGE_SIZE)
}

/// The place in RAM of the program counter pushed on the stack of a 48k **SNA** file whose
/// stack pointer is `sp`, or `None` when it is not in RAM: below the RAM or straddling its end.
pub open spec fn spec_sna48_pc_offset(sp: u16) -> Option<usize> {
    if sp < 0x4000 || sp == 0xFFFF {
        None
    } else {
        Some((sp - 0x4000) as usize)
    }
}

/// Returns the place in RAM of the program counter pushed on the stack of a 48k **SNA** file
/// whose stack pointer is `sp`.
pub fn sna48_pc_offset(sp: u16) -> (r: Option<usize>)
    ensures
        r == spec_sna48_pc_offset(sp),
{
    if sp < 0x4000 || sp == 0xFFFF {
        None
    } else {
        Some(sp as usize - 0x4000)
    }
}

/// Loads a 48k **SNA** file into the provided snapshot `loader` from a source.
///
/// The loader is given the Spectrum 48k with no extensions and the border colour of the
/// header, the RAM below and above the program counter on the stack, and the state of an
/// `NMOS` CPU after `RETN`, with the program counter popped from the stack.
///
/// # Errors
/// `InvalidData` when the stack pointer is below the RAM or at its last byte, so that the
/// program counter can't be found; the errors of the header, of the loader and of the source.
///
/// # Note
/// This method assumes the provided stream contains the 48k **SNA** version.
pub fn load_sna48<R: std::io::Read, S: SnapshotLoader>(rd: R, loader: &mut S) -> (r: Result<(), std::io::Error>)
    ensures
        r is Ok ==> exists|h: SnaHeader| #[trigger] spec_sna_header_valid(h)
            && spec_sna48_pc_offset(spec_sna_cpu(h).sp) is Some,
{
    let mut rd = rd;
    let (cpu, border) = match read_header(&mut rd) {
        Ok(res) => res,
        Err(e) => return Err(e),
    };
    let ghost h = choose|h: SnaHeader| #[trigger] spec_sna_header_valid(h) && (cpu, border) == (spec_sna_cpu(h), spec_border_color(h.border)->0);
    let pc_offset = match sna48_pc_offset(cpu.sp) {
        Some(offset) => offset,
        None => return Err(new_io_error(IoErrorKind::InvalidData, "SNA: can't determine the PC address")),
    };
    let mut cpu = after_retn(cpu);
    match loader.select_model(ComputerModel::Spectrum48, Extensions::NONE(), border, ReadEarMode::Issue3) {
        Ok(()) => {},
        Err(e) => return Err(other_io_error(e)),
    }
    match loader.read_into_memory(MemoryRange::Ram(0..pc_offset), &mut rd) {
        Ok(()) => {},
        Err(e) => return Err(e.into_io_error()),
    }
    let mut pc: [u8; 2] = [0u8; 2];
    {
        let pcs: &mut [u8] = &mut pc;
        match read_exact(&mut rd, pcs) {
            Ok(()) => {},
            Err(e) => return Err(e),
        }
    }
    cpu.pc = le16(pc);
    let rest_offset = pc_offset + 2;
    if rest_offset < 0xC000 {
        match loader.read_into_memory(MemoryRange::Ram(rest_offset..0xC000), &mut rd) {
            Ok(()) => {},
            Err(e) => return Err(e.into_io_error()),
        }
    }
    loader.assign_cpu(CpuModel::NMOS(cpu));
    assert(spec_sna_header_valid(h) && spec_sna48_pc_offset(spec_sna_cpu(h).sp) is Some);
    Ok(())
}

/// Loads a **SNA** file into the provided snapshot `loader` from a source.
///
/// Requires both `Read` and `Seek` source to determine file version: the source must hold at
/// least the 48k file; when four more bytes follow it, it is the 128k file, else the 48k one
/// (see [load_sna48]).
///
/// Of the 128k file the loader is given the Spectrum 128k, with TR-DOS when the file says its
/// ROM is paged, the border colour of the header, the RAM banks in the order of the file (the
/// copy of bank 5 or 2 that the file holds twice when it is the paged one is skipped), the
/// state of an `NMOS` CPU with the program counter of the file, the byte of port `0x7ffd`, and
/// the TR-DOS ROM paged in when the file says so.
///
/// # Errors
/// `InvalidData` when the source is shorter than the 48k file; the errors of the header, of the
/// loader and of the source.
pub fn load_sna<R: std::io::Read + std::io::Seek, S: SnapshotLoader>(rd: R, loader: &mut S) -> (r: Result<(), std::io::Error>)
    ensures
        r is Ok ==> exists|h: SnaHeader| #[trigger] spec_sna_header_valid(h),
{
    let mut rd = rd;
    let cur_pos = match seek_current(&mut rd, 0) {
        Ok(pos) => pos,
        Err(e) => return Err(e),
    };
    let end_pos = match seek_current(&mut rd, 49179) {
        Ok(pos) => pos,
        Err(e) => return Err(e),
    };
    if end_pos < cur_pos || end_pos - cur_pos != SNA_LENGTH {
        return Err(new_io_error(IoErrorKind::InvalidData, "SNA: wrong size of the supplied stream"));
    }
    let mut ext: [u8; 4] = [0u8; 4];
    let ext_read = {
        let exts: &mut [u8] = &mut ext;
        match read_exact_or_none(&mut rd, exts) {
            Ok(b) => b,
            Err(e) => return Err(e),
        }
    };
    match seek_start(&mut rd, cur_pos) {
        Ok(_) => {},
        Err(e) => return Err(e),
    }
    if !ext_read {
        return load_sna48(rd, loader);
    }
    let (mut cpu, border) = match read_header(&mut rd) {
        Ok(res) => res,
        Err(e) => return Err(e),
    };
    let ghost h = choose|h: SnaHeader| #[trigger] spec_sna_header_valid(h) && (cpu, border) == (spec_sna_cpu(h), spec_border_color(h.border)->0);
    cpu.pc = le16([ext[0], ext[1]]);
    let port_data = ext[2];
    let trdos_rom = ext[3];
    let extensions = if trdos_rom != 0 {
        Extensions::TR_DOS()
    } else {
        Extensions::NONE()
    };
    match loader.select_model(ComputerModel::Spectrum128, extensions, border, ReadEarMode::Issue3) {
        Ok(()) => {},
        Err(e) => return Err(other_io_error(e)),
    }
    let last_page = Ula128MemFlags::from_bits_truncate(port_data).last_ram_page_bank();
    let first = sna128_first_banks(last_page);
    let mut i: usize = 0;
    while i < first.len()
        invariant
            first@ == spec_sna128_first_banks(last_page),
            last_page < 8,
        decreases first@.len() - i,
    {
        match loader.read_into_memory(bank_range(first[i]), &mut rd) {
            Ok(()) => {},
            Err(e) => return Err(e.into_io_error()),
        }
        i = i + 1;
    }
    let skip: i64 = if last_page == 5 || last_page == 2 {
        PAGE_SIZE as i64 + 4
    } else {
        4
    };
    match seek_current(&mut rd, skip) {
        Ok(_) => {},
        Err(e) => return Err(e),
    }
    let rest = sna128_rest_banks(last_page);
    let mut i: usize = 0;
    while i < rest.len()
        invariant
            forall|n: usize| rest@.contains(n) <==> spec_sna128_rest_bank(n, last_page),
        decreases rest@.len() - i,
    {
        let page = rest[i];
        assert(rest@[i as int] == page);
        assert(rest@.contains(page));
        assert(spec_sna128_rest_bank(page, last_page));
        match loader.read_into_memory(bank_range(page), &mut rd) {
            Ok(()) => {},
            Err(e) => return Err(e.into_io_error()),
        }
        i = i + 1;
    }
    loader.assign_cpu(CpuModel::NMOS(cpu));
    loader.write_port(0x7ffd, port_data);
    if trdos_rom == 1 {
        loader.tr_dos_rom_paged_in();
    }
    assert(spec_sna_header_valid(h));
    Ok(())
}

/// Whether `model` is saved as a 128k **SNA** file.
pub open spec fn spec_sna_is_128(model: ComputerModel) -> bool {
    match model {
        ComputerModel::Spectrum128 | ComputerModel::SpectrumPlus2 | ComputerModel::SpectrumPlus2A
        | ComputerModel::SpectrumPlus3 | ComputerModel::SpectrumPlus3e | ComputerModel::SpectrumSE => true,
        _ => false,
    }
}

/// Returns `true` if `model` is saved as a 128k **SNA** file, `false` if as a 48k one.
pub fn sna_is_128(model: ComputerModel) -> (r: bool)
    ensures
        r == spec_sna_is_128(model),
{
    match model {
        ComputerModel::Spectrum48 => false,
        ComputerModel::Spectrum128 => true,
        ComputerModel::SpectrumPlus2 | ComputerModel::SpectrumPlus2A | ComputerModel::SpectrumPlus3
        | ComputerModel::SpectrumPlus3e | ComputerModel::SpectrumSE => true,
        ComputerModel::Spectrum16 | ComputerModel::SpectrumNTSC | ComputerModel::TimexTC2048
        | ComputerModel::TimexTC2068 | ComputerModel::TimexTS2068 => false,
    }
}

/// `bit` when `c` holds, else no bit.
pub open spec fn spec_flag_if(c: bool, bit: u64) -> u64 {
    if c { bit } else { 0 }
}

fn flag_if(c: bool, bit: u64) -> (r: u64)
    ensures
        r == spec_flag_if(c, bit),
{
    if c { bit } else { 0 }
}

/// The flags of what an **SNA** file can't hold of a computer: the keyboard issue always, the
/// model unless it is the Spectrum 48k or 128k, the extensions unless there are none or TR-DOS
/// alone, the CPU unless it is an `NMOS` one, the joystick when there is one, the sound chip
/// when `sound_chip`.
pub open spec fn spec_sna_save_flags(model: ComputerModel, ext_bits: u64, nmos: bool, joystick: bool, sound_chip: bool) -> u64 {
    0x0010_0000u64
        | spec_flag_if(model != ComputerModel::Spectrum48 && model != ComputerModel::Spectrum128, 0x0000_0001)
        | spec_flag_if(ext_bits != 0 && ext_bits != 0x20, 0x0000_0010)
        | spec_flag_if(!nmos, 0x0000_0100)
        | spec_flag_if(joystick, 0x0000_1000)
        | spec_flag_if(sound_chip, 0x0001_0000)
}

/// Returns the flags of what an **SNA** file can't hold of a computer of `model`, with
/// `extensions`, the CPU `cpu`, a joystick when `joystick`, and a sound chip that the file
/// can't hold when `sound_chip`.
pub fn sna_save_result(model: ComputerModel, extensions: Extensions, cpu: &CpuModel, joystick: bool, sound_chip: bool) -> (r: SnapshotResult)
    ensures
        r.bits == spec_sna_save_flags(model, extensions.bits, *cpu is NMOS, joystick, sound_chip),
{
    let model_nsup = model != ComputerModel::Spectrum48 && model != ComputerModel::Spectrum128;
    let ext_nsup = extensions.bits != 0 && extensions.bits != 0x20;
    let nmos = match cpu {
        CpuModel::NMOS(_) => true,
        _ => false,
    };
    let bits = 0x0010_0000u64 | flag_if(model_nsup, 0x0000_0001) | flag_if(ext_nsup, 0x0000_0010)
        | flag_if(!nmos, 0x0000_0100) | flag_if(joystick, 0x0000_1000) | flag_if(sound_chip, 0x0001_0000);
    SnapshotResult { bits }
}

/// The stack slot where a 48k **SNA** file keeps the program counter of a CPU whose stack
/// pointer is `sp`: two bytes below it, wrapping, when that is in the RAM of a 16k computer
/// (`is_mem16k`) or of a 48k one, below its last byte.
pub open spec fn spec_sna48_stack_slot(sp: u16, is_mem16k: bool) -> Option<u16> {
    let slot = (if sp >= 2 { sp - 2 } else { sp + 0xFFFE }) as u16;
    let ramtop: u16 = if is_mem16k { 0x7FFF } else { 0xFFFF };
    if slot < 0x4000 || slot >= ramtop {
        None
    } else {
        Some(slot)
    }
}

/// Returns the stack slot where a 48k **SNA** file keeps the program counter.
pub fn sna48_stack_slot(sp: u16, is_mem16k: bool) -> (r: Option<u16>)
    ensures
        r == spec_sna48_stack_slot(sp, is_mem16k),
{
    let ramtop: u16 = if is_mem16k { 0x7FFF } else { 0xFFFF };
    let slot = sp.wrapping_sub(2);
    if slot < 0x4000 || slot >= ramtop {
        None
    } else {
        Some(slot)
    }
}

fn write_memory<C: SnapshotCreator, W: std::io::Write>(snapshot: &C, wr: &mut W, range: MemoryRange) -> (r: Result<(), std::io::Error>) {
    match snapshot.memory_ref(range) {
        Ok(mem) => write_all(wr, mem),
        Err(e) => Err(e.into_io_error()),
    }
}

/// A computer of `model`, with the extensions `ext`, the CPU `cpu`, a joystick when `joystick`
/// and a sound chip that the file can't hold when `chip`, is saved as an **SNA** file with the
/// result `res`: its CPU is not between a prefix and its instruction, a 48k file keeps the
/// program counter on the stack, and the result holds the flags of [spec_sna_save_flags].
pub open spec fn spec_sna_saved(model: ComputerModel, ext: u64, cpu: CpuModel, joystick: bool, chip: bool, res: SnapshotResult) -> bool {
    &&& !cpu.spec_state().after_prefix
    &&& !spec_sna_is_128(model) ==> spec_sna48_stack_slot(cpu.spec_state().sp, model == ComputerModel::Spectrum16) is Some
    &&& res.bits == spec_sna_save_flags(model, ext, cpu is NMOS, joystick, chip)
}

/// Saves a **SNA** file from the provided `snapshot` instance into `wr`.
///
/// A model of the Spectrum 128k family is saved as the 128k file, another as the 48k one. The
/// flags returned are those of [sna_save_result], for the sound chips of the 128k family, the
/// Melodik, the Fuller Box and the Timex ones.
///
/// # Errors
/// `InvalidInput` when the ROM of the ZX Interface 1 or of the MGT +D is paged in, or when the
/// CPU is between a prefix and its instruction; `InvalidData` when a 48k file can't keep the
/// program counter on the stack (see [spec_sna48_stack_slot]); the errors of the snapshot and of
/// the writer.
pub fn save_sna<C: SnapshotCreator, W: std::io::Write>(snapshot: &C, wr: W) -> (r: Result<SnapshotResult, std::io::Error>)
    ensures
        r matches Ok(res) ==> exists|model: ComputerModel, ext: u64, cpu: CpuModel, joystick: bool, chip: bool|
            #[trigger] spec_sna_saved(model, ext, cpu, joystick, chip, res),
{
    let mut wr = wr;
    let model = snapshot.model();
    let is_128 = sna_is_128(model);
    let extensions = snapshot.extensions();
    if extensions.intersects(Extensions::IF1()) && snapshot.is_interface1_rom_paged_in()
        || extensions.intersects(Extensions::PLUS_D()) && snapshot.is_plus_d_rom_paged_in() {
        return Err(new_io_error(IoErrorKind::InvalidInput, "SNA: can't create a snapshot with the external ROM paged in"));
    }
    let cpu_model = snapshot.cpu();
    let cpu = cpu_model.state();
    if !is_cpu_safe_for_snapshot(&cpu) {
        return Err(new_io_error(IoErrorKind::InvalidInput, "SNA: can't safely snapshot the CPU state"));
    }
    let mut sna = SnaHeader::from_cpu(&cpu);
    sna.border = u8::from(snapshot.border_color());
    let joystick = snapshot.joystick().is_some();
    let sound_chip = is_128 || snapshot.ay_state(Ay3_891xDevice::Melodik).is_some()
        || snapshot.ay_state(Ay3_891xDevice::FullerBox).is_some()
        || snapshot.ay_state(Ay3_891xDevice::Timex).is_some();
    let result = sna_save_result(model, extensions, &cpu_model, joystick, sound_chip);
    if !is_128 {
        let r = save_sna48(snapshot, &cpu, model == ComputerModel::Spectrum16, sna, wr, result);
        assert(r matches Ok(res) ==> spec_sna_saved(model, extensions.bits, cpu_model, joystick, sound_chip, res));
        return r;
    }
    let memflags = snapshot.ula128_flags();
    let trdos_rom: u8 = if extensions.intersects(Extensions::TR_DOS()) && snapshot.is_tr_dos_rom_paged_in() {
        1
    } else {
        0
    };
    let pc = le_bytes(cpu.pc);
    let ext: [u8; 4] = [pc[0], pc[1], memflags.bits, trdos_rom];
    let header = sna.to_bytes();
    match write_all(&mut wr, header.as_slice()) {
        Ok(()) => {},
        Err(e) => return Err(e),
    }
    let last_page = memflags.last_ram_page_bank();
    let index48: [usize; 3] = [5, 2, last_page];
    let mut i: usize = 0;
    while i < 3
        invariant
            index48@ == seq![5usize, 2usize, last_page],
            last_page < 8,
        decreases 3 - i,
    {
        match write_memory(snapshot, &mut wr, bank_range(index48[i])) {
            Ok(()) => {},
            Err(e) => return Err(e),
        }
        i = i + 1;
    }
    match write_all(&mut wr, ext.as_slice()) {
        Ok(()) => {},
        Err(e) => return Err(e),
    }
    let rest = sna128_rest_banks(last_page);
    let mut i: usize = 0;
    while i < rest.len()
        invariant
            forall|n: usize| rest@.contains(n) <==> spec_sna128_rest_bank(n, last_page),
        decreases rest@.len() - i,
    {
        let page = rest[i];
        assert(rest@[i as int] == page);
        assert(rest@.contains(page));
        assert(spec_sna128_rest_bank(page, last_page));
        match write_memory(snapshot, &mut wr, bank_range(page)) {
            Ok(()) => {},
            Err(e) => return Err(e),
        }
        i = i + 1;
    }
    match flush(&mut wr) {
        Ok(()) => {},
        Err(e) => return Err(e),
    }
    let r: Result<SnapshotResult, std::io::Error> = Ok(result);
    assert(r matches Ok(res) ==> spec_sna_saved(model, extensions.bits, cpu_model, joystick, sound_chip, res));
    r
}

fn save_sna48<C: SnapshotCreator, W: std::io::Write>(
    snapshot: &C,
    cpu: &CpuState,
    is_mem16k: bool,
    sna: SnaHeader,
    wr: W,
    result: SnapshotResult,
) -> (r: Result<SnapshotResult, std::io::Error>)
    ensures
        r matches Ok(res) ==> res == result,
        spec_sna48_stack_slot(cpu.sp, is_mem16k) is None ==> r is Err,
{
    let mut wr = wr;
    let mut sna = sna;
    let sp = match sna48_stack_slot(cpu.sp, is_mem16k) {
        Some(sp) => sp,
        None => return Err(new_io_error(IoErrorKind::InvalidData, "SNA: can't store the PC address")),
    };
    let ramtop: usize = if is_mem16k { 0x7FFF } else { 0xFFFF };
    sna.sp = le_bytes(sp);
    let header = sna.to_bytes();
    match write_all(&mut wr, header.as_slice()) {
        Ok(()) => {},
        Err(e) => return Err(e),
    }
    let pc = le_bytes(cpu.pc);
    let pc_offset = sp as usize - 0x4000;
    match write_memory(snapshot, &mut wr, MemoryRange::Ram(0..pc_offset)) {
        Ok(()) => {},
        Err(e) => return Err(e),
    }
    match write_all(&mut wr, pc.as_slice()) {
        Ok(()) => {},
        Err(e) => return Err(e),
    }
    match write_memory(snapshot, &mut wr, MemoryRange::Ram(pc_offset + 2..(ramtop + 1) - 0x4000)) {
        Ok(()) => {},
        Err(e) => return Err(e),
    }
    if is_mem16k {
        let mut pad: Vec<u8> = Vec::new();
        let mut n: usize = 0;
        while n < 0x8000
            invariant
                n <= 0x8000,
            decreases 0x8000 - n,
        {
            pad.push(0xFF);
            n = n + 1;
        }
        match write_all(&mut wr, pad.as_slice()) {
            Ok(()) => {},
            Err(e) => return Err(e),
        }
    }
    match flush(&mut wr) {
        Ok(()) => {},
        Err(e) => return Err(e),
    }
    Ok(result)
}

} // verus!
