//! Memory API.
use vstd::prelude::*;

use core::ops::Range;
use std::rc::Rc;

pub mod extension;

pub use extension::{MemoryExtension, NoMemoryExtension};

use crate::formats::stream::{new_io_error, read_exact, IoErrorKind};

verus! {

pub const MEM16K_SIZE: usize = 0x4000;
pub const MEM32K_SIZE: usize = 2 * MEM16K_SIZE;
pub const MEM48K_SIZE: usize = 3 * MEM16K_SIZE;
pub const MEM64K_SIZE: usize = 4 * MEM16K_SIZE;
pub const MEM128K_SIZE: usize = 8 * MEM16K_SIZE;
pub const MEM8K_SIZE: usize = MEM16K_SIZE / 2;
pub const SCREEN_SIZE: u16 = 0x1B00;

/// Represents a single screen memory.
pub type ScreenArray = [u8; 6912];

/// Represents an external ROM as a shared pointer to a slice of bytes.
pub type ExRom = Rc<[u8]>;

/// The errors of the memory API.
#[derive(Debug)]
pub enum ZxMemoryError {
    InvalidPageIndex,
    InvalidBankIndex,
    UnsupportedAddressRange,
    UnsupportedExRomPaging,
    InvalidExRomSize,
    Io(std::io::Error),
}

impl ZxMemoryError {
    /// Describes the error; an I/O error is described by the error it holds.
    pub fn description(&self) -> (r: Option<&'static str>)
        ensures r is None <==> self is Io,
    {
        match self {
            ZxMemoryError::InvalidPageIndex => Some("Memory page index is out of range"),
            ZxMemoryError::InvalidBankIndex => Some("Memory bank index is out of range"),
            ZxMemoryError::UnsupportedAddressRange => Some("Address range is not supported"),
            ZxMemoryError::UnsupportedExRomPaging => Some("EX-ROM mapping is not supported"),
            ZxMemoryError::InvalidExRomSize => Some("EX-ROM size is smaller than the memory page size"),
            ZxMemoryError::Io(_) => None,
        }
    }

    /// Turns the error into an I/O error: the error an `Io` holds, else one of the kind
    /// `InvalidInput` with the description of the error.
    pub fn into_io_error(self) -> (r: std::io::Error)
        ensures
            (self matches ZxMemoryError::Io(e) ==> r == e),
    {
        match self {
            ZxMemoryError::Io(e) => e,
            ZxMemoryError::InvalidPageIndex => new_io_error(IoErrorKind::InvalidInput, "Memory page index is out of range"),
            ZxMemoryError::InvalidBankIndex => new_io_error(IoErrorKind::InvalidInput, "Memory bank index is out of range"),
            ZxMemoryError::UnsupportedAddressRange => new_io_error(IoErrorKind::InvalidInput, "Address range is not supported"),
            ZxMemoryError::UnsupportedExRomPaging => new_io_error(IoErrorKind::InvalidInput, "EX-ROM mapping is not supported"),
            ZxMemoryError::InvalidExRomSize => new_io_error(IoErrorKind::InvalidInput, "EX-ROM size is smaller than the memory page size"),
        }
    }
}

/// The kind of memory paged in.
#[derive(Clone, Copy, Debug, PartialEq, Eq, Structural)]
pub enum MemoryKind {
    Rom,
    Ram,
}

/// A type returned by [ZxMemory::page_index_at].
#[derive(Clone, Copy, Debug, PartialEq, Eq, Structural)]
pub struct MemPageOffset {
    /// A kind of memory bank switched in.
    pub kind: MemoryKind,
    /// A page index.
    pub index: u8,
    /// An offset into the page slice.
    pub offset: u16,
}

/// A slice of a memory page yielded by [ZxMemory::for_each_page_mut].
#[derive(Debug)]
pub enum PageMutSlice<'a> {
    Rom(&'a mut [u8]),
    Ram(&'a mut [u8]),
}

impl<'a> PageMutSlice<'a> {
    /// The bytes of the slice.
    pub open spec fn spec_bytes(&self) -> Seq<u8> {
        match self {
            PageMutSlice::Rom(slice) => slice@,
            PageMutSlice::Ram(slice) => slice@,
        }
    }

    /// Returns a mutable reference to the slice.
    pub fn as_mut_slice(&mut self) -> (r: &mut [u8])
        ensures
            r@ == old(self).spec_bytes(),
            final(self).spec_bytes() == final(r)@,
            (*final(self) is Rom) == (*old(self) is Rom),
    {
        match self {
            PageMutSlice::Rom(slice) => &mut **slice,
            PageMutSlice::Ram(slice) => &mut **slice,
        }
    }

    /// Returns a mutable reference to the slice if it is of ROM.
    pub fn as_mut_rom(&mut self) -> (r: Option<&mut [u8]>)
        ensures
            r is Some <==> *old(self) is Rom,
            r is Some ==> r->0@ == old(self).spec_bytes(),
    {
        match self {
            PageMutSlice::Rom(slice) => Some(&mut **slice),
            _ => None,
        }
    }

    /// Returns a mutable reference to the slice if it is of RAM.
    pub fn as_mut_ram(&mut self) -> (r: Option<&mut [u8]>)
        ensures
            r is Some <==> *old(self) is Ram,
            r is Some ==> r->0@ == old(self).spec_bytes(),
    {
        match self {
            PageMutSlice::Ram(slice) => Some(&mut **slice),
            _ => None,
        }
    }

    /// Returns the slice.
    pub fn into_mut_slice(self) -> (r: &'a mut [u8])
        ensures r@ == self.spec_bytes(),
    {
        match self {
            PageMutSlice::Rom(slice) => slice,
            PageMutSlice::Ram(slice) => slice,
        }
    }

    /// Returns `true` for a slice of ROM.
    pub fn is_rom(&self) -> (r: bool)
        ensures r == (self is Rom),
    {
        match self {
            PageMutSlice::Rom(..) => true,
            _ => false,
        }
    }

    /// Returns the slice if it is of ROM.
    pub fn into_mut_rom(self) -> (r: Option<&'a mut [u8]>)
        ensures
            r is Some <==> self is Rom,
            r is Some ==> r->0@ == self.spec_bytes(),
    {
        match self {
            PageMutSlice::Rom(slice) => Some(slice),
            _ => None,
        }
    }

    /// Returns `true` for a slice of RAM.
    pub fn is_ram(&self) -> (r: bool)
        ensures r == (self is Ram),
    {
        match self {
            PageMutSlice::Ram(..) => true,
            _ => false,
        }
    }

    /// Returns the slice if it is of RAM.
    pub fn into_mut_ram(self) -> (r: Option<&'a mut [u8]>)
        ensures
            r is Some <==> self is Ram,
            r is Some ==> r->0@ == self.spec_bytes(),
    {
        match self {
            PageMutSlice::Ram(slice) => Some(slice),
            _ => None,
        }
    }
}

/// A bound of an address range.
#[derive(Clone, Copy, Debug, PartialEq, Eq, Structural)]
pub enum AddressBound {
    Included(u16),
    Excluded(u16),
    Unbounded,
}

/// Why an address range was refused.
#[derive(Clone, Copy, Debug, PartialEq, Eq, Structural)]
pub enum AddressRangeError {
    StartBoundTooLow,
    EndBoundTooHigh,
}

/// The first address of a range starting at `start`, or `None` when below `min_inclusive`.
pub open spec fn spec_range_start(start: AddressBound, min_inclusive: u16) -> Option<int> {
    match start {
        AddressBound::Included(s) => if s < min_inclusive { None } else { Some(s as int) },
        AddressBound::Excluded(s) => if s < (if min_inclusive == 0 { 0 } else { min_inclusive - 1 }) {
            None
        } else {
            Some(s + 1)
        },
        AddressBound::Unbounded => Some(min_inclusive as int),
    }
}

/// The address past a range ending at `end`, or `None` when above `max_inclusive`.
pub open spec fn spec_range_end(end: AddressBound, max_inclusive: u16) -> Option<int> {
    match end {
        AddressBound::Included(e) => if e > max_inclusive { None } else { Some(e + 1) },
        AddressBound::Excluded(e) => if e > (if max_inclusive == u16::MAX { u16::MAX as int } else { max_inclusive + 1 }) {
            None
        } else {
            Some(e as int)
        },
        AddressBound::Unbounded => Some(max_inclusive + 1),
    }
}

/// Converts the bounds of an address range into the range of addresses it holds, checking that
/// they are within `[min_inclusive, max_inclusive]` (an excluded bound may stand one step beyond).
pub fn normalize_address_range(
    start: AddressBound,
    end: AddressBound,
    min_inclusive: u16,
    max_inclusive: u16,
) -> (r: Result<Range<usize>, AddressRangeError>)
    ensures
        spec_range_start(start, min_inclusive) is None ==> r == Err::<Range<usize>, AddressRangeError>(AddressRangeError::StartBoundTooLow),
        spec_range_start(start, min_inclusive) is Some && spec_range_end(end, max_inclusive) is None
            ==> r == Err::<Range<usize>, AddressRangeError>(AddressRangeError::EndBoundTooHigh),
        spec_range_start(start, min_inclusive) is Some && spec_range_end(end, max_inclusive) is Some
            ==> r is Ok,
        r is Ok ==> {
            &&& spec_range_start(start, min_inclusive) == Some(r->Ok_0.start as int)
            &&& spec_range_end(end, max_inclusive) == Some(r->Ok_0.end as int)
        },
{
    let first: usize = match start {
        AddressBound::Included(s) => if s < min_inclusive {
            return Err(AddressRangeError::StartBoundTooLow);
        } else {
            s as usize
        },
        AddressBound::Excluded(s) => if s < min_inclusive.saturating_sub(1) {
            return Err(AddressRangeError::StartBoundTooLow);
        } else {
            s as usize + 1
        },
        AddressBound::Unbounded => min_inclusive as usize,
    };
    let past: usize = match end {
        AddressBound::Included(e) => if e > max_inclusive {
            return Err(AddressRangeError::EndBoundTooHigh);
        } else {
            e as usize + 1
        },
        AddressBound::Excluded(e) => if e > max_inclusive.saturating_add(1) {
            return Err(AddressRangeError::EndBoundTooHigh);
        } else {
            e as usize
        },
        AddressBound::Unbounded => max_inclusive as usize + 1,
    };
    Ok(Range { start: first, end: past })
}


/// The page size as a 16-bit number, as addresses are divided by it.
pub open spec fn spec_page_size16(page_size: usize) -> int {
    (page_size % 0x10000) as int
}

/// The total length of the slices in `s`.
pub open spec fn spec_total_len(s: Seq<Seq<u8>>) -> int
    decreases s.len(),
{
    if s.len() == 0 {
        0
    } else {
        spec_total_len(s.drop_last()) + s.last().len()
    }
}

/// Adding a slice adds its length to the total.
pub proof fn lemma_total_len_push(s: Seq<Seq<u8>>, x: Seq<u8>)
    ensures
        spec_total_len(s.push(x)) == spec_total_len(s) + x.len(),
{
    assert(s.push(x).drop_last() =~= s);
}

/// A trait for interfacing ZX Spectrum's various memory types.
pub trait ZxMemory {
    /// This is just a hint. Actual page sizes may vary.
    const PAGE_SIZE: usize = 0x4000;
    /// The size of the whole ROM, not just one bank.
    const ROM_SIZE: usize;
    /// The last available memory address.
    const RAMTOP: u16;
    /// A maximum value allowed for a `page` argument.
    const PAGES_MAX: u8;
    /// A maximum value allowed for a `screen_bank` argument
    const SCR_BANKS_MAX: usize;
    /// A maximum value allowed for a `rom_bank` argument
    const ROM_BANKS_MAX: usize;
    /// A maximum value allowed for a `ram_bank` argument
    const RAM_BANKS_MAX: usize;

    /// The whole memory (all banks: ROM + RAM).
    spec fn spec_mem(&self) -> Seq<u8>;
    /// What kind of memory is paged at `page`.
    spec fn spec_page_kind(&self, page: u8) -> Result<MemoryKind, ZxMemoryError>;

    /// Resets memory banks.
    fn reset(&mut self);
    /// If `addr` is above `RAMTOP` the function should return [std::u8::MAX].
    fn read(&self, addr: u16) -> u8;
    /// If `addr` is above `RAMTOP` the function should return [std::u16::MAX].
    fn read16(&self, addr: u16) -> u16;
    /// Reads a byte from screen memory at the given `addr`.
    ///
    /// The screen banks are different from memory banks.
    /// E.g. for Spectrum 128k then screen bank `0` resides in a memory bank 5 and screen bank `1`
    /// resides in a memory bank 7. For 16k/48k Spectrum there is only one screen bank: `0`.
    ///
    /// `addr` is in screen address space (0 addresses the first byte of screen memory).
    fn read_screen(&self, screen_bank: usize, addr: u16) -> u8
        requires
            screen_bank <= Self::SCR_BANKS_MAX,
            addr < SCREEN_SIZE;
    /// If `addr` is above `RAMTOP` the function should do nothing.
    fn write(&mut self, addr: u16, val: u8);
    /// If addr is above `RAMTOP` the function should do nothing.
    fn write16(&mut self, addr: u16, val: u16);
    /// Provides a continuous view into the whole memory (all banks: ROM + RAM).
    fn mem_ref(&self) -> (r: &[u8])
        ensures
            r@ == self.spec_mem(),
            r@.len() >= Self::ROM_SIZE;
    /// Provides a continuous view into the whole memory (all banks: ROM + RAM).
    fn mem_mut(&mut self) -> (r: &mut [u8])
        ensures
            r@ == old(self).spec_mem(),
            r@.len() >= Self::ROM_SIZE,
            final(self).spec_mem() == final(r)@;
    /// Returns a reference to the screen memory.
    ///
    /// See [ZxMemory::read_screen] for an explanation of `screen_bank` argument.
    fn screen_ref(&self, screen_bank: usize) -> Result<&ScreenArray, ZxMemoryError>;
    /// Returns a mutable reference to the screen memory.
    ///
    /// See [ZxMemory::read_screen] for an explanation of `screen_bank` argument.
    fn screen_mut(&mut self, screen_bank: usize) -> Result<&mut ScreenArray, ZxMemoryError>;
    /// Returns an enum describing what kind of memory is currently paged at the specified `page`.
    ///
    /// If an EX-ROM bank is currently mapped at the specified `page` a [MemoryKind::Rom] will be returned
    /// in this instance.
    ///
    /// `page` should be less or equal to PAGES_MAX.
    fn page_kind(&self, page: u8) -> (r: Result<MemoryKind, ZxMemoryError>)
        ensures r == self.spec_page_kind(page);
    /// Returns a tuple of an enum describing what kind of memory and which bank of that memory is
    /// currently paged at the specified `page`.
    ///
    /// Unlike [ZxMemory::page_kind] this method ignores if an EX-ROM bank is currently mapped at the
    /// specified `page`.
    fn page_bank(&self, page: u8) -> Result<(MemoryKind, usize), ZxMemoryError>;
    /// `page` should be less or equal to PAGES_MAX.
    fn page_ref(&self, page: u8) -> Result<&[u8], ZxMemoryError>;
    /// `page` should be less or equal to PAGES_MAX.
    fn page_mut(&mut self, page: u8) -> Result<&mut [u8], ZxMemoryError>;
    /// `rom_bank` should be less or equal to `ROM_BANKS_MAX`.
    fn rom_bank_ref(&self, rom_bank: usize) -> Result<&[u8], ZxMemoryError>;
    /// `rom_bank` should be less or equal to `ROM_BANKS_MAX`.
    fn rom_bank_mut(&mut self, rom_bank: usize) -> Result<&mut [u8], ZxMemoryError>;
    /// `ram_bank` should be less or equal to `RAM_BANKS_MAX`.
    fn ram_bank_ref(&self, ram_bank: usize) -> Result<&[u8], ZxMemoryError>;
    /// `ram_bank` should be less or equal to `RAM_BANKS_MAX`.
    fn ram_bank_mut(&mut self, ram_bank: usize) -> Result<&mut [u8], ZxMemoryError>;
    /// `rom_bank` should be less or equal to `ROM_BANKS_MAX` and `page` should be less or equal to PAGES_MAX.
    fn map_rom_bank(&mut self, rom_bank: usize, page: u8) -> Result<(), ZxMemoryError>;
    /// Maps EX-ROM bank at the specified `page`.
    ///
    /// Only one EX-ROM can be mapped at the same time. If an EX-ROM bank is already mapped when calling
    /// this function it will be unmapped first, regardless of the page the previous EX-ROM bank has been
    /// mapped at.
    ///
    /// Not all types of memory support attaching external ROMs: by default this method fails.
    fn map_exrom(&mut self, exrom_bank: ExRom, page: u8) -> (r: Result<(), ZxMemoryError>)
        default_ensures
            r matches Err(ZxMemoryError::UnsupportedExRomPaging),
    {
        Err(ZxMemoryError::UnsupportedExRomPaging)
    }
    /// Unmaps an external ROM if the currently mapped EX-ROM bank is the same as in the argument.
    /// Otherwise does nothing.
    fn unmap_exrom(&mut self, exrom_bank: &ExRom) {
    }
    /// Returns `true` if an EX-ROM bank is currently being mapped at the specified memory `page`.
    fn is_exrom_at(&mut self, page: u8) -> (r: bool)
        default_ensures
            !r,
    {
        false
    }
    /// Returns `true` if a specified EX-ROM bank is currently being mapped.
    fn has_mapped_exrom(&mut self, exrom_bank: &ExRom) -> (r: bool)
        default_ensures
            !r,
    {
        false
    }
    /// `ram_bank` should be less or equal to `RAM_BANKS_MAX` and `page` should be less or equal to PAGES_MAX.
    fn map_ram_bank(&mut self, ram_bank: usize, page: u8) -> Result<(), ZxMemoryError>;
    /// Returns the kind and the index of the page holding `address`, and the offset of `address`
    /// into it, when the kind of the page is known.
    fn page_index_at(&self, address: u16) -> (r: Result<MemPageOffset, ZxMemoryError>)
        requires
            spec_page_size16(Self::PAGE_SIZE) != 0,
        ensures
            r == (match self.spec_page_kind(((address as int) / spec_page_size16(Self::PAGE_SIZE)) as u8) {
                Ok(kind) => Ok(MemPageOffset {
                    kind,
                    index: ((address as int) / spec_page_size16(Self::PAGE_SIZE)) as u8,
                    offset: ((address as int) % spec_page_size16(Self::PAGE_SIZE)) as u16,
                }),
                Err(e) => Err(e),
            }),
    {
        let page_size: u16 = (Self::PAGE_SIZE % 0x10000) as u16;
        let index = (address / page_size) as u8;
        let offset = address % page_size;
        match self.page_kind(index) {
            Ok(kind) => Ok(MemPageOffset { kind, index, offset }),
            Err(e) => Err(e),
        }
    }
    /// Provides a continuous view into the ROM memory (all banks).
    fn rom_ref(&self) -> (r: &[u8])
        ensures
            r@ == self.spec_mem().subrange(0, Self::ROM_SIZE as int),
    {
        vstd::slice::slice_subrange(self.mem_ref(), 0, Self::ROM_SIZE)
    }
    /// Provides a continuous mutable view into the ROM memory (all banks).
    fn rom_mut(&mut self) -> (r: &mut [u8])
        ensures
            old(self).spec_mem().len() >= Self::ROM_SIZE,
            r@ == old(self).spec_mem().subrange(0, Self::ROM_SIZE as int),
            final(self).spec_mem() == final(r)@ + old(self).spec_mem().subrange(Self::ROM_SIZE as int, old(self).spec_mem().len() as int),
    {
        let mem = self.mem_mut();
        let (rom, _ram) = mem.split_at_mut(Self::ROM_SIZE);
        rom
    }
    /// Provides a continuous view into the RAM memory (all banks).
    fn ram_ref(&self) -> (r: &[u8])
        ensures
            r@ == self.spec_mem().subrange(Self::ROM_SIZE as int, self.spec_mem().len() as int),
    {
        let mem = self.mem_ref();
        vstd::slice::slice_subrange(mem, Self::ROM_SIZE, mem.len())
    }
    /// Provides a continuous mutable view into the RAM memory (all banks).
    fn ram_mut(&mut self) -> (r: &mut [u8])
        ensures
            r@ == old(self).spec_mem().subrange(Self::ROM_SIZE as int, old(self).spec_mem().len() as int),
            final(self).spec_mem() == old(self).spec_mem().subrange(0, Self::ROM_SIZE as int) + final(r)@,
    {
        let mem = self.mem_mut();
        let (_rom, ram) = mem.split_at_mut(Self::ROM_SIZE);
        ram
    }
    /// The data read depends on how big ROM is [ZxMemory::ROM_SIZE].
    /// Results in an error when the rom data size is less than the `ROM_SIZE`.
    fn load_into_rom<R: std::io::Read>(&mut self, rd: R) -> (r: Result<(), ZxMemoryError>)
        ensures
            r is Err ==> r matches Err(ZxMemoryError::Io(_)),
            final(self).spec_mem().len() == old(self).spec_mem().len(),
            final(self).spec_mem().subrange(Self::ROM_SIZE as int, final(self).spec_mem().len() as int)
                == old(self).spec_mem().subrange(Self::ROM_SIZE as int, old(self).spec_mem().len() as int),
    {
        let mut rd = rd;
        let ghost mem0 = self.spec_mem();
        let slice = self.rom_mut();
        let res = read_exact(&mut rd, slice);
        proof {
            let m = self.spec_mem();
            assert(m.subrange(Self::ROM_SIZE as int, m.len() as int) =~= mem0.subrange(Self::ROM_SIZE as int, mem0.len() as int));
        }
        match res {
            Ok(()) => Ok(()),
            Err(e) => Err(ZxMemoryError::Io(e)),
        }
    }
    /// Returns the memory page slices intersecting with the address range from `start` to `end`,
    /// in the order of their addresses.
    ///
    /// A page that cannot be told apart or referenced ends the walk with its error, and a page
    /// too short to hold the next address with [ZxMemoryError::UnsupportedAddressRange].
    ///
    /// # Errors
    /// May return an [ZxMemoryError::UnsupportedAddressRange].
    fn iter_pages(&self, start: AddressBound, end: AddressBound) -> (r: Result<Vec<&[u8]>, ZxMemoryError>)
        requires
            spec_page_size16(Self::PAGE_SIZE) != 0,
        ensures
            spec_range_end(end, Self::RAMTOP) is None ==> r matches Err(ZxMemoryError::UnsupportedAddressRange),
            r is Ok ==> {
                let first = spec_range_start(start, 0)->0;
                let past = spec_range_end(end, Self::RAMTOP)->0;
                &&& spec_total_len(r->Ok_0@.map_values(|p: &[u8]| p@)) == (if past > first { past - first } else { 0 })
                &&& forall|i: int| 0 <= i < r->Ok_0@.len() ==> (#[trigger] r->Ok_0@[i])@.len() > 0
            },
    {
        let range = match normalize_address_range(start, end, 0, Self::RAMTOP) {
            Ok(range) => range,
            Err(_) => return Err(ZxMemoryError::UnsupportedAddressRange),
        };
        let first = range.start;
        let past = range.end;
        let mut cursor = first;
        let mut pages: Vec<&[u8]> = Vec::new();
        proof {
            assert(pages@.map_values(|p: &[u8]| p@) =~= Seq::<Seq<u8>>::empty());
        }
        while cursor < past
            invariant
                first <= past ==> first <= cursor <= past,
                first > past ==> cursor == first,
                past <= 0x10000,
                spec_page_size16(Self::PAGE_SIZE) != 0,
                spec_range_start(start, 0) == Some(first as int),
                spec_range_end(end, Self::RAMTOP) == Some(past as int),
                spec_total_len(pages@.map_values(|p: &[u8]| p@)) == (if cursor > first { cursor - first } else { 0 }),
                forall|i: int| 0 <= i < pages@.len() ==> (#[trigger] pages@[i])@.len() > 0,
            decreases past - cursor,
        {
            let pg = match self.page_index_at(cursor as u16) {
                Ok(pg) => pg,
                Err(e) => return Err(e),
            };
            let offset = pg.offset as usize;
            let page = match self.page_ref(pg.index) {
                Ok(page) => page,
                Err(e) => return Err(e),
            };
            let read_len = past - cursor;
            let read_end = if page.len() < offset + read_len { page.len() } else { offset + read_len };
            if read_end <= offset {
                return Err(ZxMemoryError::UnsupportedAddressRange);
            }
            let read_page = vstd::slice::slice_subrange(page, offset, read_end);
            let ghost before = pages@;
            pages.push(read_page);
            proof {
                assert(pages@.map_values(|p: &[u8]| p@) =~= before.map_values(|p: &[u8]| p@).push(read_page@));
                lemma_total_len_push(before.map_values(|p: &[u8]| p@), read_page@);
            }
            cursor = cursor + (read_end - offset);
        }
        Ok(pages)
    }
    /// Iterates over mutable memory page slices [PageMutSlice] intersecting with the address range
    /// from `start` to `end`, passing the slices to the closure `f`.
    ///
    /// A page that cannot be told apart or referenced ends the walk with its error, and a page
    /// too short to hold the next address with [ZxMemoryError::UnsupportedAddressRange].
    ///
    /// # Errors
    /// May return an [ZxMemoryError::UnsupportedAddressRange] or an error returned by the provided closure.
    fn for_each_page_mut<F>(&mut self, start: AddressBound, end: AddressBound, f: F) -> (r: Result<(), ZxMemoryError>)
        where F: for<'a> FnMut(PageMutSlice<'a>) -> Result<(), ZxMemoryError>,
        requires
            spec_page_size16(Self::PAGE_SIZE) != 0,
            forall|p: PageMutSlice| call_requires(f, (p,)),
        ensures
            spec_range_end(end, Self::RAMTOP) is None ==> r matches Err(ZxMemoryError::UnsupportedAddressRange),
    {
        let mut f = f;
        let range = match normalize_address_range(start, end, 0, Self::RAMTOP) {
            Ok(range) => range,
            Err(_) => return Err(ZxMemoryError::UnsupportedAddressRange),
        };
        let first = range.start;
        let past = range.end;
        let mut cursor = first;
        while cursor < past
            invariant
                first <= past ==> first <= cursor <= past,
                first > past ==> cursor == first,
                past <= 0x10000,
                spec_page_size16(Self::PAGE_SIZE) != 0,
                spec_range_end(end, Self::RAMTOP) == Some(past as int),
                forall|p: PageMutSlice| call_requires(f, (p,)),
            decreases past - cursor,
        {
            let pg = match self.page_index_at(cursor as u16) {
                Ok(pg) => pg,
                Err(e) => return Err(e),
            };
            let offset = pg.offset as usize;
            let page = match self.page_mut(pg.index) {
                Ok(page) => page,
                Err(e) => return Err(e),
            };
            let read_len = past - cursor;
            let read_end = if page.len() < offset + read_len { page.len() } else { offset + read_len };
            if read_end <= offset {
                return Err(ZxMemoryError::UnsupportedAddressRange);
            }
            let (_head, tail) = page.split_at_mut(offset);
            let (read_page, _rest) = tail.split_at_mut(read_end - offset);
            let slice = match pg.kind {
                MemoryKind::Rom => PageMutSlice::Rom(read_page),
                MemoryKind::Ram => PageMutSlice::Ram(read_page),
            };
            match f(slice) {
                Ok(()) => {},
                Err(e) => return Err(e),
            }
            cursor = cursor + (read_end - offset);
        }
        Ok(())
    }
    /// Reads data into a paged-in memory area at the address range from `start` to `end`.
    ///
    /// The pages are walked as [ZxMemory::for_each_page_mut] walks them.
    fn load_into_mem<R: std::io::Read>(&mut self, start: AddressBound, end: AddressBound, rd: R) -> (r: Result<(), ZxMemoryError>)
        requires
            spec_page_size16(Self::PAGE_SIZE) != 0,
        ensures
            spec_range_end(end, Self::RAMTOP) is None ==> r matches Err(ZxMemoryError::UnsupportedAddressRange),
    {
        let mut rd = rd;
        let range = match normalize_address_range(start, end, 0, Self::RAMTOP) {
            Ok(range) => range,
            Err(_) => return Err(ZxMemoryError::UnsupportedAddressRange),
        };
        let first = range.start;
        let past = range.end;
        let mut cursor = first;
        while cursor < past
            invariant
                first <= past ==> first <= cursor <= past,
                first > past ==> cursor == first,
                past <= 0x10000,
                spec_page_size16(Self::PAGE_SIZE) != 0,
                spec_range_end(end, Self::RAMTOP) == Some(past as int),
            decreases past - cursor,
        {
            let pg = match self.page_index_at(cursor as u16) {
                Ok(pg) => pg,
                Err(e) => return Err(e),
            };
            let offset = pg.offset as usize;
            let page = match self.page_mut(pg.index) {
                Ok(page) => page,
                Err(e) => return Err(e),
            };
            let read_len = past - cursor;
            let read_end = if page.len() < offset + read_len { page.len() } else { offset + read_len };
            if read_end <= offset {
                return Err(ZxMemoryError::UnsupportedAddressRange);
            }
            let (_head, tail) = page.split_at_mut(offset);
            let (read_page, _rest) = tail.split_at_mut(read_end - offset);
            match read_exact(&mut rd, read_page) {
                Ok(()) => {},
                Err(e) => return Err(ZxMemoryError::Io(e)),
            }
            cursor = cursor + (read_end - offset);
        }
        Ok(())
    }
    /// Fills currently paged-in pages at the address range from `start` to `end` with the data
    /// produced by the closure `f`. Usefull to fill RAM with random bytes.
    ///
    /// *NOTE*: this will overwrite both ROM and RAM locations.
    ///
    /// The pages are walked as [ZxMemory::for_each_page_mut] walks them.
    fn fill_mem<F: FnMut() -> u8>(&mut self, start: AddressBound, end: AddressBound, f: F) -> (r: Result<(), ZxMemoryError>)
        requires
            spec_page_size16(Self::PAGE_SIZE) != 0,
            call_requires(f, ()),
        ensures
            spec_range_end(end, Self::RAMTOP) is None ==> r matches Err(ZxMemoryError::UnsupportedAddressRange),
    {
        let mut f = f;
        let range = match normalize_address_range(start, end, 0, Self::RAMTOP) {
            Ok(range) => range,
            Err(_) => return Err(ZxMemoryError::UnsupportedAddressRange),
        };
        let first = range.start;
        let past = range.end;
        let mut cursor = first;
        while cursor < past
            invariant
                first <= past ==> first <= cursor <= past,
                first > past ==> cursor == first,
                past <= 0x10000,
                spec_page_size16(Self::PAGE_SIZE) != 0,
                spec_range_end(end, Self::RAMTOP) == Some(past as int),
                call_requires(f, ()),
            decreases past - cursor,
        {
            let pg = match self.page_index_at(cursor as u16) {
                Ok(pg) => pg,
                Err(e) => return Err(e),
            };
            let offset = pg.offset as usize;
            let page = match self.page_mut(pg.index) {
                Ok(page) => page,
                Err(e) => return Err(e),
            };
            let read_len = past - cursor;
            let read_end = if page.len() < offset + read_len { page.len() } else { offset + read_len };
            if read_end <= offset {
                return Err(ZxMemoryError::UnsupportedAddressRange);
            }
            let mut k = offset;
            while k < read_end
                invariant
                    offset <= k <= read_end <= page@.len(),
                    call_requires(f, ()),
                decreases read_end - k,
            {
                let b = f();
                page[k] = b;
                k = k + 1;
            }
            cursor = cursor + (read_end - offset);
        }
        Ok(())
    }
    /// Results in an error when the rom data size is less than the rom bank's size.
    fn load_into_rom_bank<R: std::io::Read>(&mut self, rom_bank: usize, rd: R) -> (r: Result<(), ZxMemoryError>) {
        let mut rd = rd;
        match self.rom_bank_mut(rom_bank) {
            Ok(slice) => match read_exact(&mut rd, slice) {
                Ok(()) => Ok(()),
                Err(e) => Err(ZxMemoryError::Io(e)),
            },
            Err(e) => Err(e),
        }
    }
}

} // verus!
