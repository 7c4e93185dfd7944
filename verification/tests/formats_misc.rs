use std::convert::TryFrom;
use std::io::Cursor;

use spectrusty::formats::scr::{load_scr, save_scr, scr_bytes, scr_mode, scr_parts, LoadScr, ScrMode, ScreenDataProvider};
use spectrusty::formats::{exact_read_outcome, read_exact_or_none};
use spectrusty::formats::sna::{SnaHeader, SNA_LENGTH};
use spectrusty::formats::snapshot::InterruptMode;
use spectrusty::formats::tzx::TzxId;
use spectrusty::memory::{normalize_address_range, AddressBound, AddressRangeError, ZxMemoryError};
use spectrusty::peripherals::memory::zxinterface1::ZxInterface1MemExt;
use spectrusty::video::BorderColor;

struct Screens {
    mode: ScrMode,
    supported: bool,
    primary: [u8; 6912],
    secondary: [u8; 6912],
    palette: [u8; 64],
}

impl Screens {
    fn new(mode: ScrMode) -> Self {
        Screens { mode, supported: true, primary: [0; 6912], secondary: [0; 6912], palette: [0; 64] }
    }
}

impl ScreenDataProvider for Screens {
    fn get_screen_mode(&self) -> ScrMode {
        self.mode
    }
    fn set_screen_mode(&mut self, mode: ScrMode) -> bool {
        self.mode = mode;
        self.supported
    }
    fn screen_primary_ref(&self) -> &[u8; 6912] {
        &self.primary
    }
    fn screen_primary_mut(&mut self) -> &mut [u8; 6912] {
        &mut self.primary
    }
    fn screen_secondary_ref(&self) -> &[u8; 6912] {
        &self.secondary
    }
    fn screen_secondary_mut(&mut self) -> &mut [u8; 6912] {
        &mut self.secondary
    }
    fn screen_palette_ref(&self) -> &[u8; 64] {
        &self.palette
    }
    fn screen_palette_mut(&mut self) -> &mut [u8; 64] {
        &mut self.palette
    }
}

#[test]
fn scr_modes_by_size() {
    assert_eq!(scr_mode(6912, 0), Some(ScrMode::Classic(false)));
    assert_eq!(scr_mode(6976, 0), Some(ScrMode::Classic(true)));
    assert_eq!(scr_mode(12288, 0), Some(ScrMode::HighColor(false)));
    assert_eq!(scr_mode(12352, 0), Some(ScrMode::HighColor(true)));
    assert_eq!(scr_mode(12289, 0x38), Some(ScrMode::HighRes(0x38, false)));
    assert_eq!(scr_mode(12353, 0x10), Some(ScrMode::HighRes(0x10, true)));
    assert_eq!(scr_mode(6913, 0), None);
}

#[test]
fn scr_save_and_load_works() {
    for mode in [ScrMode::Classic(false), ScrMode::Classic(true), ScrMode::HighColor(false),
                 ScrMode::HighColor(true), ScrMode::HighRes(0x38, false), ScrMode::HighRes(0x18, true)] {
        let mut scr = Screens::new(mode);
        for (i, b) in scr.primary.iter_mut().enumerate() {
            *b = i as u8;
        }
        for (i, b) in scr.secondary.iter_mut().enumerate() {
            *b = (i * 7) as u8;
        }
        for (i, b) in scr.palette.iter_mut().enumerate() {
            *b = 255 - i as u8;
        }
        let mut file: Vec<u8> = Vec::new();
        save_scr(&scr, &mut file).unwrap();
        let mut loaded = Screens::new(ScrMode::Classic(false));
        loaded.load_scr(Cursor::new(file)).unwrap();
        assert_eq!(loaded.mode, mode);
        match mode {
            ScrMode::Classic(..) => assert_eq!(&loaded.primary[..], &scr.primary[..]),
            _ => {
                assert_eq!(&loaded.primary[..6144], &scr.primary[..6144]);
                assert_eq!(&loaded.secondary[..6144], &scr.secondary[..6144]);
            }
        }
        match mode {
            ScrMode::Classic(true) | ScrMode::HighColor(true) | ScrMode::HighRes(_, true) => {
                assert_eq!(loaded.palette, scr.palette)
            }
            _ => assert_eq!(loaded.palette, [0; 64]),
        }
    }
}

#[test]
fn scr_load_errors() {
    let mut scr = Screens::new(ScrMode::Classic(false));
    let err = load_scr(&mut scr, Cursor::new(vec![0u8; 100])).unwrap_err();
    assert_eq!(err.kind(), std::io::ErrorKind::InvalidData);
    scr.supported = false;
    let err = scr.load_scr(Cursor::new(vec![0u8; 6912])).unwrap_err();
    assert_eq!(err.kind(), std::io::ErrorKind::InvalidInput);
}

#[test]
fn sna_header_works() {
    let mut bytes: Vec<u8> = (1..=27).collect();
    bytes[19] = 0b0000_0100; // IFF2
    bytes[25] = 1; // IM 1
    bytes[26] = 2; // red border
    let header = SnaHeader::from_bytes(&bytes);
    assert_eq!(header.to_bytes(), bytes);
    let (cpu, border) = header.cpu().unwrap();
    assert_eq!(border, BorderColor::RED);
    assert_eq!(cpu.i, 1);
    assert_eq!(cpu.hl_alt, 0x0302);
    assert_eq!(cpu.af_alt, 0x0908);
    assert_eq!(cpu.ix, 0x1312);
    assert!(cpu.iff1);
    assert!(cpu.iff2);
    assert_eq!(cpu.pc, 0);
    assert_eq!(cpu.r, 21);
    assert_eq!(cpu.sp, 0x1918);
    assert_eq!(cpu.im, InterruptMode::Mode1);
    let again = SnaHeader::from_cpu(&cpu);
    let mut expected = bytes.clone();
    expected[26] = 0;
    assert_eq!(again.to_bytes(), expected);
    bytes[25] = 3;
    assert_eq!(SnaHeader::from_bytes(&bytes).cpu().unwrap_err().kind(), std::io::ErrorKind::InvalidData);
    bytes[25] = 2;
    bytes[26] = 8;
    assert_eq!(SnaHeader::from_bytes(&bytes).cpu().unwrap_err().kind(), std::io::ErrorKind::InvalidData);
    assert_eq!(SNA_LENGTH, 27 + 0xC000);
}

#[test]
fn tzx_ids_work() {
    assert_eq!(TzxId::try_from(0x10), Ok(TzxId::StandardSpeed));
    assert_eq!(TzxId::try_from(0x5A), Ok(TzxId::Glue));
    assert_eq!(TzxId::try_from(0x2B), Ok(TzxId::SetLevel));
    assert_eq!(TzxId::try_from(0x16), Err("Unknown TZX ID"));
    assert_eq!(u8::from(TzxId::CswRecording), 0x18);
    assert_eq!(u8::from(TzxId::Custom), 0x35);
}

#[test]
fn address_ranges_normalize() {
    let r = normalize_address_range(AddressBound::Included(0x4000), AddressBound::Included(0xFFFF), 0, 0xFFFF).unwrap();
    assert_eq!(r, 0x4000..0x10000);
    let r = normalize_address_range(AddressBound::Unbounded, AddressBound::Unbounded, 0x100, 0x7FFF).unwrap();
    assert_eq!(r, 0x100..0x8000);
    let r = normalize_address_range(AddressBound::Excluded(5), AddressBound::Excluded(0x8000), 0, 0x7FFF).unwrap();
    assert_eq!(r, 6..0x8000);
    assert_eq!(normalize_address_range(AddressBound::Included(0), AddressBound::Excluded(0x8001), 0, 0x7FFF),
               Err(AddressRangeError::EndBoundTooHigh));
    assert_eq!(normalize_address_range(AddressBound::Included(0x0FF), AddressBound::Unbounded, 0x100, 0x7FFF),
               Err(AddressRangeError::StartBoundTooLow));
    assert_eq!(normalize_address_range(AddressBound::Excluded(0x0FF), AddressBound::Unbounded, 0x100, 0x7FFF).unwrap(),
               0x100..0x8000);
    assert_eq!(ZxMemoryError::InvalidPageIndex.description(), Some("Memory page index is out of range"));
}

#[test]
fn interface1_rom_loads() {
    let mut ext = ZxInterface1MemExt::default();
    assert_eq!(ext.exrom().len(), 0);
    let rom: Vec<u8> = (0..0x2000).map(|i| i as u8).collect();
    ext.load_if1_rom(&rom[..]).unwrap();
    assert_eq!(ext.exrom().len(), 0x4000);
    assert_eq!(&ext.exrom()[..0x2000], &rom[..]);
    assert!(ext.exrom()[0x2000..].iter().all(|&b| b == 0xFF));
    assert!(ext.load_if1_rom(&rom[..100]).is_err());
    assert_eq!(ext.exrom().len(), 0x4000);
    ext.clear_exrom();
    assert_eq!(ext.exrom().len(), 0);
}

#[test]
fn scr_bytes_split_back_into_parts() {
    let primary: [u8; 6912] = core::array::from_fn(|i| i as u8);
    let secondary: [u8; 6912] = core::array::from_fn(|i| (i / 3) as u8);
    let palette: [u8; 64] = core::array::from_fn(|i| 200 - i as u8);
    let bytes = scr_bytes(ScrMode::HighRes(0x28, true), &primary, &secondary, &palette);
    assert_eq!(bytes.len(), 12353);
    assert_eq!(bytes[12288], 0x28);
    let parts = scr_parts(&bytes).unwrap();
    assert_eq!(parts.mode, ScrMode::HighRes(0x28, true));
    assert_eq!(&parts.primary[..], &primary[..6144]);
    assert_eq!(&parts.secondary[..], &secondary[..6144]);
    assert_eq!(&parts.palette[..], &palette[..]);
    let bytes = scr_bytes(ScrMode::Classic(false), &primary, &secondary, &palette);
    assert_eq!(&bytes[..], &primary[..]);
    let parts = scr_parts(&bytes).unwrap();
    assert_eq!(parts.mode, ScrMode::Classic(false));
    assert!(parts.secondary.is_empty() && parts.palette.is_empty());
    assert!(scr_parts(&bytes[1..]).is_none());
}

#[test]
fn read_exact_or_none_outcomes() {
    assert_eq!(exact_read_outcome(0, 3), Some(false));
    assert_eq!(exact_read_outcome(3, 3), Some(true));
    assert_eq!(exact_read_outcome(2, 3), None);
    let mut buf = [9u8; 3];
    assert!(!read_exact_or_none(&mut Cursor::new(Vec::<u8>::new()), &mut buf).unwrap());
    assert_eq!(buf, [9, 9, 9]);
    let err = read_exact_or_none(&mut Cursor::new(vec![1u8, 2]), &mut buf).unwrap_err();
    assert_eq!(err.kind(), std::io::ErrorKind::UnexpectedEof);
    assert!(read_exact_or_none(&mut Cursor::new(vec![1u8, 2, 3, 4]), &mut buf).unwrap());
    assert_eq!(buf, [1, 2, 3]);
}

#[test]
fn normalize_address_range_in_bounds_is_ok() {
    assert_eq!(normalize_address_range(AddressBound::Included(0x100), AddressBound::Included(0x7FFF), 0x100, 0x7FFF),
               Ok(0x100..0x8000));
}
