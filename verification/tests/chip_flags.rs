use spectrusty::chip::flags::{EarMic, UlaPortFlags, Ula128MemFlags, Ula3CtrlFlags, Ula3Paging, ScldCtrlFlags, UlaPlusRegFlags};

#[test]
fn earmic_flags_works() {
    assert_eq!(EarMic::from(UlaPortFlags::EAR_MIC_MASK()), EarMic::EARMIC());
    assert_eq!(EarMic::from(UlaPortFlags::MIC_OUT()), EarMic::MIC());
    assert_eq!(EarMic::from(UlaPortFlags::EAR_OUT()), EarMic::EAR());
    assert_eq!(EarMic::from(!UlaPortFlags::EAR_MIC_MASK()), EarMic::empty());
}

#[test]
fn ula128mem_flags_works() {
    let flags = (Ula128MemFlags::ROM_BANK()).with_last_ram_page_bank(usize::MAX);
    assert_eq!(flags, Ula128MemFlags::ROM_BANK()|Ula128MemFlags::RAM_BANK_MASK());
    assert_eq!(flags.last_ram_page_bank(), 7);
    let flags = Ula128MemFlags::empty().with_last_ram_page_bank(usize::MAX);
    assert_eq!(flags, Ula128MemFlags::RAM_BANK_MASK());
    assert_eq!(flags.last_ram_page_bank(), 7);
    let flags = Ula128MemFlags::empty().with_last_ram_page_bank(0);
    assert_eq!(flags, Ula128MemFlags::empty());
    assert_eq!(flags.last_ram_page_bank(), 0);
    let flags = Ula128MemFlags::all().with_last_ram_page_bank(usize::MAX);
    assert_eq!(flags, Ula128MemFlags::all());
    assert_eq!(flags.last_ram_page_bank(), 7);
    let flags = Ula128MemFlags::all().with_last_ram_page_bank(0);
    assert_eq!(flags, Ula128MemFlags::SCREEN_BANK()|Ula128MemFlags::ROM_BANK()|Ula128MemFlags::LOCK_MMU());
    assert_eq!(flags.last_ram_page_bank(), 0);
    let flags = Ula128MemFlags::all().with_last_ram_page_bank(1);
    assert_eq!(flags, Ula128MemFlags::SCREEN_BANK()|Ula128MemFlags::ROM_BANK()|Ula128MemFlags::LOCK_MMU()|Ula128MemFlags::RAM_BANK0());
    assert_eq!(flags.last_ram_page_bank(), 1);
    let flags = Ula128MemFlags::all().with_last_ram_page_bank(2);
    assert_eq!(flags, Ula128MemFlags::SCREEN_BANK()|Ula128MemFlags::ROM_BANK()|Ula128MemFlags::LOCK_MMU()|Ula128MemFlags::RAM_BANK1());
    assert_eq!(flags.last_ram_page_bank(), 2);
    let flags = Ula128MemFlags::all().with_last_ram_page_bank(3);
    assert_eq!(flags, Ula128MemFlags::SCREEN_BANK()|Ula128MemFlags::ROM_BANK()|Ula128MemFlags::LOCK_MMU()|Ula128MemFlags::RAM_BANK1()|Ula128MemFlags::RAM_BANK0());
    assert_eq!(flags.last_ram_page_bank(), 3);
    let flags = Ula128MemFlags::all().with_last_ram_page_bank(4);
    assert_eq!(flags, Ula128MemFlags::SCREEN_BANK()|Ula128MemFlags::ROM_BANK()|Ula128MemFlags::LOCK_MMU()|Ula128MemFlags::RAM_BANK2());
    assert_eq!(flags.last_ram_page_bank(), 4);
}

#[test]
fn ula3ctrl_flags_works() {
    assert_eq!(!Ula3CtrlFlags::PAGE_LAYOUT_MASK(), Ula3CtrlFlags::EXT_PAGING()|Ula3CtrlFlags::DISC_MOTOR()|Ula3CtrlFlags::PRINTER_STROBE());
    assert_eq!(Ula3CtrlFlags::empty().with_special_paging(Ula3Paging::Banks0123), Ula3CtrlFlags::EXT_PAGING()|Ula3CtrlFlags::PAGE_LAYOUT0());
    assert_eq!(Ula3CtrlFlags::empty().with_special_paging(Ula3Paging::Banks4567), Ula3CtrlFlags::EXT_PAGING()|Ula3CtrlFlags::PAGE_LAYOUT1());
    assert_eq!(Ula3CtrlFlags::empty().with_special_paging(Ula3Paging::Banks4563), Ula3CtrlFlags::EXT_PAGING()|Ula3CtrlFlags::PAGE_LAYOUT2());
    assert_eq!(Ula3CtrlFlags::empty().with_special_paging(Ula3Paging::Banks4763), Ula3CtrlFlags::EXT_PAGING()|Ula3CtrlFlags::PAGE_LAYOUT3());
    assert_eq!(Ula3CtrlFlags::all().with_special_paging(Ula3Paging::Banks0123), Ula3CtrlFlags::EXT_PAGING()|Ula3CtrlFlags::PAGE_LAYOUT0()|Ula3CtrlFlags::DISC_MOTOR()|Ula3CtrlFlags::PRINTER_STROBE());
    assert_eq!(Ula3CtrlFlags::all().with_special_paging(Ula3Paging::Banks4567), Ula3CtrlFlags::EXT_PAGING()|Ula3CtrlFlags::PAGE_LAYOUT1()|Ula3CtrlFlags::DISC_MOTOR()|Ula3CtrlFlags::PRINTER_STROBE());
    assert_eq!(Ula3CtrlFlags::all().with_special_paging(Ula3Paging::Banks4563), Ula3CtrlFlags::EXT_PAGING()|Ula3CtrlFlags::PAGE_LAYOUT2()|Ula3CtrlFlags::DISC_MOTOR()|Ula3CtrlFlags::PRINTER_STROBE());
    assert_eq!(Ula3CtrlFlags::all().with_special_paging(Ula3Paging::Banks4763), Ula3CtrlFlags::EXT_PAGING()|Ula3CtrlFlags::PAGE_LAYOUT3()|Ula3CtrlFlags::DISC_MOTOR()|Ula3CtrlFlags::PRINTER_STROBE());
    assert_eq!(Ula3CtrlFlags::empty().with_rom_page_bank_hi(0), Ula3CtrlFlags::empty());
    assert_eq!(Ula3CtrlFlags::empty().with_rom_page_bank_hi(1), Ula3CtrlFlags::empty());
    assert_eq!(Ula3CtrlFlags::empty().with_rom_page_bank_hi(2), Ula3CtrlFlags::ROM_BANK_HI());
    assert_eq!(Ula3CtrlFlags::empty().with_rom_page_bank_hi(3), Ula3CtrlFlags::ROM_BANK_HI());
    assert_eq!(Ula3CtrlFlags::empty().with_rom_page_bank_hi(usize::MAX), Ula3CtrlFlags::ROM_BANK_HI());
    assert_eq!(Ula3CtrlFlags::all().with_rom_page_bank_hi(0), Ula3CtrlFlags::PAGE_LAYOUT1()|Ula3CtrlFlags::DISC_MOTOR()|Ula3CtrlFlags::PRINTER_STROBE());
    assert_eq!(Ula3CtrlFlags::all().with_rom_page_bank_hi(1), Ula3CtrlFlags::PAGE_LAYOUT1()|Ula3CtrlFlags::DISC_MOTOR()|Ula3CtrlFlags::PRINTER_STROBE());
    assert_eq!(Ula3CtrlFlags::all().with_rom_page_bank_hi(2), Ula3CtrlFlags::ROM_BANK_HI()|Ula3CtrlFlags::PAGE_LAYOUT1()|Ula3CtrlFlags::DISC_MOTOR()|Ula3CtrlFlags::PRINTER_STROBE());
    assert_eq!(Ula3CtrlFlags::all().with_rom_page_bank_hi(3), Ula3CtrlFlags::ROM_BANK_HI()|Ula3CtrlFlags::PAGE_LAYOUT1()|Ula3CtrlFlags::DISC_MOTOR()|Ula3CtrlFlags::PRINTER_STROBE());
    assert_eq!(Ula3CtrlFlags::all().with_rom_page_bank_hi(usize::MAX), Ula3CtrlFlags::ROM_BANK_HI()|Ula3CtrlFlags::PAGE_LAYOUT1()|Ula3CtrlFlags::DISC_MOTOR()|Ula3CtrlFlags::PRINTER_STROBE());
    assert_eq!((Ula3CtrlFlags::ROM_BANK_HI()|Ula3CtrlFlags::PAGE_LAYOUT1()|Ula3CtrlFlags::DISC_MOTOR()|Ula3CtrlFlags::PRINTER_STROBE()).rom_page_bank_hi(), 2);
    assert_eq!((Ula3CtrlFlags::PAGE_LAYOUT1()|Ula3CtrlFlags::DISC_MOTOR()|Ula3CtrlFlags::PRINTER_STROBE()).rom_page_bank_hi(), 0);
    assert_eq!(Ula3CtrlFlags::empty().special_paging(), None);
    assert_eq!(Ula3CtrlFlags::all().with_rom_page_bank_hi(0).special_paging(), None);
    assert_eq!((Ula3CtrlFlags::EXT_PAGING()|Ula3CtrlFlags::PAGE_LAYOUT0()|Ula3CtrlFlags::DISC_MOTOR()|Ula3CtrlFlags::PRINTER_STROBE()).special_paging(), Some(Ula3Paging::Banks0123));
    assert_eq!((Ula3CtrlFlags::EXT_PAGING()|Ula3CtrlFlags::PAGE_LAYOUT1()|Ula3CtrlFlags::DISC_MOTOR()|Ula3CtrlFlags::PRINTER_STROBE()).special_paging(), Some(Ula3Paging::Banks4567));
    assert_eq!((Ula3CtrlFlags::EXT_PAGING()|Ula3CtrlFlags::PAGE_LAYOUT2()|Ula3CtrlFlags::DISC_MOTOR()|Ula3CtrlFlags::PRINTER_STROBE()).special_paging(), Some(Ula3Paging::Banks4563));
    assert_eq!((Ula3CtrlFlags::EXT_PAGING()|Ula3CtrlFlags::PAGE_LAYOUT3()|Ula3CtrlFlags::DISC_MOTOR()|Ula3CtrlFlags::PRINTER_STROBE()).special_paging(), Some(Ula3Paging::Banks4763));
}

#[test]
fn scld_flags_works() {
    assert_eq!(ScldCtrlFlags::empty().into_plus_mode(), UlaPlusRegFlags::MODE_GROUP());
    assert_eq!(ScldCtrlFlags::all().into_plus_mode(), UlaPlusRegFlags::PALETTE_MASK()|UlaPlusRegFlags::MODE_GROUP());
    assert_eq!(ScldCtrlFlags::empty().hires_color_index(), 0);
    assert_eq!(ScldCtrlFlags::all().hires_color_index(), 7);
    assert_eq!(ScldCtrlFlags::HIRES_COLOR0().hires_color_index(), 1);
    assert_eq!(ScldCtrlFlags::HIRES_COLOR1().hires_color_index(), 2);
    assert_eq!(ScldCtrlFlags::HIRES_COLOR2().hires_color_index(), 4);
}

#[test]
fn ula_plus_flags_works() {
    assert_eq!(UlaPlusRegFlags::empty().palette_group(), Some(0));
    assert_eq!(UlaPlusRegFlags::all().palette_group(), None);
    for n in 0..63 {
        assert_eq!(UlaPlusRegFlags::from_bits_retain(n).palette_group(), Some(n));
        assert_eq!(UlaPlusRegFlags::from_bits_retain(n).is_mode_group(), false);
        assert_eq!((UlaPlusRegFlags::from_bits_retain(n)|UlaPlusRegFlags::GROUP_MASK()).palette_group(), None);
        assert_eq!((UlaPlusRegFlags::from_bits_retain(n)|UlaPlusRegFlags::GROUP_MASK()).is_mode_group(), false);
        assert_eq!((UlaPlusRegFlags::from_bits_retain(n)|UlaPlusRegFlags::MODE_GROUP()).palette_group(), None);
        assert_eq!((UlaPlusRegFlags::from_bits_retain(n)|UlaPlusRegFlags::MODE_GROUP()).is_mode_group(), true);
        assert_eq!((UlaPlusRegFlags::from_bits_retain(n)|UlaPlusRegFlags::RESERVED_GROUP()).palette_group(), None);
        assert_eq!((UlaPlusRegFlags::from_bits_retain(n)|UlaPlusRegFlags::RESERVED_GROUP()).is_mode_group(), false);
    }
    assert_eq!(UlaPlusRegFlags::empty().hires_color_index(), 0);
    assert_eq!(UlaPlusRegFlags::all().hires_color_index(), 7);
    assert_eq!(UlaPlusRegFlags::HIRES_COLOR0().hires_color_index(), 1);
    assert_eq!(UlaPlusRegFlags::HIRES_COLOR1().hires_color_index(), 2);
    assert_eq!(UlaPlusRegFlags::HIRES_COLOR2().hires_color_index(), 4);
}
