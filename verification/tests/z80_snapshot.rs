use std::io::Cursor;

use spectrusty::chip::flags::{ReadEarMode, ScldCtrlFlags, Ula128MemFlags, Ula3CtrlFlags};
use spectrusty::formats::snapshot::{
    Ay3_891xDevice, ComputerModel, CpuModel, CpuState, Extensions, InterruptMode, JoystickModel, MemoryRange,
    SnapshotCreator, SnapshotLoader,
};
use spectrusty::formats::z80::common::{HeaderEx, Z80Version};
use spectrusty::formats::z80::decompress::decompress_all;
use spectrusty::formats::z80::loader::{
    create_cpu, load_z80, mem_block_at, mem_page_to_range, select_ay_model, select_hw_model, strip_v1_term,
    z80_port_writes, MemBlock,
};
use spectrusty::formats::z80::saver::{
    ay_choice, init_z80_header, mem_block_bytes, save_z80v1, save_z80v2, save_z80v3, select_hw_mode,
    z80_ram_pages, z80v1_model_flags, PagedRoms,
};
use spectrusty::formats::z80::common::Flags3;
use spectrusty::memory::ZxMemoryError;
use spectrusty::peripherals::ay::AyRegister;
use spectrusty::formats::snapshot::SnapshotResult;
use spectrusty::video::BorderColor;

struct Machine {
    model: ComputerModel,
    extensions: Extensions,
    cpu: CpuModel,
    border: BorderColor,
    issue: ReadEarMode,
    ram: Vec<u8>,
    memflags: Ula128MemFlags,
    ports: Vec<(u16, u8)>,
    joystick: Option<JoystickModel>,
    clock: i32,
    ay: Option<(Ay3_891xDevice, AyRegister, [u8; 16])>,
}

fn ram_len(model: ComputerModel) -> usize {
    match model {
        ComputerModel::Spectrum16 => 0x4000,
        ComputerModel::Spectrum128 | ComputerModel::SpectrumPlus2 | ComputerModel::SpectrumPlus2A
        | ComputerModel::SpectrumPlus3 => 0x20000,
        _ => 0xC000,
    }
}

fn test_cpu() -> CpuState {
    let mut cpu = CpuState::reset();
    cpu.af = 0x1234;
    cpu.bc = 0x2345;
    cpu.de = 0x3456;
    cpu.hl = 0x4567;
    cpu.af_alt = 0x5678;
    cpu.bc_alt = 0x6789;
    cpu.de_alt = 0x789A;
    cpu.hl_alt = 0x89AB;
    cpu.ix = 0x9ABC;
    cpu.iy = 0xABCD;
    cpu.sp = 0x8000;
    cpu.pc = 0x1234;
    cpu.i = 0x3F;
    cpu.r = 0xFE;
    cpu.iff1 = true;
    cpu.iff2 = false;
    cpu.im = InterruptMode::Mode2;
    cpu
}

impl Machine {
    fn new(model: ComputerModel) -> Self {
        let mut ram: Vec<u8> = (0..ram_len(model)).map(|i| (i * 7 + i / 251) as u8).collect();
        for b in ram[0x100..0x900].iter_mut() {
            *b = 0;
        }
        for b in ram[0x1000..0x1010].iter_mut() {
            *b = 0xED;
        }
        Machine {
            model,
            extensions: Extensions::NONE(),
            cpu: CpuModel::NMOS(test_cpu()),
            border: BorderColor::MAGENTA,
            issue: ReadEarMode::Issue3,
            ram,
            memflags: Ula128MemFlags::from_bits_truncate(0x13),
            ports: Vec::new(),
            joystick: Some(JoystickModel::Kempston),
            clock: 12345,
            ay: None,
        }
    }

    fn empty() -> Self {
        let mut m = Machine::new(ComputerModel::Spectrum48);
        m.ram.clear();
        m.cpu = CpuModel::NMOS(CpuState::reset());
        m.joystick = None;
        m.clock = 0;
        m
    }
}

impl SnapshotCreator for Machine {
    fn model(&self) -> ComputerModel {
        self.model
    }
    fn extensions(&self) -> Extensions {
        self.extensions
    }
    fn cpu(&self) -> CpuModel {
        self.cpu
    }
    fn current_clock(&self) -> i32 {
        self.clock
    }
    fn border_color(&self) -> BorderColor {
        self.border
    }
    fn issue(&self) -> ReadEarMode {
        self.issue
    }
    fn memory_ref(&self, range: MemoryRange) -> Result<&[u8], ZxMemoryError> {
        match range {
            MemoryRange::Ram(r) if r.end <= self.ram.len() => Ok(&self.ram[r]),
            _ => Err(ZxMemoryError::UnsupportedAddressRange),
        }
    }
    fn joystick(&self) -> Option<JoystickModel> {
        self.joystick
    }
    fn ay_state(&self, choice: Ay3_891xDevice) -> Option<(AyRegister, &[u8; 16])> {
        match &self.ay {
            Some((dev, reg, regs)) if *dev == choice => Some((*reg, regs)),
            _ => None,
        }
    }
    fn ula128_flags(&self) -> Ula128MemFlags {
        self.memflags
    }
    fn ula3_flags(&self) -> Ula3CtrlFlags {
        Ula3CtrlFlags::default()
    }
    fn timex_flags(&self) -> ScldCtrlFlags {
        ScldCtrlFlags::default()
    }
    fn timex_memory_banks(&self) -> u8 {
        0
    }
    fn is_interface1_rom_paged_in(&self) -> bool {
        true
    }
    fn is_plus_d_rom_paged_in(&self) -> bool {
        false
    }
    fn is_disciple_rom_paged_in(&self) -> bool {
        false
    }
    fn is_tr_dos_rom_paged_in(&self) -> bool {
        false
    }
}

impl SnapshotLoader for Machine {
    type Error = String;
    fn select_model(
        &mut self,
        model: ComputerModel,
        extensions: Extensions,
        border: BorderColor,
        issue: ReadEarMode,
    ) -> Result<(), String> {
        self.model = model;
        self.extensions = extensions;
        self.border = border;
        self.issue = issue;
        self.ram = vec![0u8; ram_len(model)];
        Ok(())
    }
    fn read_into_memory<R: std::io::Read>(&mut self, range: MemoryRange, mut reader: R) -> Result<(), ZxMemoryError> {
        match range {
            MemoryRange::Ram(r) => reader.read_exact(&mut self.ram[r]).map_err(ZxMemoryError::Io),
            _ => Err(ZxMemoryError::UnsupportedAddressRange),
        }
    }
    fn assign_cpu(&mut self, cpu: CpuModel) {
        self.cpu = cpu;
    }
    fn set_clock(&mut self, tstates: i32) {
        self.clock = tstates;
    }
    fn write_port(&mut self, port: u16, data: u8) {
        self.ports.push((port, data));
    }
    fn select_joystick(&mut self, joystick: JoystickModel) {
        self.joystick = Some(joystick);
    }
    fn setup_ay(&mut self, choice: Ay3_891xDevice, reg_selected: AyRegister, reg_values: &[u8; 16]) {
        self.ay = Some((choice, reg_selected, *reg_values));
    }
    fn interface1_rom_paged_in(&mut self) {}
    fn plus_d_rom_paged_in(&mut self) {}
    fn tr_dos_rom_paged_in(&mut self) {}
}

#[test]
fn z80v1_save_load_round_trip() {
    let machine = Machine::new(ComputerModel::Spectrum48);
    let mut file = Vec::new();
    let result = save_z80v1(&machine, &mut file).unwrap();
    assert_eq!(result, SnapshotResult::OK());
    assert_eq!(&file[file.len() - 4..], &[0, 0xED, 0xED, 0]);
    let mut loaded = Machine::empty();
    load_z80(Cursor::new(&file), &mut loaded).unwrap();
    assert_eq!(loaded.model, ComputerModel::Spectrum48);
    assert_eq!(loaded.border, BorderColor::MAGENTA);
    assert_eq!(loaded.issue, ReadEarMode::Issue3);
    assert_eq!(loaded.joystick, Some(JoystickModel::Kempston));
    assert_eq!(loaded.cpu, machine.cpu);
    assert_eq!(loaded.ram, machine.ram);
}

#[test]
fn z80v2_save_load_round_trip_128k() {
    let mut machine = Machine::new(ComputerModel::Spectrum128);
    machine.ay = Some((Ay3_891xDevice::Ay128k, AyRegister::MixerControl, [7u8; 16]));
    machine.joystick = None;
    let mut file = Vec::new();
    let result = save_z80v2(&machine, &mut file).unwrap();
    assert_eq!(result, SnapshotResult::JOYSTICK_NSUP());
    let mut loaded = Machine::empty();
    load_z80(Cursor::new(&file), &mut loaded).unwrap();
    assert_eq!(loaded.model, ComputerModel::Spectrum128);
    assert_eq!(loaded.cpu, machine.cpu);
    assert_eq!(loaded.ram, machine.ram);
    assert_eq!(loaded.ports, vec![(0x7ffd, 0x13)]);
    assert_eq!(loaded.ay, Some((Ay3_891xDevice::Ay128k, AyRegister::MixerControl, [7u8; 16])));
}

#[test]
fn z80v3_save_load_round_trip() {
    let mut machine = Machine::new(ComputerModel::Spectrum48);
    machine.joystick = Some(JoystickModel::Sinclair2);
    machine.issue = ReadEarMode::Issue2;
    machine.extensions = Extensions::IF1();
    let mut file = Vec::new();
    let result = save_z80v3(&machine, &mut file).unwrap();
    assert_eq!(result, SnapshotResult::OK());
    let mut loaded = Machine::empty();
    load_z80(Cursor::new(&file), &mut loaded).unwrap();
    assert_eq!(loaded.model, ComputerModel::Spectrum48);
    assert_eq!(loaded.extensions, Extensions::IF1());
    assert_eq!(loaded.issue, ReadEarMode::Issue2);
    assert_eq!(loaded.joystick, Some(JoystickModel::Sinclair2));
    assert_eq!(loaded.cpu, machine.cpu);
    assert_eq!(loaded.ram, machine.ram);
    assert_eq!(loaded.clock, 12345);
}

#[test]
fn z80_save_errors() {
    let machine = Machine::new(ComputerModel::Spectrum128);
    let err = save_z80v1(&machine, Vec::new()).unwrap_err();
    assert_eq!(err.kind(), std::io::ErrorKind::InvalidInput);
    let mut machine = Machine::new(ComputerModel::Spectrum128);
    machine.extensions = Extensions::SAM_RAM();
    let err = save_z80v2(&machine, Vec::new()).unwrap_err();
    assert_eq!(err.kind(), std::io::ErrorKind::InvalidInput);
    assert_eq!(err.to_string(), "Z80: the model ZX Spectrum 128k can't be saved with  + SamRam");
    let mut machine = Machine::new(ComputerModel::Spectrum48);
    let mut cpu = test_cpu();
    cpu.after_prefix = true;
    machine.cpu = CpuModel::NMOS(cpu);
    let err = save_z80v3(&machine, Vec::new()).unwrap_err();
    assert_eq!(err.kind(), std::io::ErrorKind::InvalidInput);
    // the version 1 file holds the CPU as it is
    assert!(save_z80v1(&machine, Vec::new()).is_ok());
    let machine = Machine::new(ComputerModel::SpectrumSE);
    let err = save_z80v3(&machine, Vec::new()).unwrap_err();
    assert_eq!(err.kind(), std::io::ErrorKind::InvalidInput);
}

#[test]
fn z80_load_errors() {
    let mut loaded = Machine::empty();
    // interrupt mode bits 3
    let mut header = vec![0u8; 30];
    header[6] = 1;
    header[29] = 3;
    let err = load_z80(Cursor::new(&header), &mut loaded).unwrap_err();
    assert_eq!(err.kind(), std::io::ErrorKind::InvalidData);
    // unsupported hardware mode
    let mut file = vec![0u8; 30];
    file.extend_from_slice(&[23, 0]);
    let mut ex = vec![0u8; 23];
    ex[2] = 9;
    file.extend_from_slice(&ex);
    let err = load_z80(Cursor::new(&file), &mut loaded).unwrap_err();
    assert_eq!(err.kind(), std::io::ErrorKind::InvalidData);
    // unsupported page
    let mut file = vec![0u8; 30];
    file.extend_from_slice(&[23, 0]);
    file.extend_from_slice(&[0u8; 23]);
    file.extend_from_slice(&[0xFF, 0xFF, 20]);
    let err = load_z80(Cursor::new(&file), &mut loaded).unwrap_err();
    assert_eq!(err.kind(), std::io::ErrorKind::InvalidData);
    // a compressed block cut short
    let mut file = vec![0u8; 30];
    file.extend_from_slice(&[23, 0]);
    file.extend_from_slice(&[0u8; 23]);
    file.extend_from_slice(&[10, 0, 8, 1, 2]);
    let err = load_z80(Cursor::new(&file), &mut loaded).unwrap_err();
    assert_eq!(err.kind(), std::io::ErrorKind::UnexpectedEof);
}

#[test]
fn z80_hw_models() {
    let mut h = HeaderEx::default();
    h.hw_mode = 0;
    assert_eq!(select_hw_model(Z80Version::V2, &h).map(|(m, e)| (m, e.bits)), Some((ComputerModel::Spectrum48, 0)));
    h.flags3 = 0x80;
    assert_eq!(select_hw_model(Z80Version::V2, &h).map(|(m, _)| m), Some(ComputerModel::Spectrum16));
    h.flags3 = 0;
    h.hw_mode = 3;
    assert_eq!(select_hw_model(Z80Version::V2, &h).map(|(m, _)| m), Some(ComputerModel::Spectrum128));
    h.mgt_type = 16;
    assert_eq!(select_hw_model(Z80Version::V3, &h).map(|(m, e)| (m, e.bits)), Some((ComputerModel::Spectrum48, 2)));
    h.mgt_type = 5;
    assert_eq!(select_hw_model(Z80Version::V3, &h).map(|(m, _)| m), None);
    h.hw_mode = 128;
    assert_eq!(select_hw_model(Z80Version::V3, &h).map(|(m, _)| m), Some(ComputerModel::TimexTS2068));
    assert_eq!(select_ay_model(ComputerModel::Spectrum48, Flags3::from(0x44)), Some(Ay3_891xDevice::FullerBox));
    assert_eq!(select_ay_model(ComputerModel::Spectrum48, Flags3::from(0x04)), Some(Ay3_891xDevice::Melodik));
    assert_eq!(select_ay_model(ComputerModel::Spectrum48, Flags3::from(0)), None);
    assert_eq!(select_ay_model(ComputerModel::SpectrumPlus3, Flags3::from(0)), Some(Ay3_891xDevice::Ay128k));
    assert_eq!(mem_page_to_range(8, ComputerModel::Spectrum48, Extensions::NONE()), Some(MemoryRange::Ram(0..0x4000)));
    assert_eq!(mem_page_to_range(10, ComputerModel::Spectrum128, Extensions::NONE()), Some(MemoryRange::Ram(0x1C000..0x20000)));
    assert_eq!(mem_page_to_range(12, ComputerModel::SpectrumSE, Extensions::NONE()), Some(MemoryRange::Ram(0x4000..0x8000)));
    assert_eq!(mem_page_to_range(1, ComputerModel::Spectrum48, Extensions::IF1()), Some(MemoryRange::Interface1Rom));
    assert_eq!(mem_page_to_range(6, ComputerModel::Spectrum48, Extensions::NONE()), None);
}

#[test]
fn z80_hw_modes_when_saving() {
    let none = PagedRoms { if1: false, plus_d: false, disciple: false, tr_dos: false };
    let mut result = SnapshotResult::OK();
    assert_eq!(select_hw_mode(false, ComputerModel::SpectrumPlus2, Extensions::IF1(), none, &mut result).unwrap(), (4, true));
    assert_eq!(result, SnapshotResult::OK());
    assert_eq!(select_hw_mode(true, ComputerModel::Spectrum128, Extensions::PLUS_D(), none, &mut result).unwrap(), (6, false));
    assert_eq!(select_hw_mode(true, ComputerModel::SpectrumNTSC, Extensions::NONE(), none, &mut result).unwrap(), (0, false));
    assert_eq!(result, SnapshotResult::MODEL_NSUP());
    let plus_d = PagedRoms { plus_d: true, ..none };
    assert!(select_hw_mode(false, ComputerModel::Spectrum48, Extensions::PLUS_D(), plus_d, &mut result).is_err());
    assert_eq!(select_hw_mode(true, ComputerModel::Spectrum48, Extensions::PLUS_D(), plus_d, &mut result).unwrap(), (3, false));
    assert_eq!(ay_choice(true, true, false), (Ay3_891xDevice::Ay128k, 0, true));
    assert_eq!(ay_choice(false, true, true), (Ay3_891xDevice::FullerBox, 0x44, false));
    assert_eq!(ay_choice(false, false, false), (Ay3_891xDevice::Timex, 0, false));
    assert_eq!(z80_ram_pages(ComputerModel::Spectrum16), vec![(8, 0)]);
    assert_eq!(z80_ram_pages(ComputerModel::SpectrumPlus3)[7], (10, 7));
    assert_eq!(z80v1_model_flags(ComputerModel::TimexTC2048), Some(1));
    assert_eq!(z80v1_model_flags(ComputerModel::Spectrum128), None);
}

#[test]
fn z80_header_round_trip() {
    let cpu = test_cpu();
    let (header, joystick_nsup) =
        init_z80_header(Z80Version::V1, &cpu, BorderColor::YELLOW, ReadEarMode::Issue2, Some(JoystickModel::Fuller));
    assert!(joystick_nsup);
    assert_eq!(header.r7, 0x7E);
    assert_eq!(header.flags1, 0x20 | (6 << 1) | 1);
    assert_eq!(header.flags2, 2 | 4);
    assert_eq!(create_cpu(&header).unwrap(), cpu);
    let (header, _) = init_z80_header(Z80Version::V2, &cpu, BorderColor::YELLOW, ReadEarMode::Issue3, None);
    assert_eq!(header.pc, [0, 0]);
    assert_eq!(create_cpu(&header).unwrap().pc, 0);
}

#[test]
fn z80_memory_blocks() {
    let page = vec![0x55u8; 0x4000];
    let block = mem_block_bytes(8, &page);
    // 64 runs of 255 bytes and one of 64, each taking 4 bytes
    assert_eq!(block.len(), 3 + 65 * 4);
    assert_eq!(&block[..7], &[4, 1, 8, 0xED, 0xED, 255, 0x55]);
    let b = mem_block_at(&block, 0).unwrap().unwrap();
    assert_eq!(b, MemBlock { page: 8, compressed: true, start: 3, end: block.len() });
    assert_eq!(decompress_all(&block[b.start..b.end]), page);
    assert!(mem_block_at(&block, block.len()).unwrap().is_none());
    assert!(mem_block_at(&block[..2], 0).is_err());
    // a page with no runs takes as many bytes compressed
    let raw: Vec<u8> = (0..0x4000).map(|i| (i * 7 + i / 251) as u8).collect();
    let block = mem_block_bytes(4, &raw);
    assert_eq!(&block[..3], &[0x00, 0x40, 4]);
    assert_eq!(mem_block_at(&block, 0).unwrap().unwrap(), MemBlock { page: 4, compressed: true, start: 3, end: 0x4003 });
    assert_eq!(&block[3..], &raw[..]);
    // an uncompressed block takes the bytes of a page
    let mut stored = vec![0xFF, 0xFF, 5];
    stored.extend_from_slice(&raw);
    stored.extend_from_slice(&[1, 2, 3]);
    assert_eq!(mem_block_at(&stored, 0).unwrap().unwrap(), MemBlock { page: 5, compressed: false, start: 3, end: 0x4003 });
    assert_eq!(mem_block_at(&stored[..100], 0).unwrap().unwrap(), MemBlock { page: 5, compressed: false, start: 3, end: 100 });
    assert_eq!(strip_v1_term(&[1, 2, 0, 0xED, 0xED, 0]), &[1, 2]);
    assert_eq!(strip_v1_term(&[1, 2, 0, 0xED]), &[1, 2, 0, 0xED]);
}

#[test]
fn z80_port_writes_of_models() {
    let mut h = HeaderEx::default();
    h.port1 = 0x17;
    h.port2 = 4;
    h.ifrom = 0x80;
    assert_eq!(z80_port_writes(ComputerModel::SpectrumPlus3, Z80Version::V3, &h), vec![(0x1ffd, 4), (0x7ffd, 0x17)]);
    assert_eq!(z80_port_writes(ComputerModel::SpectrumPlus3, Z80Version::V2, &h), vec![(0x7ffd, 0x17)]);
    assert_eq!(z80_port_writes(ComputerModel::TimexTC2048, Z80Version::V3, &h), vec![(0xf4, 0x17), (0xff, 0x80)]);
    assert_eq!(z80_port_writes(ComputerModel::Spectrum48, Z80Version::V3, &h), vec![]);
}
