use std::io::Cursor;

use spectrusty::chip::flags::{ReadEarMode, ScldCtrlFlags, Ula128MemFlags, Ula3CtrlFlags};
use spectrusty::formats::sna::{
    load_sna, load_sna48, save_sna, sna128_first_banks, sna128_rest_banks, sna48_pc_offset,
    sna48_stack_slot, sna_is_128, sna_save_result, SNA_LENGTH,
};
use spectrusty::formats::snapshot::{
    Ay3_891xDevice, ComputerModel, CpuModel, CpuState, Extensions, InterruptMode, JoystickModel, MemoryRange,
    SnapshotCreator, SnapshotLoader, SnapshotResult,
};
use spectrusty::memory::ZxMemoryError;
use spectrusty::peripherals::ay::AyRegister;
use spectrusty::video::BorderColor;

struct Machine {
    model: ComputerModel,
    extensions: Extensions,
    cpu: CpuModel,
    border: BorderColor,
    ram: Vec<u8>,
    memflags: Ula128MemFlags,
    tr_dos_paged: bool,
    ports: Vec<(u16, u8)>,
    joystick: Option<JoystickModel>,
}

impl Machine {
    fn new(model: ComputerModel) -> Self {
        let ram_len = if sna_is_128(model) { 0x20000 } else { 0xC000 };
        let ram = (0..ram_len).map(|i| (i * 7 + i / 251) as u8).collect();
        let mut cpu = CpuState::reset();
        cpu.af = 0x1234;
        cpu.bc = 0x2345;
        cpu.de = 0x3456;
        cpu.hl = 0x4567;
        cpu.af_alt = 0x5678;
        cpu.bc_alt = 0x6789;
        cpu.de_alt = 0x789A;
        cpu.hl_alt = 0x89AB;
        cpu.ix = 0x9ABC;
        cpu.iy = 0xABCD;
        cpu.sp = 0x8000;
        cpu.pc = 0x1234;
        cpu.i = 0x3F;
        cpu.r = 0x7E;
        cpu.iff1 = true;
        cpu.iff2 = true;
        cpu.im = InterruptMode::Mode1;
        Machine {
            model,
            extensions: Extensions::NONE(),
            cpu: CpuModel::NMOS(cpu),
            border: BorderColor::CYAN,
            ram,
            memflags: Ula128MemFlags::from_bits_truncate(3),
            tr_dos_paged: false,
            ports: Vec::new(),
            joystick: None,
        }
    }

    fn empty() -> Self {
        let mut m = Machine::new(ComputerModel::Spectrum48);
        m.ram.clear();
        m.cpu = CpuModel::NMOS(CpuState::reset());
        m
    }
}

impl SnapshotCreator for Machine {
    fn model(&self) -> ComputerModel {
        self.model
    }
    fn extensions(&self) -> Extensions {
        self.extensions
    }
    fn cpu(&self) -> CpuModel {
        self.cpu
    }
    fn current_clock(&self) -> i32 {
        0
    }
    fn border_color(&self) -> BorderColor {
        self.border
    }
    fn issue(&self) -> ReadEarMode {
        ReadEarMode::Issue3
    }
    fn memory_ref(&self, range: MemoryRange) -> Result<&[u8], ZxMemoryError> {
        match range {
            MemoryRange::Ram(r) if r.end <= self.ram.len() => Ok(&self.ram[r]),
            _ => Err(ZxMemoryError::UnsupportedAddressRange),
        }
    }
    fn joystick(&self) -> Option<JoystickModel> {
        self.joystick
    }
    fn ay_state(&self, _choice: Ay3_891xDevice) -> Option<(AyRegister, &[u8; 16])> {
        None
    }
    fn ula128_flags(&self) -> Ula128MemFlags {
        self.memflags
    }
    fn ula3_flags(&self) -> Ula3CtrlFlags {
        Ula3CtrlFlags::default()
    }
    fn timex_flags(&self) -> ScldCtrlFlags {
        ScldCtrlFlags::default()
    }
    fn timex_memory_banks(&self) -> u8 {
        0
    }
    fn is_interface1_rom_paged_in(&self) -> bool {
        false
    }
    fn is_plus_d_rom_paged_in(&self) -> bool {
        false
    }
    fn is_disciple_rom_paged_in(&self) -> bool {
        false
    }
    fn is_tr_dos_rom_paged_in(&self) -> bool {
        self.tr_dos_paged
    }
}

impl SnapshotLoader for Machine {
    type Error = String;
    fn select_model(
        &mut self,
        model: ComputerModel,
        extensions: Extensions,
        border: BorderColor,
        _issue: ReadEarMode,
    ) -> Result<(), String> {
        self.model = model;
        self.extensions = extensions;
        self.border = border;
        self.ram = vec![0u8; if sna_is_128(model) { 0x20000 } else { 0xC000 }];
        Ok(())
    }
    fn read_into_memory<R: std::io::Read>(&mut self, range: MemoryRange, mut reader: R) -> Result<(), ZxMemoryError> {
        match range {
            MemoryRange::Ram(r) => reader.read_exact(&mut self.ram[r]).map_err(ZxMemoryError::Io),
            _ => Err(ZxMemoryError::UnsupportedAddressRange),
        }
    }
    fn assign_cpu(&mut self, cpu: CpuModel) {
        self.cpu = cpu;
    }
    fn set_clock(&mut self, _tstates: i32) {}
    fn write_port(&mut self, port: u16, data: u8) {
        self.ports.push((port, data));
    }
    fn interface1_rom_paged_in(&mut self) {}
    fn plus_d_rom_paged_in(&mut self) {}
    fn tr_dos_rom_paged_in(&mut self) {
        self.tr_dos_paged = true;
    }
}

#[test]
fn sna_banks_order() {
    assert_eq!(sna128_first_banks(3), vec![5, 2, 3]);
    assert_eq!(sna128_first_banks(5), vec![5, 2]);
    assert_eq!(sna128_first_banks(2), vec![5, 2]);
    assert_eq!(sna128_rest_banks(3), vec![0, 1, 4, 6, 7]);
    assert_eq!(sna128_rest_banks(0), vec![1, 3, 4, 6, 7]);
    assert_eq!(sna128_rest_banks(5), vec![0, 1, 3, 4, 6, 7]);
}

#[test]
fn sna_stack_checks() {
    assert_eq!(sna48_pc_offset(0x3FFF), None);
    assert_eq!(sna48_pc_offset(0xFFFF), None);
    assert_eq!(sna48_pc_offset(0x4000), Some(0));
    assert_eq!(sna48_pc_offset(0xFFFE), Some(0xBFFE));
    assert_eq!(sna48_stack_slot(0x8000, false), Some(0x7FFE));
    assert_eq!(sna48_stack_slot(0x4001, false), None);
    assert_eq!(sna48_stack_slot(0x0000, false), Some(0xFFFE));
    assert_eq!(sna48_stack_slot(0x0001, false), None);
    assert_eq!(sna48_stack_slot(0x8000, true), Some(0x7FFE));
    assert_eq!(sna48_stack_slot(0x8001, true), None);
}

#[test]
fn sna_save_result_flags() {
    let nmos = CpuModel::NMOS(CpuState::reset());
    let cmos = CpuModel::CMOS(CpuState::reset());
    let r = sna_save_result(ComputerModel::Spectrum48, Extensions::NONE(), &nmos, false, false);
    assert_eq!(r, SnapshotResult::KEYB_ISSUE_NSUP());
    let r = sna_save_result(ComputerModel::Spectrum16, Extensions::IF1(), &cmos, true, true);
    assert_eq!(r.bits(), 0x0011_1111);
    let r = sna_save_result(ComputerModel::Spectrum128, Extensions::TR_DOS(), &nmos, false, true);
    assert_eq!(r.bits(), 0x0011_0000);
    assert!(sna_is_128(ComputerModel::SpectrumPlus3));
    assert!(!sna_is_128(ComputerModel::TimexTC2048));
}

#[test]
fn sna48_save_load_round_trip() {
    let machine = Machine::new(ComputerModel::Spectrum48);
    let mut file = Vec::new();
    let result = save_sna(&machine, &mut file).unwrap();
    assert_eq!(result, SnapshotResult::KEYB_ISSUE_NSUP());
    assert_eq!(file.len() as u64, SNA_LENGTH);
    // the program counter is pushed on the stack of the file
    assert_eq!(&file[27 + 0x7FFE - 0x4000..27 + 0x8000 - 0x4000], &[0x34, 0x12]);
    let mut loaded = Machine::empty();
    load_sna(Cursor::new(&file), &mut loaded).unwrap();
    assert_eq!(loaded.model, ComputerModel::Spectrum48);
    assert_eq!(loaded.border, BorderColor::CYAN);
    let mut expected_ram = machine.ram.clone();
    expected_ram[0x7FFE - 0x4000] = loaded.ram[0x7FFE - 0x4000];
    expected_ram[0x7FFF - 0x4000] = loaded.ram[0x7FFF - 0x4000];
    assert_eq!(loaded.ram, expected_ram);
    let mut expected_cpu = match machine.cpu {
        CpuModel::NMOS(c) => c,
        _ => unreachable!(),
    };
    // RETN increases the lower 7 bits of R twice: 0x7E, 0x7F, 0x00
    expected_cpu.r = 0x00;
    let cpu = match loaded.cpu {
        CpuModel::NMOS(c) => c,
        _ => panic!("not an NMOS cpu"),
    };
    assert_eq!(cpu, expected_cpu);
    // the 48k loader alone gives the same
    let mut again = Machine::empty();
    load_sna48(Cursor::new(&file), &mut again).unwrap();
    assert_eq!(again.cpu, loaded.cpu);
    assert_eq!(again.ram, loaded.ram);
}

#[test]
fn sna128_save_load_round_trip() {
    let mut machine = Machine::new(ComputerModel::Spectrum128);
    machine.extensions = Extensions::TR_DOS();
    machine.tr_dos_paged = true;
    machine.joystick = Some(JoystickModel::Kempston);
    let mut file = Vec::new();
    let result = save_sna(&machine, &mut file).unwrap();
    assert_eq!(result.bits(), 0x0011_1000);
    assert_eq!(file.len(), 131103);
    let mut loaded = Machine::empty();
    load_sna(Cursor::new(&file), &mut loaded).unwrap();
    assert_eq!(loaded.model, ComputerModel::Spectrum128);
    assert_eq!(loaded.extensions, Extensions::TR_DOS());
    assert_eq!(loaded.ram, machine.ram);
    assert_eq!(loaded.cpu, machine.cpu);
    assert_eq!(loaded.ports, vec![(0x7ffd, 3)]);
    assert!(loaded.tr_dos_paged);
}

#[test]
fn sna128_paged_bank_5_is_stored_twice_and_read_once() {
    for bank in [5u8, 2] {
        let mut machine = Machine::new(ComputerModel::Spectrum128);
        machine.memflags = Ula128MemFlags::from_bits_truncate(bank);
        let mut file = Vec::new();
        save_sna(&machine, &mut file).unwrap();
        assert_eq!(file.len(), 147487);
        let mut loaded = Machine::empty();
        load_sna(Cursor::new(&file), &mut loaded).unwrap();
        assert_eq!(loaded.ram, machine.ram);
        assert_eq!(loaded.ports, vec![(0x7ffd, bank)]);
    }
}

#[test]
fn sna_errors() {
    let mut loaded = Machine::empty();
    let err = load_sna(Cursor::new(vec![0u8; 100]), &mut loaded).unwrap_err();
    assert_eq!(err.kind(), std::io::ErrorKind::InvalidData);
    // the stack pointer below the RAM
    let mut file = vec![0u8; SNA_LENGTH as usize];
    file[23] = 0x00;
    file[24] = 0x30;
    let err = load_sna48(Cursor::new(&file), &mut loaded).unwrap_err();
    assert_eq!(err.kind(), std::io::ErrorKind::InvalidData);
    let mut machine = Machine::new(ComputerModel::Spectrum48);
    let mut cpu = CpuState::reset();
    cpu.sp = 0x4001;
    machine.cpu = CpuModel::NMOS(cpu);
    let err = save_sna(&machine, Vec::new()).unwrap_err();
    assert_eq!(err.kind(), std::io::ErrorKind::InvalidData);
    cpu.sp = 0x8000;
    cpu.after_prefix = true;
    machine.cpu = CpuModel::NMOS(cpu);
    let err = save_sna(&machine, Vec::new()).unwrap_err();
    assert_eq!(err.kind(), std::io::ErrorKind::InvalidInput);
}

#[test]
fn sna128_banks_are_each_stored_once() {
    for last in 0..8usize {
        let mut banks = sna128_first_banks(last);
        banks.extend(sna128_rest_banks(last));
        banks.sort();
        assert_eq!(banks, (0..8).collect::<Vec<usize>>());
    }
}
