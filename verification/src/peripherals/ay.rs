//! The AY-3-8910/8912/8913 programmable sound generator's I/O: registers, ports and recorders
//! of register changes.
use vstd::prelude::*;

use core::marker::PhantomData;

pub mod audio;

verus! {

/// An enumeration of the AY-3-891x registers.
#[derive(Clone, Copy, Debug, PartialEq, Eq, PartialOrd, Ord, Hash, Structural)]
pub enum AyRegister {
    ToneFineA,
    ToneCoarseA,
    ToneFineB,
    ToneCoarseB,
    ToneFineC,
    ToneCoarseC,
    NoisePeriod,
    MixerControl,
    AmpLevelA,
    AmpLevelB,
    AmpLevelC,
    EnvPerFine,
    EnvPerCoarse,
    EnvShape,
    IoA,
    IoB,
}

/// A change of the value of a register at a time in T-states.
#[derive(Clone, Copy, Debug, PartialEq, Eq, Structural)]
pub struct AyRegChange {
    /// The time of the change in T-states.
    pub time: i32,
    /// The register changed.
    pub reg: AyRegister,
    /// The new value.
    pub val: u8,
}

impl AyRegChange {
    /// Creates a new `AyRegChange` from the given arguments.
    pub fn new(time: i32, reg: AyRegister, val: u8) -> (r: Self)
        ensures
            r == (AyRegChange { time, reg, val }),
    {
        AyRegChange { time, reg, val }
    }
}

/// The number of registers that control the sound generation.
pub const NUM_SOUND_GEN_REGISTERS: usize = 14;

/// The index of each register.
pub open spec fn spec_reg_index(reg: AyRegister) -> u8 {
    match reg {
        AyRegister::ToneFineA => 0,
        AyRegister::ToneCoarseA => 1,
        AyRegister::ToneFineB => 2,
        AyRegister::ToneCoarseB => 3,
        AyRegister::ToneFineC => 4,
        AyRegister::ToneCoarseC => 5,
        AyRegister::NoisePeriod => 6,
        AyRegister::MixerControl => 7,
        AyRegister::AmpLevelA => 8,
        AyRegister::AmpLevelB => 9,
        AyRegister::AmpLevelC => 10,
        AyRegister::EnvPerFine => 11,
        AyRegister::EnvPerCoarse => 12,
        AyRegister::EnvShape => 13,
        AyRegister::IoA => 14,
        AyRegister::IoB => 15,
    }
}

/// The register of each index, the index taken modulo 16.
pub open spec fn spec_reg_of(value: u8) -> AyRegister {
    let v = value % 16;

    if v == 0 {
        AyRegister::ToneFineA
    } else if v == 1 {
        AyRegister::ToneCoarseA
    } else if v == 2 {
        AyRegister::ToneFineB
    } else if v == 3 {
        AyRegister::ToneCoarseB
    } else if v == 4 {
        AyRegister::ToneFineC
    } else if v == 5 {
        AyRegister::ToneCoarseC
    } else if v == 6 {
        AyRegister::NoisePeriod
    } else if v == 7 {
        AyRegister::MixerControl
    } else if v == 8 {
        AyRegister::AmpLevelA
    } else if v == 9 {
        AyRegister::AmpLevelB
    } else if v == 10 {
        AyRegister::AmpLevelC
    } else if v == 11 {
        AyRegister::EnvPerFine
    } else if v == 12 {
        AyRegister::EnvPerCoarse
    } else if v == 13 {
        AyRegister::EnvShape
    } else if v == 14 {
        AyRegister::IoA
    } else {
        AyRegister::IoB
    }
}

/// The bits of each register that hold its value.
pub open spec fn spec_reg_mask(index: int) -> u8 {

    if index == 0 {
        0xff
    } else if index == 1 {
        0x0f
    } else if index == 2 {
        0xff
    } else if index == 3 {
        0x0f
    } else if index == 4 {
        0xff
    } else if index == 5 {
        0x0f
    } else if index == 6 {
        0x1f
    } else if index == 7 {
        0xff
    } else if index == 8 {
        0x1f
    } else if index == 9 {
        0x1f
    } else if index == 10 {
        0x1f
    } else if index == 11 {
        0xff
    } else if index == 12 {
        0xff
    } else if index == 13 {
        0x0f
    } else if index == 14 {
        0xff
    } else {
        0xff
    }
}

/// Returns the bits of the register with the index `index` that hold its value.
fn reg_mask(index: usize) -> (r: u8)
    requires
        index < 16,
    ensures
        r == spec_reg_mask(index as int),
{
    match index {
        0 => 0xff,
        1 => 0x0f,
        2 => 0xff,
        3 => 0x0f,
        4 => 0xff,
        5 => 0x0f,
        6 => 0x1f,
        7 => 0xff,
        8 => 0x1f,
        9 => 0x1f,
        10 => 0x1f,
        11 => 0xff,
        12 => 0xff,
        13 => 0x0f,
        14 => 0xff,
        _ => 0xff,
    }
}

impl From<u8> for AyRegister {
    /// The register of the index `value`, taken modulo 16.
    fn from(value: u8) -> (r: AyRegister) {
        match value % 16 {
            0 => AyRegister::ToneFineA,
            1 => AyRegister::ToneCoarseA,
            2 => AyRegister::ToneFineB,
            3 => AyRegister::ToneCoarseB,
            4 => AyRegister::ToneFineC,
            5 => AyRegister::ToneCoarseC,
            6 => AyRegister::NoisePeriod,
            7 => AyRegister::MixerControl,
            8 => AyRegister::AmpLevelA,
            9 => AyRegister::AmpLevelB,
            10 => AyRegister::AmpLevelC,
            11 => AyRegister::EnvPerFine,
            12 => AyRegister::EnvPerCoarse,
            13 => AyRegister::EnvShape,
            14 => AyRegister::IoA,
            _ => AyRegister::IoB,
        }
    }
}

impl vstd::std_specs::convert::FromSpecImpl<u8> for AyRegister {
    open spec fn obeys_from_spec() -> bool {
        true
    }

    open spec fn from_spec(value: u8) -> AyRegister {
        spec_reg_of(value)
    }
}

impl From<AyRegister> for u8 {
    fn from(reg: AyRegister) -> (r: u8) {
        match reg {
            AyRegister::ToneFineA => 0,
            AyRegister::ToneCoarseA => 1,
            AyRegister::ToneFineB => 2,
            AyRegister::ToneCoarseB => 3,
            AyRegister::ToneFineC => 4,
            AyRegister::ToneCoarseC => 5,
            AyRegister::NoisePeriod => 6,
            AyRegister::MixerControl => 7,
            AyRegister::AmpLevelA => 8,
            AyRegister::AmpLevelB => 9,
            AyRegister::AmpLevelC => 10,
            AyRegister::EnvPerFine => 11,
            AyRegister::EnvPerCoarse => 12,
            AyRegister::EnvShape => 13,
            AyRegister::IoA => 14,
            AyRegister::IoB => 15,
        }
    }
}

impl vstd::std_specs::convert::FromSpecImpl<AyRegister> for u8 {
    open spec fn obeys_from_spec() -> bool {
        true
    }

    open spec fn from_spec(reg: AyRegister) -> u8 {
        spec_reg_index(reg) as u8
    }
}

impl From<AyRegister> for u16 {
    fn from(reg: AyRegister) -> (r: u16) {
        match reg {
            AyRegister::ToneFineA => 0,
            AyRegister::ToneCoarseA => 1,
            AyRegister::ToneFineB => 2,
            AyRegister::ToneCoarseB => 3,
            AyRegister::ToneFineC => 4,
            AyRegister::ToneCoarseC => 5,
            AyRegister::NoisePeriod => 6,
            AyRegister::MixerControl => 7,
            AyRegister::AmpLevelA => 8,
            AyRegister::AmpLevelB => 9,
            AyRegister::AmpLevelC => 10,
            AyRegister::EnvPerFine => 11,
            AyRegister::EnvPerCoarse => 12,
            AyRegister::EnvShape => 13,
            AyRegister::IoA => 14,
            AyRegister::IoB => 15,
        }
    }
}

impl vstd::std_specs::convert::FromSpecImpl<AyRegister> for u16 {
    open spec fn obeys_from_spec() -> bool {
        true
    }

    open spec fn from_spec(reg: AyRegister) -> u16 {
        spec_reg_index(reg) as u16
    }
}

impl From<AyRegister> for u32 {
    fn from(reg: AyRegister) -> (r: u32) {
        match reg {
            AyRegister::ToneFineA => 0,
            AyRegister::ToneCoarseA => 1,
            AyRegister::ToneFineB => 2,
            AyRegister::ToneCoarseB => 3,
            AyRegister::ToneFineC => 4,
            AyRegister::ToneCoarseC => 5,
            AyRegister::NoisePeriod => 6,
            AyRegister::MixerControl => 7,
            AyRegister::AmpLevelA => 8,
            AyRegister::AmpLevelB => 9,
            AyRegister::AmpLevelC => 10,
            AyRegister::EnvPerFine => 11,
            AyRegister::EnvPerCoarse => 12,
            AyRegister::EnvShape => 13,
            AyRegister::IoA => 14,
            AyRegister::IoB => 15,
        }
    }
}

impl vstd::std_specs::convert::FromSpecImpl<AyRegister> for u32 {
    open spec fn obeys_from_spec() -> bool {
        true
    }

    open spec fn from_spec(reg: AyRegister) -> u32 {
        spec_reg_index(reg) as u32
    }
}

impl From<AyRegister> for u64 {
    fn from(reg: AyRegister) -> (r: u64) {
        match reg {
            AyRegister::ToneFineA => 0,
            AyRegister::ToneCoarseA => 1,
            AyRegister::ToneFineB => 2,
            AyRegister::ToneCoarseB => 3,
            AyRegister::ToneFineC => 4,
            AyRegister::ToneCoarseC => 5,
            AyRegister::NoisePeriod => 6,
            AyRegister::MixerControl => 7,
            AyRegister::AmpLevelA => 8,
            AyRegister::AmpLevelB => 9,
            AyRegister::AmpLevelC => 10,
            AyRegister::EnvPerFine => 11,
            AyRegister::EnvPerCoarse => 12,
            AyRegister::EnvShape => 13,
            AyRegister::IoA => 14,
            AyRegister::IoB => 15,
        }
    }
}

impl vstd::std_specs::convert::FromSpecImpl<AyRegister> for u64 {
    open spec fn obeys_from_spec() -> bool {
        true
    }

    open spec fn from_spec(reg: AyRegister) -> u64 {
        spec_reg_index(reg) as u64
    }
}

impl From<AyRegister> for usize {
    fn from(reg: AyRegister) -> (r: usize) {
        match reg {
            AyRegister::ToneFineA => 0,
            AyRegister::ToneCoarseA => 1,
            AyRegister::ToneFineB => 2,
            AyRegister::ToneCoarseB => 3,
            AyRegister::ToneFineC => 4,
            AyRegister::ToneCoarseC => 5,
            AyRegister::NoisePeriod => 6,
            AyRegister::MixerControl => 7,
            AyRegister::AmpLevelA => 8,
            AyRegister::AmpLevelB => 9,
            AyRegister::AmpLevelC => 10,
            AyRegister::EnvPerFine => 11,
            AyRegister::EnvPerCoarse => 12,
            AyRegister::EnvShape => 13,
            AyRegister::IoA => 14,
            AyRegister::IoB => 15,
        }
    }
}

impl vstd::std_specs::convert::FromSpecImpl<AyRegister> for usize {
    open spec fn obeys_from_spec() -> bool {
        true
    }

    open spec fn from_spec(reg: AyRegister) -> usize {
        spec_reg_index(reg) as usize
    }
}

impl Default for AyRegister {
    fn default() -> (r: AyRegister)
        ensures
            r == AyRegister::ToneFineA,
    {
        AyRegister::ToneFineA
    }
}

impl AyRegister {
    /// Returns all the registers, in the order of their indexes.
    pub fn enumerate() -> (r: Vec<AyRegister>)
        ensures
            r@.len() == 16,
            forall|i: int| 0 <= i < 16 ==> r@[i] == spec_reg_of(i as u8),
    {
        let mut r: Vec<AyRegister> = Vec::new();
        let mut k: u8 = 0;
        while k < 16
            invariant
                k <= 16,
                r@.len() == k,
                forall|i: int| 0 <= i < k ==> r@[i] == spec_reg_of(i as u8),
            decreases 16 - k,
        {
            r.push(AyRegister::from(k));
            k = k + 1;
        }
        r
    }
}

/// A helper trait for matching the I/O port addresses of the AY-3-891x chip.
pub trait AyPortDecode {
    /// The relevant address bits.
    spec fn spec_port_mask() -> u16;
    /// The address bits selecting a register.
    spec fn spec_port_select() -> u16;
    /// The address bits reading the data of a register.
    spec fn spec_port_data_read() -> u16;
    /// The address bits writing the data of a register.
    spec fn spec_port_data_write() -> u16;

    /// Returns the relevant address bits.
    fn port_mask() -> (r: u16)
        ensures
            r == Self::spec_port_mask(),
    ;

    /// Returns the address bits selecting a register.
    fn port_select() -> (r: u16)
        ensures
            r == Self::spec_port_select(),
    ;

    /// Returns the address bits reading the data of a register.
    fn port_data_read() -> (r: u16)
        ensures
            r == Self::spec_port_data_read(),
    ;

    /// Returns the address bits writing the data of a register.
    fn port_data_write() -> (r: u16)
        ensures
            r == Self::spec_port_data_write(),
    ;

    /// Returns `true` if `port` selects a register.
    fn is_select(port: u16) -> (r: bool)
        ensures
            r == (port & Self::spec_port_mask() == Self::spec_port_select() & Self::spec_port_mask()),
    {
        port & Self::port_mask() == Self::port_select() & Self::port_mask()
    }

    /// Returns `true` if `port` reads the data of a register.
    fn is_data_read(port: u16) -> (r: bool)
        ensures
            r == (port & Self::spec_port_mask() == Self::spec_port_data_read() & Self::spec_port_mask()),
    {
        port & Self::port_mask() == Self::port_data_read() & Self::port_mask()
    }

    /// Returns `true` if `port` writes the data of a register.
    fn is_data_write(port: u16) -> (r: bool)
        ensures
            r == (port & Self::spec_port_mask() == Self::spec_port_data_write() & Self::spec_port_mask()),
    {
        port & Self::port_mask() == Self::port_data_write() & Self::port_mask()
    }

}

/// Matches I/O port addresses of the AY-3-8912 chip of the ZX Spectrum 128k.
#[derive(Clone, Copy, Default, Debug)]
pub struct Ay128kPortDecode;

impl AyPortDecode for Ay128kPortDecode {
    open spec fn spec_port_mask() -> u16 {
        0b1100_0000_0000_0010
    }

    open spec fn spec_port_select() -> u16 {
        0b1100_0000_0000_0000
    }

    open spec fn spec_port_data_read() -> u16 {
        0b1100_0000_0000_0000
    }

    open spec fn spec_port_data_write() -> u16 {
        0b1000_0000_0000_0000
    }

    fn port_mask() -> (r: u16) {
        0b1100_0000_0000_0010
    }

    fn port_select() -> (r: u16) {
        0b1100_0000_0000_0000
    }

    fn port_data_read() -> (r: u16) {
        0b1100_0000_0000_0000
    }

    fn port_data_write() -> (r: u16) {
        0b1000_0000_0000_0000
    }
}

/// Matches I/O port addresses of the Fuller Box AY chip.
#[derive(Clone, Copy, Default, Debug)]
pub struct AyFullerBoxPortDecode;

impl AyPortDecode for AyFullerBoxPortDecode {
    open spec fn spec_port_mask() -> u16 {
        0x00ff
    }

    open spec fn spec_port_select() -> u16 {
        0x003f
    }

    open spec fn spec_port_data_read() -> u16 {
        0x003f
    }

    open spec fn spec_port_data_write() -> u16 {
        0x005f
    }

    fn port_mask() -> (r: u16) {
        0x00ff
    }

    fn port_select() -> (r: u16) {
        0x003f
    }

    fn port_data_read() -> (r: u16) {
        0x003f
    }

    fn port_data_write() -> (r: u16) {
        0x005f
    }
}

/// Matches I/O port addresses of the AY chip of the Timex TC2068.
#[derive(Clone, Copy, Default, Debug)]
pub struct AyTC2068PortDecode;

impl AyPortDecode for AyTC2068PortDecode {
    open spec fn spec_port_mask() -> u16 {
        0x00ff
    }

    open spec fn spec_port_select() -> u16 {
        0x00f5
    }

    open spec fn spec_port_data_read() -> u16 {
        0x00f6
    }

    open spec fn spec_port_data_write() -> u16 {
        0x00f6
    }

    fn port_mask() -> (r: u16) {
        0x00ff
    }

    fn port_select() -> (r: u16) {
        0x00f5
    }

    fn port_data_read() -> (r: u16) {
        0x00f6
    }

    fn port_data_write() -> (r: u16) {
        0x00f6
    }
}

/// A device connected to one of the I/O ports of the AY chip.
///
/// The default methods do nothing, and reading gives `0xff`.
pub trait AyIoPort {
    /// The type of the timestamps of the I/O operations.
    type Timestamp: Sized;

    /// Resets the device.
    fn ay_io_reset(&mut self, timestamp: Self::Timestamp) {
    }

    /// Writes `data` to the device.
    fn ay_io_write(&mut self, addr: u16, data: u8, timestamp: Self::Timestamp) {
    }

    /// Reads data from the device.
    fn ay_io_read(&mut self, addr: u16, timestamp: Self::Timestamp) -> u8 {
        0xff
    }

    /// Ends the current frame.
    fn end_frame(&mut self, timestamp: Self::Timestamp) {
    }
}

/// A port with nothing connected to it.
#[derive(Debug)]
pub struct AyIoNullPort<T>(PhantomData<T>);

impl<T> Default for AyIoNullPort<T> {
    fn default() -> (r: Self) {
        AyIoNullPort(PhantomData)
    }
}

impl<T> Clone for AyIoNullPort<T> {
    fn clone(&self) -> (r: Self) {
        AyIoNullPort(PhantomData)
    }
}

impl<T> Copy for AyIoNullPort<T> {

}

impl<T> AyIoPort for AyIoNullPort<T> {
    type Timestamp = T;
}

/// Records the changes of the sound registers of the AY chip.
pub trait AyRegRecorder {
    /// The type of the timestamps of the changes.
    type Timestamp;

    /// Records a change of the register `reg` to `val`.
    fn record_ay_reg_change(&mut self, reg: AyRegister, val: u8, timestamp: Self::Timestamp);

    /// Forgets all recorded changes.
    fn clear_ay_reg_changes(&mut self);
}

/// A recorder that forgets every change.
#[derive(Debug)]
pub struct AyRegNullRecorder<T>(PhantomData<T>);

impl<T> Default for AyRegNullRecorder<T> {
    fn default() -> (r: Self) {
        AyRegNullRecorder(PhantomData)
    }
}

impl<T> Clone for AyRegNullRecorder<T> {
    fn clone(&self) -> (r: Self) {
        AyRegNullRecorder(PhantomData)
    }
}

impl<T> AyRegRecorder for AyRegNullRecorder<T> {
    type Timestamp = T;

    fn record_ay_reg_change(&mut self, reg: AyRegister, val: u8, timestamp: T) {
    }

    fn clear_ay_reg_changes(&mut self) {
    }
}

/// A recorder that keeps every change, in order, as a timestamp, a register and a value.
#[derive(Clone, Debug)]
pub struct AyRegVecRecorder<T>(pub Vec<(T, AyRegister, u8)>);

impl<T> Default for AyRegVecRecorder<T> {
    fn default() -> (r: Self)
        ensures
            r.0@.len() == 0,
    {
        AyRegVecRecorder(Vec::new())
    }
}

impl<T> AyRegRecorder for AyRegVecRecorder<T> {
    type Timestamp = T;

    fn record_ay_reg_change(&mut self, reg: AyRegister, val: u8, timestamp: T)
        ensures
            final(self).0@ == old(self).0@.push((timestamp, reg, val)),
    {
        self.0.push((timestamp, reg, val));
    }

    fn clear_ay_reg_changes(&mut self)
        ensures
            final(self).0@.len() == 0,
    {
        self.0.clear();
    }
}

impl AyRegVecRecorder<i32> {
    /// Takes the recorded changes out, in order, as [AyRegChange] items.
    pub fn drain_ay_reg_changes(&mut self) -> (r: Vec<AyRegChange>)
        ensures
            final(self).0@.len() == 0,
            r@.len() == old(self).0@.len(),
            forall|i: int| 0 <= i < r@.len() ==> #[trigger] r@[i] == (AyRegChange {
                time: old(self).0@[i].0,
                reg: old(self).0@[i].1,
                val: old(self).0@[i].2,
            }),
    {
        let mut changes: Vec<AyRegChange> = Vec::new();
        let mut k: usize = 0;
        while k < self.0.len()
            invariant
                k <= self.0@.len(),
                self.0@ == old(self).0@,
                changes@.len() == k,
                forall|i: int| 0 <= i < k ==> #[trigger] changes@[i] == (AyRegChange {
                    time: self.0@[i].0,
                    reg: self.0@[i].1,
                    val: self.0@[i].2,
                }),
            decreases self.0@.len() - k,
        {
            let (time, reg, val) = self.0[k];
            changes.push(AyRegChange { time, reg, val });
            k = k + 1;
        }
        self.0.clear();
        changes
    }

    /// Returns `true` when no change is recorded.
    pub fn is_empty(&self) -> (r: bool)
        ensures r == (self.0@.len() == 0),
    {
        self.0.len() == 0
    }
}

/// The I/O of the AY-3-891x programmable sound generator: its registers, the register
/// selected for the next access, its two I/O ports and a recorder of the changes of the
/// sound registers.
#[derive(Debug)]
pub struct Ay3_891xIo<T, R, A, B> {
    /// The recorder of the changes of the sound registers.
    pub recorder: R,
    /// The device at the I/O port A.
    pub port_a: A,
    /// The device at the I/O port B.
    pub port_b: B,
    regs: [u8; 16],
    selected_reg: AyRegister,
    _ts: PhantomData<T>,
}

/// The bits of `b` are a part of the bits of `m` when `b` is `a & m`.
/// What the chip reads of an I/O port whose device gives `input`: the input when the port is
/// an input (its `bit` of the mixer register `mixer` is clear), else the input masked with the
/// port's register `reg`.
pub open spec fn spec_io_port_value(input: u8, mixer: u8, bit: u8, reg: u8) -> u8 {
    if mixer & bit == 0 {
        input
    } else {
        input & reg
    }
}

/// Returns what the chip reads of an I/O port (see [spec_io_port_value]).
pub fn io_port_value(input: u8, mixer: u8, bit: u8, reg: u8) -> (r: u8)
    ensures
        r == spec_io_port_value(input, mixer, bit, reg),
{
    if mixer & bit == 0 {
        input
    } else {
        input & reg
    }
}

proof fn lemma_and_within(a: u8, m: u8)
    by (bit_vector)
    ensures
        (a & m) & !m == 0,
{
}

impl<T, R, A, B> Ay3_891xIo<T, R, A, B> {
    /// The values of the registers.
    pub closed spec fn spec_regs(&self) -> Seq<u8> {
        self.regs@
    }

    /// The register selected for the next access.
    pub closed spec fn spec_selected(&self) -> AyRegister {
        self.selected_reg
    }

    /// The recorder of the changes of the sound registers.
    pub closed spec fn spec_recorder(&self) -> R {
        self.recorder
    }

    /// The device at the I/O port A.
    pub closed spec fn spec_port_a(&self) -> A {
        self.port_a
    }

    /// The device at the I/O port B.
    pub closed spec fn spec_port_b(&self) -> B {
        self.port_b
    }

    /// The values of the registers after `data` is written to the selected register.
    pub open spec fn spec_regs_after_write(&self, data: u8) -> Seq<u8> {
        let i = spec_reg_index(self.spec_selected()) as int;
        self.spec_regs().update(i, data & spec_reg_mask(i))
    }

    /// Returns a mutable reference to the recorder of the changes of the sound registers.
    pub fn recorder_mut(&mut self) -> (r: &mut R)
        ensures
            *r == old(self).spec_recorder(),
            final(self).spec_recorder() == *final(r),
            final(self).spec_regs() == old(self).spec_regs(),
            final(self).spec_selected() == old(self).spec_selected(),
            final(self).spec_port_a() == old(self).spec_port_a(),
            final(self).spec_port_b() == old(self).spec_port_b(),
    {
        &mut self.recorder
    }

    /// There are 16 registers.
    pub proof fn lemma_regs_len(&self)
        ensures
            self.spec_regs().len() == 16,
    {
    }

    /// Writing `data` to the selected register stores the bits that register holds, and reading
    /// it back gives them: the coarse tone periods and the envelope shape keep 4 bits, the noise
    /// period keeps 5, the amplitudes keep 5 (the level and the envelope-mode bit 4), and the
    /// other registers keep all 8. The other registers stay as they were.
    pub proof fn lemma_write_keeps_register_bits(&self, data: u8)
        ensures
            ({
                let i = spec_reg_index(self.spec_selected()) as int;
                let kept: u8 = match self.spec_selected() {
                    AyRegister::ToneCoarseA | AyRegister::ToneCoarseB | AyRegister::ToneCoarseC
                    | AyRegister::EnvShape => 0x0f,
                    AyRegister::NoisePeriod | AyRegister::AmpLevelA | AyRegister::AmpLevelB
                    | AyRegister::AmpLevelC => 0x1f,
                    _ => 0xff,
                };
                &&& self.spec_regs_after_write(data)[i] == data & kept
                &&& forall|j: int| 0 <= j < 16 && j != i ==> self.spec_regs_after_write(data)[j] == self.spec_regs()[j]
            }),
    {
    }
}

impl<T, R: Default, A: Default, B: Default> Default for Ay3_891xIo<T, R, A, B> {
    fn default() -> (r: Self)
        ensures
            r.spec_regs() == Seq::new(16, |i: int| 0u8),
            r.spec_selected() == AyRegister::ToneFineA,
    {
        let r = Ay3_891xIo {
            recorder: R::default(),
            port_a: A::default(),
            port_b: B::default(),
            regs: [0u8; 16],
            selected_reg: AyRegister::ToneFineA,
            _ts: PhantomData,
        };
        assert(r.regs@ =~= Seq::new(16, |i: int| 0u8));
        r
    }
}

impl<T, R, A, B> Ay3_891xIo<T, R, A, B> where
    A: AyIoPort<Timestamp = T>,
    B: AyIoPort<Timestamp = T>,
    R: AyRegRecorder<Timestamp = T>,
 {
    /// Resets the registers and the selection, and resets both I/O port devices.
    pub fn reset(&mut self, timestamp: T) where T: Copy
        ensures
            final(self).spec_regs() == Seq::new(16, |i: int| 0u8),
            final(self).spec_selected() == AyRegister::ToneFineA,
    {
        self.regs = [0u8; 16];
        self.selected_reg = AyRegister::ToneFineA;
        self.port_a.ay_io_reset(timestamp);
        self.port_b.ay_io_reset(timestamp);
        assert(self.regs@ =~= Seq::new(16, |i: int| 0u8));
    }

    /// Forgets the recorded register changes and ends the frame of both I/O port devices.
    pub fn next_frame(&mut self, timestamp: T) where T: Copy
        ensures
            final(self).spec_regs() == old(self).spec_regs(),
            final(self).spec_selected() == old(self).spec_selected(),
    {
        self.recorder.clear_ay_reg_changes();
        self.port_a.end_frame(timestamp);
        self.port_b.end_frame(timestamp);
    }

    /// Returns the value of the register `reg`.
    pub fn get(&self, reg: AyRegister) -> (r: u8)
        ensures
            r == self.spec_regs()[spec_reg_index(reg) as int],
    {
        let index = usize::from(reg);
        self.regs[index]
    }

    /// Returns the values of all the registers.
    pub fn registers(&self) -> (r: &[u8; 16])
        ensures
            r@ == self.spec_regs(),
    {
        &self.regs
    }

    /// Returns all the registers with their values, in order.
    pub fn iter_regs(&self) -> (r: Vec<(AyRegister, u8)>)
        ensures
            r@.len() == 16,
            forall|i: int| 0 <= i < 16 ==> r@[i] == (spec_reg_of(i as u8), self.spec_regs()[i]),
    {
        let mut r: Vec<(AyRegister, u8)> = Vec::new();
        let mut k: usize = 0;
        while k < 16
            invariant
                k <= 16,
                self.regs@.len() == 16,
                r@.len() == k,
                forall|i: int| 0 <= i < k ==> r@[i] == (spec_reg_of(i as u8), self.spec_regs()[i]),
            decreases 16 - k,
        {
            r.push((AyRegister::from(k as u8), self.regs[k]));
            k = k + 1;
        }
        r
    }

    /// Returns the registers that control the sound generation with their values, in order.
    pub fn iter_sound_gen_regs(&self) -> (r: Vec<(AyRegister, u8)>)
        ensures
            r@.len() == NUM_SOUND_GEN_REGISTERS,
            forall|i: int| 0 <= i < NUM_SOUND_GEN_REGISTERS ==> r@[i] == (spec_reg_of(i as u8), self.spec_regs()[i]),
    {
        let mut r = self.iter_regs();
        r.truncate(NUM_SOUND_GEN_REGISTERS);
        r
    }

    /// Sets the register `reg` to `val`, keeping only the bits that the register holds.
    pub fn set(&mut self, reg: AyRegister, val: u8)
        ensures
            final(self).spec_regs() == old(self).spec_regs().update(
                spec_reg_index(reg) as int,
                val & spec_reg_mask(spec_reg_index(reg) as int),
            ),
            final(self).spec_selected() == old(self).spec_selected(),
            final(self).spec_recorder() == old(self).spec_recorder(),
            final(self).spec_port_a() == old(self).spec_port_a(),
            final(self).spec_port_b() == old(self).spec_port_b(),
    {
        let index = usize::from(reg);
        self.regs[index] = val & reg_mask(index);
    }

    /// Returns `true` if the I/O port A is an input.
    pub fn is_ioa_input(&self) -> (r: bool)
        ensures
            r == (self.spec_regs()[7] & 0x40 == 0),
    {
        self.get(AyRegister::MixerControl) & 0x40 == 0
    }

    /// Returns `true` if the I/O port B is an input.
    pub fn is_iob_input(&self) -> (r: bool)
        ensures
            r == (self.spec_regs()[7] & 0x80 == 0),
    {
        self.get(AyRegister::MixerControl) & 0x80 == 0
    }

    /// Returns `true` if the I/O port A is an output.
    pub fn is_ioa_output(&self) -> (r: bool)
        ensures
            r == (self.spec_regs()[7] & 0x40 != 0),
    {
        !self.is_ioa_input()
    }

    /// Returns `true` if the I/O port B is an output.
    pub fn is_iob_output(&self) -> (r: bool)
        ensures
            r == (self.spec_regs()[7] & 0x80 != 0),
    {
        !self.is_iob_input()
    }

    /// Returns the register selected for the next access.
    pub fn selected_register(&self) -> (r: AyRegister)
        ensures
            r == self.spec_selected(),
    {
        self.selected_reg
    }

    /// Selects the register with the index `data` (modulo 16) for the next access.
    pub fn select_port_write(&mut self, data: u8)
        ensures
            final(self).spec_selected() == spec_reg_of(data),
            final(self).spec_regs() == old(self).spec_regs(),
            final(self).spec_recorder() == old(self).spec_recorder(),
            final(self).spec_port_a() == old(self).spec_port_a(),
            final(self).spec_port_b() == old(self).spec_port_b(),
    {
        self.selected_reg = AyRegister::from(data)
    }

    /// Writes `data` to the selected register: to the device at the I/O port A or B for the
    /// I/O registers, to the recorder of changes for the others.
    pub fn data_port_write(&mut self, port: u16, data: u8, timestamp: T)
        ensures
            final(self).spec_regs() == old(self).spec_regs_after_write(data),
            final(self).spec_selected() == old(self).spec_selected(),
            old(self).spec_selected() == AyRegister::IoA ==> final(self).spec_recorder() == old(self).spec_recorder()
                && final(self).spec_port_b() == old(self).spec_port_b(),
            old(self).spec_selected() == AyRegister::IoB ==> final(self).spec_recorder() == old(self).spec_recorder()
                && final(self).spec_port_a() == old(self).spec_port_a(),
            old(self).spec_selected() != AyRegister::IoA && old(self).spec_selected() != AyRegister::IoB
                ==> final(self).spec_port_a() == old(self).spec_port_a() && final(self).spec_port_b() == old(self).spec_port_b(),
    {
        let reg = self.selected_reg;
        self.set(reg, data);
        match reg {
            AyRegister::IoA => self.port_a.ay_io_write(port, data, timestamp),
            AyRegister::IoB => self.port_b.ay_io_write(port, data, timestamp),
            _ => self.recorder.record_ay_reg_change(reg, data, timestamp),
        }
    }

    /// Reads the selected register: the I/O registers read the device at their port, masked
    /// with the register's value when the port is an output; the others read their value.
    pub fn data_port_read(&mut self, port: u16, timestamp: T) -> (r: u8)
        ensures
            final(self).spec_regs() == old(self).spec_regs(),
            final(self).spec_selected() == old(self).spec_selected(),
            old(self).spec_selected() != AyRegister::IoA && old(self).spec_selected() != AyRegister::IoB
                ==> r == old(self).spec_regs()[spec_reg_index(old(self).spec_selected()) as int],
            old(self).spec_selected() == AyRegister::IoA ==> exists|x: u8|
                r == spec_io_port_value(x, old(self).spec_regs()[7], 0x40, old(self).spec_regs()[14]),
            old(self).spec_selected() == AyRegister::IoB ==> exists|x: u8|
                r == spec_io_port_value(x, old(self).spec_regs()[7], 0x80, old(self).spec_regs()[15]),
            old(self).spec_selected() == AyRegister::IoA && old(self).spec_regs()[7] & 0x40 != 0 ==> r
                & !old(self).spec_regs()[14] == 0,
            old(self).spec_selected() == AyRegister::IoB && old(self).spec_regs()[7] & 0x80 != 0 ==> r
                & !old(self).spec_regs()[15] == 0,
            old(self).spec_selected() != AyRegister::IoB ==> final(self).spec_port_b() == old(self).spec_port_b(),
            old(self).spec_selected() != AyRegister::IoA ==> final(self).spec_port_a() == old(self).spec_port_a(),
            final(self).spec_recorder() == old(self).spec_recorder(),
    {
        match self.selected_reg {
            AyRegister::IoA => {
                let port_input = self.port_a.ay_io_read(port, timestamp);
                let mixer = self.get(AyRegister::MixerControl);
                let reg = self.get(AyRegister::IoA);
                proof {
                    lemma_and_within(port_input, reg);
                }
                let r = io_port_value(port_input, mixer, 0x40, reg);
                assert(r == spec_io_port_value(port_input, old(self).spec_regs()[7], 0x40, old(self).spec_regs()[14]));
                r
            },
            AyRegister::IoB => {
                let port_input = self.port_b.ay_io_read(port, timestamp);
                let mixer = self.get(AyRegister::MixerControl);
                let reg = self.get(AyRegister::IoB);
                proof {
                    lemma_and_within(port_input, reg);
                }
                let r = io_port_value(port_input, mixer, 0x80, reg);
                assert(r == spec_io_port_value(port_input, old(self).spec_regs()[7], 0x80, old(self).spec_regs()[15]));
                r
            },
            reg => self.get(reg),
        }
    }
}

/// Writes `data` to the chip at `port`, decoded by `D`: selects a register or writes the selected one.
/// Returns `false`, changing nothing, when `port` is neither.
pub fn write_ay_io<D: AyPortDecode, T, R, A, B>(ay_io: &mut Ay3_891xIo<T, R, A, B>, port: u16, data: u8, timestamp: T) -> (r: bool) where
    A: AyIoPort<Timestamp = T>,
    B: AyIoPort<Timestamp = T>,
    R: AyRegRecorder<Timestamp = T>,
    ensures
        port & D::spec_port_mask() == D::spec_port_select() ==> r && final(ay_io).spec_selected()
            == spec_reg_of(data) && final(ay_io).spec_regs() == old(ay_io).spec_regs(),
        port & D::spec_port_mask() != D::spec_port_select() && port & D::spec_port_mask()
            == D::spec_port_data_write() ==> r && final(ay_io).spec_selected() == old(
            ay_io).spec_selected() && final(ay_io).spec_regs() == old(ay_io).spec_regs_after_write(data),
        port & D::spec_port_mask() != D::spec_port_select() && port & D::spec_port_mask()
            != D::spec_port_data_write() ==> !r && *final(ay_io) == *old(ay_io),
{
    let p = port & D::port_mask();
    if p == D::port_select() {
        ay_io.select_port_write(data);
        true
    } else if p == D::port_data_write() {
        ay_io.data_port_write(port, data, timestamp);
        true
    } else {
        false
    }
}


/// Selecting a register that controls the sound and writing `data` to it, then reading it,
/// gives `data` with only the bits that the register holds.
pub proof fn lemma_select_write_read(regs: Seq<u8>, select: u8, data: u8)
    requires
        regs.len() == 16,
        select % 16 < 14,
    ensures
        ({
            let i = spec_reg_index(spec_reg_of(select)) as int;
            &&& i == select % 16
            &&& regs.update(i, data & spec_reg_mask(i))[i] == data & spec_reg_mask(i)
        }),
{
}

} // verus!
