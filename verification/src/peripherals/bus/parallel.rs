//! A bus device for connecting parallel port devices via the +3 Centronics port.
use vstd::prelude::*;

use crate::bus::PortAddress;
use crate::peripherals::bus::ay::PassByAyAudioBusDevice;
use crate::peripherals::parallel::ParallelPortDevice;

verus! {

/// The `BUSY` bit of the +3 Centronics port flags.
pub const CENTRONICS_BUSY: u8 = 0b0000_0001;
/// The `STROBE` bit of the +3 Centronics port flags.
pub const CENTRONICS_STROBE: u8 = 0b0001_0000;

/// Connects the [ParallelPortDevice] emulator as a bus device via +3 Centronics Port, in front
/// of the next device `D` on the bus.
///
/// Substitute `P` with a type implementing [ParallelPortDevice].
#[derive(Debug)]
pub struct Plus3CentronicsBusDevice<P, D> {
    /// Provides a direct access to the [ParallelPortDevice].
    pub parallel: P,
    flags: u8,
    bus: D,
}

/// The +3 control port address (`0x1ffd`).
#[derive(Clone, Copy, Default, Debug)]
pub struct Ula3CtrlPortAddress;

impl PortAddress for Ula3CtrlPortAddress {
    open spec fn spec_address_mask() -> u16 { 0b1111_0000_0000_0010 }
    open spec fn spec_address_bits() -> u16 { 0b0001_1111_1111_1101 }
    open spec fn spec_match_port(address: u16) -> bool { address & 0b1111_0000_0000_0010 == 0b0001_1111_1111_1101 & 0b1111_0000_0000_0010 }
    fn address_mask() -> (r: u16) { 0b1111_0000_0000_0010 }
    fn address_bits() -> (r: u16) { 0b0001_1111_1111_1101 }
    fn match_port(address: u16) -> (r: bool) { address & 0b1111_0000_0000_0010 == 0b0001_1111_1111_1101 & 0b1111_0000_0000_0010 }
}

/// The +3 Centronics data port address (`0x0ffd`).
#[derive(Clone, Copy, Default, Debug)]
pub struct Ula3CentronicsPortAddress;

impl PortAddress for Ula3CentronicsPortAddress {
    open spec fn spec_address_mask() -> u16 { 0b1111_0000_0000_0010 }
    open spec fn spec_address_bits() -> u16 { 0b0000_1111_1111_1101 }
    open spec fn spec_match_port(address: u16) -> bool { address & 0b1111_0000_0000_0010 == 0b0000_1111_1111_1101 & 0b1111_0000_0000_0010 }
    fn address_mask() -> (r: u16) { 0b1111_0000_0000_0010 }
    fn address_bits() -> (r: u16) { 0b0000_1111_1111_1101 }
    fn match_port(address: u16) -> (r: bool) { address & 0b1111_0000_0000_0010 == 0b0000_1111_1111_1101 & 0b1111_0000_0000_0010 }
}

/// The flags with the `BUSY` bit set to `busy`.
pub open spec fn spec_with_busy(flags: u8, busy: bool) -> u8 {
    if busy { flags | CENTRONICS_BUSY } else { flags & !CENTRONICS_BUSY }
}

impl<P, D> Plus3CentronicsBusDevice<P, D> {
    /// Creates a Centronics port controller with the given parallel device and next device,
    /// with the `BUSY` and `STROBE` lines low.
    pub fn new(parallel: P, bus: D) -> (r: Self)
        ensures r.spec_parallel() == parallel, r.spec_next_device() == bus, r.spec_flags() == 0,
    {
        Plus3CentronicsBusDevice { parallel, flags: 0, bus }
    }
    /// The `BUSY` and `STROBE` flags.
    pub closed spec fn spec_flags(&self) -> u8 {
        self.flags
    }
    /// The next device on the bus.
    pub closed spec fn spec_next_device(&self) -> D {
        self.bus
    }
    /// The parallel device.
    pub closed spec fn spec_parallel(&self) -> P {
        self.parallel
    }
    /// Returns a reference to the next device on the bus.
    pub fn next_device_ref(&self) -> (r: &D)
        ensures *r == self.spec_next_device(),
    {
        &self.bus
    }
    /// Returns the next device on the bus.
    pub fn into_next_device(self) -> (r: D)
        ensures r == self.spec_next_device(),
    {
        self.bus
    }
}

impl<P: ParallelPortDevice, D> Plus3CentronicsBusDevice<P, D> {
    /// Lets the parallel device wrap its timestamps at the end of a frame.
    pub fn next_frame(&mut self)
        ensures
            final(self).spec_flags() == old(self).spec_flags(),
            final(self).spec_next_device() == old(self).spec_next_device(),
    {
        self.parallel.next_frame();
    }

    /// Polls the parallel device for its `BUSY` signal while it is high.
    pub fn update_timestamp(&mut self)
        ensures
            old(self).spec_flags() & CENTRONICS_BUSY == 0 ==> *final(self) == *old(self),
            final(self).spec_flags() & !CENTRONICS_BUSY == old(self).spec_flags() & !CENTRONICS_BUSY,
            final(self).spec_next_device() == old(self).spec_next_device(),
    {
        if self.flags & CENTRONICS_BUSY != 0 {
            let busy = self.parallel.poll_busy();
            let f = self.flags;
            self.flags = if busy { f | CENTRONICS_BUSY } else { f & !CENTRONICS_BUSY };
            assert((f | CENTRONICS_BUSY) & !CENTRONICS_BUSY == f & !CENTRONICS_BUSY
                && (f & !CENTRONICS_BUSY) & !CENTRONICS_BUSY == f & !CENTRONICS_BUSY) by (bit_vector);
        }
    }

    /// Reads the Centronics port: every bit is set but `BUSY`, which tells the `BUSY` signal.
    /// Other ports are left to the next device on the bus (`None`).
    pub fn read_io(&self, port: u16) -> (r: Option<(u8, Option<u16>)>)
        ensures
            r == (if Ula3CentronicsPortAddress::spec_match_port(port) {
                Some(((self.spec_flags() & CENTRONICS_BUSY) | !CENTRONICS_BUSY, None::<u16>))
            } else {
                None
            }),
    {
        if Ula3CentronicsPortAddress::match_port(port) {
            let data = (self.flags & CENTRONICS_BUSY) | !CENTRONICS_BUSY;
            return Some((data, None));
        }
        None
    }

    /// Writes `data` to the parallel device at the Centronics port, and then returns `Some(0)`.
    ///
    /// A write to the +3 control port that changes the `STROBE` bit hands the new `STROBE`
    /// state to the parallel device, whose answer becomes the `BUSY` bit; such a write, like any
    /// other, goes on to the next device on the bus (`None`).
    pub fn write_io(&mut self, port: u16, data: u8, timestamp: P::Timestamp) -> (r: Option<u16>)
        ensures
            Ula3CentronicsPortAddress::spec_match_port(port) ==> r == Some(0u16)
                && final(self).spec_flags() == old(self).spec_flags(),
            !Ula3CentronicsPortAddress::spec_match_port(port) ==> r == None::<u16>,
            !Ula3CentronicsPortAddress::spec_match_port(port) && Ula3CtrlPortAddress::spec_match_port(port)
                && (old(self).spec_flags() ^ data) & CENTRONICS_STROBE == CENTRONICS_STROBE ==> exists|busy: bool|
                final(self).spec_flags() == spec_with_busy(old(self).spec_flags() ^ CENTRONICS_STROBE, busy),
            !Ula3CentronicsPortAddress::spec_match_port(port) && !(Ula3CtrlPortAddress::spec_match_port(port)
                && (old(self).spec_flags() ^ data) & CENTRONICS_STROBE == CENTRONICS_STROBE) ==> *final(self) == *old(self),
            final(self).spec_next_device() == old(self).spec_next_device(),
    {
        if Ula3CentronicsPortAddress::match_port(port) {
            self.parallel.write_data(data, timestamp);
            return Some(0);
        } else if Ula3CtrlPortAddress::match_port(port) {
            let old_flags = self.flags;
            let flags = data & (CENTRONICS_BUSY | CENTRONICS_STROBE);
            let flags_diff = (old_flags ^ flags) & CENTRONICS_STROBE;
            assert(((old_flags ^ data) & CENTRONICS_STROBE) == ((old_flags ^ (data & (CENTRONICS_BUSY | CENTRONICS_STROBE))) & CENTRONICS_STROBE)) by (bit_vector);
            if flags_diff == CENTRONICS_STROBE {
                let f = self.flags ^ flags_diff;
                let busy = self.parallel.write_strobe(flags & CENTRONICS_STROBE != 0, timestamp);
                self.flags = if busy { f | CENTRONICS_BUSY } else { f & !CENTRONICS_BUSY };
                assert(self.flags == spec_with_busy(old(self).flags ^ CENTRONICS_STROBE, busy));
            }
        }
        None
    }
}

impl<P, D> PassByAyAudioBusDevice for Plus3CentronicsBusDevice<P, D> {
}

} // verus!
