//! A bus device for connecting **ZX Printer** family of printers.
use vstd::prelude::*;

use core::marker::PhantomData;

use crate::bus::{PortAddress, spec_default_match_port};
use crate::peripherals::bus::ay::PassByAyAudioBusDevice;
use crate::peripherals::zxprinter::{Spooler, ZxPrinterDevice, MAX_TIMESTAMP};

verus! {

/// Connects the [ZxPrinterDevice] emulator at ports matched by `P`, in front of the next
/// device `D` on the bus.
#[derive(Debug)]
pub struct ZxPrinterBusDevice<P, S, D> {
    /// Provides a direct access to the [ZxPrinterDevice].
    pub printer: ZxPrinterDevice<S>,
    bus: D,
    _port_decode: PhantomData<P>,
}

impl<P, S, D> ZxPrinterBusDevice<P, S, D> {
    /// Creates a printer controller with the given printer and next device.
    pub fn new(printer: ZxPrinterDevice<S>, bus: D) -> (r: Self)
        ensures r.spec_printer() == printer, r.spec_next_device() == bus,
    {
        ZxPrinterBusDevice { printer, bus, _port_decode: PhantomData }
    }
    /// The next device on the bus.
    pub closed spec fn spec_next_device(&self) -> D {
        self.bus
    }
    /// The printer.
    pub closed spec fn spec_printer(&self) -> ZxPrinterDevice<S> {
        self.printer
    }
    /// Returns a reference to the next device on the bus.
    pub fn next_device_ref(&self) -> (r: &D)
        ensures *r == self.spec_next_device(),
    {
        &self.bus
    }
    /// Returns the next device on the bus.
    pub fn into_next_device(self) -> (r: D)
        ensures r == self.spec_next_device(),
    {
        self.bus
    }
}

impl<P: PortAddress, S: Spooler, D> ZxPrinterBusDevice<P, S, D> {
    /// Resets the printer.
    pub fn reset(&mut self)
        ensures
            !final(self).spec_printer().spec_motor(),
            !final(self).spec_printer().spec_ready(),
            final(self).spec_printer().spec_cursor() == 0,
            final(self).spec_printer().spec_line() == Seq::new(32, |i: int| 0u8),
            final(self).spec_printer().spec_ready_ts() == old(self).spec_printer().spec_ready_ts(),
            final(self).spec_next_device() == old(self).spec_next_device(),
    {
        self.printer.reset();
    }

    /// Moves the printer's time on to the next frame, which lasted `frame_tstates`.
    pub fn next_frame(&mut self, frame_tstates: i32)
        requires
            frame_tstates >= 0,
        ensures
            final(self).spec_printer().spec_ready_ts() == (if old(self).spec_printer().spec_ready_ts() - frame_tstates < i32::MIN {
                i32::MIN as int
            } else {
                old(self).spec_printer().spec_ready_ts() - frame_tstates
            }),
            final(self).spec_printer().spec_motor() == old(self).spec_printer().spec_motor(),
            final(self).spec_printer().spec_cursor() == old(self).spec_printer().spec_cursor(),
            final(self).spec_next_device() == old(self).spec_next_device(),
    {
        self.printer.next_frame(frame_tstates);
    }

    /// Combines the data read by the next device on the bus (`bus_data`, with an optional
    /// number of wait states) with the printer status if `port` matches.
    ///
    /// When both respond, the data is the bitwise AND of both.
    pub fn read_io(&mut self, port: u16, timestamp: i32, bus_data: Option<(u8, Option<u16>)>) -> (r: Option<(u8, Option<u16>)>)
        ensures
            !P::spec_match_port(port) ==> r == bus_data && *final(self) == *old(self),
            P::spec_match_port(port) ==> r == (match bus_data {
                Some((data, ws)) => Some((data & old(self).spec_printer().spec_status(timestamp), ws)),
                None => Some((old(self).spec_printer().spec_status(timestamp), None::<u16>)),
            }),
            final(self).spec_next_device() == old(self).spec_next_device(),
    {
        if P::match_port(port) {
            let pr_data = self.printer.read_status(timestamp);
            if let Some((data, ws)) = bus_data {
                return Some((data & pr_data, ws));
            }
            return Some((pr_data, None));
        }
        bus_data
    }

    /// Writes `data` to the printer's control if `port` matches, and then returns `Some(0)`
    /// (no wait states). Otherwise returns `None`: the write goes on to the next device on the bus.
    pub fn write_io(&mut self, port: u16, data: u8, timestamp: i32) -> (r: Option<u16>)
        requires
            timestamp <= MAX_TIMESTAMP,
        ensures
            r == (if P::spec_match_port(port) { Some(0u16) } else { None::<u16> }),
            !P::spec_match_port(port) ==> *final(self) == *old(self),
            final(self).spec_next_device() == old(self).spec_next_device(),
    {
        if P::match_port(port) {
            self.printer.write_control(data, timestamp);
            return Some(0);
        }
        None
    }
}

/// ZX Printer [PortAddress].
#[derive(Clone, Copy, Default, Debug)]
pub struct ZxPrinterPortAddress;

impl PortAddress for ZxPrinterPortAddress {
    open spec fn spec_address_mask() -> u16 { 0b0000_0000_0000_0100 }
    open spec fn spec_address_bits() -> u16 { 0b0000_0000_1111_1011 }
    open spec fn spec_match_port(address: u16) -> bool { spec_default_match_port(address, 0b0000_0000_0000_0100, 0b0000_0000_1111_1011) }
    fn address_mask() -> (r: u16) { 0b0000_0000_0000_0100 }
    fn address_bits() -> (r: u16) { 0b0000_0000_1111_1011 }
    fn match_port(address: u16) -> (r: bool) { address & 0b0000_0000_0000_0100 == 0b0000_0000_1111_1011 & 0b0000_0000_0000_0100 }
}

/// Alphacom 32 [PortAddress].
#[derive(Clone, Copy, Default, Debug)]
pub struct Alphacom32PortAddress;

impl PortAddress for Alphacom32PortAddress {
    open spec fn spec_address_mask() -> u16 { 0b0000_0000_0100_0100 }
    open spec fn spec_address_bits() -> u16 { 0b0000_0000_1111_1011 }
    open spec fn spec_match_port(address: u16) -> bool { spec_default_match_port(address, 0b0000_0000_0100_0100, 0b0000_0000_1111_1011) }
    fn address_mask() -> (r: u16) { 0b0000_0000_0100_0100 }
    fn address_bits() -> (r: u16) { 0b0000_0000_1111_1011 }
    fn match_port(address: u16) -> (r: bool) { address & 0b0000_0000_0100_0100 == 0b0000_0000_1111_1011 & 0b0000_0000_0100_0100 }
}

/// TS2040 [PortAddress].
#[derive(Clone, Copy, Default, Debug)]
pub struct TS2040PortAddress;

impl PortAddress for TS2040PortAddress {
    open spec fn spec_address_mask() -> u16 { 0b0000_0000_1000_0100 }
    open spec fn spec_address_bits() -> u16 { 0b0000_0000_1111_1011 }
    open spec fn spec_match_port(address: u16) -> bool { spec_default_match_port(address, 0b0000_0000_1000_0100, 0b0000_0000_1111_1011) }
    fn address_mask() -> (r: u16) { 0b0000_0000_1000_0100 }
    fn address_bits() -> (r: u16) { 0b0000_0000_1111_1011 }
    fn match_port(address: u16) -> (r: bool) { address & 0b0000_0000_1000_0100 == 0b0000_0000_1111_1011 & 0b0000_0000_1000_0100 }
}

impl<P, S, D> PassByAyAudioBusDevice for ZxPrinterBusDevice<P, S, D> {
}

} // verus!
