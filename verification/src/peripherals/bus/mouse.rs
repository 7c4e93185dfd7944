//! A bus device for connecting pointing devices / mice.
use vstd::prelude::*;

use core::marker::PhantomData;

use crate::bus::{PortAddress, spec_default_match_port};
use crate::peripherals::bus::ay::PassByAyAudioBusDevice;
use crate::peripherals::mouse::MouseDevice;

verus! {

/// A mouse controller, connecting a mouse device at ports matched by `P`, in front of the next
/// device `D` on the bus.
#[derive(Debug)]
pub struct MouseBusDevice<P, M, D> {
    /// A [MouseDevice] implementation, which may also implement the mouse interface trait
    /// for providing user input.
    pub mouse: M,
    bus: D,
    _port_decode: PhantomData<P>,
}

impl<P, M: MouseDevice, D> MouseBusDevice<P, M, D> {
    /// Creates a mouse controller with the given mouse and next device.
    pub fn new(mouse: M, bus: D) -> (r: Self)
        ensures r.spec_mouse() == mouse, r.spec_next_device() == bus,
    {
        MouseBusDevice { mouse, bus, _port_decode: PhantomData }
    }
    /// The next device on the bus.
    pub closed spec fn spec_next_device(&self) -> D {
        self.bus
    }
    /// The mouse device.
    pub closed spec fn spec_mouse(&self) -> M {
        self.mouse
    }
    /// Returns a reference to the next device on the bus.
    pub fn next_device_ref(&self) -> (r: &D)
        ensures *r == self.spec_next_device(),
    {
        &self.bus
    }
    /// Returns the next device on the bus.
    pub fn into_next_device(self) -> (r: D)
        ensures r == self.spec_next_device(),
    {
        self.bus
    }
}

impl<P: PortAddress, M: MouseDevice, D> MouseBusDevice<P, M, D> {
    /// Combines the data read by the next device on the bus (`bus_data`, with an optional
    /// number of wait states) with the data read from the mouse if `port` matches.
    ///
    /// When both respond, the data is the bitwise AND of both.
    pub fn read_io(&self, port: u16, bus_data: Option<(u8, Option<u16>)>) -> (r: Option<(u8, Option<u16>)>)
        ensures
            !P::spec_match_port(port) ==> r == bus_data,
            P::spec_match_port(port) ==> r == (match bus_data {
                Some((data, ws)) => Some((data & self.spec_mouse().spec_port_read(port), ws)),
                None => Some((self.spec_mouse().spec_port_read(port), None::<u16>)),
            }),
    {
        if P::match_port(port) {
            let mouse_data = self.mouse.port_read(port);
            if let Some((data, ws)) = bus_data {
                return Some((data & mouse_data, ws));
            }
            return Some((mouse_data, None));
        }
        bus_data
    }

    /// Writes `data` to the mouse if `port` matches and the mouse accepts writes: then returns
    /// `Some(0)` (no wait states). Otherwise returns `None`: the write goes on to the next
    /// device on the bus.
    pub fn write_io(&mut self, port: u16, data: u8) -> (r: Option<u16>)
        ensures
            r == None::<u16> || r == Some(0u16),
            r is Some ==> P::spec_match_port(port),
            !P::spec_match_port(port) ==> *final(self) == *old(self),
            final(self).spec_next_device() == old(self).spec_next_device(),
    {
        if P::match_port(port) {
            if self.mouse.port_write(port, data) {
                return Some(0);
            }
        }
        None
    }
}

/// Kempston Mouse [PortAddress].
#[derive(Clone, Copy, Default, Debug)]
pub struct KempstonMousePortAddress;

impl PortAddress for KempstonMousePortAddress {
    open spec fn spec_address_mask() -> u16 { 0b0000_0000_0010_0000 }
    open spec fn spec_address_bits() -> u16 { 0b1111_1010_1101_1111 }
    open spec fn spec_match_port(address: u16) -> bool {
        spec_default_match_port(address, 0b0000_0000_0010_0000, 0b1111_1010_1101_1111)
    }
    fn address_mask() -> (r: u16) { 0b0000_0000_0010_0000 }
    fn address_bits() -> (r: u16) { 0b1111_1010_1101_1111 }
    fn match_port(address: u16) -> (r: bool) { address & 0b0000_0000_0010_0000 == 0b1111_1010_1101_1111 & 0b0000_0000_0010_0000 }
}

impl<P, M, D> PassByAyAudioBusDevice for MouseBusDevice<P, M, D> {
}

} // verus!
