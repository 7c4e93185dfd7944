//! A bus device for connecting joysticks.
use vstd::prelude::*;

use core::marker::PhantomData;

use crate::bus::{PortAddress, spec_default_match_port};
use crate::peripherals::bus::ay::PassByAyAudioBusDevice;
use crate::chip::flags::{eq_ignore_ascii_case, spec_eq_ignore_ascii_case};
use crate::peripherals::joystick::{JoystickDevice, JoystickInterface};
use crate::peripherals::joystick::cursor::CursorJoystickDevice;
use crate::peripherals::joystick::fuller::FullerJoystickDevice;
use crate::peripherals::joystick::kempston::KempstonJoystickDevice;
use crate::peripherals::joystick::sinclair::{SinclairJoystickDevice, SinclairJoyLeftMap, SinclairJoyRightMap};
use vstd::string::StringSliceAdditionalSpecFns;

verus! {

/// A joystick controller, connecting a joystick device at ports matched by `P`, in front of
/// the next device `D` on the bus.
#[derive(Debug)]
pub struct JoystickBusDevice<P, J, D> {
    /// A [JoystickDevice] implementation, which may also implement [JoystickInterface] trait
    /// for providing user input.
    pub joystick: J,
    bus: D,
    _port_decode: PhantomData<P>,
}

impl<P, J: JoystickDevice, D> JoystickBusDevice<P, J, D> {
    /// Creates a joystick controller with the given joystick and next device.
    pub fn new(joystick: J, bus: D) -> (r: Self)
        ensures r.spec_joystick() == joystick, r.spec_next_device() == bus,
    {
        JoystickBusDevice { joystick, bus, _port_decode: PhantomData }
    }
    /// The next device on the bus.
    pub closed spec fn spec_next_device(&self) -> D {
        self.bus
    }
    /// The joystick device.
    pub closed spec fn spec_joystick(&self) -> J {
        self.joystick
    }
    /// Returns a reference to the next device on the bus.
    pub fn next_device_ref(&self) -> (r: &D)
        ensures *r == self.spec_next_device(),
    {
        &self.bus
    }
    /// Returns the next device on the bus.
    pub fn into_next_device(self) -> (r: D)
        ensures r == self.spec_next_device(),
    {
        self.bus
    }
}

impl<P: PortAddress, J: JoystickDevice, D> JoystickBusDevice<P, J, D> {
    /// Combines the data read by the next device on the bus (`bus_data`, with an optional
    /// number of wait states) with the data read from the joystick if `port` matches.
    ///
    /// When both respond, the data is the bitwise AND of both.
    pub fn read_io(&self, port: u16, bus_data: Option<(u8, Option<u16>)>) -> (r: Option<(u8, Option<u16>)>)
        ensures
            !P::spec_match_port(port) ==> r == bus_data,
            P::spec_match_port(port) ==> r == (match bus_data {
                Some((data, ws)) => Some((data & self.spec_joystick().spec_port_read(port), ws)),
                None => Some((self.spec_joystick().spec_port_read(port), None::<u16>)),
            }),
    {
        if P::match_port(port) {
            let joy_data = self.joystick.port_read(port);
            if let Some((data, ws)) = bus_data {
                return Some((data & joy_data, ws));
            }
            return Some((joy_data, None));
        }
        bus_data
    }
}

/// Kempston Joystick [PortAddress].
#[derive(Clone, Copy, Default, Debug)]
pub struct KempstonJoyPortAddress;

impl PortAddress for KempstonJoyPortAddress {
    open spec fn spec_address_mask() -> u16 { 0x0020 }
    open spec fn spec_address_bits() -> u16 { 0x001f }
    open spec fn spec_match_port(address: u16) -> bool { spec_default_match_port(address, 0x0020, 0x001f) }
    fn address_mask() -> (r: u16) { 0x0020 }
    fn address_bits() -> (r: u16) { 0x001f }
    fn match_port(address: u16) -> (r: bool) { address & 0x0020 == 0x001f & 0x0020 }
}

/// Fuller Joystick [PortAddress].
#[derive(Clone, Copy, Default, Debug)]
pub struct FullerJoyPortAddress;

impl PortAddress for FullerJoyPortAddress {
    open spec fn spec_address_mask() -> u16 { 0x00ff }
    open spec fn spec_address_bits() -> u16 { 0x007f }
    open spec fn spec_match_port(address: u16) -> bool { spec_default_match_port(address, 0x00ff, 0x007f) }
    fn address_mask() -> (r: u16) { 0x00ff }
    fn address_bits() -> (r: u16) { 0x007f }
    fn match_port(address: u16) -> (r: bool) { address & 0x00ff == 0x007f & 0x00ff }
}

/// Left Sinclair Joystick [PortAddress].
#[derive(Clone, Copy, Default, Debug)]
pub struct SinclairLeftJoyPortAddress;

impl PortAddress for SinclairLeftJoyPortAddress {
    open spec fn spec_address_mask() -> u16 { 0x0800 }
    open spec fn spec_address_bits() -> u16 { 0xf7fe }
    open spec fn spec_match_port(address: u16) -> bool { spec_default_match_port(address, 0x0800, 0xf7fe) }
    fn address_mask() -> (r: u16) { 0x0800 }
    fn address_bits() -> (r: u16) { 0xf7fe }
    fn match_port(address: u16) -> (r: bool) { address & 0x0800 == 0xf7fe & 0x0800 }
}

/// Right Sinclair Joystick [PortAddress].
#[derive(Clone, Copy, Default, Debug)]
pub struct SinclairRightJoyPortAddress;

impl PortAddress for SinclairRightJoyPortAddress {
    open spec fn spec_address_mask() -> u16 { 0x1000 }
    open spec fn spec_address_bits() -> u16 { 0xeffe }
    open spec fn spec_match_port(address: u16) -> bool { spec_default_match_port(address, 0x1000, 0xeffe) }
    fn address_mask() -> (r: u16) { 0x1000 }
    fn address_bits() -> (r: u16) { 0xeffe }
    fn match_port(address: u16) -> (r: bool) { address & 0x1000 == 0xeffe & 0x1000 }
}

/// Cursor Joystick [PortAddress].
#[derive(Clone, Copy, Default, Debug)]
pub struct CursorJoyPortAddress;

impl PortAddress for CursorJoyPortAddress {
    open spec fn spec_address_mask() -> u16 { 0x1800 }
    open spec fn spec_address_bits() -> u16 { 0xe7fe }
    /// Matches addresses: `0xeffe` or `0xf7fe` or `0xe7fe`.
    open spec fn spec_match_port(address: u16) -> bool { address & 0x1800 != 0x1800 }
    fn address_mask() -> (r: u16) { 0x1800 }
    fn address_bits() -> (r: u16) { 0xe7fe }
    fn match_port(address: u16) -> (r: bool) { address & 0x1800 != 0x1800 }
}

/// An enum of joystick device implementation variants.
///
/// Some of the variants contain more than one joystick device.
#[derive(Clone, Copy, Debug)]
pub enum JoystickSelect {
    Kempston(KempstonJoystickDevice),
    Fuller(FullerJoystickDevice),
    Sinclair(SinclairJoystickDevice<SinclairJoyRightMap>, SinclairJoystickDevice<SinclairJoyLeftMap>),
    Cursor(CursorJoystickDevice),
}

/// An error that can be returned when parsing a [JoystickSelect] variant.
#[derive(Debug, Clone, PartialEq, Eq)]
pub struct ParseJoystickSelectError;

/// The error type returned when a [JoystickSelect] variant conversion failed.
#[derive(Debug, Clone, PartialEq, Eq)]
pub struct TryFromStrJoystickSelectError(pub String);

/// The position of each [JoystickSelect] variant in the selection cycle:
/// Kempston, Fuller, Sinclair, Cursor.
pub open spec fn spec_joystick_kind(joy: JoystickSelect) -> nat {
    match joy {
        JoystickSelect::Kempston(..) => 0,
        JoystickSelect::Fuller(..) => 1,
        JoystickSelect::Sinclair(..) => 2,
        JoystickSelect::Cursor(..) => 3,
    }
}

/// `joy` is the variant `kind` (see [spec_joystick_kind]) with each of its joysticks released and
/// centered.
pub open spec fn spec_is_default_of_kind(joy: JoystickSelect, kind: nat) -> bool {
    spec_joystick_kind(joy) == kind && match joy {
        JoystickSelect::Kempston(j) => j.spec_is_default(),
        JoystickSelect::Fuller(j) => j.spec_is_default(),
        JoystickSelect::Sinclair(j1, j2) => j1.spec_is_default() && j2.spec_is_default(),
        JoystickSelect::Cursor(j) => j.spec_is_default(),
    }
}

/// The variant named by `name` (case insensitive) with the number of its joysticks.
pub open spec fn spec_joystick_name(name: Seq<u8>) -> Option<(nat, usize)> {
    if spec_eq_ignore_ascii_case(name, "Kempston".spec_bytes()) {
        Some((0nat, 1usize))
    } else if spec_eq_ignore_ascii_case(name, "Fuller".spec_bytes()) {
        Some((1nat, 1usize))
    } else if spec_eq_ignore_ascii_case(name, "Cursor".spec_bytes())
        || spec_eq_ignore_ascii_case(name, "Protek".spec_bytes())
        || spec_eq_ignore_ascii_case(name, "AGF".spec_bytes()) {
        Some((3nat, 1usize))
    } else if spec_eq_ignore_ascii_case(name, "Sinclair".spec_bytes())
        || spec_eq_ignore_ascii_case(name, "Interface II".spec_bytes())
        || spec_eq_ignore_ascii_case(name, "Interface 2".spec_bytes())
        || spec_eq_ignore_ascii_case(name, "IF II".spec_bytes())
        || spec_eq_ignore_ascii_case(name, "IF 2".spec_bytes()) {
        Some((2nat, 2usize))
    } else {
        None
    }
}

/// The name of each [JoystickSelect] variant.
pub open spec fn spec_joystick_select_name(joy: JoystickSelect) -> Seq<char> {
    match joy {
        JoystickSelect::Kempston(..) => "Kempston"@,
        JoystickSelect::Fuller(..) => "Fuller"@,
        JoystickSelect::Sinclair(..) => "Sinclair"@,
        JoystickSelect::Cursor(..) => "Cursor"@,
    }
}

impl Default for JoystickSelect {
    fn default() -> (r: JoystickSelect)
        ensures spec_is_default_of_kind(r, 0),
    {
        JoystickSelect::Kempston(KempstonJoystickDevice::default())
    }
}

impl JoystickSelect {
    /// The largest value that can be passed as a `global_index` to [JoystickSelect::new_with_index].
    pub const MAX_GLOBAL_INDEX: usize = 4;

    fn new_kind(kind: u8) -> (r: JoystickSelect)
        requires kind < 4,
        ensures spec_is_default_of_kind(r, kind as nat),
    {
        if kind == 0 {
            JoystickSelect::Kempston(KempstonJoystickDevice::default())
        } else if kind == 1 {
            JoystickSelect::Fuller(FullerJoystickDevice::default())
        } else if kind == 2 {
            JoystickSelect::Sinclair(SinclairJoystickDevice::default(), SinclairJoystickDevice::default())
        } else {
            JoystickSelect::Cursor(CursorJoystickDevice::default())
        }
    }

    /// Creates a new joystick device variant from a given name.
    ///
    /// On success returns a tuple with one of the joystick variants and the number of
    /// available joysticks in this variant.
    pub fn new_from_name(name: &str) -> (r: Option<(JoystickSelect, usize)>)
        ensures
            match spec_joystick_name(name.spec_bytes()) {
                Some((kind, n)) => r matches Some((joy, m)) && m == n && spec_is_default_of_kind(joy, kind),
                None => r is None,
            },
    {
        let name = name.as_bytes();
        if eq_ignore_ascii_case(name, "Kempston".as_bytes()) {
            Some((JoystickSelect::new_kind(0), 1))
        } else if eq_ignore_ascii_case(name, "Fuller".as_bytes()) {
            Some((JoystickSelect::new_kind(1), 1))
        } else if eq_ignore_ascii_case(name, "Cursor".as_bytes())
            || eq_ignore_ascii_case(name, "Protek".as_bytes())
            || eq_ignore_ascii_case(name, "AGF".as_bytes()) {
            Some((JoystickSelect::new_kind(3), 1))
        } else if eq_ignore_ascii_case(name, "Sinclair".as_bytes())
            || eq_ignore_ascii_case(name, "Interface II".as_bytes())
            || eq_ignore_ascii_case(name, "Interface 2".as_bytes())
            || eq_ignore_ascii_case(name, "IF II".as_bytes())
            || eq_ignore_ascii_case(name, "IF 2".as_bytes()) {
            Some((JoystickSelect::new_kind(2), 2))
        } else {
            None
        }
    }

    /// Creates a new joystick device variant from a given `global_index` which counts for
    /// all joysticks in every variant.
    ///
    /// E.g. `2` and `3` both select `Sinclair` joystick but with a different resulting index.
    ///
    /// On success returns a tuple with one of the joystick variants and an index of
    /// the selected joystick in this variant.
    pub fn new_with_index(global_index: usize) -> (r: Option<(JoystickSelect, usize)>)
        ensures
            global_index == 0 ==> (r matches Some((joy, i)) && i == 0 && spec_is_default_of_kind(joy, 0)),
            global_index == 1 ==> (r matches Some((joy, i)) && i == 0 && spec_is_default_of_kind(joy, 1)),
            (global_index == 2 || global_index == 3) ==> (r matches Some((joy, i)) && i == global_index - 2
                && spec_is_default_of_kind(joy, 2)),
            global_index == 4 ==> (r matches Some((joy, i)) && i == 0 && spec_is_default_of_kind(joy, 3)),
            global_index > 4 ==> r is None,
    {
        match global_index {
            0 => Some((JoystickSelect::new_kind(0), 0)),
            1 => Some((JoystickSelect::new_kind(1), 0)),
            2 | 3 => Some((JoystickSelect::new_kind(2), global_index - 2)),
            4 => Some((JoystickSelect::new_kind(3), 0)),
            _ => None,
        }
    }

    /// Returns the number of joysticks in the current variant.
    pub fn len(&self) -> (r: usize)
        ensures r == (if spec_joystick_kind(*self) == 2 { 2usize } else { 1usize }),
    {
        if let JoystickSelect::Sinclair(..) = self {
            return 2;
        }
        1
    }

    /// Returns the name of the current variant.
    pub fn name(&self) -> (r: &'static str)
        ensures r@ == spec_joystick_select_name(*self),
    {
        match self {
            JoystickSelect::Kempston(..) => "Kempston",
            JoystickSelect::Fuller(..) => "Fuller",
            JoystickSelect::Sinclair(..) => "Sinclair",
            JoystickSelect::Cursor(..) => "Cursor",
        }
    }

    /// Returns an `index` of the next joystick in the current variant.
    /// Optionally changes the current joystick device variant to the next one cyclically.
    ///
    /// Some variants contain more than one joystick, provide an appropriate `index` to
    /// select one of them. If `index + 1` exceeds the number of joysticks available then
    /// the next variant is being selected.
    pub fn select_next_joystick(&mut self, index: usize) -> (r: usize)
        ensures
            spec_joystick_kind(*old(self)) == 2 && index == 0 ==> r == 1 && *final(self) == *old(self),
            !(spec_joystick_kind(*old(self)) == 2 && index == 0) ==> r == 0
                && spec_is_default_of_kind(*final(self), (spec_joystick_kind(*old(self)) + 1) % 4),
    {
        let next = match self {
            JoystickSelect::Kempston(..) => JoystickSelect::new_kind(1),
            JoystickSelect::Fuller(..) => JoystickSelect::new_kind(2),
            JoystickSelect::Sinclair(..) => {
                if index == 0 {
                    return 1;
                }
                JoystickSelect::new_kind(3)
            },
            JoystickSelect::Cursor(..) => JoystickSelect::new_kind(0),
        };
        *self = next;
        0
    }

    /// Returns `true` if the current variant is the last one in the selection cycle.
    pub fn is_last(&self) -> (r: bool)
        ensures r == (spec_joystick_kind(*self) == 3),
    {
        self.is_cursor()
    }
    /// Returns `true` if the current variant is the Kempston joystick.
    pub fn is_kempston(&self) -> (r: bool)
        ensures r == (spec_joystick_kind(*self) == 0),
    {
        if let JoystickSelect::Kempston(..) = self {
            return true;
        }
        false
    }
    /// Returns `true` if the current variant is the Fuller joystick.
    pub fn is_fuller(&self) -> (r: bool)
        ensures r == (spec_joystick_kind(*self) == 1),
    {
        if let JoystickSelect::Fuller(..) = self {
            return true;
        }
        false
    }
    /// Returns `true` if the current variant is the Sinclair joysticks pair.
    pub fn is_sinclair(&self) -> (r: bool)
        ensures r == (spec_joystick_kind(*self) == 2),
    {
        if let JoystickSelect::Sinclair(..) = self {
            return true;
        }
        false
    }
    /// Returns `true` if the current variant is the Cursor joystick.
    pub fn is_cursor(&self) -> (r: bool)
        ensures r == (spec_joystick_kind(*self) == 3),
    {
        if let JoystickSelect::Cursor(..) = self {
            return true;
        }
        false
    }

    /// The data of the selected joystick variant read from `port`, if any of its joysticks
    /// responds to it.
    pub open spec fn spec_port_read(&self, port: u16) -> Option<u8> {
            match *self {
                JoystickSelect::Kempston(j) => if KempstonJoyPortAddress::spec_match_port(port) { Some(j.spec_data()) } else { None },
                JoystickSelect::Fuller(j) => if FullerJoyPortAddress::spec_match_port(port) { Some(j.spec_data()) } else { None },
                JoystickSelect::Sinclair(j1, j2) => (
                    match (SinclairRightJoyPortAddress::spec_match_port(port), SinclairLeftJoyPortAddress::spec_match_port(port)) {
                        (true, true) => Some(j1.spec_data() & j2.spec_data()),
                        (true, false) => Some(j1.spec_data()),
                        (false, true) => Some(j2.spec_data()),
                        (false, false) => None,
                    }),
                JoystickSelect::Cursor(j) => if CursorJoyPortAddress::spec_match_port(port) {
                    Some((if port & 0x0800 == 0 { j.spec_data1() } else { 0xffu8 })
                        & (if port & 0x1000 == 0 { j.spec_data2() } else { 0xffu8 }))
                } else { None },
            }
    }

    /// Returns the data of the selected joystick variant read from `port`, if any of its
    /// joysticks responds to it. When both Sinclair joysticks respond, the data is the bitwise
    /// AND of both.
    pub fn port_read(&self, port: u16) -> (r: Option<u8>)
        ensures r == self.spec_port_read(port),
    {
        match self {
            JoystickSelect::Kempston(joystick) => {
                if KempstonJoyPortAddress::match_port(port) { Some(joystick.port_read(port)) } else { None }
            },
            JoystickSelect::Fuller(joystick) => {
                if FullerJoyPortAddress::match_port(port) { Some(joystick.port_read(port)) } else { None }
            },
            JoystickSelect::Sinclair(joy1, joy2) => {
                let joy_data1 = if SinclairRightJoyPortAddress::match_port(port) { Some(joy1.port_read(port)) } else { None };
                let joy_data2 = if SinclairLeftJoyPortAddress::match_port(port) { Some(joy2.port_read(port)) } else { None };
                match (joy_data1, joy_data2) {
                    (Some(data1), Some(data2)) => Some(data1 & data2),
                    (Some(data1), None) => Some(data1),
                    (None, Some(data2)) => Some(data2),
                    _ => None,
                }
            },
            JoystickSelect::Cursor(joystick) => {
                if CursorJoyPortAddress::match_port(port) { Some(joystick.port_read(port)) } else { None }
            },
        }
    }
}

/// A selectable joystick controller.
///
/// This controller allows changing the implementation of the joystick device at run time.
#[derive(Clone, Copy, Debug)]
pub struct MultiJoystickBusDevice<D> {
    /// A joystick device variant.
    pub joystick: JoystickSelect,
    bus: D,
}

impl<D: Default> MultiJoystickBusDevice<D> {
    /// Creates a new controller with the given joystick variant and a default next device.
    pub fn new_with(joystick: JoystickSelect) -> (r: Self)
        ensures r.spec_joystick() == joystick,
    {
        MultiJoystickBusDevice { joystick, bus: D::default() }
    }
}

impl<D> MultiJoystickBusDevice<D> {
    /// The joystick device variant.
    pub closed spec fn spec_joystick(&self) -> JoystickSelect {
        self.joystick
    }

    /// Combines the data read by the next device on the bus (`bus_data`, with an optional
    /// number of wait states) with the data read from the selected joystick if it responds to
    /// `port`. When both respond, the data is the bitwise AND of both.
    pub fn read_io(&self, port: u16, bus_data: Option<(u8, Option<u16>)>) -> (r: Option<(u8, Option<u16>)>)
        ensures
            match self.spec_joystick().spec_port_read(port) {
                Some(joy_data) => match bus_data {
                    Some((data, ws)) => r == Some((data & joy_data, ws)),
                    None => r == Some((joy_data, None::<u16>)),
                },
                None => r == bus_data,
            },
    {
        if let Some(joy_data) = self.joystick.port_read(port) {
            if let Some((data, ws)) = bus_data {
                return Some((data & joy_data, ws));
            }
            Some((joy_data, None))
        } else {
            bus_data
        }
    }
}

impl<P, J, D> PassByAyAudioBusDevice for JoystickBusDevice<P, J, D> {
}

} // verus!
