//! A pointing device / mouse communication interface and emulators of mouse devices.
use vstd::prelude::*;

pub mod kempston;

verus! {

/// Flags for mouse buttons.
/// * Bit = 1 button is pressed.
/// * Bit = 0 button is released.
#[derive(Debug, Clone, Copy, PartialEq, Eq, Hash, Structural)]
pub struct MouseButtons {
    /// The raw bits of the flags.
    pub bits: u8,
}

impl MouseButtons {
    /// The left button.
    #[allow(non_snake_case)]
    pub fn LEFT() -> (r: Self)
        ensures r.bits == 0b0000_0001,
    {
        MouseButtons { bits: 0b0000_0001 }
    }

    /// The right button.
    #[allow(non_snake_case)]
    pub fn RIGHT() -> (r: Self)
        ensures r.bits == 0b0000_0010,
    {
        MouseButtons { bits: 0b0000_0010 }
    }

    /// The middle button.
    #[allow(non_snake_case)]
    pub fn MIDDLE() -> (r: Self)
        ensures r.bits == 0b0000_0100,
    {
        MouseButtons { bits: 0b0000_0100 }
    }

    /// The fourth button.
    #[allow(non_snake_case)]
    pub fn FOURTH() -> (r: Self)
        ensures r.bits == 0b0001_0000,
    {
        MouseButtons { bits: 0b0001_0000 }
    }

    /// The fifth button.
    #[allow(non_snake_case)]
    pub fn FIFTH() -> (r: Self)
        ensures r.bits == 0b0010_0000,
    {
        MouseButtons { bits: 0b0010_0000 }
    }

    /// The sixth button.
    #[allow(non_snake_case)]
    pub fn SIXTH() -> (r: Self)
        ensures r.bits == 0b0100_0000,
    {
        MouseButtons { bits: 0b0100_0000 }
    }

    /// The seventh button.
    #[allow(non_snake_case)]
    pub fn SEVENTH() -> (r: Self)
        ensures r.bits == 0b1000_0000,
    {
        MouseButtons { bits: 0b1000_0000 }
    }

    /// All bits that belong to some defined flag.
    pub open spec fn spec_all_bits() -> u8 {
        0b1111_0111
    }

    /// Returns flags with no bit set.
    pub fn empty() -> (r: Self)
        ensures r.bits == 0,
    {
        MouseButtons { bits: 0 }
    }

    /// Returns flags with every defined bit set.
    pub fn all() -> (r: Self)
        ensures r.bits == Self::spec_all_bits(),
    {
        MouseButtons { bits: 0b1111_0111 }
    }

    /// Returns the raw bits of the flags.
    pub fn bits(&self) -> (r: u8)
        ensures r == self.bits,
    {
        self.bits
    }

    /// Converts raw bits into flags if no undefined bit is set.
    pub fn from_bits(bits: u8) -> (r: Option<Self>)
        ensures
            r == (if bits & !Self::spec_all_bits() == 0 { Some(MouseButtons { bits }) } else { None }),
    {
        if bits & !0b1111_0111u8 == 0 {
            Some(MouseButtons { bits })
        } else {
            None
        }
    }

    /// Converts raw bits into flags, dropping every undefined bit.
    pub fn from_bits_truncate(bits: u8) -> (r: Self)
        ensures r.bits == bits & Self::spec_all_bits(),
    {
        MouseButtons { bits: bits & 0b1111_0111 }
    }

    /// Returns `true` if no bit is set.
    pub fn is_empty(&self) -> (r: bool)
        ensures r == (self.bits == 0),
    {
        self.bits == 0
    }

    /// Returns `true` if every bit of `other` is also set in `self`.
    pub fn contains(&self, other: Self) -> (r: bool)
        ensures r == (self.bits & other.bits == other.bits),
    {
        self.bits & other.bits == other.bits
    }

    /// Returns `true` if any bit of `other` is also set in `self`.
    pub fn intersects(&self, other: Self) -> (r: bool)
        ensures r == (self.bits & other.bits != 0),
    {
        self.bits & other.bits != 0
    }

    /// Sets every bit of `other` in `self`.
    pub fn insert(&mut self, other: Self)
        ensures final(self).bits == old(self).bits | other.bits,
    {
        self.bits = self.bits | other.bits;
    }

    /// Clears every bit of `other` in `self`.
    pub fn remove(&mut self, other: Self)
        ensures final(self).bits == old(self).bits & !other.bits,
    {
        self.bits = self.bits & !other.bits;
    }

    /// Returns the bitwise union of `self` and `other`.
    pub fn union(self, other: Self) -> (r: Self)
        ensures r.bits == self.bits | other.bits,
    {
        MouseButtons { bits: self.bits | other.bits }
    }
}

impl Default for MouseButtons {
    fn default() -> (r: Self)
        ensures r.bits == 0,
    {
        MouseButtons { bits: 0 }
    }
}

/// This type is being used to provide input data for the mouse emulator.
///
/// The pointing device coordinates are measured in PAL pixels (704x576 including border).
/// * Horizontal values increase from left to right.
/// * Vertical values increase from top to bottom.
#[derive(Clone, Copy, Default, Debug, PartialEq, Eq, Structural)]
pub struct MouseMovement {
    pub horizontal: i16,
    pub vertical: i16,
}

impl From<(i16, i16)> for MouseMovement {
    fn from(xy: (i16, i16)) -> (r: Self) {
        MouseMovement { horizontal: xy.0, vertical: xy.1 }
    }
}

impl vstd::std_specs::convert::FromSpecImpl<(i16, i16)> for MouseMovement {
    open spec fn obeys_from_spec() -> bool {
        true
    }

    open spec fn from_spec(xy: (i16, i16)) -> MouseMovement {
        MouseMovement { horizontal: xy.0, vertical: xy.1 }
    }
}

impl From<[i16; 2]> for MouseMovement {
    fn from(xy: [i16; 2]) -> (r: Self) {
        MouseMovement { horizontal: xy[0], vertical: xy[1] }
    }
}

impl vstd::std_specs::convert::FromSpecImpl<[i16; 2]> for MouseMovement {
    open spec fn obeys_from_spec() -> bool {
        true
    }

    open spec fn from_spec(xy: [i16; 2]) -> MouseMovement {
        MouseMovement { horizontal: xy@[0], vertical: xy@[1] }
    }
}

/// An interface for providing user input data for a [MouseDevice] implementation.
pub trait MouseInterface {
    /// The state of all mouse buttons.
    spec fn spec_buttons(&self) -> MouseButtons;
    /// Sets the state of all mouse buttons.
    fn set_buttons(&mut self, buttons: MouseButtons);
    /// Returns a state of all mouse buttons.
    fn get_buttons(&self) -> (r: MouseButtons)
        ensures r == self.spec_buttons();
    /// Moves the mouse by the given interval.
    fn move_mouse(&mut self, mov: MouseMovement);
}

/// A mouse device interface used by the mouse bus device implementation.
pub trait MouseDevice {
    /// The mouse state read from `port`.
    spec fn spec_port_read(&self, port: u16) -> u8;
    /// Should return a current mouse state. The `port` argument can be used to decide which
    /// information will be returned - one of the axes or a button state.
    fn port_read(&self, port: u16) -> (r: u8)
        ensures r == self.spec_port_read(port);
    /// Allows to implement writing data to a mouse device.
    ///
    /// If a device does not support writes, this method should return `false`.
    /// A default implementation does exactly just that.
    fn port_write(&mut self, port: u16, data: u8) -> (r: bool) {
        false
    }
}

/// The mouse device that can be used as a placeholder type.
#[derive(Clone, Copy, Default, Debug)]
pub struct NullMouseDevice;

impl MouseInterface for NullMouseDevice {
    open spec fn spec_buttons(&self) -> MouseButtons {
        MouseButtons { bits: 0 }
    }

    fn set_buttons(&mut self, buttons: MouseButtons) {
    }

    fn get_buttons(&self) -> (r: MouseButtons) {
        MouseButtons::empty()
    }

    fn move_mouse(&mut self, mov: MouseMovement) {
    }
}

impl MouseDevice for NullMouseDevice {
    open spec fn spec_port_read(&self, port: u16) -> u8 {
        u8::MAX
    }

    fn port_read(&self, port: u16) -> (r: u8) {
        u8::MAX
    }
}

} // verus!
