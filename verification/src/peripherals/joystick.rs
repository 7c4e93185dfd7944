//! Joystick device implementations and an interface for feeding them with user input.
use vstd::prelude::*;

pub mod cursor;
pub mod fuller;
pub mod kempston;
pub mod sinclair;
pub mod directions;

pub use directions::Directions;

verus! {

/// An enum for specifying one of 8 possible joystick's directional positions and a center (neutral) state.
#[derive(Debug, Clone, Copy, PartialEq, Eq, Structural)]
pub enum JoyDirection {
    Center,
    Up,
    UpRight,
    Right,
    DownRight,
    Down,
    DownLeft,
    Left,
    UpLeft,
}

/// The direction flags of each [JoyDirection].
pub open spec fn spec_joy_direction_bits(dir: JoyDirection) -> u8 {
    match dir {
        JoyDirection::Center => 0,
        JoyDirection::Up => 0b0001,
        JoyDirection::UpRight => 0b0011,
        JoyDirection::Right => 0b0010,
        JoyDirection::DownRight => 0b0110,
        JoyDirection::Down => 0b0100,
        JoyDirection::DownLeft => 0b1100,
        JoyDirection::Left => 0b1000,
        JoyDirection::UpLeft => 0b1001,
    }
}

/// Returns the direction flags of a [JoyDirection].
pub fn joy_direction_flags(dir: JoyDirection) -> (r: Directions)
    ensures r.bits == spec_joy_direction_bits(dir),
{
    match dir {
        JoyDirection::Center => Directions::empty(),
        JoyDirection::Up => Directions::UP(),
        JoyDirection::UpRight => Directions::from_bits_retain(0b0011),
        JoyDirection::Right => Directions::RIGHT(),
        JoyDirection::DownRight => Directions::from_bits_retain(0b0110),
        JoyDirection::Down => Directions::DOWN(),
        JoyDirection::DownLeft => Directions::from_bits_retain(0b1100),
        JoyDirection::Left => Directions::LEFT(),
        JoyDirection::UpLeft => Directions::from_bits_retain(0b1001),
    }
}

/// The bitwise AND with zero is zero.
proof fn lemma_and_zero(x: u8)
    by (bit_vector)
    ensures x & 0 == 0,
{
}

/// An interface for providing user input data for a [JoystickDevice] implementation.
pub trait JoystickInterface {
    /// The current stick direction.
    spec fn spec_directions(&self) -> Directions;
    /// Whether the indicated "fire" button is being pressed.
    spec fn spec_fire(&self, btn: u8) -> bool;
    /// Press or release a "fire" button. `btn` is the button number for cases when the joystick have more
    /// than one button.
    ///
    /// Currently, `btn` is not being used by any of the implemented devices.
    fn fire(&mut self, btn: u8, pressed: bool);
    /// Returns `true` if an indicated "fire" button is being pressed, otherwise returns `false`.
    fn get_fire(&self, btn: u8) -> (r: bool)
        ensures r == self.spec_fire(btn);
    /// Changes the stick direction using provided flags.
    fn set_directions(&mut self, dir: Directions);
    /// Returns the current stick direction.
    fn get_directions(&self) -> (r: Directions)
        ensures r == self.spec_directions();
    /// Changes the stick direction using an enum.
    fn direction(&mut self, dir: JoyDirection) {
        self.set_directions(joy_direction_flags(dir));
    }
    /// Resets a joystick to a central (neutral) position.
    fn center(&mut self) {
        self.set_directions(Directions::empty());
    }
    /// Returns `true` if a joystick is in the up (forward) position.
    fn is_up(&self) -> (r: bool)
        ensures r == (self.spec_directions().bits & 0b0001 != 0),
    {
        self.get_directions().intersects(Directions::UP())
    }
    /// Returns `true` if a joystick is in the right position.
    fn is_right(&self) -> (r: bool)
        ensures r == (self.spec_directions().bits & 0b0010 != 0),
    {
        self.get_directions().intersects(Directions::RIGHT())
    }
    /// Returns `true` if a joystick is in the left position.
    fn is_left(&self) -> (r: bool)
        ensures r == (self.spec_directions().bits & 0b1000 != 0),
    {
        self.get_directions().intersects(Directions::LEFT())
    }
    /// Returns `true` if a joystick is in the down (backward) position.
    fn is_down(&self) -> (r: bool)
        ensures r == (self.spec_directions().bits & 0b0100 != 0),
    {
        self.get_directions().intersects(Directions::DOWN())
    }
    /// Returns `true` if a joystick is in the center (neutral) position.
    ///
    /// The test is made by intersecting the direction flags with the empty flags, so it never
    /// holds.
    fn is_center(&self) -> (r: bool)
        ensures r == false,
    {
        proof { lemma_and_zero(self.spec_directions().bits); }
        self.get_directions().intersects(Directions::empty())
    }
}

/// A joystick device interface for the joystick bus device implementations.
pub trait JoystickDevice {
    /// The joystick state read from `port`.
    spec fn spec_port_read(&self, port: u16) -> u8;
    /// Should return the joystick state.
    fn port_read(&self, port: u16) -> (r: u8)
        ensures r == self.spec_port_read(port);
    /// Writes data to a joystick device.
    ///
    /// If a device does not support writes, this method should return `false`.
    /// The default implementation does exactly just that.
    fn port_write(&mut self, port: u16, data: u8) -> (r: bool) {
        false
    }
}

/// The joystick device that can be used as a placeholder type.
#[derive(Clone, Copy, Debug)]
pub struct NullJoystickDevice;

impl Default for NullJoystickDevice {
    fn default() -> (r: NullJoystickDevice) {
        NullJoystickDevice
    }
}

impl JoystickDevice for NullJoystickDevice {
    open spec fn spec_port_read(&self, port: u16) -> u8 {
        u8::MAX
    }

    fn port_read(&self, port: u16) -> (r: u8) {
        u8::MAX
    }
}

impl JoystickInterface for NullJoystickDevice {
    open spec fn spec_directions(&self) -> Directions {
        Directions { bits: 0 }
    }

    open spec fn spec_fire(&self, btn: u8) -> bool {
        false
    }

    fn fire(&mut self, btn: u8, pressed: bool) {
    }

    fn get_fire(&self, btn: u8) -> (r: bool) {
        false
    }

    fn set_directions(&mut self, dir: Directions) {
    }

    fn get_directions(&self) -> (r: Directions) {
        Directions::empty()
    }
}

} // verus!
