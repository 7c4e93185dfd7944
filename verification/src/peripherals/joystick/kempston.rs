//! Kempston Joystick implementation.
use vstd::prelude::*;

use super::{Directions, JoystickDevice, JoystickInterface};

verus! {

//                          000F_UDLR
/// The fire button bit.
pub const FIRE_MASK: u8 = 0b0001_0000;
/// The right direction bit.
pub const RIGHT_MASK: u8 = 0b0000_0001;
/// The left direction bit.
pub const LEFT_MASK: u8 = 0b0000_0010;
/// The down direction bit.
pub const DOWN_MASK: u8 = 0b0000_0100;
/// The up direction bit.
pub const UP_MASK: u8 = 0b0000_1000;

/// The Kempston Joystick device.
///
/// Port read: `000FUDLR`, bits are active high.
#[derive(Clone, Copy, Debug)]
pub struct KempstonJoystickDevice {
    data: u8,
    directions: Directions,
}

/// The direction bits read from the Kempston Joystick port for the given `dir` flags.
pub open spec fn spec_kempston_dir_bits(dir: u8) -> u8 {
    (if dir & 0b0001 != 0 { UP_MASK } else { 0u8 })
        | (if dir & 0b0010 != 0 { RIGHT_MASK } else { 0u8 })
        | (if dir & 0b0100 != 0 { DOWN_MASK } else { 0u8 })
        | (if dir & 0b1000 != 0 { LEFT_MASK } else { 0u8 })
}

/// The Kempston port byte made from the fire bit of `d` and the direction flags `dir`
/// (`UP` = 1, `RIGHT` = 2, `DOWN` = 4, `LEFT` = 8) has the layout `000FUDLR`, active high: bit 0
/// is set exactly when `dir` holds right, bit 1 when it holds left, bit 2 down, bit 3 up; bit 4
/// is the fire bit of `d`, and the bits above are clear. Setting or clearing the fire bit keeps
/// it as set.
pub proof fn lemma_kempston_port_bits(d: u8, dir: u8)
    by (bit_vector)
    ensures
        (d | FIRE_MASK) & FIRE_MASK == FIRE_MASK,
        (d & !FIRE_MASK) & FIRE_MASK == 0,
        (((d & FIRE_MASK) | spec_kempston_dir_bits(dir)) & FIRE_MASK == FIRE_MASK) == (d & FIRE_MASK == FIRE_MASK),
        ({
            let p = (d & FIRE_MASK) | spec_kempston_dir_bits(dir);
            &&& (p & 0b0000_0001 != 0) == (dir & 0b0010 != 0)
            &&& (p & 0b0000_0010 != 0) == (dir & 0b1000 != 0)
            &&& (p & 0b0000_0100 != 0) == (dir & 0b0100 != 0)
            &&& (p & 0b0000_1000 != 0) == (dir & 0b0001 != 0)
            &&& p & 0b0001_0000 == d & 0b0001_0000
            &&& p & 0b1110_0000 == 0
        }),
{
}

impl KempstonJoystickDevice {
    /// The byte read from the joystick port.
    pub closed spec fn spec_data(&self) -> u8 {
        self.data
    }
    /// The state of a released joystick in the central position.
    pub closed spec fn spec_is_default(&self) -> bool {
        self.data == 0 && self.directions.bits == 0
    }
}

impl Default for KempstonJoystickDevice {
    fn default() -> (r: KempstonJoystickDevice)
        ensures r.spec_data() == 0, r.spec_directions().bits == 0, r.spec_is_default(),
    {
        KempstonJoystickDevice { data: 0, directions: Directions::empty() }
    }
}

impl JoystickDevice for KempstonJoystickDevice {
    open spec fn spec_port_read(&self, port: u16) -> u8 {
        self.spec_data()
    }

    fn port_read(&self, port: u16) -> (r: u8) {
        self.data
    }
}

impl JoystickInterface for KempstonJoystickDevice {
    closed spec fn spec_directions(&self) -> Directions {
        self.directions
    }

    closed spec fn spec_fire(&self, btn: u8) -> bool {
        self.data & FIRE_MASK == FIRE_MASK
    }

    fn fire(&mut self, btn: u8, pressed: bool)
        ensures
            final(self).spec_data() == (if pressed { old(self).spec_data() | FIRE_MASK } else { old(self).spec_data() & !FIRE_MASK }),
            final(self).spec_directions() == old(self).spec_directions(),
            final(self).spec_fire(btn) == pressed,
    {
        proof { lemma_kempston_port_bits(self.data, 0); }
        if pressed {
            self.data = self.data | FIRE_MASK;
        } else {
            self.data = self.data & !FIRE_MASK;
        }
    }

    fn get_fire(&self, btn: u8) -> (r: bool) {
        self.data & FIRE_MASK == FIRE_MASK
    }

    fn set_directions(&mut self, dir: Directions)
        ensures
            final(self).spec_directions() == dir,
            final(self).spec_data() == (old(self).spec_data() & FIRE_MASK) | spec_kempston_dir_bits(dir.bits),
            final(self).spec_fire(0) == old(self).spec_fire(0),
            (final(self).spec_data() & 0b0000_0001 != 0) == (dir.bits & 0b0010 != 0),
            (final(self).spec_data() & 0b0000_0010 != 0) == (dir.bits & 0b1000 != 0),
            (final(self).spec_data() & 0b0000_0100 != 0) == (dir.bits & 0b0100 != 0),
            (final(self).spec_data() & 0b0000_1000 != 0) == (dir.bits & 0b0001 != 0),
            final(self).spec_data() & 0b0001_0000 == old(self).spec_data() & 0b0001_0000,
            final(self).spec_data() & 0b1110_0000 == 0,
    {
        proof { lemma_kempston_port_bits(self.data, dir.bits); }
        self.directions = dir;
        let dir_bits = (if dir.intersects(Directions::UP()) { UP_MASK } else { 0 })
            | (if dir.intersects(Directions::RIGHT()) { RIGHT_MASK } else { 0 })
            | (if dir.intersects(Directions::DOWN()) { DOWN_MASK } else { 0 })
            | (if dir.intersects(Directions::LEFT()) { LEFT_MASK } else { 0 });
        self.data = (self.data & FIRE_MASK) | dir_bits;
    }

    fn get_directions(&self) -> (r: Directions) {
        self.directions
    }
}

} // verus!
