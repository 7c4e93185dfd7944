//! Fuller Joystick implementation.
use vstd::prelude::*;

use super::{Directions, JoystickDevice, JoystickInterface};

verus! {

//                           F---_RLDU
/// The fire button bit.
pub const FIRE_MASK: u8 = 0b1000_0000;
/// The unused bits.
pub const UNUSED_MASK: u8 = 0b0111_0000;
/// The right direction bit.
pub const RIGHT_MASK: u8 = 0b0000_1000;
/// The left direction bit.
pub const LEFT_MASK: u8 = 0b0000_0100;
/// The down direction bit.
pub const DOWN_MASK: u8 = 0b0000_0010;
/// The up direction bit.
pub const UP_MASK: u8 = 0b0000_0001;

/// The Fuller Joystick device.
///
/// Port read: `F---RLDU`, bits are active low.
#[derive(Clone, Copy, Debug)]
pub struct FullerJoystickDevice {
    data: u8,
    directions: Directions,
}

/// The direction bits read from the Fuller Joystick port for the given `dir` flags.
pub open spec fn spec_fuller_dir_bits(dir: u8) -> u8 {
    (if dir & 0b0001 != 0 { 0u8 } else { UP_MASK })
        | (if dir & 0b0010 != 0 { 0u8 } else { RIGHT_MASK })
        | (if dir & 0b0100 != 0 { 0u8 } else { DOWN_MASK })
        | (if dir & 0b1000 != 0 { 0u8 } else { LEFT_MASK })
}

/// The Fuller port byte made from the fire and unused bits of `d` and the direction flags
/// `dir` (`UP` = 1, `RIGHT` = 2, `DOWN` = 4, `LEFT` = 8) has the layout `F---RLDU`, active low:
/// bit 0 is clear exactly when `dir` holds up, bit 1 down, bit 2 left, bit 3 right; the upper
/// bits are those of `d`. Pressing the fire button clears bit 7, releasing it sets it.
pub proof fn lemma_fuller_port_bits(d: u8, dir: u8)
    by (bit_vector)
    ensures
        (d | FIRE_MASK) & FIRE_MASK != 0,
        (d & !FIRE_MASK) & FIRE_MASK == 0,
        (((d & (FIRE_MASK | UNUSED_MASK)) | spec_fuller_dir_bits(dir)) & FIRE_MASK == 0) == (d & FIRE_MASK == 0),
        ({
            let p = (d & (FIRE_MASK | UNUSED_MASK)) | spec_fuller_dir_bits(dir);
            &&& (p & 0b0000_0001 == 0) == (dir & 0b0001 != 0)
            &&& (p & 0b0000_0010 == 0) == (dir & 0b0100 != 0)
            &&& (p & 0b0000_0100 == 0) == (dir & 0b1000 != 0)
            &&& (p & 0b0000_1000 == 0) == (dir & 0b0010 != 0)
            &&& p & 0b1111_0000 == d & 0b1111_0000
        }),
{
}

impl FullerJoystickDevice {
    /// The byte read from the joystick port.
    pub closed spec fn spec_data(&self) -> u8 {
        self.data
    }
    /// The state of a released joystick in the central position.
    pub closed spec fn spec_is_default(&self) -> bool {
        self.data == 0xff && self.directions.bits == 0
    }
}

impl Default for FullerJoystickDevice {
    fn default() -> (r: FullerJoystickDevice)
        ensures r.spec_data() == 0xff, r.spec_directions().bits == 0, r.spec_is_default(),
    {
        FullerJoystickDevice { data: 0xff, directions: Directions::empty() }
    }
}

impl JoystickDevice for FullerJoystickDevice {
    open spec fn spec_port_read(&self, port: u16) -> u8 {
        self.spec_data()
    }

    fn port_read(&self, port: u16) -> (r: u8) {
        self.data
    }
}

impl JoystickInterface for FullerJoystickDevice {
    closed spec fn spec_directions(&self) -> Directions {
        self.directions
    }

    closed spec fn spec_fire(&self, btn: u8) -> bool {
        self.data & FIRE_MASK == 0
    }

    fn fire(&mut self, btn: u8, pressed: bool)
        ensures
            final(self).spec_data() == (if pressed { old(self).spec_data() & !FIRE_MASK } else { old(self).spec_data() | FIRE_MASK }),
            final(self).spec_directions() == old(self).spec_directions(),
            final(self).spec_fire(btn) == pressed,
    {
        proof { lemma_fuller_port_bits(self.data, 0); }
        if pressed {
            self.data = self.data & !FIRE_MASK;
        } else {
            self.data = self.data | FIRE_MASK;
        }
    }

    fn get_fire(&self, btn: u8) -> (r: bool) {
        self.data & FIRE_MASK == 0
    }

    fn set_directions(&mut self, dir: Directions)
        ensures
            final(self).spec_directions() == dir,
            final(self).spec_data() == (old(self).spec_data() & (FIRE_MASK | UNUSED_MASK)) | spec_fuller_dir_bits(dir.bits),
            final(self).spec_fire(0) == old(self).spec_fire(0),
            (final(self).spec_data() & 0b0000_0001 == 0) == (dir.bits & 0b0001 != 0),
            (final(self).spec_data() & 0b0000_0010 == 0) == (dir.bits & 0b0100 != 0),
            (final(self).spec_data() & 0b0000_0100 == 0) == (dir.bits & 0b1000 != 0),
            (final(self).spec_data() & 0b0000_1000 == 0) == (dir.bits & 0b0010 != 0),
            final(self).spec_data() & 0b1111_0000 == old(self).spec_data() & 0b1111_0000,
    {
        proof { lemma_fuller_port_bits(self.data, dir.bits); }
        self.directions = dir;
        let dir_bits = (if dir.intersects(Directions::UP()) { 0 } else { UP_MASK })
            | (if dir.intersects(Directions::RIGHT()) { 0 } else { RIGHT_MASK })
            | (if dir.intersects(Directions::DOWN()) { 0 } else { DOWN_MASK })
            | (if dir.intersects(Directions::LEFT()) { 0 } else { LEFT_MASK });
        self.data = (self.data & (FIRE_MASK | UNUSED_MASK)) | dir_bits;
    }

    fn get_directions(&self) -> (r: Directions) {
        self.directions
    }
}

} // verus!
