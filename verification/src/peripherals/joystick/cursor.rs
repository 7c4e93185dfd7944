//! Cursor Joystick implementation.
use vstd::prelude::*;

use super::{Directions, JoystickDevice, JoystickInterface};

verus! {

/// The port address bit selecting the `5-1` keyboard half-row.
pub const PORT1_MASK: u16 = 0b0000_1000_0000_0000;
//                                 5_4321
/// The unused bits of the `5-1` half-row.
pub const UNUSED_MASK1: u8 = 0b1110_1111;
/// The left direction bit (key `5`).
pub const LEFT_MASK: u8 = 0b0001_0000;

/// The port address bit selecting the `6-0` keyboard half-row.
pub const PORT2_MASK: u16 = 0b0001_0000_0000_0000;
//                                 6_7890
/// The unused bits of the `6-0` half-row.
pub const UNUSED_MASK2: u8 = 0b1110_0010;
/// The fire button bit (key `0`).
pub const FIRE_MASK: u8 = 0b0000_0001;
/// The right direction bit (key `8`).
pub const RIGHT_MASK: u8 = 0b0000_0100;
/// The up direction bit (key `7`).
pub const UP_MASK: u8 = 0b0000_1000;
/// The down direction bit (key `6`).
pub const DOWN_MASK: u8 = 0b0001_0000;

/// The Cursor Joystick (Protek, AGF) device. Bits are active low.
#[derive(Clone, Copy, Debug)]
pub struct CursorJoystickDevice {
    data1: u8,
    data2: u8,
    directions: Directions,
}

/// The bits of the `6-0` half-row for the given `dir` flags (fire bit excluded).
pub open spec fn spec_cursor_dir_bits2(dir: u8) -> u8 {
    (if dir & 0b0001 != 0 { 0u8 } else { UP_MASK })
        | (if dir & 0b0010 != 0 { 0u8 } else { RIGHT_MASK })
        | (if dir & 0b0100 != 0 { 0u8 } else { DOWN_MASK })
}

/// The Cursor joystick's half-row bytes, active low, made from the kept bits of `d` and the
/// direction flags `dir` (`UP` = 1, `RIGHT` = 2, `DOWN` = 4, `LEFT` = 8): in the `6-0` half-row
/// the key `8` (bit 2) is clear exactly when `dir` holds right, `7` (bit 3) up, `6` (bit 4) down,
/// the other bits being those of `d`; in the `5-1` half-row the key `5` (bit 4) is clear exactly
/// when `dir` holds left. Pressing the fire button clears the key `0` (bit 0).
pub proof fn lemma_cursor_port_bits(d: u8, dir: u8)
    by (bit_vector)
    ensures
        (d | FIRE_MASK) & FIRE_MASK != 0,
        (d & !FIRE_MASK) & FIRE_MASK == 0,
        (((d & (FIRE_MASK | UNUSED_MASK2)) | spec_cursor_dir_bits2(dir)) & FIRE_MASK == 0) == (d & FIRE_MASK == 0),
        ({
            let p = (d & (FIRE_MASK | UNUSED_MASK2)) | spec_cursor_dir_bits2(dir);
            &&& (p & 0b0000_0100 == 0) == (dir & 0b0010 != 0)
            &&& (p & 0b0000_1000 == 0) == (dir & 0b0001 != 0)
            &&& (p & 0b0001_0000 == 0) == (dir & 0b0100 != 0)
            &&& p & 0b1110_0011 == d & 0b1110_0011
        }),
        ({
            let q = (d & UNUSED_MASK1) | (if dir & 0b1000 != 0 { 0u8 } else { LEFT_MASK });
            &&& (q & 0b0001_0000 == 0) == (dir & 0b1000 != 0)
            &&& q & 0b1110_1111 == d & 0b1110_1111
        }),
{
}

impl CursorJoystickDevice {
    /// The byte of the `5-1` keyboard half-row.
    pub closed spec fn spec_data1(&self) -> u8 {
        self.data1
    }
    /// The byte of the `6-0` keyboard half-row.
    pub closed spec fn spec_data2(&self) -> u8 {
        self.data2
    }
    /// The state of a released joystick in the central position.
    pub closed spec fn spec_is_default(&self) -> bool {
        self.data1 == 0xff && self.data2 == 0xff && self.directions.bits == 0
    }
}

impl Default for CursorJoystickDevice {
    fn default() -> (r: CursorJoystickDevice)
        ensures r.spec_data1() == 0xff, r.spec_data2() == 0xff, r.spec_directions().bits == 0, r.spec_is_default(),
    {
        CursorJoystickDevice { data1: 0xff, data2: 0xff, directions: Directions::empty() }
    }
}

impl JoystickDevice for CursorJoystickDevice {
    open spec fn spec_port_read(&self, port: u16) -> u8 {
        (if port & PORT1_MASK == 0 { self.spec_data1() } else { 0xffu8 })
            & (if port & PORT2_MASK == 0 { self.spec_data2() } else { 0xffu8 })
    }

    fn port_read(&self, port: u16) -> (r: u8) {
        (if port & PORT1_MASK == 0 { self.data1 } else { 0xff }) & (if port & PORT2_MASK == 0 { self.data2 } else { 0xff })
    }
}

impl JoystickInterface for CursorJoystickDevice {
    closed spec fn spec_directions(&self) -> Directions {
        self.directions
    }

    closed spec fn spec_fire(&self, btn: u8) -> bool {
        self.data2 & FIRE_MASK == 0
    }

    fn fire(&mut self, btn: u8, pressed: bool)
        ensures
            final(self).spec_data2() == (if pressed { old(self).spec_data2() & !FIRE_MASK } else { old(self).spec_data2() | FIRE_MASK }),
            final(self).spec_data1() == old(self).spec_data1(),
            final(self).spec_directions() == old(self).spec_directions(),
            final(self).spec_fire(btn) == pressed,
    {
        proof { lemma_cursor_port_bits(self.data2, 0); }
        if pressed {
            self.data2 = self.data2 & !FIRE_MASK;
        } else {
            self.data2 = self.data2 | FIRE_MASK;
        }
    }

    fn get_fire(&self, btn: u8) -> (r: bool) {
        self.data2 & FIRE_MASK == 0
    }

    fn set_directions(&mut self, dir: Directions)
        ensures
            final(self).spec_directions() == dir,
            final(self).spec_data1() == (old(self).spec_data1() & UNUSED_MASK1) | (if dir.bits & 0b1000 != 0 { 0u8 } else { LEFT_MASK }),
            final(self).spec_data2() == (old(self).spec_data2() & (FIRE_MASK | UNUSED_MASK2)) | spec_cursor_dir_bits2(dir.bits),
            final(self).spec_fire(0) == old(self).spec_fire(0),
            (final(self).spec_data1() & 0b0001_0000 == 0) == (dir.bits & 0b1000 != 0),
            final(self).spec_data1() & 0b1110_1111 == old(self).spec_data1() & 0b1110_1111,
            (final(self).spec_data2() & 0b0000_0100 == 0) == (dir.bits & 0b0010 != 0),
            (final(self).spec_data2() & 0b0000_1000 == 0) == (dir.bits & 0b0001 != 0),
            (final(self).spec_data2() & 0b0001_0000 == 0) == (dir.bits & 0b0100 != 0),
            final(self).spec_data2() & 0b1110_0011 == old(self).spec_data2() & 0b1110_0011,
    {
        proof {
            lemma_cursor_port_bits(self.data2, dir.bits);
            lemma_cursor_port_bits(self.data1, dir.bits);
        }
        self.directions = dir;
        self.data1 = (self.data1 & UNUSED_MASK1) | (if dir.intersects(Directions::LEFT()) { 0 } else { LEFT_MASK });
        let dir_bits = (if dir.intersects(Directions::UP()) { 0 } else { UP_MASK })
            | (if dir.intersects(Directions::RIGHT()) { 0 } else { RIGHT_MASK })
            | (if dir.intersects(Directions::DOWN()) { 0 } else { DOWN_MASK });
        self.data2 = (self.data2 & (FIRE_MASK | UNUSED_MASK2)) | dir_bits;
    }

    fn get_directions(&self) -> (r: Directions) {
        self.directions
    }
}

} // verus!
