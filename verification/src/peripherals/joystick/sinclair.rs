//! Sinclair Left and Right Joysticks' implementation.
use vstd::prelude::*;

use core::marker::PhantomData;
use super::{Directions, JoystickDevice, JoystickInterface};

verus! {

/// The unused bits.
pub const UNUSED_MASK: u8 = 0b1110_0000;

/// The Sinclair Joystick device.
///
/// The port bits are mapped by the [SinclairJoyKeyMap] of the `S` side, bits are active low.
#[derive(Debug)]
pub struct SinclairJoystickDevice<S> {
    data: u8,
    directions: Directions,
    _side: PhantomData<S>,
}

/// The keyboard bits of the Sinclair Joystick side.
pub trait SinclairJoyKeyMap {
    /// The fire button bit.
    fn fire_mask() -> (r: u8)
        ensures r == Self::spec_fire_mask();
    /// The up direction bit.
    fn up_mask() -> (r: u8)
        ensures r == Self::spec_up_mask();
    /// The down direction bit.
    fn down_mask() -> (r: u8)
        ensures r == Self::spec_down_mask();
    /// The right direction bit.
    fn right_mask() -> (r: u8)
        ensures r == Self::spec_right_mask();
    /// The left direction bit.
    fn left_mask() -> (r: u8)
        ensures r == Self::spec_left_mask();
    /// The fire button bit.
    spec fn spec_fire_mask() -> u8;
    /// The up direction bit.
    spec fn spec_up_mask() -> u8;
    /// The down direction bit.
    spec fn spec_down_mask() -> u8;
    /// The right direction bit.
    spec fn spec_right_mask() -> u8;
    /// The left direction bit.
    spec fn spec_left_mask() -> u8;
}

/// The key map of the left Sinclair joystick (keys `1`-`5`).
#[derive(Clone, Copy, Default, Debug)]
pub struct SinclairJoyLeftMap;

impl SinclairJoyKeyMap for SinclairJoyLeftMap {
    //        5 4321
    //        F_UDRL
    fn fire_mask() -> (r: u8) { 0b0001_0000 }
    fn up_mask() -> (r: u8) { 0b0000_1000 }
    fn down_mask() -> (r: u8) { 0b0000_0100 }
    fn right_mask() -> (r: u8) { 0b0000_0010 }
    fn left_mask() -> (r: u8) { 0b0000_0001 }
    open spec fn spec_fire_mask() -> u8 { 0b0001_0000 }
    open spec fn spec_up_mask() -> u8 { 0b0000_1000 }
    open spec fn spec_down_mask() -> u8 { 0b0000_0100 }
    open spec fn spec_right_mask() -> u8 { 0b0000_0010 }
    open spec fn spec_left_mask() -> u8 { 0b0000_0001 }
}

/// The key map of the right Sinclair joystick (keys `6`-`0`).
#[derive(Clone, Copy, Default, Debug)]
pub struct SinclairJoyRightMap;

impl SinclairJoyKeyMap for SinclairJoyRightMap {
    //        6_7890
    //        L_RDUF
    fn fire_mask() -> (r: u8) { 0b0000_0001 }
    fn up_mask() -> (r: u8) { 0b0000_0010 }
    fn down_mask() -> (r: u8) { 0b0000_0100 }
    fn right_mask() -> (r: u8) { 0b0000_1000 }
    fn left_mask() -> (r: u8) { 0b0001_0000 }
    open spec fn spec_fire_mask() -> u8 { 0b0000_0001 }
    open spec fn spec_up_mask() -> u8 { 0b0000_0010 }
    open spec fn spec_down_mask() -> u8 { 0b0000_0100 }
    open spec fn spec_right_mask() -> u8 { 0b0000_1000 }
    open spec fn spec_left_mask() -> u8 { 0b0001_0000 }
}

/// The direction bits read from the port of the Sinclair joystick for the given `dir` flags and
/// key bits.
pub open spec fn spec_sinclair_dir_bits(dir: u8, up: u8, right: u8, down: u8, left: u8) -> u8 {
    (if dir & 0b0001 != 0 { 0u8 } else { up })
        | (if dir & 0b0010 != 0 { 0u8 } else { right })
        | (if dir & 0b0100 != 0 { 0u8 } else { down })
        | (if dir & 0b1000 != 0 { 0u8 } else { left })
}

/// Facts about the bit-level operations on the joystick port data.
proof fn lemma_sinclair_bits(d: u8, f: u8, x: u8)
    by (bit_vector)
    ensures
        f != 0 ==> (d | f) & f != 0,
        (d & !f) & f == 0,
        x & f == 0 ==> ((((d & (f | UNUSED_MASK)) | x) & f == 0) == (d & f == 0)),
{
}

/// The port bits of the two Sinclair joysticks, active low, for the direction flags `dir`
/// (`UP` = 1, `RIGHT` = 2, `DOWN` = 4, `LEFT` = 8). The left joystick (keys `1`-`5`, bits 0-4):
/// `1` is left, `2` right, `3` down, `4` up, `5` fire. The right joystick (keys `6`-`0`, read as
/// bits 4-0): `6` is left, `7` right, `8` down, `9` up, `0` fire. A key's bit is clear exactly
/// when its direction is held, and no direction touches the fire bit.
pub proof fn lemma_sinclair_map_bits(dir: u8)
    by (bit_vector)
    ensures
        ({
            let p = spec_sinclair_dir_bits(dir, SinclairJoyLeftMap::spec_up_mask(), SinclairJoyLeftMap::spec_right_mask(),
                SinclairJoyLeftMap::spec_down_mask(), SinclairJoyLeftMap::spec_left_mask());
            &&& (p & 0b0000_0001 == 0) == (dir & 0b1000 != 0)
            &&& (p & 0b0000_0010 == 0) == (dir & 0b0010 != 0)
            &&& (p & 0b0000_0100 == 0) == (dir & 0b0100 != 0)
            &&& (p & 0b0000_1000 == 0) == (dir & 0b0001 != 0)
            &&& p & 0b1111_0000 == 0
            &&& SinclairJoyLeftMap::spec_fire_mask() == 0b0001_0000
        }),
        ({
            let p = spec_sinclair_dir_bits(dir, SinclairJoyRightMap::spec_up_mask(), SinclairJoyRightMap::spec_right_mask(),
                SinclairJoyRightMap::spec_down_mask(), SinclairJoyRightMap::spec_left_mask());
            &&& (p & 0b0001_0000 == 0) == (dir & 0b1000 != 0)
            &&& (p & 0b0000_1000 == 0) == (dir & 0b0010 != 0)
            &&& (p & 0b0000_0100 == 0) == (dir & 0b0100 != 0)
            &&& (p & 0b0000_0010 == 0) == (dir & 0b0001 != 0)
            &&& p & 0b1110_0001 == 0
            &&& SinclairJoyRightMap::spec_fire_mask() == 0b0000_0001
        }),
        spec_sinclair_dir_bits(dir, 0b0000_1000, 0b0000_0010, 0b0000_0100, 0b0000_0001) & 0b0001_0000 == 0,
        spec_sinclair_dir_bits(dir, 0b0000_0010, 0b0000_1000, 0b0000_0100, 0b0001_0000) & 0b0000_0001 == 0,
{
}

/// A key map whose fire bit is one of the bits of the left or the right Sinclair joystick.
pub open spec fn spec_is_sinclair_map<S: SinclairJoyKeyMap>() -> bool {
    ||| (S::spec_fire_mask() == 0b0001_0000u8 && S::spec_up_mask() == 0b0000_1000u8 && S::spec_down_mask() == 0b0000_0100u8
        && S::spec_right_mask() == 0b0000_0010u8 && S::spec_left_mask() == 0b0000_0001u8)
    ||| (S::spec_fire_mask() == 0b0000_0001u8 && S::spec_up_mask() == 0b0000_0010u8 && S::spec_down_mask() == 0b0000_0100u8
        && S::spec_right_mask() == 0b0000_1000u8 && S::spec_left_mask() == 0b0001_0000u8)
}

impl<S> Clone for SinclairJoystickDevice<S> {
    fn clone(&self) -> (r: Self)
        ensures r == *self,
    {
        SinclairJoystickDevice { data: self.data, directions: self.directions, _side: PhantomData }
    }
}

impl<S> Copy for SinclairJoystickDevice<S> {}

impl<S> SinclairJoystickDevice<S> {
    /// The byte read from the joystick port.
    pub closed spec fn spec_data(&self) -> u8 {
        self.data
    }
    /// The state of a released joystick in the central position.
    pub closed spec fn spec_is_default(&self) -> bool {
        self.data == 0xff && self.directions.bits == 0
    }
}

impl<S> Default for SinclairJoystickDevice<S> {
    fn default() -> (r: SinclairJoystickDevice<S>)
        ensures r.spec_data() == 0xff, r.spec_is_default(),
    {
        SinclairJoystickDevice { data: 0xff, directions: Directions::empty(), _side: PhantomData }
    }
}

impl<S> JoystickDevice for SinclairJoystickDevice<S> {
    open spec fn spec_port_read(&self, port: u16) -> u8 {
        self.spec_data()
    }

    fn port_read(&self, port: u16) -> (r: u8) {
        self.data
    }
}

impl<S: SinclairJoyKeyMap> JoystickInterface for SinclairJoystickDevice<S> {
    closed spec fn spec_directions(&self) -> Directions {
        self.directions
    }

    closed spec fn spec_fire(&self, btn: u8) -> bool {
        self.data & S::spec_fire_mask() == 0
    }

    fn fire(&mut self, btn: u8, pressed: bool)
        ensures
            final(self).spec_data() == (if pressed { old(self).spec_data() & !S::spec_fire_mask() } else { old(self).spec_data() | S::spec_fire_mask() }),
            final(self).spec_directions() == old(self).spec_directions(),
            spec_is_sinclair_map::<S>() ==> final(self).spec_fire(btn) == pressed,
    {
        let f = S::fire_mask();
        proof { lemma_sinclair_bits(self.data, f, 0); }
        if pressed {
            self.data = self.data & !f;
        } else {
            self.data = self.data | f;
        }
    }

    fn get_fire(&self, btn: u8) -> (r: bool) {
        self.data & S::fire_mask() == 0
    }

    fn set_directions(&mut self, dir: Directions)
        ensures
            final(self).spec_directions() == dir,
            final(self).spec_data() == (old(self).spec_data() & (S::spec_fire_mask() | UNUSED_MASK))
                | spec_sinclair_dir_bits(dir.bits, S::spec_up_mask(), S::spec_right_mask(), S::spec_down_mask(), S::spec_left_mask()),
            spec_is_sinclair_map::<S>() ==> final(self).spec_fire(0) == old(self).spec_fire(0),
    {
        let f = S::fire_mask();
        proof {
            lemma_sinclair_map_bits(dir.bits);
            lemma_sinclair_bits(self.data, f, spec_sinclair_dir_bits(dir.bits, S::spec_up_mask(), S::spec_right_mask(), S::spec_down_mask(), S::spec_left_mask()));
        }
        self.directions = dir;
        let dir_bits = (if dir.intersects(Directions::UP()) { 0 } else { S::up_mask() })
            | (if dir.intersects(Directions::RIGHT()) { 0 } else { S::right_mask() })
            | (if dir.intersects(Directions::DOWN()) { 0 } else { S::down_mask() })
            | (if dir.intersects(Directions::LEFT()) { 0 } else { S::left_mask() });
        self.data = (self.data & (f | UNUSED_MASK)) | dir_bits;
    }

    fn get_directions(&self) -> (r: Directions) {
        self.directions
    }
}

} // verus!
