//! A Kempston Mouse device implementation.
use vstd::prelude::*;

use super::{MouseButtons, MouseDevice, MouseInterface, MouseMovement};

verus! {

// Horizontal position: IN 64479
// Vertical position: IN 65503
// Buttons: IN 64223 [255 = None], [254 = Left], [253 = Right], [252 = Both]
const LEFT_BTN_MASK: u8 = 0b0000_0001;
const RIGHT_BTN_MASK: u8 = 0b0000_0010;
const UNUSED_BTN_MASK: u8 = 0b1111_1100;

const PORT_BTN_MASK: u16 = 0b0000_0001_0000_0000;
const PORT_BTN_BITS: u16 = 0b0000_0000_0000_0000;
const PORT_POS_MASK: u16 = 0b0000_0101_0000_0000;
const PORT_X_MASK: u16 = 0b0000_0001_0000_0000;

/// The Kempston Mouse device implements [MouseDevice] and [MouseInterface] traits.
///
/// The horizontal position increases when moving to the right and decreases when moving to the left.
/// The vertical position increases when moving from bottom to the top or forward (away from the user)
/// and decreases then moving backward (towards the user).
///
/// A horizontal position is being provided when bits of the port address: A8 is 1 and A10 is 0.
/// A vertical position is being provided when bits of the port address: A8 and A10 is 1.
/// A button state is being provided when A8 bit of the port address is 0:
///
/// * bit 0 is 0 when the left button is being pressed and 1 when the left button is released.
/// * bit 1 is 0 when the right button is being pressed and 1 when the right button is released.
#[derive(Clone, Copy, Debug)]
pub struct KempstonMouseDevice {
    data_btn: u8,
    data_x: u8,
    data_y: u8,
    buttons: MouseButtons,
}

/// The position reached from `prev` when moving by `delta` PAL pixels: half of `delta`
/// (rounded down), limited to `[-128, 127]`, added modulo 256.
pub open spec fn spec_clamped_move(prev: u8, delta: int) -> u8 {
    let half = delta / 2;
    let step = if half < -128 { -128 } else if half > 127 { 127 } else { half };
    let sum = prev + step;
    (if sum > 255 { sum - 256 } else if sum < 0 { sum + 256 } else { sum }) as u8
}

/// The vertical movement as the device counts it: `-vertical`, wrapped to 16 bits.
pub open spec fn spec_neg_i16(v: i16) -> int {
    if v == i16::MIN { v as int } else { -v }
}

fn clamped_move(prev: u8, delta: i16) -> (r: u8)
    ensures r == spec_clamped_move(prev, delta as int),
{
    let biased: u32 = (delta as i32 + 32768) as u32;
    let halved: u32 = biased >> 1;
    assert(halved == biased / 2) by (bit_vector)
        requires halved == biased >> 1;
    let half: i32 = halved as i32 - 16384;
    assert(half == (delta as int) / 2);
    let step: i8 = if half < -128 {
        -128
    } else if half > 127 {
        127
    } else {
        half as i8
    };
    prev.wrapping_add_signed(step)
}

impl KempstonMouseDevice {
    /// The byte read from the buttons port.
    pub closed spec fn spec_data_btn(&self) -> u8 {
        self.data_btn
    }
    /// The byte read from the horizontal position port.
    pub closed spec fn spec_data_x(&self) -> u8 {
        self.data_x
    }
    /// The byte read from the vertical position port.
    pub closed spec fn spec_data_y(&self) -> u8 {
        self.data_y
    }
    /// The state of the mouse buttons last set.
    pub closed spec fn spec_btns(&self) -> MouseButtons {
        self.buttons
    }
}

/// The Kempston mouse answers on its three ports as the documentation of the device gives them:
/// the buttons when the address bit A8 is 0 (port 64223), the horizontal position when A8 is 1
/// and A10 is 0 (port 64479), the vertical position when both are 1 (port 65503).
pub proof fn lemma_mouse_ports(m: KempstonMouseDevice, port: u16)
    ensures
        port & 0x0100 == 0 ==> m.spec_port_read(port) == m.spec_data_btn(),
        port & 0x0100 != 0 && port & 0x0400 == 0 ==> m.spec_port_read(port) == m.spec_data_x(),
        port & 0x0100 != 0 && port & 0x0400 != 0 ==> m.spec_port_read(port) == m.spec_data_y(),
{
    assert((port & 0x0100 != 0 && port & 0x0400 == 0 ==> port & 0x0500 == 0x0100) && (port & 0x0400 != 0
        ==> port & 0x0500 != 0x0100)) by (bit_vector);
}

impl Default for KempstonMouseDevice {
    fn default() -> (r: Self)
        ensures
            r.spec_data_btn() == 0xFF,
            r.spec_data_x() == 0xFF,
            r.spec_data_y() == 0xFF,
            r.spec_btns().bits == 0,
    {
        KempstonMouseDevice { data_btn: 0xFF, data_x: 0xFF, data_y: 0xFF, buttons: MouseButtons::empty() }
    }
}

impl MouseDevice for KempstonMouseDevice {
    /// The buttons when A8 is 0, else the horizontal position when A10 is 0, else the vertical
    /// position.
    open spec fn spec_port_read(&self, port: u16) -> u8 {
        if port & 0x0100 == 0 {
            self.spec_data_btn()
        } else if port & 0x0500 == 0x0100 {
            self.spec_data_x()
        } else {
            self.spec_data_y()
        }
    }

    fn port_read(&self, port: u16) -> (r: u8) {
        if port & PORT_BTN_MASK == PORT_BTN_BITS {
            self.data_btn
        } else if port & PORT_POS_MASK == PORT_X_MASK {
            self.data_x
        } else {
            self.data_y
        }
    }
}

impl MouseInterface for KempstonMouseDevice {
    open spec fn spec_buttons(&self) -> MouseButtons {
        self.spec_btns()
    }

    fn set_buttons(&mut self, buttons: MouseButtons)
        ensures
            final(self).spec_btns() == buttons,
            final(self).spec_data_btn() == (old(self).spec_data_btn() & 0b1111_1100)
                | (if buttons.bits & 1 != 0 { 0u8 } else { 1u8 })
                | (if buttons.bits & 2 != 0 { 0u8 } else { 2u8 }),
            final(self).spec_data_x() == old(self).spec_data_x(),
            final(self).spec_data_y() == old(self).spec_data_y(),
    {
        self.buttons = buttons;
        self.data_btn = (self.data_btn & UNUSED_BTN_MASK)
            | (if buttons.intersects(MouseButtons::LEFT()) { 0 } else { LEFT_BTN_MASK })
            | (if buttons.intersects(MouseButtons::RIGHT()) { 0 } else { RIGHT_BTN_MASK });
    }

    fn get_buttons(&self) -> (r: MouseButtons) {
        self.buttons
    }

    /// The vertical movement is negated, wrapping `i16::MIN` onto itself.
    fn move_mouse(&mut self, mov: MouseMovement)
        ensures
            final(self).spec_data_x() == spec_clamped_move(old(self).spec_data_x(), mov.horizontal as int),
            final(self).spec_data_y() == spec_clamped_move(old(self).spec_data_y(), spec_neg_i16(mov.vertical)),
            final(self).spec_data_btn() == old(self).spec_data_btn(),
            final(self).spec_btns() == old(self).spec_btns(),
    {
        self.data_x = clamped_move(self.data_x, mov.horizontal);
        let up: i16 = if mov.vertical == i16::MIN { i16::MIN } else { -mov.vertical };
        self.data_y = clamped_move(self.data_y, up);
    }
}

} // verus!
