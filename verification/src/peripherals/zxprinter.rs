//! An emulator of the family of printers: **ZX Printer** / **Alphacom 32** / **TS2040**.
//!
//! The Alphacom 32 is compatible with software for the ZX Printer, but uses thermal paper instead
//! of the ZX Printer's metallised paper.
//!
//! ZX Printer used special 4" (100 mm) wide black paper which was supplied coated with a thin layer of aluminium.
//!
//! Alphacom 32 printer's thermographic paper has 4.33" (110 mm) x 1.9" (48 mm) diameter.
//!
//! TS2040 was a branded version of Alphacom 32 distributed by Timex to the US.
//!
//! Timestamps are counted in T-states from the start of the current frame.
use vstd::prelude::*;

verus! {

/// A number of printed dots in each line.
pub const DOTS_PER_LINE: u32 = 256;
/// A maximum number of bytes in each line.
pub const BYTES_PER_LINE: u32 = 32;

/// An interface to the **ZX Printer** spooler.
///
/// An implementation of this trait must be provided in order to complete the emulation of [ZxPrinterDevice].
pub trait Spooler {
    /// Can be implemented to get the notification that the printing will begin shortly.
    fn motor_on(&mut self) {
    }
    /// Can be implemented to get the notification that the printing has ended.
    fn motor_off(&mut self) {
    }
    /// After each printed line this method is being called with a reference to a slice containing
    /// an information about up to 256 printed dots stored in up to 32 bytes.
    ///
    /// 8 dots are encoded from the most significant to the least significant bit in each byte.
    /// So the leftmost dot is encoded in the bit 7 of the first byte in a given slice and the
    /// rightmost dot is encoded in the bit 0 of the last byte.
    ///
    /// A value of 1 in each bit signifies a presence of a dot, a 0 means there is no dot.
    ///
    /// A received slice will never be larger than 32 bytes. If a user presses a `BREAK` key during
    /// `COPY`, the slice may be smaller than 32 bytes but it will never be empty.
    fn push_line(&mut self, line: &[u8]);
}

/// The status byte when the motor is off.
pub const STATUS_OFF: u8 = 0b0011_1110;
/// The status byte when the printer is ready for the first bit of a new line.
pub const STATUS_NEW_LINE: u8 = 0b1011_1111;
/// The status byte when the printer is ready for the next bit.
pub const STATUS_BIT_READY: u8 = 0b0011_1111;
/// The status byte when the printer is busy.
pub const STATUS_NOT_READY: u8 = 0b0011_1110;

const STYLUS_MASK: u8 = 0b1000_0000;
const MOTOR_MASK: u8 = 0b0000_0100;
const SLOW_MASK: u8 = 0b0000_0010;

/// The default bit delay in T-states: the approximate speed of Alphacom 32.
pub const BIT_DELAY: u16 = 855;

/// The largest timestamp a printer accepts: the time the next bit is due must fit in `i32`.
pub const MAX_TIMESTAMP: i32 = i32::MAX - 2 * 65535;

/// This type implements a communication protocol of the **ZX Printer**.
///
/// A data port is being used with the following bits for reading:
///
/// * bit 6 is 0 if the printer is there, 1 if it is not and is used solely to check if the printer
///   is connected.
/// * bit 0 is 1 if the printer is ready for the next bit or 0 if it's busy printing.
/// * bit 7 is 1 if the printer is ready for the new line or 0 if it's not there yet.
///
/// and for writing:
///
/// * bit 7 - a value of 1 activates a stylus, a dot will be printed in this instance.
///   When a 0 is written, the stylus is being dactivated.
/// * bit 2 - a value of 1 stops the printer motor and when a 0 is written it starts
///   the printer motor.
/// * bit 1 - a value of 1 slows the printer motor, a value of 0 sets a normal motor speed.
///
/// An implementation of a [Spooler] trait is required as generic `S` to complete this type.
#[derive(Clone, Debug)]
pub struct ZxPrinterDevice<S> {
    /// An instance of the [Spooler] trait implementation type.
    pub spooler: S,
    /// Can be changed to adjust speed. Default is 855 T-states (~16 dot lines / sec.).
    pub bit_delay: u16,
    motor: bool,
    ready: bool,
    cursor: u8,
    ready_ts: i32,
    line: [u8; 32],
}

/// The bit of a line byte that the dot at `cursor` is printed into.
pub open spec fn spec_dot_mask(cursor: u8) -> u8 {
    0x80u8 >> (cursor & 7)
}

/// The line after the dot at `cursor` is printed (`stylus`) or cleared.
pub open spec fn spec_line_with_dot(line: Seq<u8>, cursor: u8, stylus: bool) -> Seq<u8> {
    let i = (cursor >> 3) as int;
    line.update(i, if stylus { line[i] | spec_dot_mask(cursor) } else { line[i] & !spec_dot_mask(cursor) })
}

/// The line after it is flushed with `cursor` dots printed: the byte at `cursor / 8` is masked
/// with the bit of the last dot printed.
pub open spec fn spec_flushed_line(line: Seq<u8>, cursor: u8) -> Seq<u8> {
    if cursor == 0 {
        line
    } else {
        let i = (cursor >> 3) as int;
        line.update(i, line[i] & (0x80u8 >> (((cursor - 1) as u8) & 7)))
    }
}

/// The time the next bit is due when a bit is written at `timestamp` with `data`.
pub open spec fn spec_ready_ts(timestamp: i32, bit_delay: u16, data: u8) -> int {
    timestamp + if data & 2 == 2 { 2 * bit_delay } else { bit_delay as int }
}

impl<S> ZxPrinterDevice<S> {
    /// Whether the motor is running.
    pub closed spec fn spec_motor(&self) -> bool {
        self.motor
    }
    /// Whether the printer is ready for the next bit.
    pub closed spec fn spec_ready(&self) -> bool {
        self.ready
    }
    /// The position of the next dot in the line.
    pub closed spec fn spec_cursor(&self) -> u8 {
        self.cursor
    }
    /// The time the printer gets ready for the next bit.
    pub closed spec fn spec_ready_ts(&self) -> i32 {
        self.ready_ts
    }
    /// The dots of the current line.
    pub closed spec fn spec_line(&self) -> Seq<u8> {
        self.line@
    }
    /// The spooler.
    pub closed spec fn spec_spooler(&self) -> S {
        self.spooler
    }
    /// The bit delay in T-states.
    pub closed spec fn spec_bit_delay(&self) -> u16 {
        self.bit_delay
    }
    /// The status read at `timestamp`.
    pub open spec fn spec_status(&self, timestamp: i32) -> u8 {
        if !self.spec_motor() {
            STATUS_OFF
        } else if self.spec_ready() || timestamp > self.spec_ready_ts() {
            if self.spec_cursor() == 0 { STATUS_NEW_LINE } else { STATUS_BIT_READY }
        } else {
            STATUS_NOT_READY
        }
    }
}

impl<S: Default> Default for ZxPrinterDevice<S> {
    fn default() -> (r: Self)
        ensures
            r.spec_bit_delay() == BIT_DELAY,
            !r.spec_motor(),
            !r.spec_ready(),
            r.spec_cursor() == 0,
            r.spec_ready_ts() == 0,
            r.spec_line() == Seq::new(32, |i: int| 0u8),
    {
        let r = ZxPrinterDevice {
            spooler: S::default(),
            bit_delay: BIT_DELAY,
            motor: false,
            ready: false,
            cursor: 0,
            ready_ts: 0,
            line: [0u8; 32],
        };
        assert(r.line@ =~= Seq::new(32, |i: int| 0u8));
        r
    }
}

impl<S: Spooler> ZxPrinterDevice<S> {
    /// This method should be called after each emulated frame, which lasted `frame_tstates`:
    /// the time the printer gets ready is moved back by it, saturating at `i32::MIN`.
    pub fn next_frame(&mut self, frame_tstates: i32)
        requires
            frame_tstates >= 0,
        ensures
            final(self).spec_ready_ts() == (if old(self).spec_ready_ts() - frame_tstates < i32::MIN {
                i32::MIN as int
            } else {
                old(self).spec_ready_ts() - frame_tstates
            }),
            final(self).spec_motor() == old(self).spec_motor(),
            final(self).spec_ready() == old(self).spec_ready(),
            final(self).spec_cursor() == old(self).spec_cursor(),
            final(self).spec_line() == old(self).spec_line(),
            final(self).spec_bit_delay() == old(self).spec_bit_delay(),
            final(self).spec_spooler() == old(self).spec_spooler(),
    {
        let ts: i64 = self.ready_ts as i64 - frame_tstates as i64;
        self.ready_ts = if ts < i32::MIN as i64 { i32::MIN } else { ts as i32 };
    }

    /// This method should be called when device is being reset.
    pub fn reset(&mut self)
        ensures
            !final(self).spec_motor(),
            !final(self).spec_ready(),
            final(self).spec_cursor() == 0,
            final(self).spec_line() == Seq::new(32, |i: int| 0u8),
            final(self).spec_ready_ts() == old(self).spec_ready_ts(),
            final(self).spec_bit_delay() == old(self).spec_bit_delay(),
            final(self).spec_spooler() == old(self).spec_spooler(),
    {
        self.motor = false;
        self.ready = false;
        self.line = [0u8; 32];
        assert(self.line@ =~= Seq::new(32, |i: int| 0u8));
        self.cursor = 0;
    }

    /// This method should be called when a `CPU` writes to the **ZX Printer** port.
    ///
    /// With bit 2 of `data` reset it starts the motor, or, when the motor runs and the printer is
    /// ready, prints the bit 7 of `data` as the next dot. With bit 2 set it stops the motor,
    /// flushing the line printed so far to the spooler.
    pub fn write_control(&mut self, data: u8, timestamp: i32)
        requires
            timestamp <= MAX_TIMESTAMP,
        ensures
            final(self).spec_bit_delay() == old(self).spec_bit_delay(),
            data & 4 == 0 && old(self).spec_motor() && old(self).spec_ready() ==> {
                &&& final(self).spec_motor()
                &&& !final(self).spec_ready()
                &&& final(self).spec_cursor() == (old(self).spec_cursor() + 1) % 256
                &&& final(self).spec_line() == spec_line_with_dot(old(self).spec_line(), old(self).spec_cursor(), data & 0x80 == 0x80)
                &&& final(self).spec_ready_ts() == spec_ready_ts(timestamp, old(self).spec_bit_delay(), data)
            },
            data & 4 == 0 && old(self).spec_motor() && !old(self).spec_ready() ==> *final(self) == *old(self),
            data & 4 == 0 && !old(self).spec_motor() ==> {
                &&& final(self).spec_motor()
                &&& !final(self).spec_ready()
                &&& final(self).spec_cursor() == 0
                &&& final(self).spec_line() == old(self).spec_line()
                &&& final(self).spec_ready_ts() == spec_ready_ts(timestamp, old(self).spec_bit_delay(), data)
            },
            data & 4 != 0 && old(self).spec_motor() ==> {
                &&& !final(self).spec_motor()
                &&& !final(self).spec_ready()
                &&& final(self).spec_cursor() == 0
                &&& final(self).spec_line() == spec_flushed_line(old(self).spec_line(), old(self).spec_cursor())
                &&& final(self).spec_ready_ts() == old(self).spec_ready_ts()
            },
            data & 4 != 0 && !old(self).spec_motor() ==> *final(self) == *old(self),
    {
        if data & MOTOR_MASK == 0 {
            self.start(data, timestamp);
        } else {
            self.stop();
        }
    }

    /// This method should be called when a `CPU` reads from the **ZX Printer** port.
    ///
    /// The printer gets ready once `timestamp` is past the time the next bit is due.
    pub fn read_status(&mut self, timestamp: i32) -> (r: u8)
        ensures
            r == old(self).spec_status(timestamp),
            final(self).spec_ready() == (old(self).spec_ready() || (old(self).spec_motor() && timestamp > old(self).spec_ready_ts())),
            final(self).spec_motor() == old(self).spec_motor(),
            final(self).spec_cursor() == old(self).spec_cursor(),
            final(self).spec_line() == old(self).spec_line(),
            final(self).spec_ready_ts() == old(self).spec_ready_ts(),
            final(self).spec_bit_delay() == old(self).spec_bit_delay(),
            final(self).spec_spooler() == old(self).spec_spooler(),
    {
        if self.motor {
            if self.ready || self.update_ready(timestamp) {
                if self.cursor == 0 {
                    STATUS_NEW_LINE
                } else {
                    STATUS_BIT_READY
                }
            } else {
                STATUS_NOT_READY
            }
        } else {
            STATUS_OFF
        }
    }

    fn update_ready(&mut self, timestamp: i32) -> (r: bool)
        ensures
            r == (timestamp > old(self).spec_ready_ts()),
            *final(self) == (ZxPrinterDevice { ready: old(self).ready || r, ..*old(self) }),
    {
        if timestamp > self.ready_ts {
            self.ready = true;
            return true;
        }
        false
    }

    fn flush(&mut self)
        ensures
            final(self).spec_cursor() == 0,
            final(self).spec_line() == spec_flushed_line(old(self).spec_line(), old(self).spec_cursor()),
            final(self).motor == old(self).motor,
            final(self).ready == old(self).ready,
            final(self).ready_ts == old(self).ready_ts,
            final(self).bit_delay == old(self).bit_delay,
    {
        if self.cursor != 0 {
            let cursor = self.cursor;
            self.cursor = 0;
            let prev: u8 = cursor - 1;
            let sh: u8 = prev & 7;
            assert(sh < 8) by (bit_vector) requires sh == prev & 7;
            let mask: u8 = 0x80u8 >> sh;
            let i: usize = (cursor >> 3) as usize;
            assert((cursor >> 3) < 32) by (bit_vector);
            self.line[i] = self.line[i] & mask;
            let c7: usize = (cursor as usize) + 7;
            let index: usize = c7 >> 3;
            assert(index <= 32) by (bit_vector)
                requires index == c7 >> 3, c7 <= 262;
            self.spooler.push_line(vstd::slice::slice_subrange(self.line.as_slice(), 0, index));
        }
    }

    fn stop(&mut self)
        ensures
            old(self).motor ==> {
                &&& !final(self).motor
                &&& !final(self).ready
                &&& final(self).cursor == 0
                &&& final(self).line@ == spec_flushed_line(old(self).line@, old(self).cursor)
                &&& final(self).ready_ts == old(self).ready_ts
                &&& final(self).bit_delay == old(self).bit_delay
            },
            !old(self).motor ==> *final(self) == *old(self),
    {
        if self.motor {
            self.motor = false;
            self.ready = false;
            self.flush();
            self.spooler.motor_off();
        }
    }

    fn set_delay(&mut self, timestamp: i32, data: u8)
        requires
            timestamp <= MAX_TIMESTAMP,
        ensures
            final(self).ready_ts == spec_ready_ts(timestamp, old(self).bit_delay, data),
            *final(self) == (ZxPrinterDevice { ready_ts: final(self).ready_ts, ..*old(self) }),
    {
        let mut delay: i32 = self.bit_delay as i32;
        if data & SLOW_MASK == SLOW_MASK {
            delay = delay * 2;
        }
        self.ready_ts = timestamp + delay;
    }

    fn start(&mut self, data: u8, timestamp: i32)
        requires
            timestamp <= MAX_TIMESTAMP,
        ensures
            final(self).bit_delay == old(self).bit_delay,
            old(self).motor && old(self).ready ==> {
                &&& final(self).motor
                &&& !final(self).ready
                &&& final(self).cursor == (old(self).cursor + 1) % 256
                &&& final(self).line@ == spec_line_with_dot(old(self).line@, old(self).cursor, data & 0x80 == 0x80)
                &&& final(self).ready_ts == spec_ready_ts(timestamp, old(self).bit_delay, data)
            },
            old(self).motor && !old(self).ready ==> *final(self) == *old(self),
            !old(self).motor ==> {
                &&& final(self).motor
                &&& !final(self).ready
                &&& final(self).cursor == 0
                &&& final(self).line@ == old(self).line@
                &&& final(self).ready_ts == spec_ready_ts(timestamp, old(self).bit_delay, data)
            },
    {
        if self.motor {
            if self.ready {
                self.write_bit(data & STYLUS_MASK == STYLUS_MASK);
                self.set_delay(timestamp, data);
                self.ready = false;
            }
        } else {
            self.motor = true;
            self.ready = false;
            self.cursor = 0;
            self.set_delay(timestamp, data);
            self.spooler.motor_on();
        }
    }

    fn write_bit(&mut self, stylus: bool)
        ensures
            final(self).cursor == (old(self).cursor + 1) % 256,
            final(self).line@ == spec_line_with_dot(old(self).line@, old(self).cursor, stylus),
            final(self).motor == old(self).motor,
            final(self).ready == old(self).ready,
            final(self).ready_ts == old(self).ready_ts,
            final(self).bit_delay == old(self).bit_delay,
    {
        let cursor = self.cursor;
        let index: usize = (cursor >> 3) as usize;
        assert((cursor >> 3) < 32) by (bit_vector);
        let sh: u8 = cursor & 7;
        assert(sh < 8) by (bit_vector) requires sh == cursor & 7;
        let mask: u8 = 0x80u8 >> sh;
        if stylus {
            self.line[index] = self.line[index] | mask;
        } else {
            self.line[index] = self.line[index] & !mask;
        }
        if cursor == 255 {
            self.cursor = 0;
            self.spooler.push_line(self.line.as_slice());
        } else {
            self.cursor = cursor + 1;
        }
    }
}

} // verus!
