//! The RS-232 serial port remote device.
//!
//! Timestamps are counted in T-states from the start of the current frame.
use vstd::prelude::*;

use super::{ControlState, DataState};
use crate::formats::stream::{read_byte, write_all, ByteRead};

verus! {

/// The CPU clock rate the bit periods are measured with, in T-states per second.
pub const CPU_HZ: u32 = 3_500_000;

/// Spectrum's *BAUD RATES*.
pub const BAUD_RATES: [u32; 9] = [50, 110, 300, 600, 1200, 2400, 4800, 9600, 19200];

/// A default *BAUD RATE* used by Spectrum.
pub const DEFAULT_BAUD_RATE: u32 = 9600;

/// The shortest bit period: that of 19200 bauds, in T-states.
pub const MIN_STOP_BIT_DELAY: u32 = 182;
/// The longest bit period: that of 49 bauds, in T-states.
pub const MAX_STOP_BIT_DELAY: u32 = 71428;
/// The time added to the STOP bits before the next START bit is expected, in T-states.
pub const STOP_BIT_GRACE_DELAY: u32 = 50;
/// The time the DTR line stays inactive after a failed transmission, in T-states.
pub const ERROR_GRACE_DELAY: u32 = 785708;

/// The state of the transmission from the Spectrum.
#[derive(Clone, Copy, Debug, PartialEq, Eq, Structural)]
pub enum WriteStatus {
    Idle(ControlState),
    StartBit,
    ReceivingData(u8),
    StopBits(u8),
    Full(u8),
}

/// The state of the transmission to the Spectrum.
#[derive(Clone, Copy, Debug, PartialEq, Eq, Structural)]
pub enum ReadStatus {
    NotReady,
    StartBit(u8),
    Synchronize(u8),
    SendingData(u8),
}

/// The RS-232 serial port remote device.
///
/// Both ZX Spectrum's Interface 1 and 128k for communication via RS-232 use `DTR` and `CTS` lines to signal
/// readiness and transmit or receive data using one `START` bit, 8 data bits and 2 `STOP` bits without parity.
///
/// Spectrum's 128k ROM routines can send and transmit data with the following baud rates:
/// 50, 110, 300, 600, 1200, 2400, 4800, 9600 (default). The ZX Interface 1 allows additionally for 19200.
///
/// Its methods, those of a serial port device, transform Spectrum's RS-232 signals to byte streams
/// and vice-versa: it writes transmitted bytes to a generic writer and reads bytes from a generic reader.
///
/// The baud rate is not needed to be set up, as it is being auto-detected.
///
/// A byte the reader fails to deliver counts as no byte, and a byte the writer fails to take as
/// a byte not written.
#[derive(Clone, Debug)]
pub struct Rs232Io<R, W> {
    /// A reader providing data received by Spectrum.
    pub reader: R,
    /// A writer receiving data from Spectrum.
    pub writer: W,
    read_io: ReadStatus,
    read_max_delay: u32,
    read_event_ts: i32,
    write_io: WriteStatus,
    write_max_delay: u32,
    write_event_ts: i32,
}

/// `ts` advanced by `delay`, saturating at `i32::MAX`.
pub open spec fn spec_ts_add(ts: i32, delay: int) -> i32 {
    if ts + delay > i32::MAX { i32::MAX } else { (ts + delay) as i32 }
}

fn ts_add(ts: i32, delay: u32) -> (r: i32)
    ensures r == spec_ts_add(ts, delay as int),
{
    let t: i64 = ts as i64 + delay as i64;
    if t > i32::MAX as i64 { i32::MAX } else { t as i32 }
}

/// `ts` moved back by `delta`, saturating at the bounds of `i32`.
pub open spec fn spec_ts_sub(ts: i32, delta: i32) -> i32 {
    let t = ts - delta;
    if t > i32::MAX { i32::MAX } else if t < i32::MIN { i32::MIN } else { t as i32 }
}

/// `bits` rotated right by one bit.
pub open spec fn spec_rotr1(bits: u8) -> u8 {
    (bits >> 1) | ((bits & 1) << 7)
}

fn rotr1(bits: u8) -> (r: u8)
    ensures r == spec_rotr1(bits),
{
    (bits >> 1) | ((bits & 1) << 7)
}

/// The bit carried by a data line in the state `d`.
pub open spec fn spec_bit(d: DataState) -> u8 {
    if d == DataState::Mark { 1 } else { 0 }
}

/// The data line state carrying `bit`.
pub open spec fn spec_data(bit: bool) -> DataState {
    if bit { DataState::Mark } else { DataState::Space }
}

/// The baud rate nearest to `rate`: a rate between two neighbouring baud rates goes to the
/// higher one from their mean on.
pub open spec fn spec_nearest_baud(rate: int) -> u32 {
    spec_nearest_baud_from(rate, 0)
}

/// The baud rate nearest to `rate` among those from the `i`th on, `rate` being above the `i-1`th.
pub open spec fn spec_nearest_baud_from(rate: int, i: int) -> u32
    decreases 9 - i,
{
    if i >= 9 {
        BAUD_RATES@[8]
    } else if rate <= BAUD_RATES@[i] {
        if i == 0 || rate == BAUD_RATES@[i] {
            BAUD_RATES@[i]
        } else if rate < (BAUD_RATES@[i] + BAUD_RATES@[i - 1]) / 2 {
            BAUD_RATES@[i - 1]
        } else {
            BAUD_RATES@[i]
        }
    } else {
        spec_nearest_baud_from(rate, i + 1)
    }
}

/// The baud rate detected from the longest bit period `max_delay`.
pub open spec fn spec_baud_rate(max_delay: u32) -> u32 {
    let bit_period = max_delay * 2 / 3;
    if bit_period == 0 { DEFAULT_BAUD_RATE } else { spec_nearest_baud((CPU_HZ as int) / bit_period) }
}

impl<R, W> Rs232Io<R, W> {
    /// The state of the transmission to the Spectrum.
    pub closed spec fn spec_read_io(&self) -> ReadStatus {
        self.read_io
    }
    /// The longest bit period of the transmission to the Spectrum.
    pub closed spec fn spec_read_max_delay(&self) -> u32 {
        self.read_max_delay
    }
    /// The time of the next event of the transmission to the Spectrum.
    pub closed spec fn spec_read_event_ts(&self) -> i32 {
        self.read_event_ts
    }
    /// The state of the transmission from the Spectrum.
    pub closed spec fn spec_write_io(&self) -> WriteStatus {
        self.write_io
    }
    /// The longest bit period of the transmission from the Spectrum.
    pub closed spec fn spec_write_max_delay(&self) -> u32 {
        self.write_max_delay
    }
    /// The time of the next event of the transmission from the Spectrum.
    pub closed spec fn spec_write_event_ts(&self) -> i32 {
        self.write_event_ts
    }

    /// Returns the detected *BAUD RATE* of the current or the last transmission.
    ///
    /// If there was no transmission since the start of the emulator, returns the default.
    pub fn baud_rate(&self) -> (r: u32)
        ensures
            r == spec_baud_rate(if self.spec_write_event_ts() > self.spec_read_event_ts() {
                self.spec_write_max_delay()
            } else {
                self.spec_read_max_delay()
            }),
    {
        let max_delay: u32 = if self.write_event_ts > self.read_event_ts {
            self.write_max_delay
        } else {
            self.read_max_delay
        };
        let bit_period: u64 = max_delay as u64 * 2 / 3;
        if bit_period == 0 {
            return DEFAULT_BAUD_RATE;
        }
        let rate: u32 = (CPU_HZ as u64 / bit_period) as u32;
        assert(spec_baud_rate(max_delay) == spec_nearest_baud(rate as int));
        let mut i: usize = 0;
        while i < 9
            invariant
                i <= 9,
                spec_baud_rate(max_delay) == spec_nearest_baud(rate as int),
                max_delay == (if self.spec_write_event_ts() > self.spec_read_event_ts() {
                    self.spec_write_max_delay()
                } else {
                    self.spec_read_max_delay()
                }),
                spec_nearest_baud(rate as int) == spec_nearest_baud_from(rate as int, i as int),
            decreases 9 - i,
        {
            let b: u32 = BAUD_RATES[i];
            if rate <= b {
                let res: u32 = if i == 0 || rate == b {
                    b
                } else {
                    let p: u32 = BAUD_RATES[i - 1];
                    if rate < (b + p) / 2 { p } else { b }
                };
                assert(res == spec_nearest_baud_from(rate as int, i as int));
                return res;
            }
            i = i + 1;
        }
        BAUD_RATES[8]
    }
}

impl<R: Default, W: Default> Default for Rs232Io<R, W> {
    fn default() -> (r: Self)
        ensures
            r.spec_read_io() == ReadStatus::NotReady,
            r.spec_read_max_delay() == 0,
            r.spec_read_event_ts() == 0,
            r.spec_write_io() == WriteStatus::Idle(ControlState::Active),
            r.spec_write_max_delay() == 0,
            r.spec_write_event_ts() == 0,
    {
        Rs232Io {
            reader: R::default(),
            writer: W::default(),
            read_io: ReadStatus::NotReady,
            read_max_delay: 0,
            read_event_ts: 0,
            write_io: WriteStatus::Idle(ControlState::Active),
            write_max_delay: 0,
            write_event_ts: 0,
        }
    }
}

impl<R: std::io::Read, W: std::io::Write> Rs232Io<R, W> {
    fn write_byte_to_writer(&mut self, data: u8) -> (r: bool)
        ensures
            final(self).read_io == old(self).read_io,
            final(self).read_max_delay == old(self).read_max_delay,
            final(self).read_event_ts == old(self).read_event_ts,
            final(self).write_io == old(self).write_io,
            final(self).write_max_delay == old(self).write_max_delay,
            final(self).write_event_ts == old(self).write_event_ts,
    {
        let buf: [u8; 1] = [data];
        match write_all(&mut self.writer, buf.as_slice()) {
            Ok(()) => true,
            Err(_) => false,
        }
    }

    fn read_byte_from_reader(&mut self) -> (r: Option<u8>)
        ensures
            final(self).read_io == old(self).read_io,
            final(self).read_max_delay == old(self).read_max_delay,
            final(self).read_event_ts == old(self).read_event_ts,
            final(self).write_io == old(self).write_io,
            final(self).write_max_delay == old(self).write_max_delay,
            final(self).write_event_ts == old(self).write_event_ts,
    {
        match read_byte(&mut self.reader) {
            ByteRead::Byte(b) => Some(b),
            ByteRead::End => None,
            ByteRead::Failed(_) => None,
        }
    }

    fn write_failed(&mut self, timestamp: i32) -> (r: ControlState)
        ensures
            r == ControlState::Inactive,
            final(self).write_io == WriteStatus::Idle(ControlState::Inactive),
            final(self).write_event_ts == spec_ts_add(timestamp, ERROR_GRACE_DELAY as int),
            final(self).write_max_delay == old(self).write_max_delay,
            final(self).read_io == old(self).read_io,
            final(self).read_max_delay == old(self).read_max_delay,
            final(self).read_event_ts == old(self).read_event_ts,
    {
        self.write_io = WriteStatus::Idle(ControlState::Inactive);
        self.write_event_ts = ts_add(timestamp, ERROR_GRACE_DELAY);
        ControlState::Inactive
    }
}

impl<R: std::io::Read, W: std::io::Write> Rs232Io<R, W> {
    /// Receives the state of the Spectrum's data line: a `START` bit, 8 data bits and the `STOP`
    /// bits, each in time; a byte complete is handed to the writer. A bit out of time fails the
    /// transmission: the `DTR` line goes inactive for a grace period.
    pub fn write_data(&mut self, rxd: DataState, timestamp: i32) -> (r: ControlState)
        ensures
            final(self).spec_read_event_ts() == timestamp,
            final(self).spec_read_io() == old(self).spec_read_io(),
            final(self).spec_read_max_delay() == old(self).spec_read_max_delay(),
            ({
                let (wio, wmax, wev) = (old(self).spec_write_io(), old(self).spec_write_max_delay(), old(self).spec_write_event_ts());
                let (wio2, wmax2, wev2) = (final(self).spec_write_io(), final(self).spec_write_max_delay(), final(self).spec_write_event_ts());
                let failed = r == ControlState::Inactive && wio2 == WriteStatus::Idle(ControlState::Inactive)
                    && wev2 == spec_ts_add(timestamp, ERROR_GRACE_DELAY as int) && wmax2 == wmax;
                match wio {
                    WriteStatus::Idle(dtr) => if timestamp >= wev {
                        &&& r == ControlState::Active && wmax2 == wmax
                        &&& rxd == DataState::Space ==> wio2 == WriteStatus::StartBit && wev2 == spec_ts_add(timestamp, MIN_STOP_BIT_DELAY as int)
                        &&& rxd == DataState::Mark ==> wio2 == wio && wev2 == wev
                    } else {
                        r == dtr && wio2 == wio && wev2 == wev && wmax2 == wmax
                    },
                    WriteStatus::StartBit => if timestamp >= wev && timestamp - wev < MAX_STOP_BIT_DELAY {
                        let max = ((timestamp - wev + MIN_STOP_BIT_DELAY) * 3 / 2) as u32;
                        &&& r == ControlState::Active
                        &&& wmax2 == max
                        &&& wev2 == spec_ts_add(timestamp, max as int)
                        &&& wio2 == WriteStatus::ReceivingData(spec_rotr1(spec_bit(rxd) | 0x80))
                    } else {
                        failed
                    },
                    WriteStatus::ReceivingData(prev) => if timestamp < wev {
                        let next = spec_rotr1((prev & 0xFE) | spec_bit(rxd));
                        &&& r == ControlState::Active && wmax2 == wmax
                        &&& wev2 == spec_ts_add(timestamp, wmax as int)
                        &&& wio2 == (if prev & 1 == 1 { WriteStatus::StopBits(next) } else { WriteStatus::ReceivingData(next) })
                    } else {
                        failed
                    },
                    WriteStatus::StopBits(data) => if rxd == DataState::Mark && timestamp < wev {
                        wmax2 == wmax && (
                            (r == ControlState::Active && wio2 == WriteStatus::Idle(ControlState::Active)
                                && wev2 == spec_ts_add(timestamp, wmax * 4 / 3 + STOP_BIT_GRACE_DELAY))
                            || (r == ControlState::Inactive && wio2 == WriteStatus::Full(data) && wev2 == wev))
                    } else {
                        failed
                    },
                    WriteStatus::Full(_) => r == ControlState::Inactive && wio2 == wio && wev2 == wev && wmax2 == wmax,
                }
            }),
    {
        self.read_event_ts = timestamp;
        match self.write_io {
            WriteStatus::Idle(dtr) => {
                if timestamp >= self.write_event_ts {
                    if rxd.is_space() {
                        self.write_event_ts = ts_add(timestamp, MIN_STOP_BIT_DELAY);
                        self.write_io = WriteStatus::StartBit;
                    }
                    ControlState::Active
                } else {
                    dtr
                }
            },
            WriteStatus::StartBit => {
                if timestamp >= self.write_event_ts {
                    let delta: i64 = timestamp as i64 - self.write_event_ts as i64;
                    if delta < MAX_STOP_BIT_DELAY as i64 {
                        let bit: u8 = rxd.bit();
                        self.write_max_delay = ((delta as u32 + MIN_STOP_BIT_DELAY) * 3 / 2) as u32;
                        self.write_event_ts = ts_add(timestamp, self.write_max_delay);
                        self.write_io = WriteStatus::ReceivingData(rotr1(bit | 0x80));
                        return ControlState::Active;
                    }
                }
                self.write_failed(timestamp)
            },
            WriteStatus::ReceivingData(prev_bits) => {
                if timestamp < self.write_event_ts {
                    let bit: u8 = rxd.bit();
                    let next_bits = rotr1((prev_bits & 0xFE) | bit);
                    self.write_event_ts = ts_add(timestamp, self.write_max_delay);
                    if prev_bits & 1 == 1 {
                        self.write_io = WriteStatus::StopBits(next_bits);
                    } else {
                        self.write_io = WriteStatus::ReceivingData(next_bits);
                    }
                    ControlState::Active
                } else {
                    self.write_failed(timestamp)
                }
            },
            WriteStatus::StopBits(data) => {
                if rxd.is_mark() && timestamp < self.write_event_ts {
                    if self.write_byte_to_writer(data) {
                        let delay: u64 = self.write_max_delay as u64 * 4 / 3 + STOP_BIT_GRACE_DELAY as u64;
                        let delay32: u32 = if delay > u32::MAX as u64 { u32::MAX } else { delay as u32 };
                        self.write_event_ts = ts_add(timestamp, delay32);
                        self.write_io = WriteStatus::Idle(ControlState::Active);
                        ControlState::Active
                    } else {
                        self.write_io = WriteStatus::Full(data);
                        ControlState::Inactive
                    }
                } else {
                    self.write_failed(timestamp)
                }
            },
            WriteStatus::Full(_) => ControlState::Inactive,
        }
    }

    /// Returns the state of the `DTR` line; a byte the writer could not take is offered again.
    pub fn poll_ready(&mut self, timestamp: i32) -> (r: ControlState)
        ensures
            final(self).spec_read_io() == old(self).spec_read_io(),
            final(self).spec_read_max_delay() == old(self).spec_read_max_delay(),
            final(self).spec_read_event_ts() == old(self).spec_read_event_ts(),
            final(self).spec_write_max_delay() == old(self).spec_write_max_delay(),
            final(self).spec_write_event_ts() == old(self).spec_write_event_ts(),
            ({
                let wio = old(self).spec_write_io();
                let wio2 = final(self).spec_write_io();
                match wio {
                    WriteStatus::Idle(dtr) => wio2 == wio
                        && r == (if timestamp >= old(self).spec_write_event_ts() { ControlState::Active } else { dtr }),
                    WriteStatus::Full(_) => (r == ControlState::Active && wio2 == WriteStatus::Idle(ControlState::Active))
                        || (r == ControlState::Inactive && wio2 == wio),
                    _ => r == ControlState::Active && wio2 == wio,
                }
            }),
    {
        match self.write_io {
            WriteStatus::Idle(dtr) => {
                if timestamp >= self.write_event_ts {
                    ControlState::Active
                } else {
                    dtr
                }
            },
            WriteStatus::Full(byte) => {
                if self.write_byte_to_writer(byte) {
                    self.write_io = WriteStatus::Idle(ControlState::Active);
                    ControlState::Active
                } else {
                    ControlState::Inactive
                }
            },
            _ => ControlState::Active,
        }
    }

    /// With the `CTS` line inactive the transmission to the Spectrum stops; with it active the
    /// next byte from the reader, if any, is about to be sent.
    pub fn update_cts(&mut self, cts: ControlState, timestamp: i32)
        ensures
            cts == ControlState::Inactive ==> final(self).spec_read_io() == ReadStatus::NotReady,
            cts == ControlState::Active ==> final(self).spec_read_io() is StartBit
                || final(self).spec_read_io() == old(self).spec_read_io(),
            final(self).spec_read_max_delay() == old(self).spec_read_max_delay(),
            final(self).spec_read_event_ts() == old(self).spec_read_event_ts(),
            final(self).spec_write_io() == old(self).spec_write_io(),
            final(self).spec_write_max_delay() == old(self).spec_write_max_delay(),
            final(self).spec_write_event_ts() == old(self).spec_write_event_ts(),
    {
        if cts.is_inactive() {
            self.read_io = ReadStatus::NotReady;
        } else if let Some(byte) = self.read_byte_from_reader() {
            self.read_io = ReadStatus::StartBit(byte);
        }
    }

    /// Returns the state of the data line sent to the Spectrum: a `START` bit, then the bits of
    /// the byte at the pace the Spectrum reads them, first synchronized to its reading, then the
    /// `STOP` bits.
    pub fn read_data(&mut self, timestamp: i32) -> (r: DataState)
        ensures
            final(self).spec_write_io() == old(self).spec_write_io(),
            final(self).spec_write_max_delay() == old(self).spec_write_max_delay(),
            final(self).spec_write_event_ts() == old(self).spec_write_event_ts(),
            ({
                let (rio, rmax, rev) = (old(self).spec_read_io(), old(self).spec_read_max_delay(), old(self).spec_read_event_ts());
                let (rio2, rmax2, rev2) = (final(self).spec_read_io(), final(self).spec_read_max_delay(), final(self).spec_read_event_ts());
                match rio {
                    ReadStatus::NotReady => r == DataState::Mark && rio2 == rio && rmax2 == rmax && rev2 == rev,
                    ReadStatus::StartBit(byte) => r == DataState::Space && rio2 == ReadStatus::Synchronize(byte)
                        && rmax2 == rmax && rev2 == spec_ts_add(timestamp, MIN_STOP_BIT_DELAY as int),
                    ReadStatus::Synchronize(byte) => if timestamp >= rev {
                        if timestamp - rev < MAX_STOP_BIT_DELAY * 3 / 2 {
                            let max = (timestamp - rev + MIN_STOP_BIT_DELAY) as u32;
                            &&& r == spec_data(byte & 1 == 1)
                            &&& rio2 == ReadStatus::SendingData(0x80 | (byte >> 1))
                            &&& rmax2 == max && rev2 == spec_ts_add(timestamp, max as int)
                        } else {
                            r == DataState::Mark && rio2 == ReadStatus::NotReady && rmax2 == rmax && rev2 == rev
                        }
                    } else {
                        r == DataState::Space && rio2 == rio && rmax2 == rmax && rev2 == rev
                    },
                    ReadStatus::SendingData(byte) => if timestamp < rev {
                        &&& rmax2 == rmax && rev2 == spec_ts_add(timestamp, rmax as int)
                        &&& byte >> 1 != 0 ==> r == spec_data(byte & 1 == 1) && rio2 == ReadStatus::SendingData(byte >> 1)
                        &&& byte >> 1 == 0 ==> r == DataState::Mark && rio2 == ReadStatus::NotReady
                    } else {
                        r == DataState::Mark && rio2 == ReadStatus::NotReady && rmax2 == rmax && rev2 == rev
                    },
                }
            }),
    {
        match self.read_io {
            ReadStatus::NotReady => DataState::Mark,
            ReadStatus::StartBit(byte) => {
                self.read_event_ts = ts_add(timestamp, MIN_STOP_BIT_DELAY);
                self.read_io = ReadStatus::Synchronize(byte);
                DataState::Space
            },
            ReadStatus::Synchronize(byte) => {
                if timestamp >= self.read_event_ts {
                    let delay: i64 = timestamp as i64 - self.read_event_ts as i64;
                    if delay < (MAX_STOP_BIT_DELAY * 3 / 2) as i64 {
                        self.read_max_delay = delay as u32 + MIN_STOP_BIT_DELAY;
                        self.read_event_ts = ts_add(timestamp, self.read_max_delay);
                        self.read_io = ReadStatus::SendingData(0x80 | (byte >> 1));
                        DataState::from_bit(byte & 1 == 1)
                    } else {
                        self.read_io = ReadStatus::NotReady;
                        DataState::Mark
                    }
                } else {
                    DataState::Space
                }
            },
            ReadStatus::SendingData(byte) => {
                if timestamp < self.read_event_ts {
                    let bit = byte & 1 == 1;
                    let rest = byte >> 1;
                    self.read_event_ts = ts_add(timestamp, self.read_max_delay);
                    if rest != 0 {
                        self.read_io = ReadStatus::SendingData(rest);
                        return DataState::from_bit(bit);
                    }
                }
                self.read_io = ReadStatus::NotReady;
                DataState::Mark
            },
        }
    }

    /// Moves both event times back by `timestamp`, the length of the frame that ended, saturating
    /// at the bounds of `i32`.
    pub fn next_frame(&mut self, timestamp: i32)
        ensures
            final(self).spec_read_event_ts() == spec_ts_sub(old(self).spec_read_event_ts(), timestamp),
            final(self).spec_write_event_ts() == spec_ts_sub(old(self).spec_write_event_ts(), timestamp),
            final(self).spec_read_io() == old(self).spec_read_io(),
            final(self).spec_write_io() == old(self).spec_write_io(),
            final(self).spec_read_max_delay() == old(self).spec_read_max_delay(),
            final(self).spec_write_max_delay() == old(self).spec_write_max_delay(),
    {
        let r: i64 = self.read_event_ts as i64 - timestamp as i64;
        self.read_event_ts = if r > i32::MAX as i64 { i32::MAX } else if r < i32::MIN as i64 { i32::MIN } else { r as i32 };
        let w: i64 = self.write_event_ts as i64 - timestamp as i64;
        self.write_event_ts = if w > i32::MAX as i64 { i32::MAX } else if w < i32::MIN as i64 { i32::MIN } else { w as i32 };
    }
}

} // verus!
