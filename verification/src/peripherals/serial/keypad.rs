//! The ZX Spectrum 128 extension keypad.
//!
//! Timestamps are counted in T-states from the start of the current frame.
use vstd::prelude::*;

use rand::rngs::SmallRng;

use super::{ControlState, DataState};

verus! {

/// Lets `rand::rngs::SmallRng` stand in verified code; its contents stay opaque.
#[verifier::external_type_specification]
#[verifier::external_body]
pub struct ExSmallRng(SmallRng);

/// A generator seeded from the operating system's random source, with
/// `rand::SeedableRng::from_rng` on `rand::rngs::OsRng`; `None` where the system gives no
/// entropy.
#[verifier::external_body]
fn rng_from_os() -> (r: Option<SmallRng>) {
    <SmallRng as rand::SeedableRng>::from_rng(rand::rngs::OsRng).ok()
}

/// A generator seeded from `seed`, with `rand::SeedableRng::seed_from_u64`.
#[verifier::external_body]
fn rng_from_seed(seed: u64) -> (r: SmallRng) {
    <SmallRng as rand::SeedableRng>::seed_from_u64(seed)
}

/// A random number in `[lo, hi)`, with `rand::Rng::gen_range`, which panics on an empty range.
#[verifier::external_body]
fn gen_range(rng: &mut SmallRng, lo: i32, hi: i32) -> (r: i32)
    requires
        lo < hi,
    ensures
        lo <= r < hi,
{
    rand::Rng::gen_range(rng, lo, hi)
}

/// Every key's state is encoded as a single bit on this 20-bit flag type.
/// * Bit = 1 a key is being pressed.
/// * Bit = 0 a key is not being pressed.
#[derive(Debug, Clone, Copy, PartialEq, Eq, Hash, Structural)]
pub struct KeypadKeys {
    /// The raw bits of the flags.
    pub bits: u32,
}

impl KeypadKeys {
    /// The 1st (top) physical keypad row's mask.
    #[allow(non_snake_case)]
    pub fn ROW1_MASK() -> (r: Self)
        ensures r.bits == 0x00F00,
    {
        KeypadKeys { bits: 0x00F00 }
    }

    /// The 2nd physical keypad row's mask.
    #[allow(non_snake_case)]
    pub fn ROW2_MASK() -> (r: Self)
        ensures r.bits == 0x0F000,
    {
        KeypadKeys { bits: 0x0F000 }
    }

    /// The 3rd physical keypad row's mask.
    #[allow(non_snake_case)]
    pub fn ROW3_MASK() -> (r: Self)
        ensures r.bits == 0xF0000,
    {
        KeypadKeys { bits: 0xF0000 }
    }

    /// The 4th physical keypad row's mask.
    #[allow(non_snake_case)]
    pub fn ROW4_MASK() -> (r: Self)
        ensures r.bits == 0x000F0,
    {
        KeypadKeys { bits: 0x000F0 }
    }

    /// The 5th (bottom) physical keypad row's mask.
    #[allow(non_snake_case)]
    pub fn ROW5_MASK() -> (r: Self)
        ensures r.bits == 0x0000F,
    {
        KeypadKeys { bits: 0x0000F }
    }

    /// The `.` key.
    #[allow(non_snake_case)]
    pub fn DOT() -> (r: Self)
        ensures r.bits == 0x00002,
    {
        KeypadKeys { bits: 0x00002 }
    }

    /// An alias of `DOT`.
    #[allow(non_snake_case)]
    pub fn PERIOD() -> (r: Self)
        ensures r.bits == 0x00002,
    {
        KeypadKeys { bits: 0x00002 }
    }

    /// The `0` key.
    #[allow(non_snake_case)]
    pub fn N0() -> (r: Self)
        ensures r.bits == 0x00008,
    {
        KeypadKeys { bits: 0x00008 }
    }

    /// An alias of `N0`.
    #[allow(non_snake_case)]
    pub fn SHIFT() -> (r: Self)
        ensures r.bits == 0x00008,
    {
        KeypadKeys { bits: 0x00008 }
    }

    /// The `ENTER` key.
    #[allow(non_snake_case)]
    pub fn ENTER() -> (r: Self)
        ensures r.bits == 0x00010,
    {
        KeypadKeys { bits: 0x00010 }
    }

    /// The `3` key.
    #[allow(non_snake_case)]
    pub fn N3() -> (r: Self)
        ensures r.bits == 0x00020,
    {
        KeypadKeys { bits: 0x00020 }
    }

    /// The `2` key.
    #[allow(non_snake_case)]
    pub fn N2() -> (r: Self)
        ensures r.bits == 0x00040,
    {
        KeypadKeys { bits: 0x00040 }
    }

    /// The `1` key.
    #[allow(non_snake_case)]
    pub fn N1() -> (r: Self)
        ensures r.bits == 0x00080,
    {
        KeypadKeys { bits: 0x00080 }
    }

    /// The `)` key.
    #[allow(non_snake_case)]
    pub fn RPAREN() -> (r: Self)
        ensures r.bits == 0x00100,
    {
        KeypadKeys { bits: 0x00100 }
    }

    /// An alias of `RPAREN`.
    #[allow(non_snake_case)]
    pub fn TOGGLE() -> (r: Self)
        ensures r.bits == 0x00100,
    {
        KeypadKeys { bits: 0x00100 }
    }

    /// The `(` key.
    #[allow(non_snake_case)]
    pub fn LPAREN() -> (r: Self)
        ensures r.bits == 0x00200,
    {
        KeypadKeys { bits: 0x00200 }
    }

    /// The `*` key.
    #[allow(non_snake_case)]
    pub fn ASTERISK() -> (r: Self)
        ensures r.bits == 0x00400,
    {
        KeypadKeys { bits: 0x00400 }
    }

    /// An alias of `ASTERISK`.
    #[allow(non_snake_case)]
    pub fn MULTIPLY() -> (r: Self)
        ensures r.bits == 0x00400,
    {
        KeypadKeys { bits: 0x00400 }
    }

    /// The `/` key.
    #[allow(non_snake_case)]
    pub fn SLASH() -> (r: Self)
        ensures r.bits == 0x00800,
    {
        KeypadKeys { bits: 0x00800 }
    }

    /// An alias of `SLASH`.
    #[allow(non_snake_case)]
    pub fn DIVIDE() -> (r: Self)
        ensures r.bits == 0x00800,
    {
        KeypadKeys { bits: 0x00800 }
    }

    /// The `-` key.
    #[allow(non_snake_case)]
    pub fn MINUS() -> (r: Self)
        ensures r.bits == 0x01000,
    {
        KeypadKeys { bits: 0x01000 }
    }

    /// An alias of `MINUS`.
    #[allow(non_snake_case)]
    pub fn CMND() -> (r: Self)
        ensures r.bits == 0x01000,
    {
        KeypadKeys { bits: 0x01000 }
    }

    /// The `9` key.
    #[allow(non_snake_case)]
    pub fn N9() -> (r: Self)
        ensures r.bits == 0x02000,
    {
        KeypadKeys { bits: 0x02000 }
    }

    /// The `8` key.
    #[allow(non_snake_case)]
    pub fn N8() -> (r: Self)
        ensures r.bits == 0x04000,
    {
        KeypadKeys { bits: 0x04000 }
    }

    /// The `7` key.
    #[allow(non_snake_case)]
    pub fn N7() -> (r: Self)
        ensures r.bits == 0x08000,
    {
        KeypadKeys { bits: 0x08000 }
    }

    /// The `+` key.
    #[allow(non_snake_case)]
    pub fn PLUS() -> (r: Self)
        ensures r.bits == 0x10000,
    {
        KeypadKeys { bits: 0x10000 }
    }

    /// The `6` key.
    #[allow(non_snake_case)]
    pub fn N6() -> (r: Self)
        ensures r.bits == 0x20000,
    {
        KeypadKeys { bits: 0x20000 }
    }

    /// The `5` key.
    #[allow(non_snake_case)]
    pub fn N5() -> (r: Self)
        ensures r.bits == 0x40000,
    {
        KeypadKeys { bits: 0x40000 }
    }

    /// The `4` key.
    #[allow(non_snake_case)]
    pub fn N4() -> (r: Self)
        ensures r.bits == 0x80000,
    {
        KeypadKeys { bits: 0x80000 }
    }

    /// All bits that belong to some defined flag.
    pub open spec fn spec_all_bits() -> u32 {
        0xFFFFF
    }

    /// Returns flags with no bit set.
    pub fn empty() -> (r: Self)
        ensures r.bits == 0,
    {
        KeypadKeys { bits: 0 }
    }

    /// Returns flags with every defined bit set.
    pub fn all() -> (r: Self)
        ensures r.bits == Self::spec_all_bits(),
    {
        KeypadKeys { bits: 0xFFFFF }
    }

    /// Returns the raw bits of the flags.
    pub fn bits(&self) -> (r: u32)
        ensures r == self.bits,
    {
        self.bits
    }

    /// Converts raw bits into flags, dropping every undefined bit.
    pub fn from_bits_truncate(bits: u32) -> (r: Self)
        ensures r.bits == bits & Self::spec_all_bits(),
    {
        KeypadKeys { bits: bits & 0xFFFFF }
    }

    /// Returns `true` if any bit of `other` is also set in `self`.
    pub fn intersects(&self, other: Self) -> (r: bool)
        ensures r == (self.bits & other.bits != 0),
    {
        self.bits & other.bits != 0
    }

    /// Returns the bitwise union of `self` and `other`.
    pub fn union(self, other: Self) -> (r: Self)
        ensures r.bits == self.bits | other.bits,
    {
        KeypadKeys { bits: self.bits | other.bits }
    }
}

impl Default for KeypadKeys {
    fn default() -> (r: Self)
        ensures r.bits == 0,
    {
        KeypadKeys { bits: 0 }
    }
}

impl From<u32> for KeypadKeys {
    fn from(keys: u32) -> (r: Self) {
        KeypadKeys { bits: keys & 0xFFFFF }
    }
}

impl vstd::std_specs::convert::FromSpecImpl<u32> for KeypadKeys {
    open spec fn obeys_from_spec() -> bool {
        true
    }

    open spec fn from_spec(keys: u32) -> KeypadKeys {
        KeypadKeys { bits: keys & 0xFFFFF }
    }
}

impl From<KeypadKeys> for u32 {
    fn from(keys: KeypadKeys) -> (r: u32) {
        keys.bits
    }
}

impl vstd::std_specs::convert::FromSpecImpl<KeypadKeys> for u32 {
    open spec fn obeys_from_spec() -> bool {
        true
    }

    open spec fn from_spec(keys: KeypadKeys) -> u32 {
        keys.bits
    }
}

pub const PRESENT_MAX_INTERVAL: i32 = 3593;
pub const PRESENT_MIN_INTERVAL: i32 = 359;
pub const CORRECT_MAX_INTERVAL: i32 = 3917;
pub const CORRECT_MIN_INTERVAL: i32 = 391;
pub const WAITING_MAX_INTERVAL: i32 = 4121;
pub const WAITING_MIN_INTERVAL: i32 = 2060;
pub const BITLOOP_MAX_INTERVAL: i32 = 570;
pub const BITLOOP_MIN_INTERVAL: i32 = 142;
pub const READY_MAX_INTERVAL: i32 = 250;
pub const READY_MIN_INTERVAL: i32 = 50;
pub const RESET_MIN_INTERVAL: i32 = 2_000_000;
pub const RESET_MAX_INTERVAL: i32 = 7_000_000;
/// 0.6 ms
pub const SET_GO_TIMEOUT: i32 = 2128;
/// 0.2 ms
pub const READY_START_TIMEOUT: i32 = 709;
/// 1.3 ms
pub const STOP_STAND_EASY_TIMEOUT: i32 = 4610;

/// Status = 0 and a stop bit.
pub const STATUS0_ROW_DATA: u8 = 0b10;
/// Status = 1, 4 bit places and a stop bit.
pub const STATUS1_ROW_TEMPLATE: u8 = 0b10_0001;
/// Transmitted after synchronization.
pub const SERIAL_DATA: u8 = 0b1_0100;

/// The bits sent for a row of keys whose state is `nibble`.
pub open spec fn spec_row_bits(nibble: u8) -> u8 {
    STATUS1_ROW_TEMPLATE | ((nibble & 0xF) << 1)
}

/// The bits sent for a row of keys are, from the lowest: the status bit 1, the four key bits of
/// the row in their order, a set bit being a pressed key, and the stop bit; so a row with no key
/// pressed sends `0b10_0001`.
pub proof fn lemma_row_bits(nibble: u8)
    by (bit_vector)
    ensures
        spec_row_bits(nibble) == 0b10_0001 + 2 * (nibble % 16),
{
}

fn row_data_to_output_bits(nibble: u8) -> (r: u8)
    ensures r == spec_row_bits(nibble),
{
    STATUS1_ROW_TEMPLATE | ((nibble & 0xF) << 1)
}

/// The state of the protocol of the keypad.
#[derive(Clone, Copy, Debug, PartialEq, Eq, Structural)]
pub enum KeypadIoStatus {
    Reset,
    SyncPreset,
    SyncCorrect,
    Waiting,
    Ready,
    Data,
    Stopped,
}

/// The ZX Spectrum 128 extension keypad.
///
/// For the history of this rare and often omitted in emulators device see:
/// [Spectrum128Keypad.htm](http://www.fruitcake.plus.com/Sinclair/Spectrum128/Keypad/Spectrum128Keypad.htm).
///
/// ```text
/// +-------+  +-------+  +-------+  +-------+
/// | DEL ← |  | ↑     |  | DEL → |  |TOGGLE |
/// |   /   |  |   *   |  |   (   |  |   )   |
/// +-------+  +-------+  +-------+  +-------+
///
/// +-------+  +-------+  +-------+  +-------+
/// | ←     |  | ↓     |  | →     |  | CMND  |
/// |   7   |  |   8   |  |   9   |  |   -   |
/// +-------+  +-------+  +-------+  +-------+
///
/// +-------+  +-------+  +-------+  +-------+
/// |<< DEL |  |>> DEL |  |↑↑     |  |↑↑     |
/// |   4   |  |   5   |  |   6   |  |   +   |
/// +-------+  +-------+  +-------+  +-------+
///
/// +-------+  +-------+  +-------+  +-------+
/// ||<< DEL|  |>>| DEL|  |⭱⭱     |  |   E   |
/// |   1   |  |   2   |  |   3   |  |   N   |
/// +-------+  +-------+  +-------+  |   T   |
///                                  |   E   |
/// +------------------+  +-------+  |   R   |
/// |            SHIFT |  |⭳⭳     |  |       |
/// |         0        |  |   .   |  |   =   |
/// +------------------+  +-------+  +-------+
///```
///
/// The extension keypad communicates with Spectrum using a unique protocol over the computer's serial
/// connector: its methods are those of a serial port device. The delays of its answers are random,
/// within the ranges of the protocol.
///
/// To change the keypad state use methods directly on the implementation of this type.
#[derive(Debug)]
pub struct SerialKeypad {
    keys: KeypadKeys,
    keys_changed: u32,
    next_row: u8,
    output_bits: u8,
    keypad_io: KeypadIoStatus,
    keypad_event_ts: i32,
    rng: SmallRng,
}

/// The seed of the keypad's random delays where the system gives no entropy.
pub const FALLBACK_SEED: u64 = 0x5A58_5350_4543_5452;

/// `ts` advanced by `delay`, saturating at `i32::MAX`.
pub open spec fn spec_ts_add(ts: i32, delay: int) -> i32 {
    if ts + delay > i32::MAX { i32::MAX } else { (ts + delay) as i32 }
}

fn ts_add(ts: i32, delay: i32) -> (r: i32)
    requires
        delay >= 0,
    ensures
        r == spec_ts_add(ts, delay as int),
{
    let t: i64 = ts as i64 + delay as i64;
    if t > i32::MAX as i64 { i32::MAX } else { t as i32 }
}

/// `ev` is a random time from `ts + lo` on and before `ts + hi`, saturating at `i32::MAX`.
pub open spec fn spec_delayed(ev: i32, ts: i32, lo: int, hi: int) -> bool {
    spec_ts_add(ts, lo) <= ev <= spec_ts_add(ts, hi - 1)
}

/// Whether the keypad can see the `CTS` line in the state `cts`: the Spectrum toggles it at
/// each step of the protocol.
pub open spec fn spec_cts_expected(io: KeypadIoStatus, cts: ControlState) -> bool {
    match io {
        KeypadIoStatus::Reset => true,
        KeypadIoStatus::SyncPreset => cts == ControlState::Inactive,
        KeypadIoStatus::SyncCorrect => cts == ControlState::Active,
        KeypadIoStatus::Waiting => cts == ControlState::Inactive,
        KeypadIoStatus::Ready => cts == ControlState::Active,
        KeypadIoStatus::Data => cts == ControlState::Inactive,
        KeypadIoStatus::Stopped => cts == ControlState::Active,
    }
}

impl SerialKeypad {
    /// The keys being pressed.
    pub closed spec fn spec_keys(&self) -> KeypadKeys {
        self.keys
    }
    /// The keys changed and not yet sent.
    pub closed spec fn spec_keys_changed(&self) -> u32 {
        self.keys_changed
    }
    /// The row of keys sent next.
    pub closed spec fn spec_next_row(&self) -> u8 {
        self.next_row
    }
    /// The bits being sent.
    pub closed spec fn spec_output_bits(&self) -> u8 {
        self.output_bits
    }
    /// The state of the protocol.
    pub closed spec fn spec_io(&self) -> KeypadIoStatus {
        self.keypad_io
    }
    /// The time of the next event of the protocol.
    pub closed spec fn spec_event_ts(&self) -> i32 {
        self.keypad_event_ts
    }

    /// A keypad with no key pressed, about to reset the protocol.
    ///
    /// Its random delays are seeded from the operating system, or from a fixed seed where the
    /// system gives no entropy.
    pub fn new() -> (r: Self)
        ensures
            r.spec_keys().bits == 0,
            r.spec_keys_changed() == 0,
            r.spec_next_row() == 0,
            r.spec_output_bits() == 0,
            r.spec_io() == KeypadIoStatus::Reset,
            r.spec_event_ts() == RESET_MAX_INTERVAL,
    {
        SerialKeypad {
            keys: KeypadKeys::empty(),
            keys_changed: 0,
            next_row: 0,
            output_bits: 0,
            keypad_io: KeypadIoStatus::Reset,
            keypad_event_ts: RESET_MAX_INTERVAL,
            rng: match rng_from_os() {
                Some(rng) => rng,
                None => rng_from_seed(FALLBACK_SEED),
            },
        }
    }

    /// Reads the current state of the keypad.
    pub fn get_key_state(&self) -> (r: KeypadKeys)
        ensures r == self.spec_keys(),
    {
        self.keys
    }

    /// Sets the state of the keypad; the keys that changed are sent with the next scans.
    pub fn set_key_state(&mut self, keys: KeypadKeys)
        ensures
            final(self).spec_keys() == keys,
            final(self).spec_keys_changed() == old(self).spec_keys_changed() | (old(self).spec_keys().bits ^ keys.bits),
            final(self).spec_next_row() == old(self).spec_next_row(),
            final(self).spec_output_bits() == old(self).spec_output_bits(),
            final(self).spec_io() == old(self).spec_io(),
            final(self).spec_event_ts() == old(self).spec_event_ts(),
    {
        let changed = self.keys.bits ^ keys.bits;
        self.keys_changed = self.keys_changed | changed;
        self.keys = keys;
    }

    fn gen_range_ts(&mut self, ts: i32, lo: i32, hi: i32) -> (r: i32)
        requires
            0 <= lo < hi,
        ensures
            spec_delayed(r, ts, lo as int, hi as int),
            final(self).keys == old(self).keys,
            final(self).keys_changed == old(self).keys_changed,
            final(self).next_row == old(self).next_row,
            final(self).output_bits == old(self).output_bits,
            final(self).keypad_io == old(self).keypad_io,
            final(self).keypad_event_ts == old(self).keypad_event_ts,
    {
        let delta = gen_range(&mut self.rng, lo, hi);
        ts_add(ts, delta)
    }

    fn initiate_output_data(&mut self)
        ensures
            final(self).next_row == 0,
            final(self).keys_changed == KeypadKeys::spec_all_bits(),
            final(self).output_bits == SERIAL_DATA,
            final(self).keys == old(self).keys,
            final(self).keypad_io == old(self).keypad_io,
            final(self).keypad_event_ts == old(self).keypad_event_ts,
    {
        self.next_row = 0;
        self.keys_changed = KeypadKeys::all().bits();
        self.output_bits = SERIAL_DATA;
    }

    fn next_output_bit(&mut self)
        ensures
            ({
                let bits = old(self).output_bits >> 1;
                if bits & 0xFE == 0 {
                    spec_next_output_data(*old(self), *final(self))
                } else {
                    *final(self) == (SerialKeypad { output_bits: bits, ..*old(self) })
                }
            }),
    {
        let bits = self.output_bits >> 1;
        if bits & 0xFE == 0 {
            self.next_output_data();
        } else {
            self.output_bits = bits;
        }
    }

    fn next_output_data(&mut self)
        ensures
            spec_next_output_data(*old(self), *final(self)),
    {
        let row = self.next_row % 5;
        self.next_row = row + 1;
        let shift: u32 = 4 * row as u32;
        let row_mask: u32 = 0xFu32 << shift;
        if self.keys_changed & row_mask == 0 {
            self.output_bits = STATUS0_ROW_DATA;
        } else {
            let nibble = ((self.keys.bits >> shift) & 0xFF) as u8;
            self.keys_changed = self.keys_changed & !row_mask;
            self.output_bits = row_data_to_output_bits(nibble);
        }
    }

    fn reset_status(&mut self, timestamp: i32)
        ensures
            final(self).keypad_io == KeypadIoStatus::Reset,
            spec_delayed(final(self).keypad_event_ts, timestamp, RESET_MIN_INTERVAL as int, RESET_MAX_INTERVAL as int),
            final(self).keys == old(self).keys,
            final(self).keys_changed == old(self).keys_changed,
            final(self).next_row == old(self).next_row,
            final(self).output_bits == old(self).output_bits,
    {
        self.keypad_io = KeypadIoStatus::Reset;
        self.keypad_event_ts = self.gen_range_ts(timestamp, RESET_MIN_INTERVAL, RESET_MAX_INTERVAL);
    }

    /// Returns the state of the data line the keypad sends at `timestamp`.
    pub fn read_data(&mut self, timestamp: i32) -> (r: DataState)
        ensures
            *final(self) == *old(self),
            r == (match old(self).spec_io() {
                KeypadIoStatus::Reset | KeypadIoStatus::Waiting => DataState::Mark,
                KeypadIoStatus::SyncPreset | KeypadIoStatus::Ready =>
                    if timestamp >= old(self).spec_event_ts() { DataState::Space } else { DataState::Mark },
                KeypadIoStatus::SyncCorrect =>
                    if timestamp >= old(self).spec_event_ts() { DataState::Mark } else { DataState::Space },
                KeypadIoStatus::Data => if old(self).spec_output_bits() & 1 == 1 { DataState::Mark } else { DataState::Space },
                KeypadIoStatus::Stopped => DataState::Space,
            }),
    {
        match self.keypad_io {
            KeypadIoStatus::Reset | KeypadIoStatus::Waiting => DataState::Mark,
            KeypadIoStatus::SyncPreset | KeypadIoStatus::Ready => {
                if timestamp >= self.keypad_event_ts { DataState::Space } else { DataState::Mark }
            },
            KeypadIoStatus::SyncCorrect => {
                if timestamp >= self.keypad_event_ts { DataState::Mark } else { DataState::Space }
            },
            KeypadIoStatus::Data => {
                if self.output_bits & 1 == 1 { DataState::Mark } else { DataState::Space }
            },
            KeypadIoStatus::Stopped => DataState::Space,
        }
    }

    /// The keypad never asks for data: its `DTR` line stays inactive.
    pub fn write_data(&mut self, rxd: DataState, timestamp: i32) -> (r: ControlState)
        ensures
            r == ControlState::Inactive,
            *final(self) == *old(self),
    {
        ControlState::Inactive
    }

    /// The keypad never asks for data: its `DTR` line stays inactive.
    pub fn poll_ready(&mut self, timestamp: i32) -> (r: ControlState)
        ensures
            r == ControlState::Inactive,
            *final(self) == *old(self),
    {
        ControlState::Inactive
    }

    /// Follows the protocol as the Spectrum toggles the `CTS` line at `timestamp`: each step in
    /// time leads to the next one, with a random delay before the keypad's answer; a step out of
    /// time resets the protocol.
    pub fn update_cts(&mut self, cts: ControlState, timestamp: i32)
        requires
            spec_cts_expected(old(self).spec_io(), cts),
        ensures
            final(self).spec_keys() == old(self).spec_keys(),
            ({
                let (io, ev) = (old(self).spec_io(), old(self).spec_event_ts());
                let (io2, ev2) = (final(self).spec_io(), final(self).spec_event_ts());
                let reset = io2 == KeypadIoStatus::Reset
                    && spec_delayed(ev2, timestamp, RESET_MIN_INTERVAL as int, RESET_MAX_INTERVAL as int);
                match io {
                    KeypadIoStatus::Reset => if timestamp < ev {
                        *final(self) == *old(self)
                    } else if cts == ControlState::Active {
                        io2 == KeypadIoStatus::SyncPreset
                            && spec_delayed(ev2, timestamp, PRESENT_MIN_INTERVAL as int, PRESENT_MAX_INTERVAL as int)
                    } else {
                        reset
                    },
                    KeypadIoStatus::SyncPreset => if timestamp >= ev {
                        io2 == KeypadIoStatus::SyncCorrect
                            && spec_delayed(ev2, timestamp, CORRECT_MIN_INTERVAL as int, CORRECT_MAX_INTERVAL as int)
                    } else {
                        reset
                    },
                    KeypadIoStatus::SyncCorrect => if timestamp >= ev && timestamp < ev + SET_GO_TIMEOUT {
                        &&& io2 == KeypadIoStatus::Waiting
                        &&& spec_delayed(ev2, timestamp, WAITING_MIN_INTERVAL as int, WAITING_MAX_INTERVAL as int)
                        &&& final(self).spec_next_row() == 0
                        &&& final(self).spec_keys_changed() == KeypadKeys::spec_all_bits()
                        &&& final(self).spec_output_bits() == SERIAL_DATA
                    } else {
                        reset
                    },
                    KeypadIoStatus::Waiting => io2 == KeypadIoStatus::Ready
                        && spec_delayed(ev2, if ev > timestamp { ev } else { timestamp }, READY_MIN_INTERVAL as int, READY_MAX_INTERVAL as int),
                    KeypadIoStatus::Ready => if timestamp >= ev && timestamp < ev + READY_START_TIMEOUT {
                        io2 == KeypadIoStatus::Data && ev2 == timestamp
                    } else {
                        reset
                    },
                    KeypadIoStatus::Data => io2 == KeypadIoStatus::Stopped
                        && ev2 == spec_ts_add(timestamp, STOP_STAND_EASY_TIMEOUT as int)
                        && spec_bit_sent(*old(self), *final(self)),
                    KeypadIoStatus::Stopped => if timestamp < ev {
                        io2 == KeypadIoStatus::Waiting
                            && spec_delayed(ev2, timestamp, BITLOOP_MIN_INTERVAL as int, BITLOOP_MAX_INTERVAL as int)
                    } else {
                        reset
                    },
                }
            }),
    {
        match self.keypad_io {
            KeypadIoStatus::Reset => {
                if timestamp >= self.keypad_event_ts {
                    if cts.is_active() {
                        self.keypad_event_ts = self.gen_range_ts(timestamp, PRESENT_MIN_INTERVAL, PRESENT_MAX_INTERVAL);
                        self.keypad_io = KeypadIoStatus::SyncPreset;
                    } else {
                        self.reset_status(timestamp);
                    }
                }
            },
            KeypadIoStatus::SyncPreset => {
                if timestamp >= self.keypad_event_ts {
                    self.keypad_event_ts = self.gen_range_ts(timestamp, CORRECT_MIN_INTERVAL, CORRECT_MAX_INTERVAL);
                    self.keypad_io = KeypadIoStatus::SyncCorrect;
                } else {
                    self.reset_status(timestamp);
                }
            },
            KeypadIoStatus::SyncCorrect => {
                if timestamp >= self.keypad_event_ts
                    && (timestamp as i64) < self.keypad_event_ts as i64 + SET_GO_TIMEOUT as i64 {
                    self.keypad_event_ts = self.gen_range_ts(timestamp, WAITING_MIN_INTERVAL, WAITING_MAX_INTERVAL);
                    self.keypad_io = KeypadIoStatus::Waiting;
                    self.initiate_output_data();
                } else {
                    self.reset_status(timestamp);
                }
            },
            KeypadIoStatus::Waiting => {
                let from = if self.keypad_event_ts > timestamp { self.keypad_event_ts } else { timestamp };
                self.keypad_event_ts = self.gen_range_ts(from, READY_MIN_INTERVAL, READY_MAX_INTERVAL);
                self.keypad_io = KeypadIoStatus::Ready;
            },
            KeypadIoStatus::Ready => {
                if timestamp >= self.keypad_event_ts
                    && (timestamp as i64) < self.keypad_event_ts as i64 + READY_START_TIMEOUT as i64 {
                    self.keypad_event_ts = timestamp;
                    self.keypad_io = KeypadIoStatus::Data;
                } else {
                    self.reset_status(timestamp);
                }
            },
            KeypadIoStatus::Data => {
                self.keypad_event_ts = ts_add(timestamp, STOP_STAND_EASY_TIMEOUT);
                self.keypad_io = KeypadIoStatus::Stopped;
                self.next_output_bit();
            },
            KeypadIoStatus::Stopped => {
                if timestamp < self.keypad_event_ts {
                    self.keypad_event_ts = self.gen_range_ts(timestamp, BITLOOP_MIN_INTERVAL, BITLOOP_MAX_INTERVAL);
                    self.keypad_io = KeypadIoStatus::Waiting;
                } else {
                    self.reset_status(timestamp);
                }
            },
        }
    }

    /// Ends the frame at `eof_timestamp`: a protocol that has been waiting for more than
    /// [RESET_MIN_INTERVAL] is reset, and the time of the next event is moved back by the frame.
    pub fn next_frame(&mut self, eof_timestamp: i32)
        ensures
            final(self).spec_keys() == old(self).spec_keys(),
            old(self).spec_io() == KeypadIoStatus::Reset || eof_timestamp - old(self).spec_event_ts() <= RESET_MIN_INTERVAL ==> {
                &&& final(self).spec_io() == old(self).spec_io()
                &&& final(self).spec_event_ts() == spec_ts_sub(old(self).spec_event_ts(), eof_timestamp)
            },
            old(self).spec_io() != KeypadIoStatus::Reset && eof_timestamp - old(self).spec_event_ts() > RESET_MIN_INTERVAL
                ==> final(self).spec_io() == KeypadIoStatus::Reset,
    {
        if self.keypad_io != KeypadIoStatus::Reset {
            if eof_timestamp as i64 - self.keypad_event_ts as i64 > RESET_MIN_INTERVAL as i64 {
                self.reset_status(eof_timestamp);
            }
        }
        let t: i64 = self.keypad_event_ts as i64 - eof_timestamp as i64;
        self.keypad_event_ts = if t > i32::MAX as i64 { i32::MAX } else if t < i32::MIN as i64 { i32::MIN } else { t as i32 };
    }
}

impl Default for SerialKeypad {
    fn default() -> (r: Self)
        ensures
            r.spec_keys().bits == 0,
            r.spec_io() == KeypadIoStatus::Reset,
            r.spec_event_ts() == RESET_MAX_INTERVAL,
    {
        SerialKeypad::new()
    }
}

/// `ts` moved back by `delta`, saturating at the bounds of `i32`.
pub open spec fn spec_ts_sub(ts: i32, delta: i32) -> i32 {
    let t = ts - delta;
    if t > i32::MAX { i32::MAX } else if t < i32::MIN { i32::MIN } else { t as i32 }
}

/// The keypad `after` is `before` with the next row of keys about to be sent: its state, when
/// a key of the row changed since it was last sent, else only the status 0.
/// One bit of the output has been sent between `before` and `after`: the bits left are shifted
/// down, and when no more than the stop bit is left, the next row of keys is loaded: the data
/// of the row where one of its keys changed, or the status telling that none did.
pub open spec fn spec_bit_sent(before: SerialKeypad, after: SerialKeypad) -> bool {
    let bits = before.spec_output_bits() >> 1;
    let row = before.spec_next_row() % 5;
    let shift = 4 * row;
    let row_mask = (0xFu32 << shift) as u32;
    &&& after.spec_keys() == before.spec_keys()
    &&& if bits & 0xFE != 0 {
        &&& after.spec_output_bits() == bits
        &&& after.spec_next_row() == before.spec_next_row()
        &&& after.spec_keys_changed() == before.spec_keys_changed()
    } else {
        &&& after.spec_next_row() == row + 1
        &&& if before.spec_keys_changed() & row_mask == 0 {
            &&& after.spec_output_bits() == STATUS0_ROW_DATA
            &&& after.spec_keys_changed() == before.spec_keys_changed()
        } else {
            &&& after.spec_output_bits() == spec_row_bits(((before.spec_keys().bits >> shift) & 0xFF) as u8)
            &&& after.spec_keys_changed() == before.spec_keys_changed() & !row_mask
        }
    }
}

spec fn spec_next_output_data(before: SerialKeypad, after: SerialKeypad) -> bool {
    let row = before.next_row % 5;
    let shift = 4 * row;
    let row_mask = (0xFu32 << shift) as u32;
    &&& after.next_row == row + 1
    &&& after.keys == before.keys
    &&& after.keypad_io == before.keypad_io
    &&& after.keypad_event_ts == before.keypad_event_ts
    &&& if before.keys_changed & row_mask == 0 {
        after.output_bits == STATUS0_ROW_DATA && after.keys_changed == before.keys_changed
    } else {
        &&& after.output_bits == spec_row_bits(((before.keys.bits >> shift) & 0xFF) as u8)
        &&& after.keys_changed == before.keys_changed & !row_mask
    }
}

} // verus!
