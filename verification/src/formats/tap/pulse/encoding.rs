//! Encoding of tape data as T-state pulse intervals.
use vstd::prelude::*;

use super::consts::{
    LEAD_PULSE_LENGTH, LEAD_PULSES_DATA, LEAD_PULSES_HEAD, ONE_PULSE_LENGTH, SYNC_PULSE1_LENGTH,
    SYNC_PULSE2_LENGTH, ZERO_PULSE_LENGTH,
};
use crate::formats::stream::{read_byte, ByteRead};

verus! {

/// The current state of the [ReadEncPulseIter].
#[derive(Debug)]
pub enum PulseIterState {
    /// Emitting lead pulses.
    Lead {
        /// How many pulses left to the end of this lead.
        countdown: u16,
    },
    /// Emitting the 1st sync pulse.
    Sync1,
    /// Emitting the 2nd sync pulse.
    Sync2,
    /// Emitting data pulses.
    Data {
        /// A current byte.
        /// The highest bit determines the last (`pulse` is odd) or next (`pulse` is even) pulse being emitted.
        current: u8,
        /// A pulse counter for the current byte.
        /// There are two pulses per each bit (16 pulses per byte).
        pulse: u8,
    },
    /// Emitting is done.
    Done,
    /// There was an error from an underlying reader.
    Error(std::io::Error),
}

/// The number of lead pulses announcing a block that begins with the `flag` byte:
/// header blocks (flag below 128) get a longer lead than data blocks.
pub open spec fn spec_lead_count(flag: u8) -> u16 {
    if flag < 0x80 {
        LEAD_PULSES_HEAD
    } else {
        LEAD_PULSES_DATA
    }
}

/// The length of the pulse that carries the highest bit of `current`.
pub open spec fn spec_bit_pulse(current: u8) -> u32 {
    if current >= 0x80 {
        ONE_PULSE_LENGTH
    } else {
        ZERO_PULSE_LENGTH
    }
}

/// `current` rotated left by one bit.
pub open spec fn spec_rotl1(current: u8) -> u8 {
    (current << 1) | (current >> 7)
}

/// The number of pulses left to emit from `state` before the next byte has to be read.
pub open spec fn spec_remaining(state: PulseIterState) -> nat {
    match state {
        PulseIterState::Lead { countdown } => countdown as nat + 18,
        PulseIterState::Sync1 => 18,
        PulseIterState::Sync2 => 17,
        PulseIterState::Data { pulse, .. } => if pulse <= 16 { (16 - pulse) as nat } else { 0 },
        _ => 0,
    }
}

/// The pulses emitted from `state` with the block's `flag`, when the reader delivers the
/// bytes of `rest` and then reports its end.
pub open spec fn spec_pulses(state: PulseIterState, flag: u8, rest: Seq<u8>) -> Seq<u32>
    decreases rest.len(), spec_remaining(state),
{
    match state.spec_pulse(flag) {
        None => Seq::empty(),
        Some(p) => if state.spec_needs_byte() {
            if rest.len() == 0 {
                seq![p]
            } else {
                seq![p] + spec_pulses(
                    PulseIterState::Data { current: rest[0], pulse: 0 },
                    flag,
                    rest.drop_first(),
                )
            }
        } else if state.spec_wf() {
            seq![p] + spec_pulses(state.spec_step(flag), flag, rest)
        } else {
            seq![p]
        },
    }
}

/// The pulses encoding a whole `block`: its first byte is the flag byte.
pub open spec fn spec_block_pulses(block: Seq<u8>) -> Seq<u32>
    recommends
        block.len() > 0,
{
    spec_pulses(
        PulseIterState::Lead { countdown: spec_lead_count(block[0]) },
        block[0],
        block.drop_first(),
    )
}

impl PulseIterState {
    /// The counters stay within the ranges that the encoder runs through.
    pub open spec fn spec_wf(&self) -> bool {
        match *self {
            PulseIterState::Lead { countdown } => countdown >= 1,
            PulseIterState::Data { pulse, .. } => pulse <= 15,
            _ => true,
        }
    }

    /// The pulse emitted in this state, `None` once the encoding has stopped.
    pub open spec fn spec_pulse(&self, flag: u8) -> Option<u32> {
        match *self {
            PulseIterState::Lead { .. } => Some(LEAD_PULSE_LENGTH),
            PulseIterState::Sync1 => Some(SYNC_PULSE1_LENGTH),
            PulseIterState::Sync2 => Some(SYNC_PULSE2_LENGTH),
            PulseIterState::Data { current, .. } => Some(spec_bit_pulse(current)),
            _ => None,
        }
    }

    /// The pulse emitted in this state is the last one of a byte: the next byte has to be read.
    pub open spec fn spec_needs_byte(&self) -> bool {
        match *self {
            PulseIterState::Data { pulse, .. } => pulse == 15,
            _ => false,
        }
    }

    /// The state that follows this one when no byte has to be read.
    pub open spec fn spec_step(&self, flag: u8) -> PulseIterState {
        match *self {
            PulseIterState::Lead { countdown } => if countdown <= 1 {
                PulseIterState::Sync1
            } else {
                PulseIterState::Lead { countdown: (countdown - 1) as u16 }
            },
            PulseIterState::Sync1 => PulseIterState::Sync2,
            PulseIterState::Sync2 => PulseIterState::Data { current: flag, pulse: 0 },
            PulseIterState::Data { current, pulse } => PulseIterState::Data {
                current: if pulse % 2 == 1 { spec_rotl1(current) } else { current },
                pulse: (pulse + 1) as u8,
            },
            PulseIterState::Done => PulseIterState::Done,
            PulseIterState::Error(e) => PulseIterState::Error(e),
        }
    }

    /// The state after `res` was read as the next data byte.
    pub open spec fn spec_data_from(res: ByteRead) -> PulseIterState {
        match res {
            ByteRead::Byte(current) => PulseIterState::Data { current, pulse: 0 },
            ByteRead::End => PulseIterState::Done,
            ByteRead::Failed(e) => PulseIterState::Error(e),
        }
    }

    /// The flag and the state after `res` was read as the flag byte of a block.
    pub open spec fn spec_lead_from(res: ByteRead) -> (u8, PulseIterState) {
        match res {
            ByteRead::Byte(flag) => (flag, PulseIterState::Lead { countdown: spec_lead_count(flag) }),
            ByteRead::End => (0, PulseIterState::Done),
            ByteRead::Failed(e) => (0, PulseIterState::Error(e)),
        }
    }

    /// The state is one that reading a data byte can give, whatever the reader delivered.
    pub open spec fn spec_is_data_read(&self) -> bool {
        match *self {
            PulseIterState::Data { pulse, .. } => pulse == 0,
            PulseIterState::Done => true,
            PulseIterState::Error(_) => true,
            _ => false,
        }
    }

    /// The flag and the state are ones that reading a flag byte can give, whatever the reader delivered.
    pub open spec fn spec_is_flag_read(&self, flag: u8) -> bool {
        match *self {
            PulseIterState::Lead { countdown } => countdown == spec_lead_count(flag),
            PulseIterState::Done => flag == 0,
            PulseIterState::Error(_) => flag == 0,
            _ => false,
        }
    }

    /// Returns the state after `res` was read as the next data byte.
    pub fn data_from_read(res: ByteRead) -> (r: PulseIterState)
        ensures
            r == Self::spec_data_from(res),
            r.spec_wf(),
            r.spec_is_data_read(),
    {
        match res {
            ByteRead::Byte(current) => PulseIterState::Data { current, pulse: 0 },
            ByteRead::End => PulseIterState::Done,
            ByteRead::Failed(e) => PulseIterState::Error(e),
        }
    }

    /// Returns the flag and the state after `res` was read as the flag byte of a block.
    pub fn lead_from_read(res: ByteRead) -> (r: (u8, PulseIterState))
        ensures
            r == Self::spec_lead_from(res),
            r.1.spec_wf(),
            r.1.spec_is_flag_read(r.0),
    {
        match res {
            ByteRead::Byte(flag) => {
                let countdown = if flag < 0x80 {
                    LEAD_PULSES_HEAD
                } else {
                    LEAD_PULSES_DATA
                };
                (flag, PulseIterState::Lead { countdown })
            },
            ByteRead::End => (0, PulseIterState::Done),
            ByteRead::Failed(e) => (0, PulseIterState::Error(e)),
        }
    }

    /// Returns an error from the underlying reader if there was one.
    pub fn err(&self) -> (r: Option<&std::io::Error>)
        ensures
            match *self {
                PulseIterState::Error(e) => r == Some(&e),
                _ => r is None,
            },
    {
        match self {
            PulseIterState::Error(error) => Some(error),
            _ => None,
        }
    }

    /// Returns `true` if there are no more pulses to emit or there
    /// was an error while reading bytes.
    pub fn is_done(&self) -> (r: bool)
        ensures
            r == (*self is Done || *self is Error),
    {
        match self {
            PulseIterState::Done => true,
            PulseIterState::Error(_) => true,
            _ => false,
        }
    }

    /// Returns `true` if emitting lead pulses.
    pub fn is_lead(&self) -> (r: bool)
        ensures
            r == (*self is Lead),
    {
        match self {
            PulseIterState::Lead { .. } => true,
            _ => false,
        }
    }

    /// Returns `true` if emitting data pulses.
    pub fn is_data(&self) -> (r: bool)
        ensures
            r == (*self is Data),
    {
        match self {
            PulseIterState::Data { .. } => true,
            _ => false,
        }
    }

    /// Returns `true` if emitting sync1 pulse.
    pub fn is_sync1(&self) -> (r: bool)
        ensures
            r == (*self is Sync1),
    {
        match self {
            PulseIterState::Sync1 => true,
            _ => false,
        }
    }

    /// Returns `true` if emitting sync2 pulse.
    pub fn is_sync2(&self) -> (r: bool)
        ensures
            r == (*self is Sync2),
    {
        match self {
            PulseIterState::Sync2 => true,
            _ => false,
        }
    }
}

/// Encodes data read from an underlying reader as *TAPE* T-state pulse intervals.
///
/// The timing of the pulses matches those expected by ZX Spectrum's ROM loading routines.
///
/// After invoking [ReadEncPulseIter::reset] or [ReadEncPulseIter::new] the first byte is read and checked
/// to determine the duration of the *LEAD PULSE* signal. If it's less than 128 the number of
/// generated lead pulses is `LEAD_PULSES_HEAD`. Otherwise, it's `LEAD_PULSES_DATA`.
///
/// After the lead pulses, two synchronization pulses are being emitted following by data pulses
/// for each byte read including the initial flag byte.
///
/// Pulses are pulled one at a time with [ReadEncPulseIter::next].
#[derive(Debug)]
pub struct ReadEncPulseIter<R> {
    rd: R,
    state: PulseIterState,
    flag: u8,
}

impl<R> ReadEncPulseIter<R> {
    /// The current state.
    pub closed spec fn spec_state(&self) -> PulseIterState {
        self.state
    }

    /// The flag byte of the block being encoded.
    pub closed spec fn spec_flag(&self) -> u8 {
        self.flag
    }

    /// The underlying reader.
    pub closed spec fn spec_reader(&self) -> R {
        self.rd
    }

    /// The state is one the encoder can run from.
    pub open spec fn spec_wf(&self) -> bool {
        self.spec_state().spec_wf()
    }

    /// Returns a reference to the current state.
    pub fn state(&self) -> (r: &PulseIterState)
        ensures
            *r == self.spec_state(),
    {
        &self.state
    }

    /// Returns a flag byte.
    pub fn flag(&self) -> (r: u8)
        ensures
            r == self.spec_flag(),
    {
        self.flag
    }

    /// Returns an error from the underlying reader if there was one.
    pub fn err(&self) -> (r: Option<&std::io::Error>)
        ensures
            match self.spec_state() {
                PulseIterState::Error(e) => r == Some(&e),
                _ => r is None,
            },
    {
        self.state.err()
    }

    /// Returns `true` if there are no more pulses to emit or there
    /// was an error while bytes were read.
    pub fn is_done(&self) -> (r: bool)
        ensures
            r == (self.spec_state() is Done || self.spec_state() is Error),
    {
        self.state.is_done()
    }

    /// Returns a mutable reference to the inner reader.
    pub fn get_mut(&mut self) -> (r: &mut R)
        ensures
            *r == old(self).spec_reader(),
            final(self).spec_reader() == *final(r),
            final(self).spec_state() == old(self).spec_state(),
            final(self).spec_flag() == old(self).spec_flag(),
    {
        &mut self.rd
    }

    /// Returns a shared reference to the inner reader.
    pub fn get_ref(&self) -> (r: &R)
        ensures
            *r == self.spec_reader(),
    {
        &self.rd
    }

    /// Returns the underlying reader.
    pub fn into_inner(self) -> (r: R)
        ensures
            r == self.spec_reader(),
    {
        self.rd
    }

    /// Allows to manually assign a `state` and a `flag`.
    /// Can be used to deserialize ReadEncPulseIter.
    pub fn with_state_and_flag(self, state: PulseIterState, flag: u8) -> (r: Self)
        requires
            state.spec_wf(),
        ensures
            r.spec_state() == state,
            r.spec_flag() == flag,
            r.spec_reader() == self.spec_reader(),
    {
        ReadEncPulseIter { rd: self.rd, state, flag }
    }
}

impl<R: std::io::Read> ReadEncPulseIter<R> {
    /// Creates a new `ReadEncPulseIter` from a given reader, reading its flag byte.
    pub fn new(rd: R) -> (r: Self)
        ensures
            r.spec_wf(),
            r.spec_state().spec_is_flag_read(r.spec_flag()),
    {
        let mut epi = ReadEncPulseIter { rd, state: PulseIterState::Done, flag: 0 };
        epi.reset();
        epi
    }

    /// Resets the state of the iterator.
    ///
    /// The next byte read from the inner reader is interpreted as a flag byte to determine
    /// the number of lead pulses. In this instance the `state` becomes [PulseIterState::Lead].
    ///
    /// If there are no more bytes to be read the `state` becomes [PulseIterState::Done].
    ///
    /// In case of an error while reading from the underlying reader the `state` becomes [PulseIterState::Error].
    pub fn reset(&mut self)
        ensures
            final(self).spec_wf(),
            final(self).spec_state().spec_is_flag_read(final(self).spec_flag()),
    {
        let res = read_byte(&mut self.rd);
        let (flag, state) = PulseIterState::lead_from_read(res);
        self.flag = flag;
        self.state = state;
    }

    /// Attempts to set the state of the iterator as [PulseIterState::Data] from the next byte.
    ///
    /// The next byte read from the inner reader is interpreted as a data byte.
    /// In this instance, the `state` becomes [PulseIterState::Data].
    ///
    /// If there are no more bytes to be read the `state` becomes [PulseIterState::Done].
    ///
    /// In case of an error while reading from the underlying reader the `state` becomes [PulseIterState::Error].
    pub fn data_from_next(&mut self)
        ensures
            final(self).spec_wf(),
            final(self).spec_state().spec_is_data_read(),
            final(self).spec_flag() == old(self).spec_flag(),
    {
        let res = read_byte(&mut self.rd);
        self.state = PulseIterState::data_from_read(res);
    }

    /// Returns the length of the next pulse in T-states, or `None` when there are no more pulses.
    pub fn next(&mut self) -> (r: Option<u32>)
        requires
            old(self).spec_wf(),
        ensures
            final(self).spec_wf(),
            final(self).spec_flag() == old(self).spec_flag(),
            r == old(self).spec_state().spec_pulse(old(self).spec_flag()),
            old(self).spec_state().spec_needs_byte() ==> final(self).spec_state().spec_is_data_read(),
            !old(self).spec_state().spec_needs_byte() ==> final(self).spec_state()
                == old(self).spec_state().spec_step(old(self).spec_flag()) && final(self).spec_reader()
                == old(self).spec_reader(),
    {
        match self.state {
            PulseIterState::Lead { countdown } => {
                if countdown <= 1 {
                    self.state = PulseIterState::Sync1;
                } else {
                    self.state = PulseIterState::Lead { countdown: countdown - 1 };
                }
                Some(LEAD_PULSE_LENGTH)
            },
            PulseIterState::Sync1 => {
                self.state = PulseIterState::Sync2;
                Some(SYNC_PULSE1_LENGTH)
            },
            PulseIterState::Sync2 => {
                self.state = PulseIterState::Data { current: self.flag, pulse: 0 };
                Some(SYNC_PULSE2_LENGTH)
            },
            PulseIterState::Data { current, pulse } => {
                let bit_one: bool = current >= 0x80;
                if pulse == 15 {
                    self.data_from_next();
                } else {
                    let current = if pulse % 2 == 1 {
                        (current << 1) | (current >> 7)
                    } else {
                        current
                    };
                    self.state = PulseIterState::Data { current, pulse: pulse + 1 };
                }
                Some(
                    if bit_one {
                        ONE_PULSE_LENGTH
                    } else {
                        ZERO_PULSE_LENGTH
                    },
                )
            },
            _ => None,
        }
    }
}

} // verus!
