//! Decoding of T-state pulse intervals into tape data.
use vstd::prelude::*;

use super::consts::{
    LEAD_PULSE_LENGTH, ONE_PULSE_LENGTH, SYNC_PULSE1_LENGTH, SYNC_PULSE2_LENGTH, ZERO_PULSE_LENGTH,
};
use crate::formats::stream::write_all;

verus! {

/// Half the difference between the two sync pulses.
pub const SYNC_PULSE_TOLERANCE: u32 = (SYNC_PULSE2_LENGTH - SYNC_PULSE1_LENGTH) / 2;
/// The shortest pulse taken for the 1st sync pulse.
pub const SYNC_PULSE1_MIN: u32 = SYNC_PULSE1_LENGTH - SYNC_PULSE_TOLERANCE;
/// The longest pulse taken for the 1st sync pulse.
pub const SYNC_PULSE1_MAX: u32 = SYNC_PULSE1_LENGTH + SYNC_PULSE_TOLERANCE - 1;
/// The shortest pulse taken for the 2nd sync pulse.
pub const SYNC_PULSE2_MIN: u32 = SYNC_PULSE2_LENGTH - SYNC_PULSE_TOLERANCE;
/// The longest pulse taken for the 2nd sync pulse.
pub const SYNC_PULSE2_MAX: u32 = SYNC_PULSE2_LENGTH + SYNC_PULSE_TOLERANCE - 1;
/// How far a lead pulse may be off its length.
pub const LEAD_PULSE_TOLERANCE: u32 = 250;
/// The shortest pulse taken for a lead pulse.
pub const LEAD_PULSE_MIN: u32 = LEAD_PULSE_LENGTH - LEAD_PULSE_TOLERANCE;
/// The longest pulse taken for a lead pulse.
pub const LEAD_PULSE_MAX: u32 = LEAD_PULSE_LENGTH + LEAD_PULSE_TOLERANCE - 1;
/// How far a data pulse may be off its length.
pub const DATA_PULSE_TOLERANCE: u32 = 250;
/// The shortest pulse taken for a data pulse.
pub const DATA_PULSE_MIN: u32 = ZERO_PULSE_LENGTH - DATA_PULSE_TOLERANCE;
/// The longest pulse taken for a data pulse.
pub const DATA_PULSE_MAX: u32 = ONE_PULSE_LENGTH + DATA_PULSE_TOLERANCE - 1;
/// Data pulses longer than this carry the bit value 1.
pub const DATA_PULSE_THRESHOLD: u32 = (ZERO_PULSE_LENGTH + ONE_PULSE_LENGTH) / 2;
/// The number of lead pulses needed before a sync pulse is accepted.
pub const MIN_LEAD_COUNT: u32 = 16;

/// The current state of the [PulseDecodeWriter].
#[derive(Clone, Copy, Debug, PartialEq, Eq, Structural)]
pub enum PulseDecodeState {
    /// Initial state, waiting for lead pulses.
    Idle,
    /// Receiving lead pulses.
    Lead { counter: u32 },
    /// Received the 1st sync pulse.
    Sync1,
    /// Received the 2nd sync pulse.
    Sync2,
    /// Receiving data pulses.
    Data {
        /// A data byte being received currently.
        current: u8,
        /// A pulse counter for the current byte.
        pulse: u8,
        /// How many bytes written.
        written: u32,
    },
}

/// `delta` is taken for a lead pulse.
pub open spec fn spec_is_lead(delta: u32) -> bool {
    LEAD_PULSE_MIN <= delta <= LEAD_PULSE_MAX
}

/// `delta` is taken for the 1st sync pulse.
pub open spec fn spec_is_sync1(delta: u32) -> bool {
    SYNC_PULSE1_MIN <= delta <= SYNC_PULSE1_MAX
}

/// `delta` is taken for the 2nd sync pulse.
pub open spec fn spec_is_sync2(delta: u32) -> bool {
    SYNC_PULSE2_MIN <= delta <= SYNC_PULSE2_MAX
}

/// `delta` is taken for a data pulse.
pub open spec fn spec_is_data(delta: u32) -> bool {
    DATA_PULSE_MIN <= delta <= DATA_PULSE_MAX
}

/// The bit value carried by the data pulse `delta`.
pub open spec fn spec_data_bit(delta: u32) -> u8 {
    if delta > DATA_PULSE_THRESHOLD {
        1
    } else {
        0
    }
}

/// `current` shifted left by `n` bits, the bits shifted out of the byte dropped.
pub open spec fn spec_shl(current: u8, n: nat) -> u8
    decreases n,
{
    if n == 0 {
        current
    } else {
        ((spec_shl(current, (n - 1) as nat) as int * 2) % 256) as u8
    }
}

impl PulseDecodeState {
    /// The counters stay within the ranges that the decoder runs through.
    pub open spec fn spec_wf(&self) -> bool {
        match *self {
            PulseDecodeState::Data { pulse, written, .. } => pulse <= 15
                && self.spec_potential() <= 16 * u32::MAX,
            _ => true,
        }
    }

    /// Grows by at most one with each pulse: sixteen per byte received.
    pub open spec fn spec_potential(&self) -> int {
        match *self {
            PulseDecodeState::Data { pulse, written, .. } => written * 16 + pulse,
            _ => 0,
        }
    }

    /// The pulse `delta` breaks off the data transfer in progress.
    pub open spec fn spec_stops(&self, delta: u32) -> bool {
        match *self {
            PulseDecodeState::Data { current, pulse, .. } => !spec_is_data(delta) || (pulse % 2 == 1
                && current % 2 != spec_data_bit(delta)),
            _ => false,
        }
    }

    /// The state after the pulse `delta`, when it does not break off the transfer.
    pub open spec fn spec_next(&self, delta: u32) -> PulseDecodeState {
        match *self {
            PulseDecodeState::Idle => if spec_is_lead(delta) {
                PulseDecodeState::Lead { counter: 1 }
            } else {
                PulseDecodeState::Idle
            },
            PulseDecodeState::Lead { counter } => if spec_is_sync1(delta) && counter
                >= MIN_LEAD_COUNT {
                PulseDecodeState::Sync1
            } else if spec_is_lead(delta) {
                PulseDecodeState::Lead {
                    counter: if counter == u32::MAX {
                        counter
                    } else {
                        (counter + 1) as u32
                    },
                }
            } else {
                PulseDecodeState::Idle
            },
            PulseDecodeState::Sync1 => if spec_is_sync2(delta) {
                PulseDecodeState::Sync2
            } else {
                PulseDecodeState::Idle
            },
            PulseDecodeState::Sync2 => if spec_is_data(delta) {
                PulseDecodeState::Data { current: spec_data_bit(delta), pulse: 1, written: 0 }
            } else {
                PulseDecodeState::Idle
            },
            PulseDecodeState::Data { current, pulse, written } => if pulse % 2 == 1 {
                if pulse == 15 {
                    PulseDecodeState::Data { current: 0, pulse: 0, written: (written + 1) as u32 }
                } else {
                    PulseDecodeState::Data { current, pulse: (pulse + 1) as u8, written }
                }
            } else {
                PulseDecodeState::Data {
                    current: (current << 1) | spec_data_bit(delta),
                    pulse: (pulse + 1) as u8,
                    written,
                }
            },
        }
    }

    /// The byte completed by the pulse `delta`, when it does not break off the transfer.
    pub open spec fn spec_emits(&self, delta: u32) -> Seq<u8> {
        match *self {
            PulseDecodeState::Data { current, pulse, .. } => if pulse == 15 {
                seq![current]
            } else {
                Seq::empty()
            },
            _ => Seq::empty(),
        }
    }

    /// What ending the transfer in this state writes (a partially received byte, padded
    /// with zero bits) and the number of bytes of the transfer it reports.
    pub open spec fn spec_end(&self) -> (Seq<u8>, Option<u32>) {
        match *self {
            PulseDecodeState::Data { current, pulse, written } => if pulse <= 1 {
                (Seq::empty(), if written == 0 { None } else { Some(written) })
            } else {
                let c: u8 = if pulse % 2 == 1 { (current - current % 2) as u8 } else { current };
                (seq![spec_shl(c, ((16 - pulse) / 2) as nat)], Some((written + 1) as u32))
            },
            _ => (Seq::empty(), None),
        }
    }

    /// Decoding `pulses` from this state: the state reached, the bytes written and the
    /// result reported when a pulse breaks off the transfer (`None` when all pulses were taken).
    pub open spec fn spec_decode(&self, pulses: Seq<u32>) -> (PulseDecodeState, Seq<u8>, Option<u32>)
        decreases pulses.len(),
    {
        if pulses.len() == 0 {
            (*self, Seq::empty(), None)
        } else if self.spec_stops(pulses[0]) {
            (PulseDecodeState::Idle, self.spec_end().0, self.spec_end().1)
        } else {
            let rest = self.spec_next(pulses[0]).spec_decode(pulses.drop_first());
            (rest.0, self.spec_emits(pulses[0]) + rest.1, rest.2)
        }
    }

    /// The number of bytes received so far in the data transfer in progress, if any.
    pub open spec fn spec_data_size(&self) -> Option<u32> {
        match *self {
            PulseDecodeState::Data { written, .. } => if written == 0 {
                None
            } else {
                Some(written)
            },
            _ => None,
        }
    }

    /// Returns `true` if the state is [PulseDecodeState::Idle].
    pub fn is_idle(&self) -> (r: bool)
        ensures
            r == (*self is Idle),
    {
        match self {
            PulseDecodeState::Idle => true,
            _ => false,
        }
    }

    /// Returns `true` if receiving lead pulses.
    pub fn is_lead(&self) -> (r: bool)
        ensures
            r == (*self is Lead),
    {
        match self {
            PulseDecodeState::Lead { .. } => true,
            _ => false,
        }
    }

    /// Returns `true` if receiving data pulses.
    pub fn is_data(&self) -> (r: bool)
        ensures
            r == (*self is Data),
    {
        match self {
            PulseDecodeState::Data { .. } => true,
            _ => false,
        }
    }

    /// Returns `true` if received sync1 pulse.
    pub fn is_sync1(&self) -> (r: bool)
        ensures
            r == (*self is Sync1),
    {
        match self {
            PulseDecodeState::Sync1 => true,
            _ => false,
        }
    }

    /// Returns `true` if received sync2 pulse.
    pub fn is_sync2(&self) -> (r: bool)
        ensures
            r == (*self is Sync2),
    {
        match self {
            PulseDecodeState::Sync2 => true,
            _ => false,
        }
    }

    /// Returns what ending the transfer in this state writes and the number of bytes it reports.
    pub fn end_data(&self) -> (r: (Option<u8>, Option<u32>))
        requires
            self.spec_wf(),
        ensures
            r.1 == self.spec_end().1,
            self.spec_end().0 == (match r.0 {
                Some(b) => seq![b],
                None => Seq::<u8>::empty(),
            }),
    {
        match *self {
            PulseDecodeState::Data { current, pulse, written } => {
                if pulse <= 1 {
                    (None, if written == 0 { None } else { Some(written) })
                } else {
                    let c: u8 = if pulse % 2 == 1 { current - current % 2 } else { current };
                    let n: u8 = (16 - pulse) / 2;
                    let mut b: u8 = c;
                    let mut k: u8 = 0;
                    while k < n
                        invariant
                            k <= n,
                            b == spec_shl(c, k as nat),
                        decreases n - k,
                    {
                        b = ((b as u16 * 2) % 256) as u8;
                        k = k + 1;
                    }
                    (Some(b), Some(written + 1))
                }
            },
            _ => (None, None),
        }
    }

    /// Decodes `pulses` from this state, returning the state reached, the bytes to be written,
    /// and the number of bytes of the transfer when a pulse has broken it off.
    ///
    /// Decoding stops at the first pulse that breaks off a data transfer in progress;
    /// the pulses after it are not looked at.
    pub fn decode(&self, pulses: &[u32]) -> (r: (PulseDecodeState, Vec<u8>, Option<u32>))
        requires
            self.spec_wf(),
            self.spec_potential() + pulses@.len() <= 16 * u32::MAX,
        ensures
            r.0 == self.spec_decode(pulses@).0,
            r.1@ == self.spec_decode(pulses@).1,
            r.2 == self.spec_decode(pulses@).2,
            r.0.spec_wf(),
    {
        let mut state: PulseDecodeState = *self;
        let mut out: Vec<u8> = Vec::new();
        let mut i: usize = 0;
        proof {
            assert(pulses@.skip(0) =~= pulses@);
            assert(out@ + self.spec_decode(pulses@).1 =~= self.spec_decode(pulses@).1);
        }
        while i < pulses.len()
            invariant
                i <= pulses@.len(),
                state.spec_wf(),
                state.spec_potential() <= self.spec_potential() + i,
                self.spec_potential() + pulses@.len() <= 16 * u32::MAX,
                self.spec_decode(pulses@).0 == state.spec_decode(pulses@.skip(i as int)).0,
                self.spec_decode(pulses@).1 == out@ + state.spec_decode(pulses@.skip(i as int)).1,
                self.spec_decode(pulses@).2 == state.spec_decode(pulses@.skip(i as int)).2,
            decreases pulses@.len() - i,
        {
            let delta: u32 = pulses[i];
            let ghost rest = pulses@.skip(i as int);
            proof {
                assert(rest[0] == delta);
                assert(rest.drop_first() =~= pulses@.skip(i + 1));
            }
            match state {
                PulseDecodeState::Idle => {
                    if LEAD_PULSE_MIN <= delta && delta <= LEAD_PULSE_MAX {
                        state = PulseDecodeState::Lead { counter: 1 };
                    }
                },
                PulseDecodeState::Lead { counter } => {
                    if SYNC_PULSE1_MIN <= delta && delta <= SYNC_PULSE1_MAX && counter
                        >= MIN_LEAD_COUNT {
                        state = PulseDecodeState::Sync1;
                    } else if LEAD_PULSE_MIN <= delta && delta <= LEAD_PULSE_MAX {
                        state = PulseDecodeState::Lead { counter: counter.saturating_add(1) };
                    } else {
                        state = PulseDecodeState::Idle;
                    }
                },
                PulseDecodeState::Sync1 => {
                    if SYNC_PULSE2_MIN <= delta && delta <= SYNC_PULSE2_MAX {
                        state = PulseDecodeState::Sync2;
                    } else {
                        state = PulseDecodeState::Idle;
                    }
                },
                PulseDecodeState::Sync2 => {
                    if DATA_PULSE_MIN <= delta && delta <= DATA_PULSE_MAX {
                        let current: u8 = if delta > DATA_PULSE_THRESHOLD { 1 } else { 0 };
                        state = PulseDecodeState::Data { current, pulse: 1, written: 0 };
                    } else {
                        state = PulseDecodeState::Idle;
                    }
                },
                PulseDecodeState::Data { current, pulse, written } => {
                    if DATA_PULSE_MIN <= delta && delta <= DATA_PULSE_MAX {
                        let bit: u8 = if delta > DATA_PULSE_THRESHOLD { 1 } else { 0 };
                        if pulse % 2 == 1 {
                            if current % 2 != bit {
                                let (b, size) = state.end_data();
                                match b {
                                    Some(b) => out.push(b),
                                    None => {},
                                }
                                return (PulseDecodeState::Idle, out, size);
                            }
                            if pulse == 15 {
                                out.push(current);
                                state = PulseDecodeState::Data { current: 0, pulse: 0, written: written + 1 };
                            } else {
                                state = PulseDecodeState::Data { current, pulse: pulse + 1, written };
                            }
                        } else {
                            let current: u8 = (current << 1) | bit;
                            state = PulseDecodeState::Data { current, pulse: pulse + 1, written };
                        }
                    } else {
                        let (b, size) = state.end_data();
                        match b {
                            Some(b) => out.push(b),
                            None => {},
                        }
                        return (PulseDecodeState::Idle, out, size);
                    }
                },
            }
            i = i + 1;
        }
        proof {
            assert(pulses@.skip(i as int).len() == 0);
        }
        (state, out, None)
    }
}

/// Provides a decoder of *TAPE* T-state pulse intervals.
///
/// The timing of the pulses should match those produced by ZX Spectrum's ROM loading routines.
///
/// After invoking [PulseDecodeWriter::end] or [PulseDecodeWriter::new] [PulseDecodeWriter] expects
/// a data transfer which consists of:
///
/// * lead pulses followed by
/// * two synchronization pulses followed by
/// * data pulses
///
/// Provide pulses to [PulseDecodeWriter::write_decoded_pulses] method to write interpreted data
/// to the underlying writer.
#[derive(Debug)]
pub struct PulseDecodeWriter<W> {
    state: PulseDecodeState,
    wr: W,
}

impl<W> PulseDecodeWriter<W> {
    /// The current state.
    pub closed spec fn spec_state(&self) -> PulseDecodeState {
        self.state
    }

    /// The underlying writer.
    pub closed spec fn spec_writer(&self) -> W {
        self.wr
    }

    /// Resets the state of the [PulseDecodeWriter] to `Idle`, discarding any partially received byte.
    ///
    /// The information about the number of bytes written so far is lost.
    pub fn reset(&mut self)
        ensures
            final(self).spec_state() == PulseDecodeState::Idle,
            final(self).spec_writer() == old(self).spec_writer(),
    {
        self.state = PulseDecodeState::Idle;
    }

    /// Returns `true` if the state is [PulseDecodeState::Idle].
    pub fn is_idle(&self) -> (r: bool)
        ensures
            r == (self.spec_state() is Idle),
    {
        self.state.is_idle()
    }

    /// Returns the underlying writer.
    pub fn into_inner(self) -> (r: W)
        ensures
            r == self.spec_writer(),
    {
        self.wr
    }

    /// Returns the current state.
    pub fn state(&self) -> (r: PulseDecodeState)
        ensures
            r == self.spec_state(),
    {
        self.state
    }

    /// Returns a mutable reference to the inner writer.
    pub fn get_mut(&mut self) -> (r: &mut W)
        ensures
            *r == old(self).spec_writer(),
            final(self).spec_writer() == *final(r),
            final(self).spec_state() == old(self).spec_state(),
    {
        &mut self.wr
    }

    /// Returns a shared reference to the inner writer.
    pub fn get_ref(&self) -> (r: &W)
        ensures
            *r == self.spec_writer(),
    {
        &self.wr
    }

    /// Returns a number of bytes written during current data transfer
    /// if a data transfer is in progress.
    pub fn data_size(&self) -> (r: Option<u32>)
        ensures
            r == self.spec_state().spec_data_size(),
    {
        match self.state {
            PulseDecodeState::Data { written, .. } => if written == 0 {
                None
            } else {
                Some(written)
            },
            _ => None,
        }
    }

    /// Allows to manually assign `state`.
    /// Can be used to deserialize PulseDecodeWriter.
    pub fn with_state(self, state: PulseDecodeState) -> (r: Self)
        requires
            state.spec_wf(),
        ensures
            r.spec_state() == state,
            r.spec_writer() == self.spec_writer(),
    {
        PulseDecodeWriter { state, wr: self.wr }
    }
}

impl<W: std::io::Write> PulseDecodeWriter<W> {
    /// The state is one the decoder can run from.
    pub open spec fn spec_wf(&self) -> bool {
        self.spec_state().spec_wf()
    }

    /// Creates a new `PulseDecodeWriter` from a given writer.
    pub fn new(wr: W) -> (r: Self)
        ensures
            r.spec_state() == PulseDecodeState::Idle,
            r.spec_writer() == wr,
    {
        PulseDecodeWriter { state: PulseDecodeState::Idle, wr }
    }

    /// Optionally writes a partially received data byte and ensures the state of [PulseDecodeWriter] is `Idle`.
    ///
    /// After calling this method, regardless of the return value, the state is changed to [PulseDecodeState::Idle].
    ///
    /// Returns `Ok(None)` if there was no data written in the current transfer.
    ///
    /// Returns `Ok(Some(size))` if data has been written, providing the number of written bytes.
    ///
    /// In the case of [std::io::Error] the information about the number of bytes written is lost.
    pub fn end(&mut self) -> (r: Result<Option<u32>, std::io::Error>)
        requires
            old(self).spec_wf(),
        ensures
            final(self).spec_state() == PulseDecodeState::Idle,
            old(self).spec_state().spec_end().0.len() == 0 ==> r == Ok::<Option<u32>, std::io::Error>(
                old(self).spec_state().spec_end().1,
            ),
            r is Ok ==> r == Ok::<Option<u32>, std::io::Error>(old(self).spec_state().spec_end().1),
    {
        let (b, size) = self.state.end_data();
        self.state = PulseDecodeState::Idle;
        match b {
            Some(b) => {
                let buf: [u8; 1] = [b];
                match write_all(&mut self.wr, &buf) {
                    Ok(()) => Ok(size),
                    Err(e) => Err(e),
                }
            },
            None => Ok(size),
        }
    }

    /// Interprets pulse intervals from `pulses` as data bytes, writing them to
    /// the underlying writer.
    ///
    /// The pulses are expected to be only a fragment of pulses needed for the complete
    /// transfer.
    /// Providing no pulses is equivalent to calling [PulseDecodeWriter::end] thus ending
    /// the current transfer in progress if there is any.
    ///
    /// Returns `Ok(None)` if there was no data or more pulses are being expected.
    ///
    /// Returns `Ok(Some(size))` if data block has been written, providing the number of written bytes.
    /// In this instance, there can still be some pulses left, e.g. for the next
    /// incoming transfer.
    ///
    /// In the case of [std::io::Error] the state is `Idle` and the information about the number of
    /// bytes written is lost.
    pub fn write_decoded_pulses(&mut self, pulses: &[u32]) -> (r: Result<Option<u32>, std::io::Error>)
        requires
            old(self).spec_wf(),
            old(self).spec_state().spec_potential() + pulses@.len() <= 16 * u32::MAX,
        ensures
            final(self).spec_wf(),
            pulses@.len() == 0 ==> final(self).spec_state() == PulseDecodeState::Idle && (r is Ok ==> r
                == Ok::<Option<u32>, std::io::Error>(old(self).spec_state().spec_end().1)),
            pulses@.len() == 0 && old(self).spec_state().spec_end().0.len() == 0 ==> r == Ok::<
                Option<u32>,
                std::io::Error,
            >(old(self).spec_state().spec_end().1),
            pulses@.len() > 0 && r is Ok ==> final(self).spec_state() == old(self).spec_state().spec_decode(
                pulses@,
            ).0 && r == Ok::<Option<u32>, std::io::Error>(
                old(self).spec_state().spec_decode(pulses@).2,
            ),
            pulses@.len() > 0 && old(self).spec_state().spec_decode(pulses@).1.len() == 0 ==> r is Ok,
            r is Err ==> final(self).spec_state() == PulseDecodeState::Idle,
    {
        if pulses.len() == 0 {
            return self.end();
        }
        let (state, bytes, size) = self.state.decode(pulses);
        if bytes.len() == 0 {
            self.state = state;
            return Ok(size);
        }
        match write_all(&mut self.wr, bytes.as_slice()) {
            Ok(()) => {
                self.state = state;
                Ok(size)
            },
            Err(e) => {
                self.state = PulseDecodeState::Idle;
                Err(e)
            },
        }
    }
}

} // verus!
