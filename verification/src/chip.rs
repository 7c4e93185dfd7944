//! Chipset related types and helpers.
use vstd::prelude::*;

use core::time::Duration;
use std::time::Instant;

use crate::memory::{MemoryExtension, ZxMemory};

pub mod flags;

use flags::ReadEarMode;

verus! {

/// The number of nanoseconds in a second.
pub const NANOS_PER_SEC: u64 = 1_000_000_000;

/// Returns a number of nanoseconds from the number of T-states in a single frame and a cpu clock rate.
pub fn nanos_from_frame_tc_cpu_hz(frame_ts_count: u32, cpu_hz: u32) -> (r: u64)
    requires cpu_hz != 0,
    ensures r == (frame_ts_count as int * NANOS_PER_SEC as int) / (cpu_hz as int),
{
    let n: u64 = frame_ts_count as u64 * NANOS_PER_SEC;
    n / cpu_hz as u64
}

/// The duration of `secs` seconds and `nanos` nanoseconds, as `std::time::Duration::new`
/// makes it.
pub uninterp spec fn spec_duration(secs: u64, nanos: u32) -> Duration;

/// Makes a duration of `secs` seconds and `nanos` nanoseconds with `std::time::Duration::new`;
/// with fewer than a second of nanoseconds nothing carries over into the seconds, so it can't
/// overflow.
#[verifier::external_body]
fn duration_new(secs: u64, nanos: u32) -> (r: Duration)
    requires
        nanos < NANOS_PER_SEC,
    ensures
        r == spec_duration(secs, nanos),
{
    Duration::new(secs, nanos)
}

/// The duration of `nanos` nanoseconds: its whole seconds and the nanoseconds left.
pub open spec fn spec_duration_of_nanos(nanos: u64) -> Duration {
    spec_duration(nanos / NANOS_PER_SEC, (nanos % NANOS_PER_SEC) as u32)
}

/// Returns the duration of `nanos` nanoseconds (see [spec_duration_of_nanos]).
pub fn duration_of_nanos(nanos: u64) -> (r: Duration)
    ensures
        r == spec_duration_of_nanos(nanos),
{
    duration_new(nanos / NANOS_PER_SEC, (nanos % NANOS_PER_SEC) as u32)
}

/// Lets `std::time::Instant` stand in verified code; its contents stay opaque.
#[verifier::external_type_specification]
#[verifier::external_body]
pub struct ExInstant(Instant);

/// The current time, with `std::time::Instant::now`. Nothing is stated of it: it is the time.
#[verifier::external_body]
pub(crate) fn instant_now() -> (r: Instant) {
    Instant::now()
}

/// The nanoseconds elapsed since `start`, with `std::time::Instant::elapsed`. Nothing is
/// stated of it: it depends on the time.
#[verifier::external_body]
pub(crate) fn elapsed_nanos(start: &Instant) -> (r: u128) {
    start.elapsed().as_nanos()
}

/// The time elapsed since `start`, with `std::time::Instant::elapsed`. Nothing is stated of
/// it: it depends on the time.
#[verifier::external_body]
fn instant_elapsed(start: &Instant) -> (r: Duration) {
    start.elapsed()
}

/// `a - b` with `std::time::Duration::checked_sub`, `None` when `b` is longer than `a`.
/// Nothing is stated of it: the contents of durations stay opaque here.
#[verifier::external_body]
fn duration_checked_sub(a: Duration, b: Duration) -> (r: Option<Duration>) {
    a.checked_sub(b)
}

/// `time + d` with `std::time::Instant::checked_add`, `None` when it can't be represented.
/// Nothing is stated of it: the contents of instants stay opaque here.
#[verifier::external_body]
fn instant_checked_add(time: &Instant, d: Duration) -> (r: Option<Instant>) {
    time.checked_add(d)
}

/// A tool for synchronizing emulation with a running thread.
pub struct ThreadSyncTimer {
    /// The start time of a current synchronization period.
    pub time: Instant,
    /// The desired duration of a single synchronization period.
    pub frame_duration: Duration,
}

impl ThreadSyncTimer {
    /// Pass the real time duration of a desired synchronization period (usually a duration of a video frame).
    pub fn new(frame_duration_nanos: u32) -> (r: Self)
        ensures
            r.frame_duration == spec_duration_of_nanos(frame_duration_nanos as u64),
    {
        let frame_duration = duration_of_nanos(frame_duration_nanos as u64);
        ThreadSyncTimer { time: instant_now(), frame_duration }
    }

    /// Sets [ThreadSyncTimer::frame_duration] from the provided `frame_duration_nanos`.
    pub fn set_frame_duration(&mut self, frame_duration_nanos: u32)
        ensures
            final(self).frame_duration == spec_duration_of_nanos(frame_duration_nanos as u64),
            final(self).time == old(self).time,
    {
        self.frame_duration = duration_of_nanos(frame_duration_nanos as u64);
    }

    /// Restarts the synchronization period. Usefull e.g. for resuming paused emulation.
    ///
    /// Returns the start of the period that was replaced.
    pub fn restart(&mut self) -> (r: Instant)
        ensures
            r == old(self).time,
            final(self).frame_duration == old(self).frame_duration,
    {
        let mut previous = instant_now();
        core::mem::swap(&mut self.time, &mut previous);
        previous
    }

    /// Returns `Some(excess_duration)` if the time elapsed from the beginning of the current
    /// period exceeds or is equal to the desired duration of a synchronization period.
    /// Otherwise returns `None`.
    ///
    /// The value returned is the excess time that has elapsed above the desired duration.
    /// If the time elapsed equals to the `frame_duration` the returned value equals to zero.
    ///
    /// In case `Some` variant is returned the value of [ThreadSyncTimer::frame_duration] is
    /// being added to [ThreadSyncTimer::time] to mark the beginning of a new period (when the
    /// sum can be represented).
    pub fn check_frame_elapsed(&mut self) -> (r: Option<Duration>)
        ensures
            final(self).frame_duration == old(self).frame_duration,
            r is None ==> final(self).time == old(self).time,
    {
        let frame_duration = self.frame_duration;
        let elapsed = instant_elapsed(&self.time);
        match duration_checked_sub(elapsed, frame_duration) {
            Some(duration) => {
                match instant_checked_add(&self.time, frame_duration) {
                    Some(time) => {
                        self.time = time;
                    },
                    None => {},
                }
                Some(duration)
            },
            None => None,
        }
    }
}

/// Returns a duration from the number of T-states in a single frame and a cpu clock rate.
pub fn duration_from_frame_tc_cpu_hz(frame_ts_count: u32, cpu_hz: u32) -> (r: Duration)
    requires cpu_hz != 0,
    ensures
        r == spec_duration_of_nanos(((frame_ts_count as int * NANOS_PER_SEC as int) / (cpu_hz as int)) as u64),
{
    let nanos = nanos_from_frame_tc_cpu_hz(frame_ts_count, cpu_hz);
    duration_of_nanos(nanos)
}

/// A trait for directly accessing an emulated memory implementation and memory extensions.
pub trait MemoryAccess {
    type Memory: ZxMemory;
    type MemoryExt: MemoryExtension;
    /// Returns a read-only reference to the memory extension.
    fn memory_ext_ref(&self) -> &Self::MemoryExt;
    /// Returns a mutable reference to the memory extension.
    fn memory_ext_mut(&mut self) -> &mut Self::MemoryExt;
    /// Returns a reference to the memory.
    fn memory_ref(&self) -> &Self::Memory;
    /// Returns a mutable reference to the memory.
    fn memory_mut(&mut self) -> &mut Self::Memory;
}

/// A trait for reading the MIC line output.
pub trait MicOut {
    /// Returns a frame buffered MIC output as the intervals between its pulses, in T-states.
    fn mic_out_pulse_iter(&self) -> Vec<u32>;
}

/// A trait for feeding the EAR line input.
pub trait EarIn {
    /// Sets `EAR in` bit state after the provided interval in ∆ T-States counted from the last recorded change.
    fn set_ear_in(&mut self, ear_in: bool, delta_fts: u32);
    /// Feeds the `EAR in` buffer with changes.
    ///
    /// The given intervals are T-state ∆ differences after which the state of the `EAR in` bit
    /// should be toggled.
    ///
    /// `max_frames_threshold` may be optionally provided as a number of frames to limit the buffered changes.
    /// This is usefull if the given intervals largely exceed the duration of a single frame.
    fn feed_ear_in(&mut self, fts_deltas: &[u32], max_frames_threshold: Option<usize>);
    /// Removes all buffered so far `EAR in` changes.
    ///
    /// Provide the current value of `EAR in` bit as `ear_in`.
    ///
    /// This may be usefull when tape data is already buffered but the user decided to stop the tape playback
    /// immediately.
    fn purge_ear_in_changes(&mut self, ear_in: bool);
    /// Returns the counter of how many times the EAR input line was read since the beginning of the current frame.
    ///
    /// This can be used to help implementing the auto loading of tape data.
    fn read_ear_in_count(&self) -> u32;
    /// Returns the current mode.
    fn read_ear_mode(&self) -> (r: ReadEarMode)
        default_ensures
            r == ReadEarMode::Clear,
    {
        ReadEarMode::Clear
    }
    /// Changes the current mode.
    fn set_read_ear_mode(&mut self, mode: ReadEarMode) {
    }
}

} // verus!
