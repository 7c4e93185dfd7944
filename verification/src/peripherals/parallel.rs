//! Parallel port device designed for parallel ports in ZX Spectrum peripherals.
use vstd::prelude::*;

use core::marker::PhantomData;

verus! {

/// An interface for emulating communication between a Spectrum's or other peripherals' hardware port
/// and remote parallel devices.
///
/// Emulators of peripheral devices should implement this trait.
///
/// Methods of this trait are being called by bus devices implementing parallel port communication.
pub trait ParallelPortDevice {
    type Timestamp: Sized;
    /// A device receives a byte written to the parallel data port.
    fn write_data(&mut self, data: u8, timestamp: Self::Timestamp);
    /// A device receives a changed `STROBE` bit status.
    /// `strobe` is `true` if the `STROBE` went high, `false` when it went low.
    ///
    /// Should return the `BUSY` status signal:
    /// * `true` if the `BUSY` singal is high,
    /// * `false` when it's low.
    fn write_strobe(&mut self, strobe: bool, timestamp: Self::Timestamp) -> bool;
    /// This method is being called once every frame, near the end of it and should return a `BUSY` signal state.
    /// Returns `true` if the `BUSY` signal is high, and `false` when it's low.
    fn poll_busy(&mut self) -> bool;
    /// Called when the current frame ends to allow emulators to wrap stored timestamps.
    fn next_frame(&mut self);
}

/// A parallel port device that does nothing and provides a constant low `BUSY` signal.
#[derive(Debug)]
pub struct NullParallelPort<T>(pub PhantomData<T>);

impl<T> Default for NullParallelPort<T> {
    fn default() -> (r: Self) {
        NullParallelPort(PhantomData)
    }
}

impl<T> ParallelPortDevice for NullParallelPort<T> {
    type Timestamp = T;

    fn write_data(&mut self, data: u8, timestamp: Self::Timestamp) {
    }

    fn write_strobe(&mut self, strobe: bool, timestamp: Self::Timestamp) -> (r: bool)
        ensures !r,
    {
        false
    }

    fn poll_busy(&mut self) -> (r: bool)
        ensures !r,
    {
        false
    }

    fn next_frame(&mut self) {
    }
}

} // verus!
