//! Serial port devices and the signals between them and the Spectrum.
use vstd::prelude::*;

pub mod keypad;
pub mod rs232;

verus! {

/// The state of a serial data line.
#[derive(Clone, Copy, Debug, PartialEq, Eq, Structural)]
pub enum DataState {
    /// The logical 1.
    Mark,
    /// The logical 0.
    Space,
}

/// The state of a serial control line (`DTR`, `CTS`).
#[derive(Clone, Copy, Debug, PartialEq, Eq, Structural)]
pub enum ControlState {
    Active,
    Inactive,
}

impl DataState {
    /// Returns `true` for the logical 1.
    pub fn is_mark(self) -> (r: bool)
        ensures r == (self == DataState::Mark),
    {
        match self {
            DataState::Mark => true,
            DataState::Space => false,
        }
    }
    /// Returns `true` for the logical 0.
    pub fn is_space(self) -> (r: bool)
        ensures r == (self == DataState::Space),
    {
        match self {
            DataState::Mark => false,
            DataState::Space => true,
        }
    }
    /// The bit value: 1 for [DataState::Mark], 0 for [DataState::Space].
    pub fn bit(self) -> (r: u8)
        ensures r == (if self == DataState::Mark { 1u8 } else { 0u8 }),
    {
        match self {
            DataState::Mark => 1,
            DataState::Space => 0,
        }
    }
    /// The state of a data line carrying the bit `bit`.
    pub fn from_bit(bit: bool) -> (r: DataState)
        ensures r == (if bit { DataState::Mark } else { DataState::Space }),
    {
        if bit { DataState::Mark } else { DataState::Space }
    }
}

impl ControlState {
    /// Returns `true` when the line is active.
    pub fn is_active(self) -> (r: bool)
        ensures r == (self == ControlState::Active),
    {
        match self {
            ControlState::Active => true,
            ControlState::Inactive => false,
        }
    }
    /// Returns `true` when the line is inactive.
    pub fn is_inactive(self) -> (r: bool)
        ensures r == (self == ControlState::Inactive),
    {
        match self {
            ControlState::Active => false,
            ControlState::Inactive => true,
        }
    }
}

/// An interface for emulating communication between a Spectrum's serial port and remote devices.
///
/// Emulators of peripheral devices should implement this trait.
pub trait SerialPortDevice {
    type Timestamp: Sized;
    /// A device receives the state of the Spectrum's transmitted data line; returns the state of
    /// its `DTR` line.
    fn write_data(&mut self, rxd: DataState, timestamp: Self::Timestamp) -> ControlState;
    /// Returns the state of the device's `DTR` line.
    fn poll_ready(&mut self, timestamp: Self::Timestamp) -> ControlState;
    /// A device receives the state of the Spectrum's `CTS` line.
    fn update_cts(&mut self, cts: ControlState, timestamp: Self::Timestamp);
    /// Returns the state of the device's transmitted data line.
    fn read_data(&mut self, timestamp: Self::Timestamp) -> DataState;
    /// Called when the current frame ends to allow emulators to wrap stored timestamps.
    fn next_frame(&mut self, timestamp: Self::Timestamp);
}

} // verus!
