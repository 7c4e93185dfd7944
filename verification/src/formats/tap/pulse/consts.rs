//! Timings of the tape signal, as expected by the ZX Spectrum ROM loading routines.
use vstd::prelude::*;

verus! {

/// Length of the lead pulse in T-states.
pub const LEAD_PULSE_LENGTH: u32 = 2168;
/// Length of the 1st sync pulse in T-states.
pub const SYNC_PULSE1_LENGTH: u32 = 667;
/// Length of the 2nd sync pulse in T-states.
pub const SYNC_PULSE2_LENGTH: u32 = 735;
/// Length of the bit value 0 pulse in T-states.
pub const ZERO_PULSE_LENGTH: u32 = 855;
/// Length of the bit value 1 pulse in T-states.
pub const ONE_PULSE_LENGTH: u32 = 1710;
/// Length of the pause between *TAPE* blocks in T-states.
pub const PAUSE_PULSE_LENGTH: u32 = 3_500_000;

/// The number of LEAD pulses for the header block.
pub const LEAD_PULSES_HEAD: u16 = 8063;
/// The number of LEAD pulses for the data block.
pub const LEAD_PULSES_DATA: u16 = 3223;

} // verus!
