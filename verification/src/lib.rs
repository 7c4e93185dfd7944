//! Building blocks of ZX Spectrum emulators: chipset flags, audio samples, video palettes,
//! tape and snapshot formats and peripheral devices.
use vstd::prelude::*;

pub mod bus;
pub mod chip;
pub mod memory;
pub mod formats;

pub mod video;
pub mod audio;
pub mod peripherals;


verus! {
} // verus!
