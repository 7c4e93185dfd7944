//! Emulator components of various ZX Spectrum peripheral devices.
pub mod ay;
pub mod bus;
pub mod joystick;
pub mod mouse;
pub mod zxprinter;
pub mod memory;
pub mod parallel;
pub mod network;
pub mod serial;
