//! System bus device emulators to be used with peripheral devices.
pub mod joystick;
pub mod mouse;
pub mod zxprinter;
pub mod parallel;
pub mod ay;
