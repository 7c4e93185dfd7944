//! Memory paging extensions of peripheral devices.
pub mod zxinterface1;
