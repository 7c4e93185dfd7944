//! Network peripherals.
pub mod zxnet;
