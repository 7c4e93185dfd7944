//! Audio related types and helpers.
use vstd::prelude::*;

use core::marker::PhantomData;

pub mod sample;

verus! {

/// A trait for converting sound levels to sample amplitudes.
pub trait AmpLevels<T: Copy> {
    /// Returns the amplitude for the given `level`.
    fn amp_level(level: u32) -> T;
}

/// The EAR and MIC output amplitudes for the four combinations of the EAR and MIC bits.
pub const AMPS_EAR_MIC_I32: [i32; 4] = [0x0bc3_1d10, 0x16d5_1a60, 0x7b28_20ff, 0x7fff_ffff];
/// The EAR output amplitudes for the four combinations of the EAR and MIC bits.
pub const AMPS_EAR_OUT_I32: [i32; 4] = [0x0bc3_1d10, 0x0bc3_1d10, 0x7fff_ffff, 0x7fff_ffff];
/// The EAR input amplitudes for the two values of the EAR bit.
pub const AMPS_EAR_IN_I32: [i32; 2] = [0x0bc3_1d10, 0x16d5_1a60];
/// The EAR and MIC output amplitudes for the four combinations of the EAR and MIC bits.
pub const AMPS_EAR_MIC_I16: [i16; 4] = [0x0bc3, 0x16d5, 0x7b27, 0x7fff];
/// The EAR output amplitudes for the four combinations of the EAR and MIC bits.
pub const AMPS_EAR_OUT_I16: [i16; 4] = [0x0bc3, 0x0bc3, 0x7fff, 0x7fff];
/// The EAR input amplitudes for the two values of the EAR bit.
pub const AMPS_EAR_IN_I16: [i16; 2] = [0x0bc3, 0x16d5];

/// The amplitudes of the EAR and MIC output: the level's two lowest bits select one.
#[derive(Debug)]
pub struct EarMicAmps4<T>(PhantomData<T>);

/// The amplitudes of the EAR output: the level's two lowest bits select one.
#[derive(Debug)]
pub struct EarOutAmps4<T>(PhantomData<T>);

/// The amplitudes of the EAR input: the level's lowest bit selects one.
#[derive(Debug)]
pub struct EarInAmps2<T>(PhantomData<T>);

impl<T> Default for EarMicAmps4<T> {
    fn default() -> (r: Self) {
        EarMicAmps4(PhantomData)
    }
}

impl<T> Clone for EarMicAmps4<T> {
    fn clone(&self) -> (r: Self) {
        EarMicAmps4(PhantomData)
    }
}

impl<T> Default for EarOutAmps4<T> {
    fn default() -> (r: Self) {
        EarOutAmps4(PhantomData)
    }
}

impl<T> Clone for EarOutAmps4<T> {
    fn clone(&self) -> (r: Self) {
        EarOutAmps4(PhantomData)
    }
}

impl<T> Default for EarInAmps2<T> {
    fn default() -> (r: Self) {
        EarInAmps2(PhantomData)
    }
}

impl<T> Clone for EarInAmps2<T> {
    fn clone(&self) -> (r: Self) {
        EarInAmps2(PhantomData)
    }
}

impl AmpLevels<i32> for EarMicAmps4<i32> {
    fn amp_level(level: u32) -> (r: i32)
        ensures
            r == AMPS_EAR_MIC_I32@[(level % 4) as int],
    {
        AMPS_EAR_MIC_I32[(level % 4) as usize]
    }
}

impl AmpLevels<i32> for EarOutAmps4<i32> {
    fn amp_level(level: u32) -> (r: i32)
        ensures
            r == AMPS_EAR_OUT_I32@[(level % 4) as int],
    {
        AMPS_EAR_OUT_I32[(level % 4) as usize]
    }
}

impl AmpLevels<i32> for EarInAmps2<i32> {
    fn amp_level(level: u32) -> (r: i32)
        ensures
            r == AMPS_EAR_IN_I32@[(level % 2) as int],
    {
        AMPS_EAR_IN_I32[(level % 2) as usize]
    }
}

impl AmpLevels<i16> for EarMicAmps4<i16> {
    fn amp_level(level: u32) -> (r: i16)
        ensures
            r == AMPS_EAR_MIC_I16@[(level % 4) as int],
    {
        AMPS_EAR_MIC_I16[(level % 4) as usize]
    }
}

impl AmpLevels<i16> for EarOutAmps4<i16> {
    fn amp_level(level: u32) -> (r: i16)
        ensures
            r == AMPS_EAR_OUT_I16@[(level % 4) as int],
    {
        AMPS_EAR_OUT_I16[(level % 4) as usize]
    }
}

impl AmpLevels<i16> for EarInAmps2<i16> {
    fn amp_level(level: u32) -> (r: i16)
        ensures
            r == AMPS_EAR_IN_I16@[(level % 2) as int],
    {
        AMPS_EAR_IN_I16[(level % 2) as usize]
    }
}

} // verus!
