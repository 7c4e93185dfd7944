//! Various traits for types being used as audio samples.
//!
//! Integer sample types are supported: a signed sample has its silence at `0`, an unsigned one
//! at the middle of its range.
use vstd::prelude::*;

verus! {

/// Provides various methods to primitive types being used as audio samples.
pub trait AudioSample: Copy + Send + Default + 'static {
    /// Creates a silent sample value (with zero amplitude). Useful for filling buffers.
    fn silence() -> Self;
    /// The sample value with the highest positive amplitude.
    fn max_pos_amplitude() -> Self;
    /// The sample value with the highest negative amplitude.
    fn max_neg_amplitude() -> Self;
}

/// For converting samples between types.
pub trait FromSample<S>: Sized {
    /// Converts to Self a sample from the `other`.
    fn from_sample(other: S) -> Self;
}

/// For converting samples between types.
pub trait IntoSample<S> {
    /// Convert to `S` a sample type from `self`.
    fn into_sample(self) -> S;
}

/// This trait is being used to calculate sample amplitude differences (∆).
pub trait SampleDelta: Copy + Default {
    /// Returns the difference (if any) between `after` and `self` (before).
    fn sample_delta(self, after: Self) -> Option<Self>;
}

/// This trait is being used for scaling sample amplitudes.
pub trait MulNorm: Sized {
    /// Saturating addition. Computes self + other, saturating at the normalized bounds instead of overflowing.
    fn saturating_add(self, other: Self) -> Self;
    /// Multiplies `self` with the `other` in the normalized sample amplitude range.
    fn mul_norm(self, other: Self) -> Self;
}

impl<S: FromSample<T>, T> IntoSample<S> for T {
    fn into_sample(self) -> (r: S)
        ensures call_ensures(S::from_sample, (self,), r),
    {
        S::from_sample(self)
    }
}

impl<T: AudioSample> FromSample<T> for T {
    fn from_sample(other: T) -> (r: T)
        ensures r == other,
    {
        other
    }
}

/// The value `v` clamped to the range `[lo, hi]`.
pub open spec fn clamp(v: int, lo: int, hi: int) -> int {
    if v < lo { lo } else if v > hi { hi } else { v }
}

impl SampleDelta for i8 {
    fn sample_delta(self, after: i8) -> (r: Option<i8>)
        ensures r == (if after != self { Some((after - self) as i8) } else { None }),
    {
        let delta = #[verifier::truncate] ((after as i16 - self as i16) as i8);
        if after != self {
            Some(delta)
        } else {
            None
        }
    }
}

impl SampleDelta for i16 {
    fn sample_delta(self, after: i16) -> (r: Option<i16>)
        ensures r == (if after != self { Some((after - self) as i16) } else { None }),
    {
        let delta = #[verifier::truncate] ((after as i32 - self as i32) as i16);
        if after != self {
            Some(delta)
        } else {
            None
        }
    }
}

impl SampleDelta for i32 {
    fn sample_delta(self, after: i32) -> (r: Option<i32>)
        ensures r == (if after != self { Some((after - self) as i32) } else { None }),
    {
        let delta = #[verifier::truncate] ((after as i64 - self as i64) as i32);
        if after != self {
            Some(delta)
        } else {
            None
        }
    }
}

impl SampleDelta for i64 {
    fn sample_delta(self, after: i64) -> (r: Option<i64>)
        ensures r == (if after != self { Some((after - self) as i64) } else { None }),
    {
        let delta = #[verifier::truncate] ((after as i128 - self as i128) as i64);
        if after != self {
            Some(delta)
        } else {
            None
        }
    }
}

impl AudioSample for i64 {
    fn silence() -> (r: i64)
        ensures r == 0,
    {
        0x0
    }

    fn max_pos_amplitude() -> (r: i64)
        ensures r == i64::MAX,
    {
        i64::MAX
    }

    fn max_neg_amplitude() -> (r: i64)
        ensures r == i64::MIN,
    {
        i64::MIN
    }
}

impl AudioSample for i32 {
    fn silence() -> (r: i32)
        ensures r == 0,
    {
        0x0
    }

    fn max_pos_amplitude() -> (r: i32)
        ensures r == i32::MAX,
    {
        i32::MAX
    }

    fn max_neg_amplitude() -> (r: i32)
        ensures r == i32::MIN,
    {
        i32::MIN
    }
}

impl AudioSample for i16 {
    fn silence() -> (r: i16)
        ensures r == 0,
    {
        0x0
    }

    fn max_pos_amplitude() -> (r: i16)
        ensures r == i16::MAX,
    {
        i16::MAX
    }

    fn max_neg_amplitude() -> (r: i16)
        ensures r == i16::MIN,
    {
        i16::MIN
    }
}

impl AudioSample for i8 {
    fn silence() -> (r: i8)
        ensures r == 0,
    {
        0x0
    }

    fn max_pos_amplitude() -> (r: i8)
        ensures r == i8::MAX,
    {
        i8::MAX
    }

    fn max_neg_amplitude() -> (r: i8)
        ensures r == i8::MIN,
    {
        i8::MIN
    }
}

impl AudioSample for u64 {
    fn silence() -> (r: u64)
        ensures r == 9223372036854775808,
    {
        0x8000000000000000
    }

    fn max_pos_amplitude() -> (r: u64)
        ensures r == u64::MAX,
    {
        u64::MAX
    }

    fn max_neg_amplitude() -> (r: u64)
        ensures r == u64::MIN,
    {
        u64::MIN
    }
}

impl AudioSample for u32 {
    fn silence() -> (r: u32)
        ensures r == 2147483648,
    {
        0x80000000
    }

    fn max_pos_amplitude() -> (r: u32)
        ensures r == u32::MAX,
    {
        u32::MAX
    }

    fn max_neg_amplitude() -> (r: u32)
        ensures r == u32::MIN,
    {
        u32::MIN
    }
}

impl AudioSample for u16 {
    fn silence() -> (r: u16)
        ensures r == 32768,
    {
        0x8000
    }

    fn max_pos_amplitude() -> (r: u16)
        ensures r == u16::MAX,
    {
        u16::MAX
    }

    fn max_neg_amplitude() -> (r: u16)
        ensures r == u16::MIN,
    {
        u16::MIN
    }
}

impl AudioSample for u8 {
    fn silence() -> (r: u8)
        ensures r == 128,
    {
        0x80
    }

    fn max_pos_amplitude() -> (r: u8)
        ensures r == u8::MAX,
    {
        u8::MAX
    }

    fn max_neg_amplitude() -> (r: u8)
        ensures r == u8::MIN,
    {
        u8::MIN
    }
}

impl FromSample<u8> for i8 {
    fn from_sample(other: u8) -> (r: i8)
        ensures r == other - 0x80,
    {
        proof { lemma_bits_u8(other); }
        (other ^ 0x80) as i8
    }
}

impl FromSample<i8> for u8 {
    fn from_sample(other: i8) -> (r: u8)
        ensures r == other + 0x80,
    {
        proof { lemma_bits_i8(other); }
        (other as u8) ^ 0x80
    }
}

impl FromSample<u16> for i16 {
    fn from_sample(other: u16) -> (r: i16)
        ensures r == other - 0x8000,
    {
        proof { lemma_bits_u16(other); }
        (other ^ 0x8000) as i16
    }
}

impl FromSample<i16> for u16 {
    fn from_sample(other: i16) -> (r: u16)
        ensures r == other + 0x8000,
    {
        proof { lemma_bits_i16(other); }
        (other as u16) ^ 0x8000
    }
}

impl FromSample<u32> for i32 {
    fn from_sample(other: u32) -> (r: i32)
        ensures r == other - 0x80000000,
    {
        proof { lemma_bits_u32(other); }
        (other ^ 0x80000000) as i32
    }
}

impl FromSample<i32> for u32 {
    fn from_sample(other: i32) -> (r: u32)
        ensures r == other + 0x80000000,
    {
        proof { lemma_bits_i32(other); }
        (other as u32) ^ 0x80000000
    }
}

impl FromSample<u64> for i64 {
    fn from_sample(other: u64) -> (r: i64)
        ensures r == other - 0x8000000000000000,
    {
        proof { lemma_bits_u64(other); }
        (other ^ 0x8000000000000000) as i64
    }
}

impl FromSample<i64> for u64 {
    fn from_sample(other: i64) -> (r: u64)
        ensures r == other + 0x8000000000000000,
    {
        proof { lemma_bits_i64(other); }
        (other as u64) ^ 0x8000000000000000
    }
}

impl FromSample<i32> for i64 {
    fn from_sample(other: i32) -> (r: i64)
        ensures r == other * 0x100000000,
    {
        let v = other as i64;
        proof { lemma_bits_i64(v); }
        v << 32
    }
}

impl FromSample<u32> for u64 {
    fn from_sample(other: u32) -> (r: u64)
        ensures r == other * 0x100000000,
    {
        let v = other as u64;
        proof { lemma_bits_u64(v); }
        v << 32
    }
}

impl FromSample<i32> for u64 {
    fn from_sample(other: i32) -> (r: u64)
        ensures r == (other + 0x80000000) * 0x100000000,
    {
        u64::from_sample(u32::from_sample(other))
    }
}

impl FromSample<u32> for i64 {
    fn from_sample(other: u32) -> (r: i64)
        ensures r == (other - 0x80000000) * 0x100000000,
    {
        i64::from_sample(i32::from_sample(other))
    }
}

impl FromSample<i64> for i32 {
    fn from_sample(other: i64) -> (r: i32)
        ensures r == other / 0x100000000,
    {
        proof { lemma_bits_i64(other); }
        (other >> 32) as i32
    }
}

impl FromSample<u64> for u32 {
    fn from_sample(other: u64) -> (r: u32)
        ensures r == other / 0x100000000,
    {
        proof { lemma_bits_u64(other); }
        (other >> 32) as u32
    }
}

impl FromSample<i64> for u32 {
    fn from_sample(other: i64) -> (r: u32)
        ensures r == (other + 0x8000000000000000) / 0x100000000,
    {
        u32::from_sample(u64::from_sample(other))
    }
}

impl FromSample<u64> for i32 {
    fn from_sample(other: u64) -> (r: i32)
        ensures r == (other - 0x8000000000000000) / 0x100000000,
    {
        i32::from_sample(i64::from_sample(other))
    }
}

impl FromSample<i16> for i64 {
    fn from_sample(other: i16) -> (r: i64)
        ensures r == other * 0x1000000000000,
    {
        let v = other as i64;
        proof { lemma_bits_i64(v); }
        v << 48
    }
}

impl FromSample<u16> for u64 {
    fn from_sample(other: u16) -> (r: u64)
        ensures r == other * 0x1000000000000,
    {
        let v = other as u64;
        proof { lemma_bits_u64(v); }
        v << 48
    }
}

impl FromSample<i16> for u64 {
    fn from_sample(other: i16) -> (r: u64)
        ensures r == (other + 0x8000) * 0x1000000000000,
    {
        u64::from_sample(u16::from_sample(other))
    }
}

impl FromSample<u16> for i64 {
    fn from_sample(other: u16) -> (r: i64)
        ensures r == (other - 0x8000) * 0x1000000000000,
    {
        i64::from_sample(i16::from_sample(other))
    }
}

impl FromSample<i64> for i16 {
    fn from_sample(other: i64) -> (r: i16)
        ensures r == other / 0x1000000000000,
    {
        proof { lemma_bits_i64(other); }
        (other >> 48) as i16
    }
}

impl FromSample<u64> for u16 {
    fn from_sample(other: u64) -> (r: u16)
        ensures r == other / 0x1000000000000,
    {
        proof { lemma_bits_u64(other); }
        (other >> 48) as u16
    }
}

impl FromSample<i64> for u16 {
    fn from_sample(other: i64) -> (r: u16)
        ensures r == (other + 0x8000000000000000) / 0x1000000000000,
    {
        u16::from_sample(u64::from_sample(other))
    }
}

impl FromSample<u64> for i16 {
    fn from_sample(other: u64) -> (r: i16)
        ensures r == (other - 0x8000000000000000) / 0x1000000000000,
    {
        i16::from_sample(i64::from_sample(other))
    }
}

impl FromSample<i8> for i64 {
    fn from_sample(other: i8) -> (r: i64)
        ensures r == other * 0x100000000000000,
    {
        let v = other as i64;
        proof { lemma_bits_i64(v); }
        v << 56
    }
}

impl FromSample<u8> for u64 {
    fn from_sample(other: u8) -> (r: u64)
        ensures r == other * 0x100000000000000,
    {
        let v = other as u64;
        proof { lemma_bits_u64(v); }
        v << 56
    }
}

impl FromSample<i8> for u64 {
    fn from_sample(other: i8) -> (r: u64)
        ensures r == (other + 0x80) * 0x100000000000000,
    {
        u64::from_sample(u8::from_sample(other))
    }
}

impl FromSample<u8> for i64 {
    fn from_sample(other: u8) -> (r: i64)
        ensures r == (other - 0x80) * 0x100000000000000,
    {
        i64::from_sample(i8::from_sample(other))
    }
}

impl FromSample<i64> for i8 {
    fn from_sample(other: i64) -> (r: i8)
        ensures r == other / 0x100000000000000,
    {
        proof { lemma_bits_i64(other); }
        (other >> 56) as i8
    }
}

impl FromSample<u64> for u8 {
    fn from_sample(other: u64) -> (r: u8)
        ensures r == other / 0x100000000000000,
    {
        proof { lemma_bits_u64(other); }
        (other >> 56) as u8
    }
}

impl FromSample<i64> for u8 {
    fn from_sample(other: i64) -> (r: u8)
        ensures r == (other + 0x8000000000000000) / 0x100000000000000,
    {
        u8::from_sample(u64::from_sample(other))
    }
}

impl FromSample<u64> for i8 {
    fn from_sample(other: u64) -> (r: i8)
        ensures r == (other - 0x8000000000000000) / 0x100000000000000,
    {
        i8::from_sample(i64::from_sample(other))
    }
}

impl FromSample<i16> for i32 {
    fn from_sample(other: i16) -> (r: i32)
        ensures r == other * 0x10000,
    {
        let v = other as i32;
        proof { lemma_bits_i32(v); }
        v << 16
    }
}

impl FromSample<u16> for u32 {
    fn from_sample(other: u16) -> (r: u32)
        ensures r == other * 0x10000,
    {
        let v = other as u32;
        proof { lemma_bits_u32(v); }
        v << 16
    }
}

impl FromSample<i16> for u32 {
    fn from_sample(other: i16) -> (r: u32)
        ensures r == (other + 0x8000) * 0x10000,
    {
        u32::from_sample(u16::from_sample(other))
    }
}

impl FromSample<u16> for i32 {
    fn from_sample(other: u16) -> (r: i32)
        ensures r == (other - 0x8000) * 0x10000,
    {
        i32::from_sample(i16::from_sample(other))
    }
}

impl FromSample<i32> for i16 {
    fn from_sample(other: i32) -> (r: i16)
        ensures r == other / 0x10000,
    {
        proof { lemma_bits_i32(other); }
        (other >> 16) as i16
    }
}

impl FromSample<u32> for u16 {
    fn from_sample(other: u32) -> (r: u16)
        ensures r == other / 0x10000,
    {
        proof { lemma_bits_u32(other); }
        (other >> 16) as u16
    }
}

impl FromSample<i32> for u16 {
    fn from_sample(other: i32) -> (r: u16)
        ensures r == (other + 0x80000000) / 0x10000,
    {
        u16::from_sample(u32::from_sample(other))
    }
}

impl FromSample<u32> for i16 {
    fn from_sample(other: u32) -> (r: i16)
        ensures r == (other - 0x80000000) / 0x10000,
    {
        i16::from_sample(i32::from_sample(other))
    }
}

impl FromSample<i8> for i32 {
    fn from_sample(other: i8) -> (r: i32)
        ensures r == other * 0x1000000,
    {
        let v = other as i32;
        proof { lemma_bits_i32(v); }
        v << 24
    }
}

impl FromSample<u8> for u32 {
    fn from_sample(other: u8) -> (r: u32)
        ensures r == other * 0x1000000,
    {
        let v = other as u32;
        proof { lemma_bits_u32(v); }
        v << 24
    }
}

impl FromSample<i8> for u32 {
    fn from_sample(other: i8) -> (r: u32)
        ensures r == (other + 0x80) * 0x1000000,
    {
        u32::from_sample(u8::from_sample(other))
    }
}

impl FromSample<u8> for i32 {
    fn from_sample(other: u8) -> (r: i32)
        ensures r == (other - 0x80) * 0x1000000,
    {
        i32::from_sample(i8::from_sample(other))
    }
}

impl FromSample<i32> for i8 {
    fn from_sample(other: i32) -> (r: i8)
        ensures r == other / 0x1000000,
    {
        proof { lemma_bits_i32(other); }
        (other >> 24) as i8
    }
}

impl FromSample<u32> for u8 {
    fn from_sample(other: u32) -> (r: u8)
        ensures r == other / 0x1000000,
    {
        proof { lemma_bits_u32(other); }
        (other >> 24) as u8
    }
}

impl FromSample<i32> for u8 {
    fn from_sample(other: i32) -> (r: u8)
        ensures r == (other + 0x80000000) / 0x1000000,
    {
        u8::from_sample(u32::from_sample(other))
    }
}

impl FromSample<u32> for i8 {
    fn from_sample(other: u32) -> (r: i8)
        ensures r == (other - 0x80000000) / 0x1000000,
    {
        i8::from_sample(i32::from_sample(other))
    }
}

impl FromSample<i8> for i16 {
    fn from_sample(other: i8) -> (r: i16)
        ensures r == other * 0x100,
    {
        let v = other as i16;
        proof { lemma_bits_i16(v); }
        v << 8
    }
}

impl FromSample<u8> for u16 {
    fn from_sample(other: u8) -> (r: u16)
        ensures r == other * 0x100,
    {
        let v = other as u16;
        proof { lemma_bits_u16(v); }
        v << 8
    }
}

impl FromSample<i8> for u16 {
    fn from_sample(other: i8) -> (r: u16)
        ensures r == (other + 0x80) * 0x100,
    {
        u16::from_sample(u8::from_sample(other))
    }
}

impl FromSample<u8> for i16 {
    fn from_sample(other: u8) -> (r: i16)
        ensures r == (other - 0x80) * 0x100,
    {
        i16::from_sample(i8::from_sample(other))
    }
}

impl FromSample<i16> for i8 {
    fn from_sample(other: i16) -> (r: i8)
        ensures r == other / 0x100,
    {
        proof { lemma_bits_i16(other); }
        (other >> 8) as i8
    }
}

impl FromSample<u16> for u8 {
    fn from_sample(other: u16) -> (r: u8)
        ensures r == other / 0x100,
    {
        proof { lemma_bits_u16(other); }
        (other >> 8) as u8
    }
}

impl FromSample<i16> for u8 {
    fn from_sample(other: i16) -> (r: u8)
        ensures r == (other + 0x8000) / 0x100,
    {
        u8::from_sample(u16::from_sample(other))
    }
}

impl FromSample<u16> for i8 {
    fn from_sample(other: u16) -> (r: i8)
        ensures r == (other - 0x8000) / 0x100,
    {
        i8::from_sample(i16::from_sample(other))
    }
}

impl MulNorm for i8 {
    fn saturating_add(self, other: i8) -> (r: i8)
        ensures r == clamp(self + other, i8::MIN as int, i8::MAX as int),
    {
        let s: i16 = self as i16 + other as i16;
        if s > i8::MAX as i16 {
            i8::MAX
        } else if s < i8::MIN as i16 {
            i8::MIN
        } else {
            s as i8
        }
    }

    fn mul_norm(self, other: i8) -> (r: i8)
        ensures r == ((self * other) / 0x80) as i8,
    {
        assert(-128 * 128 <= self as int * other as int <= -128 * -128) by (nonlinear_arith)
            requires -128 <= self <= 127, -128 <= other <= 127;
        let p: i16 = self as i16 * other as i16;
        proof { lemma_bits_i16(p); }
        #[verifier::truncate] ((p >> 7) as i8)
    }
}

impl MulNorm for i16 {
    fn saturating_add(self, other: i16) -> (r: i16)
        ensures r == clamp(self + other, i16::MIN as int, i16::MAX as int),
    {
        let s: i32 = self as i32 + other as i32;
        if s > i16::MAX as i32 {
            i16::MAX
        } else if s < i16::MIN as i32 {
            i16::MIN
        } else {
            s as i16
        }
    }

    fn mul_norm(self, other: i16) -> (r: i16)
        ensures r == ((self * other) / 0x8000) as i16,
    {
        assert(-32768 * 32768 <= self as int * other as int <= -32768 * -32768) by (nonlinear_arith)
            requires -32768 <= self <= 32767, -32768 <= other <= 32767;
        let p: i32 = self as i32 * other as i32;
        proof { lemma_bits_i32(p); }
        #[verifier::truncate] ((p >> 15) as i16)
    }
}

impl MulNorm for i32 {
    fn saturating_add(self, other: i32) -> (r: i32)
        ensures r == clamp(self + other, i32::MIN as int, i32::MAX as int),
    {
        let s: i64 = self as i64 + other as i64;
        if s > i32::MAX as i64 {
            i32::MAX
        } else if s < i32::MIN as i64 {
            i32::MIN
        } else {
            s as i32
        }
    }

    fn mul_norm(self, other: i32) -> (r: i32)
        ensures r == ((self * other) / 0x80000000) as i32,
    {
        assert(-2147483648 * 2147483648 <= self as int * other as int <= -2147483648 * -2147483648) by (nonlinear_arith)
            requires -2147483648 <= self <= 2147483647, -2147483648 <= other <= 2147483647;
        let p: i64 = self as i64 * other as i64;
        proof { lemma_bits_i64(p); }
        #[verifier::truncate] ((p >> 31) as i32)
    }
}

impl MulNorm for u8 {
    fn saturating_add(self, other: u8) -> (r: u8)
        ensures r == clamp(self + other - 0x80, 0, u8::MAX as int),
    {
        MulNorm::saturating_add(i8::from_sample(self), i8::from_sample(other)).into_sample()
    }

    fn mul_norm(self, other: u8) -> (r: u8)
        ensures r == (((self - 0x80) * (other - 0x80)) / 0x80) as i8 + 0x80,
    {
        i8::from_sample(self).mul_norm(i8::from_sample(other)).into_sample()
    }
}

impl MulNorm for u16 {
    fn saturating_add(self, other: u16) -> (r: u16)
        ensures r == clamp(self + other - 0x8000, 0, u16::MAX as int),
    {
        MulNorm::saturating_add(i16::from_sample(self), i16::from_sample(other)).into_sample()
    }

    fn mul_norm(self, other: u16) -> (r: u16)
        ensures r == (((self - 0x8000) * (other - 0x8000)) / 0x8000) as i16 + 0x8000,
    {
        i16::from_sample(self).mul_norm(i16::from_sample(other)).into_sample()
    }
}

impl MulNorm for u32 {
    fn saturating_add(self, other: u32) -> (r: u32)
        ensures r == clamp(self + other - 0x80000000, 0, u32::MAX as int),
    {
        MulNorm::saturating_add(i32::from_sample(self), i32::from_sample(other)).into_sample()
    }

    fn mul_norm(self, other: u32) -> (r: u32)
        ensures r == (((self - 0x80000000) * (other - 0x80000000)) / 0x80000000) as i32 + 0x80000000,
    {
        i32::from_sample(self).mul_norm(i32::from_sample(other)).into_sample()
    }
}

/// Facts about the bit-level operations on `u8` used by the conversions above.
proof fn lemma_bits_u8(x: u8)
    by (bit_vector)
    ensures
        ((x ^ 0x80u8) as i8) as int == x as int - 0x80,
{
}

/// Facts about the bit-level operations on `i8` used by the conversions above.
proof fn lemma_bits_i8(x: i8)
    by (bit_vector)
    ensures
        ((x as u8) ^ 0x80u8) as int == x as int + 0x80,
{
}

/// Facts about the bit-level operations on `u16` used by the conversions above.
proof fn lemma_bits_u16(x: u16)
    by (bit_vector)
    ensures
        ((x ^ 0x8000u16) as i16) as int == x as int - 0x8000,
        x <= 255 ==> (x << 8u16) == x * 0x100,
        (x >> 8u16) as int == x as int / 0x100,
{
}

/// Facts about the bit-level operations on `i16` used by the conversions above.
proof fn lemma_bits_i16(x: i16)
    by (bit_vector)
    ensures
        ((x as u16) ^ 0x8000u16) as int == x as int + 0x8000,
        -128 <= x <= 127 ==> (x << 8i16) == x * 0x100,
        (x >> 8i16) as int == x as int / 0x100,
        (x >> 7i16) as int == x as int / 0x80,
{
}

/// Facts about the bit-level operations on `u32` used by the conversions above.
proof fn lemma_bits_u32(x: u32)
    by (bit_vector)
    ensures
        ((x ^ 0x80000000u32) as i32) as int == x as int - 0x80000000,
        x <= 65535 ==> (x << 16u32) == x * 0x10000,
        (x >> 16u32) as int == x as int / 0x10000,
        x <= 255 ==> (x << 24u32) == x * 0x1000000,
        (x >> 24u32) as int == x as int / 0x1000000,
{
}

/// Facts about the bit-level operations on `i32` used by the conversions above.
proof fn lemma_bits_i32(x: i32)
    by (bit_vector)
    ensures
        ((x as u32) ^ 0x80000000u32) as int == x as int + 0x80000000,
        -32768 <= x <= 32767 ==> (x << 16i32) == x * 0x10000,
        (x >> 16i32) as int == x as int / 0x10000,
        -128 <= x <= 127 ==> (x << 24i32) == x * 0x1000000,
        (x >> 24i32) as int == x as int / 0x1000000,
        (x >> 15i32) as int == x as int / 0x8000,
{
}

/// Facts about the bit-level operations on `u64` used by the conversions above.
proof fn lemma_bits_u64(x: u64)
    by (bit_vector)
    ensures
        ((x ^ 0x8000000000000000u64) as i64) as int == x as int - 0x8000000000000000,
        x <= 4294967295 ==> (x << 32u64) == x * 0x100000000,
        (x >> 32u64) as int == x as int / 0x100000000,
        x <= 65535 ==> (x << 48u64) == x * 0x1000000000000,
        (x >> 48u64) as int == x as int / 0x1000000000000,
        x <= 255 ==> (x << 56u64) == x * 0x100000000000000,
        (x >> 56u64) as int == x as int / 0x100000000000000,
{
}

/// Facts about the bit-level operations on `i64` used by the conversions above.
proof fn lemma_bits_i64(x: i64)
    by (bit_vector)
    ensures
        ((x as u64) ^ 0x8000000000000000u64) as int == x as int + 0x8000000000000000,
        -2147483648 <= x <= 2147483647 ==> (x << 32i64) == x * 0x100000000,
        (x >> 32i64) as int == x as int / 0x100000000,
        -32768 <= x <= 32767 ==> (x << 48i64) == x * 0x1000000000000,
        (x >> 48i64) as int == x as int / 0x1000000000000,
        -128 <= x <= 127 ==> (x << 56i64) == x * 0x100000000000000,
        (x >> 56i64) as int == x as int / 0x100000000000000,
        (x >> 31i64) as int == x as int / 0x80000000,
{
}

} // verus!
