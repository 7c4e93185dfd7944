use spectrusty::audio::sample::{FromSample, IntoSample, MulNorm};

#[test]
fn mul_norm_int() {
    // the exception for the case when -1.0 * -1.0 = -1.0 is irrelevant,
    // mul_norm is performed with either phase step which is never -1.0 or with a positive number,
    for (a, b, c) in vec![(0i8, 0i8, 0i8), (127, 127, 126), (-128, -128, -128), (-128, 127, -127), (64, 64, 32), (64, -64, -32)] {
        assert_eq!(a.mul_norm(b), c);
    }
}

#[test]
fn mul_norm_uint() {
    // the exception for the case when -1.0 * -1.0 = -1.0 is irrelevant,
    // mul_norm is performed with either phase step which is never -1.0 or with a positive number,
    for (a, b, c) in vec![(128u8, 128u8, 128u8), (255, 255, 254), (0, 0, 0), (0, 255, 1), (128+64, 128+64, 128+32), (128+64, 128-64, 128-32)] {
        assert_eq!(a.mul_norm(b), c);
    }
}

#[test]
fn i16_from_i16() {
    for (f, t) in vec![(0i16, 0i16), (123, 123), (-456, -456), (32767, 32767), (-32768, -32768)] {
        assert_eq!(i16::from_sample(f), t);
        assert_eq!(IntoSample::<i16>::into_sample(f), t);
    }
}

#[test]
fn i16_from_u16() {
    for (f, t) in vec![(32768u16, 0i16), (32769, 1), (16384, -16384), (65535, 32767), (0, -32768)] {
        assert_eq!(i16::from_sample(f), t);
        assert_eq!(IntoSample::<i16>::into_sample(f), t);
    }
}

#[test]
fn u16_from_i16() {
    for (f, t) in vec![(0i16, 32768u16), (1, 32769), (-16384, 16384), (32767, 65535), (-32768, 0)] {
        assert_eq!(u16::from_sample(f), t);
        assert_eq!(IntoSample::<u16>::into_sample(f), t);
    }
}

#[test]
fn u16_from_u16() {
    for (f, t) in vec![(32768u16, 32768u16), (32769, 32769), (16384, 16384), (65535, 65535), (0, 0)] {
        assert_eq!(u16::from_sample(f), t);
        assert_eq!(IntoSample::<u16>::into_sample(f), t);
    }
}

#[test]
fn i64_from_i32() {
    for (f, t) in vec![(0i32, 0i64), (1, 0x0000000100000000), (-1, -4294967296), (0x7fffffff, 0x7fffffff00000000), (-0x80000000, -0x8000000000000000)] {
        assert_eq!(i64::from_sample(f), t);
        assert_eq!(IntoSample::<i64>::into_sample(f), t);
        assert_eq!(i32::from_sample(t), f);
        assert_eq!(IntoSample::<i32>::into_sample(t), f);
    }
}

#[test]
fn u64_from_u32() {
    for (f, t) in vec![(0x80000000u32, 0x8000000000000000u64), (0x80000001u32, 0x8000000100000000), (0xFFFFFFFF, 0xFFFFFFFF00000000), (0x7fffffff, 0x7fffffff00000000), (0, 0)] {
        assert_eq!(u64::from_sample(f), t);
        assert_eq!(IntoSample::<u64>::into_sample(f), t);
        assert_eq!(u32::from_sample(t), f);
        assert_eq!(IntoSample::<u32>::into_sample(t), f);
    }
}

#[test]
fn i64_from_u32() {
    for (f, t) in vec![(0x80000000u32, 0i64), (0x80000001u32, 0x0000000100000000), (0x7fffffffu32, -4294967296), (0xffffffff, 0x7fffffff00000000), (0, -0x8000000000000000)] {
        assert_eq!(i64::from_sample(f), t);
        assert_eq!(IntoSample::<i64>::into_sample(f), t);
        assert_eq!(u32::from_sample(t), f);
        assert_eq!(IntoSample::<u32>::into_sample(t), f);
    }
}

#[test]
fn u64_from_i32() {
    for (f, t) in vec![(0i32, 0x8000000000000000u64), (1, 0x8000000100000000), (0x7FFFFFFF, 0xFFFFFFFF00000000), (0x7fffffff, 0xffffffff00000000), (-0x80000000, 0)] {
        assert_eq!(u64::from_sample(f), t);
        assert_eq!(IntoSample::<u64>::into_sample(f), t);
        assert_eq!(i32::from_sample(t), f);
        assert_eq!(IntoSample::<i32>::into_sample(t), f);
    }
}
