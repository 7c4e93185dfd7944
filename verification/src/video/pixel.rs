//! Building blocks for rendering pixel surfaces: ZX Spectrum and ULAplus palettes in various pixel formats.
use vstd::prelude::*;

verus! {

/// A trait for providing a way for placing pixels into byte buffers.
pub trait PixelBuffer<'a>: Sized {
    /// Specifies the type used for pixels.
    type Pixel: Copy;
    /// Should return a new instance of `PixelBuffer` implementation from the mutable slice of bytes representing
    /// a single line of pixels of the target buffer.
    fn from_line(line_buffer: &'a mut [u8]) -> Self;
    /// Puts the next `pixel` into the line buffer and increases an internal cursor position by a single pixel.
    ///
    /// If the internal buffer boundaries would be overflown, this method must not panic, but instead it
    /// should just return without writing anything to the underyling buffer.
    fn put_pixel(&mut self, pixel: Self::Pixel);
    /// Puts `count` number of `pixel` copies into the line buffer and increases an internal cursor position
    /// accordingly.
    ///
    /// If the internal buffer boundaries would be overflown, this method must not panic, but instead it
    /// should just return without writing anything to the underyling buffer.
    fn put_pixels(&mut self, pixel: Self::Pixel, count: usize) {
        let mut k: usize = 0;
        while k < count
            invariant
                k <= count,
            decreases count - k,
        {
            self.put_pixel(pixel);
            k = k + 1;
        }
    }
    /// Returns the size of a single pixel in bytes.
    fn pixel_stride() -> (r: usize)
        default_ensures
            r as int == vstd::layout::size_of::<Self::Pixel>(),
    {
        core::mem::size_of::<Self::Pixel>()
    }
}

/// `line` with `bytes` written at `at`, or `line` as it is when they don't fit.
pub open spec fn spec_put_bytes(line: Seq<u8>, at: int, bytes: Seq<u8>) -> Seq<u8> {
    if 0 <= at && at + bytes.len() <= line.len() {
        line.subrange(0, at) + bytes + line.skip(at + bytes.len())
    } else {
        line
    }
}

/// Writes `bytes` into `line` at `at` when they fit, returning the position past them, or `at`
/// when they don't fit.
fn put_bytes(line: &mut [u8], at: usize, bytes: &[u8]) -> (r: usize)
    ensures
        final(line)@ == spec_put_bytes(old(line)@, at as int, bytes@),
        r == (if at + bytes@.len() <= old(line)@.len() { at + bytes@.len() } else { at as int }),
{
    if bytes.len() > line.len() || at > line.len() - bytes.len() {
        return at;
    }
    let n = line.len();
    let mut i: usize = 0;
    while i < bytes.len()
        invariant
            at + bytes@.len() <= line@.len() == n,
            line@.len() == old(line)@.len(),
            i <= bytes@.len(),
            line@ == old(line)@.subrange(0, at as int) + bytes@.take(i as int) + old(line)@.skip(at + i),
        decreases bytes@.len() - i,
    {
        line[at + i] = bytes[i];
        i = i + 1;
        proof {
            assert(line@ =~= old(line)@.subrange(0, at as int) + bytes@.take(i as int) + old(line)@.skip(at + i));
        }
    }
    proof {
        assert(bytes@.take(i as int) =~= bytes@);
    }
    at + bytes.len()
}

/// The bytes of `v` in the machine's byte order, with `u32::to_ne_bytes`.
#[verifier::external_body]
fn u32_ne_bytes(v: u32) -> (r: [u8; 4]) {
    v.to_ne_bytes()
}

/// The bytes of `v` in the machine's byte order, with `u16::to_ne_bytes`.
#[verifier::external_body]
fn u16_ne_bytes(v: u16) -> (r: [u8; 2]) {
    v.to_ne_bytes()
}

/// A [PixelBuffer] placing pixels of 3 color channels into a line of bytes, 3 bytes per pixel, from its start.
pub struct PixelBufA24<'a> {
    line: &'a mut [u8],
    cursor: usize,
}

impl<'a> PixelBufA24<'a> {
    /// The bytes of the line.
    pub closed spec fn spec_line(&self) -> Seq<u8> {
        self.line@
    }

    /// The position of the next pixel in the line, in bytes.
    pub closed spec fn spec_cursor(&self) -> nat {
        self.cursor as nat
    }
}

impl<'a> PixelBuffer<'a> for PixelBufA24<'a> {
    type Pixel = [u8; 3];

    fn from_line(line_buffer: &'a mut [u8]) -> (r: Self)
        ensures
            r.spec_line() == old(line_buffer)@,
            r.spec_cursor() == 0,
    {
        PixelBufA24 { line: line_buffer, cursor: 0 }
    }

    fn put_pixel(&mut self, pixel: [u8; 3])
        ensures
            final(self).spec_line() == spec_put_bytes(old(self).spec_line(), old(self).spec_cursor() as int, pixel@),
            final(self).spec_cursor() == (if old(self).spec_cursor() + 3 <= old(self).spec_line().len() {
                old(self).spec_cursor() + 3
            } else {
                old(self).spec_cursor()
            }),
    {
        let bytes = pixel;
        self.cursor = put_bytes(self.line, self.cursor, bytes.as_slice());
    }
}

/// A [PixelBuffer] placing pixels of 4 color channels into a line of bytes, 4 bytes per pixel, from its start.
pub struct PixelBufA32<'a> {
    line: &'a mut [u8],
    cursor: usize,
}

impl<'a> PixelBufA32<'a> {
    /// The bytes of the line.
    pub closed spec fn spec_line(&self) -> Seq<u8> {
        self.line@
    }

    /// The position of the next pixel in the line, in bytes.
    pub closed spec fn spec_cursor(&self) -> nat {
        self.cursor as nat
    }
}

impl<'a> PixelBuffer<'a> for PixelBufA32<'a> {
    type Pixel = [u8; 4];

    fn from_line(line_buffer: &'a mut [u8]) -> (r: Self)
        ensures
            r.spec_line() == old(line_buffer)@,
            r.spec_cursor() == 0,
    {
        PixelBufA32 { line: line_buffer, cursor: 0 }
    }

    fn put_pixel(&mut self, pixel: [u8; 4])
        ensures
            final(self).spec_line() == spec_put_bytes(old(self).spec_line(), old(self).spec_cursor() as int, pixel@),
            final(self).spec_cursor() == (if old(self).spec_cursor() + 4 <= old(self).spec_line().len() {
                old(self).spec_cursor() + 4
            } else {
                old(self).spec_cursor()
            }),
    {
        let bytes = pixel;
        self.cursor = put_bytes(self.line, self.cursor, bytes.as_slice());
    }
}

/// A [PixelBuffer] placing `u32` packed pixels into a line of bytes, in the machine's byte order, from its start.
pub struct PixelBufP32<'a> {
    line: &'a mut [u8],
    cursor: usize,
}

impl<'a> PixelBufP32<'a> {
    /// The bytes of the line.
    pub closed spec fn spec_line(&self) -> Seq<u8> {
        self.line@
    }

    /// The position of the next pixel in the line, in bytes.
    pub closed spec fn spec_cursor(&self) -> nat {
        self.cursor as nat
    }
}

impl<'a> PixelBuffer<'a> for PixelBufP32<'a> {
    type Pixel = u32;

    fn from_line(line_buffer: &'a mut [u8]) -> (r: Self)
        ensures
            r.spec_line() == old(line_buffer)@,
            r.spec_cursor() == 0,
    {
        PixelBufP32 { line: line_buffer, cursor: 0 }
    }

    fn put_pixel(&mut self, pixel: u32)
        ensures
            exists|b: Seq<u8>| b.len() == 4 && final(self).spec_line() == spec_put_bytes(
                old(self).spec_line(),
                old(self).spec_cursor() as int,
                b,
            ),
            final(self).spec_cursor() == (if old(self).spec_cursor() + 4 <= old(self).spec_line().len() {
                old(self).spec_cursor() + 4
            } else {
                old(self).spec_cursor()
            }),
    {
        let bytes = u32_ne_bytes(pixel);
        self.cursor = put_bytes(self.line, self.cursor, bytes.as_slice());
    }
}

/// A [PixelBuffer] placing `u16` packed pixels into a line of bytes, in the machine's byte order, from its start.
pub struct PixelBufP16<'a> {
    line: &'a mut [u8],
    cursor: usize,
}

impl<'a> PixelBufP16<'a> {
    /// The bytes of the line.
    pub closed spec fn spec_line(&self) -> Seq<u8> {
        self.line@
    }

    /// The position of the next pixel in the line, in bytes.
    pub closed spec fn spec_cursor(&self) -> nat {
        self.cursor as nat
    }
}

impl<'a> PixelBuffer<'a> for PixelBufP16<'a> {
    type Pixel = u16;

    fn from_line(line_buffer: &'a mut [u8]) -> (r: Self)
        ensures
            r.spec_line() == old(line_buffer)@,
            r.spec_cursor() == 0,
    {
        PixelBufP16 { line: line_buffer, cursor: 0 }
    }

    fn put_pixel(&mut self, pixel: u16)
        ensures
            exists|b: Seq<u8>| b.len() == 2 && final(self).spec_line() == spec_put_bytes(
                old(self).spec_line(),
                old(self).spec_cursor() as int,
                b,
            ),
            final(self).spec_cursor() == (if old(self).spec_cursor() + 2 <= old(self).spec_line().len() {
                old(self).spec_cursor() + 2
            } else {
                old(self).spec_cursor()
            }),
    {
        let bytes = u16_ne_bytes(pixel);
        self.cursor = put_bytes(self.line, self.cursor, bytes.as_slice());
    }
}

/// A [PixelBuffer] placing `u8` pixels into a line of bytes, one byte per pixel, from its start.
pub struct PixelBufP8<'a> {
    line: &'a mut [u8],
    cursor: usize,
}

impl<'a> PixelBufP8<'a> {
    /// The bytes of the line.
    pub closed spec fn spec_line(&self) -> Seq<u8> {
        self.line@
    }

    /// The position of the next pixel in the line, in bytes.
    pub closed spec fn spec_cursor(&self) -> nat {
        self.cursor as nat
    }
}

impl<'a> PixelBuffer<'a> for PixelBufP8<'a> {
    type Pixel = u8;

    fn from_line(line_buffer: &'a mut [u8]) -> (r: Self)
        ensures
            r.spec_line() == old(line_buffer)@,
            r.spec_cursor() == 0,
    {
        PixelBufP8 { line: line_buffer, cursor: 0 }
    }

    fn put_pixel(&mut self, pixel: u8)
        ensures
            final(self).spec_line() == spec_put_bytes(old(self).spec_line(), old(self).spec_cursor() as int, seq![pixel]),
            final(self).spec_cursor() == (if old(self).spec_cursor() + 1 <= old(self).spec_line().len() {
                old(self).spec_cursor() + 1
            } else {
                old(self).spec_cursor()
            }),
    {
        let bytes = [pixel];
        self.cursor = put_bytes(self.line, self.cursor, bytes.as_slice());
    }
}

/// A trait used for obtaining pixel colors.
pub trait Palette {
    /// Specifies the type used for pixels.
    type Pixel: Copy;
    /// Should return one of ZX Spectrum pixel colors:
    /// ```text
    /// index color   index color
    ///   0 - black     8 - bright black (same as black)
    ///   1 - blue      9 - bright blue
    ///   2 - red      10 - bright red
    ///   3 - magenta  11 - bright magenta
    ///   4 - green    12 - bright green
    ///   5 - cyan     13 - bright cyan
    ///   6 - yellow   14 - bright yellow
    ///   7 - white    15 - bright white
    /// ```
    fn get_pixel(index: u8) -> Self::Pixel;
    /// Should return a grayscale pixel with the intensity of one of the ZX Spectrum colors: [0, 15].
    ///
    /// See [Palette::get_pixel] for color values.
    fn get_pixel_gray(index: u8) -> Self::Pixel;
    /// Should return one of ULAplus colors (`0bGGG_RRR_BB`).
    fn get_pixel_grb8(g3r3b2: u8) -> Self::Pixel;
    /// Should return a grayscale pixel (0 - black, 255 - full intensity white).
    fn get_pixel_gray8(value: u8) -> Self::Pixel;
}

/// The opaque alpha channel value.
pub const ALPHA_MAX: u8 = 255;

/// The ULAplus `0bGGG_RRR_BB` color of each of the 16 ZX Spectrum colors (only the lowest 4 bits
/// of `index` are used).
pub open spec fn spec_index_to_grb(index: u8) -> u8 {
    let i = index % 16;
    let level: u8 = if i < 8 { 5 } else { 7 };
    let blue: u8 = if i < 8 { 2 } else { 3 };
    let g: u8 = if (i / 4) % 2 == 1 { level } else { 0 };
    let r: u8 = if (i / 2) % 2 == 1 { level } else { 0 };
    let b: u8 = if i % 2 == 1 { blue } else { 0 };
    (g * 32 + r * 4 + b) as u8
}

/// Spreads a 3-bit color level `x` over 8 bits by repeating its bits.
pub open spec fn spec_expand3(x: u8) -> u8 {
    ((x << 5u8) | (x << 2u8) | (x >> 1u8)) as u8
}

/// The 8-bit red channel of a ULAplus `0bGGG_RRR_BB` color.
pub open spec fn spec_grb_2r(grb: u8) -> u8 {
    spec_expand3((grb >> 2u8) & 7)
}

/// The 8-bit green channel of a ULAplus `0bGGG_RRR_BB` color.
pub open spec fn spec_grb_2g(grb: u8) -> u8 {
    spec_expand3(grb >> 5u8)
}

/// The 8-bit blue channel of a ULAplus `0bGGG_RRR_BB` color: the 2 blue bits extended with a
/// lowest bit set when any of them is set.
pub open spec fn spec_grb_2b(grb: u8) -> u8 {
    let b2: u8 = grb & 3;
    spec_expand3(((b2 << 1u8) | (if b2 != 0 { 1u8 } else { 0u8 })) as u8)
}

/// The luminance of a color: `(13933 * r + 46871 * g + 4732 * b) / 65536`.
pub open spec fn spec_grayscale(r: u8, g: u8, b: u8) -> int {
    (13933 * r + 46871 * g + 4732 * b) / 65536
}

/// The luminance of a ULAplus `0bGGG_RRR_BB` color.
pub open spec fn spec_grb_gray(grb: u8) -> u8 {
    spec_grayscale(spec_grb_2r(grb), spec_grb_2g(grb), spec_grb_2b(grb)) as u8
}

/// Four 8-bit channels packed into a `u32`, `a` being the most significant.
pub open spec fn spec_pack_8888(a: u8, b: u8, c: u8, d: u8) -> u32 {
    (a * 0x100_0000 + b * 0x1_0000 + c * 0x100 + d) as u32
}

/// Three 8-bit channels packed into 5, 6 and 5 bits of a `u16`, `a` being the most significant.
pub open spec fn spec_pack_565(a: u8, b: u8, c: u8) -> u16 {
    ((a / 8) * 2048 + (b / 4) * 32 + c / 8) as u16
}

/// Three 8-bit channels packed into 3, 3 and 2 bits of a `u8`, `a` being the most significant.
pub open spec fn spec_pack_332(a: u8, b: u8, c: u8) -> u8 {
    ((a / 32) * 32 + (b / 32) * 4 + c / 64) as u8
}

/// Facts about the bit-level operations on `u8` used below.
proof fn lemma_pixel_u8_bits(grb: u8, b: u8, c: u8)
    by (bit_vector)
    ensures
        grb & 15 == grb % 16,
        ((grb >> 3u8) & 3) | (grb & 0b11100u8) | ((grb & 0b11100u8) << 3u8) == spec_expand3((grb >> 2u8) & 7),
        ((grb >> 6u8) & 3) | ((grb >> 3u8) & 0b11100u8) | (grb & 0b11100000u8) == spec_expand3(grb >> 5u8),
        (grb & 3) | ((grb << 3u8) & 0b11000u8) | (((grb << 2u8) | (grb << 1u8)) & 0b100u8)
            | ((grb << 6u8) & 0b11000000u8) | (((grb << 5u8) | (grb << 4u8)) & 0b100000u8) == spec_grb_2b(grb),
        ((grb >> 5u8) << 5u8) | ((b >> 5u8) << 2u8) | (c >> 6u8) == (grb / 32) * 32 + (b / 32) * 4 + c / 64,
{
}

/// Facts about the bit-level operations on `u16` used below.
proof fn lemma_pixel_u16_bits(a: u16, b: u16, c: u16)
    by (bit_vector)
    ensures
        a < 256 && b < 256 && c < 256 ==> ((a >> 3u16) << 11u16) | ((b >> 2u16) << 5u16) | (c >> 3u16)
            == (a / 8) * 2048 + (b / 4) * 32 + c / 8,
{
}

/// Facts about the bit-level operations on `u32` used below.
proof fn lemma_pixel_u32_bits(a: u32, b: u32, c: u32, d: u32, s: u32)
    by (bit_vector)
    ensures
        a < 256 && b < 256 && c < 256 && d < 256 ==> (a << 24u32) | (b << 16u32) | (c << 8u32) | d
            == a * 0x100_0000 + b * 0x1_0000 + c * 0x100 + d,
        s >> 16u32 == s / 65536,
{
}

/// Returns the ULAplus `0bGGG_RRR_BB` color of one of the 16 ZX Spectrum colors.
pub fn index_to_grb(index: u8) -> (r: u8)
    ensures r == spec_index_to_grb(index),
{
    proof { lemma_pixel_u8_bits(index, 0, 0); }
    match index & 15 {
        0 => 0b000_000_00,
        1 => 0b000_000_10,
        2 => 0b000_101_00,
        3 => 0b000_101_10,
        4 => 0b101_000_00,
        5 => 0b101_000_10,
        6 => 0b101_101_00,
        7 => 0b101_101_10,
        8 => 0b000_000_00,
        9 => 0b000_000_11,
        10 => 0b000_111_00,
        11 => 0b000_111_11,
        12 => 0b111_000_00,
        13 => 0b111_000_11,
        14 => 0b111_111_00,
        _ => 0b111_111_11,
    }
}

/// Returns the 8-bit red channel of a ULAplus `0bGGG_RRR_BB` color.
pub fn grb_2r(grb: u8) -> (r: u8)
    ensures r == spec_grb_2r(grb),
{
    proof { lemma_pixel_u8_bits(grb, 0, 0); }
    ((grb >> 3) & 3) | (grb & 0b11100) | ((grb & 0b11100) << 3)
}

/// Returns the 8-bit green channel of a ULAplus `0bGGG_RRR_BB` color.
pub fn grb_2g(grb: u8) -> (r: u8)
    ensures r == spec_grb_2g(grb),
{
    proof { lemma_pixel_u8_bits(grb, 0, 0); }
    ((grb >> 6) & 3) | ((grb >> 3) & 0b11100) | (grb & 0b11100000)
}

/// Returns the 8-bit blue channel of a ULAplus `0bGGG_RRR_BB` color.
pub fn grb_2b(grb: u8) -> (r: u8)
    ensures r == spec_grb_2b(grb),
{
    proof { lemma_pixel_u8_bits(grb, 0, 0); }
    (grb & 3) | ((grb << 3) & 0b11000) | (((grb << 2) | (grb << 1)) & 0b100) | ((grb << 6) & 0b11000000)
        | (((grb << 5) | (grb << 4)) & 0b100000)
}

/// Packs four 8-bit channels into a `u32`, `a` being the most significant.
pub fn pack_8888(a: u8, b: u8, c: u8, d: u8) -> (r: u32)
    ensures r == spec_pack_8888(a, b, c, d),
{
    let (a, b, c, d) = (a as u32, b as u32, c as u32, d as u32);
    proof { lemma_pixel_u32_bits(a, b, c, d, 0); }
    (a << 24) | (b << 16) | (c << 8) | d
}

/// Packs three 8-bit channels into 5, 6 and 5 bits of a `u16`, `a` being the most significant.
pub fn pack_565(a: u8, b: u8, c: u8) -> (r: u16)
    ensures r == spec_pack_565(a, b, c),
{
    let (a, b, c) = (a as u16, b as u16, c as u16);
    proof { lemma_pixel_u16_bits(a, b, c); }
    ((a >> 3) << 11) | ((b >> 2) << 5) | (c >> 3)
}

/// Packs three 8-bit channels into 3, 3 and 2 bits of a `u8`, `a` being the most significant.
pub fn pack_332(a: u8, b: u8, c: u8) -> (r: u8)
    ensures r == spec_pack_332(a, b, c),
{
    proof { lemma_pixel_u8_bits(a, b, c); }
    ((a >> 5) << 5) | ((b >> 5) << 2) | (c >> 6)
}

/// Returns the luminance of a color: `(13933 * r + 46871 * g + 4732 * b) / 65536`.
pub fn grayscale(r: u8, g: u8, b: u8) -> (y: u8)
    ensures y == spec_grayscale(r, g, b),
{
    let s: u32 = 13933 * r as u32 + 46871 * g as u32 + 4732 * b as u32;
    proof { lemma_pixel_u32_bits(0, 0, 0, 0, s); }
    (s >> 16) as u8
}

/// Returns the luminance of a ULAplus `0bGGG_RRR_BB` color.
pub fn grb_gray(grb: u8) -> (y: u8)
    ensures y == spec_grb_gray(grb),
{
    grayscale(grb_2r(grb), grb_2g(grb), grb_2b(grb))
}

/// The `RGB24` pixel with the given 8-bit red, green and blue channels.
pub open spec fn spec_px_rgb24(r: u8, g: u8, b: u8) -> Seq<u8> {
    seq![r, g, b]
}

/// The `RGBA32` pixel with the given 8-bit red, green and blue channels.
pub open spec fn spec_px_rgba32(r: u8, g: u8, b: u8) -> Seq<u8> {
    seq![r, g, b, 255u8]
}

/// The `ARGB32` pixel with the given 8-bit red, green and blue channels.
pub open spec fn spec_px_argb32(r: u8, g: u8, b: u8) -> Seq<u8> {
    seq![255u8, r, g, b]
}

/// The `A8R8G8B8` pixel with the given 8-bit red, green and blue channels.
pub open spec fn spec_px_a8r8g8b8(r: u8, g: u8, b: u8) -> u32 {
    spec_pack_8888(255, r, g, b)
}

/// The `R8G8B8A8` pixel with the given 8-bit red, green and blue channels.
pub open spec fn spec_px_r8g8b8a8(r: u8, g: u8, b: u8) -> u32 {
    spec_pack_8888(r, g, b, 255)
}

/// The `R5G6B5` pixel with the given 8-bit red, green and blue channels.
pub open spec fn spec_px_r5g6b5(r: u8, g: u8, b: u8) -> u16 {
    spec_pack_565(r, g, b)
}

/// The `R3G3B2` pixel with the given 8-bit red, green and blue channels.
pub open spec fn spec_px_r3g3b2(r: u8, g: u8, b: u8) -> u8 {
    spec_pack_332(r, g, b)
}

/// A color ZX Spectrum [Palette] implementation of the `RGB24` pixel format (to be used with `PixelBufA24`).
pub struct SpectrumPalRGB24;

impl Palette for SpectrumPalRGB24 {
    type Pixel = [u8; 3];

    fn get_pixel(index: u8) -> (r: [u8; 3])
        ensures r@ == spec_px_rgb24(spec_grb_2r(spec_index_to_grb(index)), spec_grb_2g(spec_index_to_grb(index)), spec_grb_2b(spec_index_to_grb(index))),
    {
        Self::get_pixel_grb8(index_to_grb(index))
    }

    fn get_pixel_gray(index: u8) -> (r: [u8; 3])
        ensures
            r@ == spec_px_rgb24(spec_grb_gray(spec_index_to_grb(index)), spec_grb_gray(spec_index_to_grb(index)),
                spec_grb_gray(spec_index_to_grb(index))),
    {
        let v = grb_gray(index_to_grb(index));
        [v, v, v]
    }

    fn get_pixel_grb8(g3r3b2: u8) -> (r: [u8; 3])
        ensures r@ == spec_px_rgb24(spec_grb_2r(g3r3b2), spec_grb_2g(g3r3b2), spec_grb_2b(g3r3b2)),
    {
        let (r, g, b) = (grb_2r(g3r3b2), grb_2g(g3r3b2), grb_2b(g3r3b2));
        [r, g, b]
    }

    fn get_pixel_gray8(value: u8) -> (r: [u8; 3])
        ensures r@ == spec_px_rgb24(value, value, value),
    {
        [value, value, value]
    }
}

/// A color ZX Spectrum [Palette] implementation of the `RGBA32` pixel format (to be used with `PixelBufA32`).
pub struct SpectrumPalRGBA32;

impl Palette for SpectrumPalRGBA32 {
    type Pixel = [u8; 4];

    fn get_pixel(index: u8) -> (r: [u8; 4])
        ensures r@ == spec_px_rgba32(spec_grb_2r(spec_index_to_grb(index)), spec_grb_2g(spec_index_to_grb(index)), spec_grb_2b(spec_index_to_grb(index))),
    {
        Self::get_pixel_grb8(index_to_grb(index))
    }

    fn get_pixel_gray(index: u8) -> (r: [u8; 4])
        ensures
            r@ == spec_px_rgba32(spec_grb_gray(spec_index_to_grb(index)), spec_grb_gray(spec_index_to_grb(index)),
                spec_grb_gray(spec_index_to_grb(index))),
    {
        let v = grb_gray(index_to_grb(index));
        [v, v, v, ALPHA_MAX]
    }

    fn get_pixel_grb8(g3r3b2: u8) -> (r: [u8; 4])
        ensures r@ == spec_px_rgba32(spec_grb_2r(g3r3b2), spec_grb_2g(g3r3b2), spec_grb_2b(g3r3b2)),
    {
        let (r, g, b) = (grb_2r(g3r3b2), grb_2g(g3r3b2), grb_2b(g3r3b2));
        [r, g, b, ALPHA_MAX]
    }

    fn get_pixel_gray8(value: u8) -> (r: [u8; 4])
        ensures r@ == spec_px_rgba32(value, value, value),
    {
        [value, value, value, ALPHA_MAX]
    }
}

/// A color ZX Spectrum [Palette] implementation of the `ARGB32` pixel format (to be used with `PixelBufA32`).
pub struct SpectrumPalARGB32;

impl Palette for SpectrumPalARGB32 {
    type Pixel = [u8; 4];

    fn get_pixel(index: u8) -> (r: [u8; 4])
        ensures r@ == spec_px_argb32(spec_grb_2r(spec_index_to_grb(index)), spec_grb_2g(spec_index_to_grb(index)), spec_grb_2b(spec_index_to_grb(index))),
    {
        Self::get_pixel_grb8(index_to_grb(index))
    }

    fn get_pixel_gray(index: u8) -> (r: [u8; 4])
        ensures
            r@ == spec_px_argb32(spec_grb_gray(spec_index_to_grb(index)), spec_grb_gray(spec_index_to_grb(index)),
                spec_grb_gray(spec_index_to_grb(index))),
    {
        let v = grb_gray(index_to_grb(index));
        [ALPHA_MAX, v, v, v]
    }

    fn get_pixel_grb8(g3r3b2: u8) -> (r: [u8; 4])
        ensures r@ == spec_px_argb32(spec_grb_2r(g3r3b2), spec_grb_2g(g3r3b2), spec_grb_2b(g3r3b2)),
    {
        let (r, g, b) = (grb_2r(g3r3b2), grb_2g(g3r3b2), grb_2b(g3r3b2));
        [ALPHA_MAX, r, g, b]
    }

    fn get_pixel_gray8(value: u8) -> (r: [u8; 4])
        ensures r@ == spec_px_argb32(value, value, value),
    {
        [ALPHA_MAX, value, value, value]
    }
}

/// A color ZX Spectrum [Palette] implementation of the `A8R8G8B8` pixel format (to be used with `PixelBufP32`).
pub struct SpectrumPalA8R8G8B8;

impl Palette for SpectrumPalA8R8G8B8 {
    type Pixel = u32;

    fn get_pixel(index: u8) -> (r: u32)
        ensures r == spec_px_a8r8g8b8(spec_grb_2r(spec_index_to_grb(index)), spec_grb_2g(spec_index_to_grb(index)), spec_grb_2b(spec_index_to_grb(index))),
    {
        Self::get_pixel_grb8(index_to_grb(index))
    }

    fn get_pixel_gray(index: u8) -> (r: u32)
        ensures
            r == spec_px_a8r8g8b8(spec_grb_gray(spec_index_to_grb(index)), spec_grb_gray(spec_index_to_grb(index)),
                spec_grb_gray(spec_index_to_grb(index))),
    {
        let v = grb_gray(index_to_grb(index));
        pack_8888(ALPHA_MAX, v, v, v)
    }

    fn get_pixel_grb8(g3r3b2: u8) -> (r: u32)
        ensures r == spec_px_a8r8g8b8(spec_grb_2r(g3r3b2), spec_grb_2g(g3r3b2), spec_grb_2b(g3r3b2)),
    {
        let (r, g, b) = (grb_2r(g3r3b2), grb_2g(g3r3b2), grb_2b(g3r3b2));
        pack_8888(ALPHA_MAX, r, g, b)
    }

    fn get_pixel_gray8(value: u8) -> (r: u32)
        ensures r == spec_px_a8r8g8b8(value, value, value),
    {
        pack_8888(ALPHA_MAX, value, value, value)
    }
}

/// A color ZX Spectrum [Palette] implementation of the `R8G8B8A8` pixel format (to be used with `PixelBufP32`).
pub struct SpectrumPalR8G8B8A8;

impl Palette for SpectrumPalR8G8B8A8 {
    type Pixel = u32;

    fn get_pixel(index: u8) -> (r: u32)
        ensures r == spec_px_r8g8b8a8(spec_grb_2r(spec_index_to_grb(index)), spec_grb_2g(spec_index_to_grb(index)), spec_grb_2b(spec_index_to_grb(index))),
    {
        Self::get_pixel_grb8(index_to_grb(index))
    }

    fn get_pixel_gray(index: u8) -> (r: u32)
        ensures
            r == spec_px_r8g8b8a8(spec_grb_gray(spec_index_to_grb(index)), spec_grb_gray(spec_index_to_grb(index)),
                spec_grb_gray(spec_index_to_grb(index))),
    {
        let v = grb_gray(index_to_grb(index));
        pack_8888(v, v, v, ALPHA_MAX)
    }

    fn get_pixel_grb8(g3r3b2: u8) -> (r: u32)
        ensures r == spec_px_r8g8b8a8(spec_grb_2r(g3r3b2), spec_grb_2g(g3r3b2), spec_grb_2b(g3r3b2)),
    {
        let (r, g, b) = (grb_2r(g3r3b2), grb_2g(g3r3b2), grb_2b(g3r3b2));
        pack_8888(r, g, b, ALPHA_MAX)
    }

    fn get_pixel_gray8(value: u8) -> (r: u32)
        ensures r == spec_px_r8g8b8a8(value, value, value),
    {
        pack_8888(value, value, value, ALPHA_MAX)
    }
}

/// A color ZX Spectrum [Palette] implementation of the `R5G6B5` pixel format (to be used with `PixelBufP16`).
pub struct SpectrumPalR5G6B5;

impl Palette for SpectrumPalR5G6B5 {
    type Pixel = u16;

    fn get_pixel(index: u8) -> (r: u16)
        ensures r == spec_px_r5g6b5(spec_grb_2r(spec_index_to_grb(index)), spec_grb_2g(spec_index_to_grb(index)), spec_grb_2b(spec_index_to_grb(index))),
    {
        Self::get_pixel_grb8(index_to_grb(index))
    }

    fn get_pixel_gray(index: u8) -> (r: u16)
        ensures
            r == spec_px_r5g6b5(spec_grb_gray(spec_index_to_grb(index)), spec_grb_gray(spec_index_to_grb(index)),
                spec_grb_gray(spec_index_to_grb(index))),
    {
        let v = grb_gray(index_to_grb(index));
        pack_565(v, v, v)
    }

    fn get_pixel_grb8(g3r3b2: u8) -> (r: u16)
        ensures r == spec_px_r5g6b5(spec_grb_2r(g3r3b2), spec_grb_2g(g3r3b2), spec_grb_2b(g3r3b2)),
    {
        let (r, g, b) = (grb_2r(g3r3b2), grb_2g(g3r3b2), grb_2b(g3r3b2));
        pack_565(r, g, b)
    }

    fn get_pixel_gray8(value: u8) -> (r: u16)
        ensures r == spec_px_r5g6b5(value, value, value),
    {
        pack_565(value, value, value)
    }
}

/// A color ZX Spectrum [Palette] implementation of the `R3G3B2` pixel format (to be used with `PixelBufP8`).
pub struct SpectrumPalR3G3B2;

impl Palette for SpectrumPalR3G3B2 {
    type Pixel = u8;

    fn get_pixel(index: u8) -> (r: u8)
        ensures r == spec_px_r3g3b2(spec_grb_2r(spec_index_to_grb(index)), spec_grb_2g(spec_index_to_grb(index)), spec_grb_2b(spec_index_to_grb(index))),
    {
        Self::get_pixel_grb8(index_to_grb(index))
    }

    fn get_pixel_gray(index: u8) -> (r: u8)
        ensures
            r == spec_px_r3g3b2(spec_grb_gray(spec_index_to_grb(index)), spec_grb_gray(spec_index_to_grb(index)),
                spec_grb_gray(spec_index_to_grb(index))),
    {
        let v = grb_gray(index_to_grb(index));
        pack_332(v, v, v)
    }

    fn get_pixel_grb8(g3r3b2: u8) -> (r: u8)
        ensures r == spec_px_r3g3b2(spec_grb_2r(g3r3b2), spec_grb_2g(g3r3b2), spec_grb_2b(g3r3b2)),
    {
        let (r, g, b) = (grb_2r(g3r3b2), grb_2g(g3r3b2), grb_2b(g3r3b2));
        pack_332(r, g, b)
    }

    fn get_pixel_gray8(value: u8) -> (r: u8)
        ensures r == spec_px_r3g3b2(value, value, value),
    {
        pack_332(value, value, value)
    }
}

/// A grayscale ZX Spectrum [Palette] implementation of the `RGB24` pixel format (to be used with `PixelBufA24`).
pub struct GrayscalePalRGB24;

impl Palette for GrayscalePalRGB24 {
    type Pixel = [u8; 3];

    fn get_pixel(index: u8) -> (r: [u8; 3])
        ensures r@ == spec_px_rgb24(spec_grb_gray(spec_index_to_grb(index)), spec_grb_gray(spec_index_to_grb(index)), spec_grb_gray(spec_index_to_grb(index))),
    {
        Self::get_pixel_grb8(index_to_grb(index))
    }

    fn get_pixel_gray(index: u8) -> (r: [u8; 3])
        ensures
            r@ == spec_px_rgb24(spec_grb_gray(spec_index_to_grb(index)), spec_grb_gray(spec_index_to_grb(index)),
                spec_grb_gray(spec_index_to_grb(index))),
    {
        let v = grb_gray(index_to_grb(index));
        [v, v, v]
    }

    fn get_pixel_grb8(g3r3b2: u8) -> (r: [u8; 3])
        ensures r@ == spec_px_rgb24(spec_grb_gray(g3r3b2), spec_grb_gray(g3r3b2), spec_grb_gray(g3r3b2)),
    {
        let v = grb_gray(g3r3b2);
        [v, v, v]
    }

    fn get_pixel_gray8(value: u8) -> (r: [u8; 3])
        ensures r@ == spec_px_rgb24(value, value, value),
    {
        [value, value, value]
    }
}

/// A grayscale ZX Spectrum [Palette] implementation of the `RGBA32` pixel format (to be used with `PixelBufA32`).
pub struct GrayscalePalRGBA32;

impl Palette for GrayscalePalRGBA32 {
    type Pixel = [u8; 4];

    fn get_pixel(index: u8) -> (r: [u8; 4])
        ensures r@ == spec_px_rgba32(spec_grb_gray(spec_index_to_grb(index)), spec_grb_gray(spec_index_to_grb(index)), spec_grb_gray(spec_index_to_grb(index))),
    {
        Self::get_pixel_grb8(index_to_grb(index))
    }

    fn get_pixel_gray(index: u8) -> (r: [u8; 4])
        ensures
            r@ == spec_px_rgba32(spec_grb_gray(spec_index_to_grb(index)), spec_grb_gray(spec_index_to_grb(index)),
                spec_grb_gray(spec_index_to_grb(index))),
    {
        let v = grb_gray(index_to_grb(index));
        [v, v, v, ALPHA_MAX]
    }

    fn get_pixel_grb8(g3r3b2: u8) -> (r: [u8; 4])
        ensures r@ == spec_px_rgba32(spec_grb_gray(g3r3b2), spec_grb_gray(g3r3b2), spec_grb_gray(g3r3b2)),
    {
        let v = grb_gray(g3r3b2);
        [v, v, v, ALPHA_MAX]
    }

    fn get_pixel_gray8(value: u8) -> (r: [u8; 4])
        ensures r@ == spec_px_rgba32(value, value, value),
    {
        [value, value, value, ALPHA_MAX]
    }
}

/// A grayscale ZX Spectrum [Palette] implementation of the `ARGB32` pixel format (to be used with `PixelBufA32`).
pub struct GrayscalePalARGB32;

impl Palette for GrayscalePalARGB32 {
    type Pixel = [u8; 4];

    fn get_pixel(index: u8) -> (r: [u8; 4])
        ensures r@ == spec_px_argb32(spec_grb_gray(spec_index_to_grb(index)), spec_grb_gray(spec_index_to_grb(index)), spec_grb_gray(spec_index_to_grb(index))),
    {
        Self::get_pixel_grb8(index_to_grb(index))
    }

    fn get_pixel_gray(index: u8) -> (r: [u8; 4])
        ensures
            r@ == spec_px_argb32(spec_grb_gray(spec_index_to_grb(index)), spec_grb_gray(spec_index_to_grb(index)),
                spec_grb_gray(spec_index_to_grb(index))),
    {
        let v = grb_gray(index_to_grb(index));
        [ALPHA_MAX, v, v, v]
    }

    fn get_pixel_grb8(g3r3b2: u8) -> (r: [u8; 4])
        ensures r@ == spec_px_argb32(spec_grb_gray(g3r3b2), spec_grb_gray(g3r3b2), spec_grb_gray(g3r3b2)),
    {
        let v = grb_gray(g3r3b2);
        [ALPHA_MAX, v, v, v]
    }

    fn get_pixel_gray8(value: u8) -> (r: [u8; 4])
        ensures r@ == spec_px_argb32(value, value, value),
    {
        [ALPHA_MAX, value, value, value]
    }
}

/// A grayscale ZX Spectrum [Palette] implementation of the `A8R8G8B8` pixel format (to be used with `PixelBufP32`).
pub struct GrayscalePalA8R8G8B8;

impl Palette for GrayscalePalA8R8G8B8 {
    type Pixel = u32;

    fn get_pixel(index: u8) -> (r: u32)
        ensures r == spec_px_a8r8g8b8(spec_grb_gray(spec_index_to_grb(index)), spec_grb_gray(spec_index_to_grb(index)), spec_grb_gray(spec_index_to_grb(index))),
    {
        Self::get_pixel_grb8(index_to_grb(index))
    }

    fn get_pixel_gray(index: u8) -> (r: u32)
        ensures
            r == spec_px_a8r8g8b8(spec_grb_gray(spec_index_to_grb(index)), spec_grb_gray(spec_index_to_grb(index)),
                spec_grb_gray(spec_index_to_grb(index))),
    {
        let v = grb_gray(index_to_grb(index));
        pack_8888(ALPHA_MAX, v, v, v)
    }

    fn get_pixel_grb8(g3r3b2: u8) -> (r: u32)
        ensures r == spec_px_a8r8g8b8(spec_grb_gray(g3r3b2), spec_grb_gray(g3r3b2), spec_grb_gray(g3r3b2)),
    {
        let v = grb_gray(g3r3b2);
        pack_8888(ALPHA_MAX, v, v, v)
    }

    fn get_pixel_gray8(value: u8) -> (r: u32)
        ensures r == spec_px_a8r8g8b8(value, value, value),
    {
        pack_8888(ALPHA_MAX, value, value, value)
    }
}

/// A grayscale ZX Spectrum [Palette] implementation of the `R8G8B8A8` pixel format (to be used with `PixelBufP32`).
pub struct GrayscalePalR8G8B8A8;

impl Palette for GrayscalePalR8G8B8A8 {
    type Pixel = u32;

    fn get_pixel(index: u8) -> (r: u32)
        ensures r == spec_px_r8g8b8a8(spec_grb_gray(spec_index_to_grb(index)), spec_grb_gray(spec_index_to_grb(index)), spec_grb_gray(spec_index_to_grb(index))),
    {
        Self::get_pixel_grb8(index_to_grb(index))
    }

    fn get_pixel_gray(index: u8) -> (r: u32)
        ensures
            r == spec_px_r8g8b8a8(spec_grb_gray(spec_index_to_grb(index)), spec_grb_gray(spec_index_to_grb(index)),
                spec_grb_gray(spec_index_to_grb(index))),
    {
        let v = grb_gray(index_to_grb(index));
        pack_8888(v, v, v, ALPHA_MAX)
    }

    fn get_pixel_grb8(g3r3b2: u8) -> (r: u32)
        ensures r == spec_px_r8g8b8a8(spec_grb_gray(g3r3b2), spec_grb_gray(g3r3b2), spec_grb_gray(g3r3b2)),
    {
        let v = grb_gray(g3r3b2);
        pack_8888(v, v, v, ALPHA_MAX)
    }

    fn get_pixel_gray8(value: u8) -> (r: u32)
        ensures r == spec_px_r8g8b8a8(value, value, value),
    {
        pack_8888(value, value, value, ALPHA_MAX)
    }
}

/// A grayscale ZX Spectrum [Palette] implementation of the `R5G6B5` pixel format (to be used with `PixelBufP16`).
pub struct GrayscalePalR5G6B5;

impl Palette for GrayscalePalR5G6B5 {
    type Pixel = u16;

    fn get_pixel(index: u8) -> (r: u16)
        ensures r == spec_px_r5g6b5(spec_grb_gray(spec_index_to_grb(index)), spec_grb_gray(spec_index_to_grb(index)), spec_grb_gray(spec_index_to_grb(index))),
    {
        Self::get_pixel_grb8(index_to_grb(index))
    }

    fn get_pixel_gray(index: u8) -> (r: u16)
        ensures
            r == spec_px_r5g6b5(spec_grb_gray(spec_index_to_grb(index)), spec_grb_gray(spec_index_to_grb(index)),
                spec_grb_gray(spec_index_to_grb(index))),
    {
        let v = grb_gray(index_to_grb(index));
        pack_565(v, v, v)
    }

    fn get_pixel_grb8(g3r3b2: u8) -> (r: u16)
        ensures r == spec_px_r5g6b5(spec_grb_gray(g3r3b2), spec_grb_gray(g3r3b2), spec_grb_gray(g3r3b2)),
    {
        let v = grb_gray(g3r3b2);
        pack_565(v, v, v)
    }

    fn get_pixel_gray8(value: u8) -> (r: u16)
        ensures r == spec_px_r5g6b5(value, value, value),
    {
        pack_565(value, value, value)
    }
}

/// A grayscale ZX Spectrum [Palette] implementation of the `R3G3B2` pixel format (to be used with `PixelBufP8`).
pub struct GrayscalePalR3G3B2;

impl Palette for GrayscalePalR3G3B2 {
    type Pixel = u8;

    fn get_pixel(index: u8) -> (r: u8)
        ensures r == spec_px_r3g3b2(spec_grb_gray(spec_index_to_grb(index)), spec_grb_gray(spec_index_to_grb(index)), spec_grb_gray(spec_index_to_grb(index))),
    {
        Self::get_pixel_grb8(index_to_grb(index))
    }

    fn get_pixel_gray(index: u8) -> (r: u8)
        ensures
            r == spec_px_r3g3b2(spec_grb_gray(spec_index_to_grb(index)), spec_grb_gray(spec_index_to_grb(index)),
                spec_grb_gray(spec_index_to_grb(index))),
    {
        let v = grb_gray(index_to_grb(index));
        pack_332(v, v, v)
    }

    fn get_pixel_grb8(g3r3b2: u8) -> (r: u8)
        ensures r == spec_px_r3g3b2(spec_grb_gray(g3r3b2), spec_grb_gray(g3r3b2), spec_grb_gray(g3r3b2)),
    {
        let v = grb_gray(g3r3b2);
        pack_332(v, v, v)
    }

    fn get_pixel_gray8(value: u8) -> (r: u8)
        ensures r == spec_px_r3g3b2(value, value, value),
    {
        pack_332(value, value, value)
    }
}

} // verus!
