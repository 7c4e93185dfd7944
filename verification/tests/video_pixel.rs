use spectrusty::video::pixel::{
    grb_gray, Palette, PixelBufA24, PixelBufA32, PixelBufP16, PixelBufP32, PixelBufP8, PixelBuffer,
    SpectrumPalRGB24, SpectrumPalRGBA32, SpectrumPalARGB32, SpectrumPalA8R8G8B8,
    SpectrumPalR8G8B8A8, SpectrumPalR5G6B5, SpectrumPalR3G3B2, GrayscalePalRGB24, GrayscalePalRGBA32,
    GrayscalePalARGB32, GrayscalePalA8R8G8B8, GrayscalePalR8G8B8A8, GrayscalePalR5G6B5, GrayscalePalR3G3B2,
};

#[test]
fn pixel_palette_works() {
    for i in (0..=255).step_by(16) {
        assert_eq!(SpectrumPalRGB24::get_pixel(i + 0),  [         0,          0,          0]);
        assert_eq!(SpectrumPalRGB24::get_pixel(i + 1),  [         0,          0, 0b10110110]);
        assert_eq!(SpectrumPalRGB24::get_pixel(i + 2),  [0b10110110,          0,          0]);
        assert_eq!(SpectrumPalRGB24::get_pixel(i + 3),  [0b10110110,          0, 0b10110110]);
        assert_eq!(SpectrumPalRGB24::get_pixel(i + 4),  [         0, 0b10110110,          0]);
        assert_eq!(SpectrumPalRGB24::get_pixel(i + 5),  [         0, 0b10110110, 0b10110110]);
        assert_eq!(SpectrumPalRGB24::get_pixel(i + 6),  [0b10110110, 0b10110110,          0]);
        assert_eq!(SpectrumPalRGB24::get_pixel(i + 7),  [0b10110110, 0b10110110, 0b10110110]);
        assert_eq!(SpectrumPalRGB24::get_pixel(i + 8),  [         0,          0,          0]);
        assert_eq!(SpectrumPalRGB24::get_pixel(i + 9),  [         0,          0, 0b11111111]);
        assert_eq!(SpectrumPalRGB24::get_pixel(i + 10), [0b11111111,          0,          0]);
        assert_eq!(SpectrumPalRGB24::get_pixel(i + 11), [0b11111111,          0, 0b11111111]);
        assert_eq!(SpectrumPalRGB24::get_pixel(i + 12), [         0, 0b11111111,          0]);
        assert_eq!(SpectrumPalRGB24::get_pixel(i + 13), [         0, 0b11111111, 0b11111111]);
        assert_eq!(SpectrumPalRGB24::get_pixel(i + 14), [0b11111111, 0b11111111,          0]);
        assert_eq!(SpectrumPalRGB24::get_pixel(i + 15), [0b11111111, 0b11111111, 0b11111111]);

        assert_eq!(GrayscalePalRGB24::get_pixel(i + 0),  [  0,  0,  0]);
        assert_eq!(GrayscalePalRGB24::get_pixel(i + 1),  [ 13, 13, 13]);
        assert_eq!(GrayscalePalRGB24::get_pixel(i + 2),  [ 38, 38, 38]);
        assert_eq!(GrayscalePalRGB24::get_pixel(i + 3),  [ 51, 51, 51]);
        assert_eq!(GrayscalePalRGB24::get_pixel(i + 4),  [130,130,130]);
        assert_eq!(GrayscalePalRGB24::get_pixel(i + 5),  [143,143,143]);
        assert_eq!(GrayscalePalRGB24::get_pixel(i + 6),  [168,168,168]);
        assert_eq!(GrayscalePalRGB24::get_pixel(i + 7),  [182,182,182]);
        assert_eq!(GrayscalePalRGB24::get_pixel(i + 8),  [  0,  0,  0]);
        assert_eq!(GrayscalePalRGB24::get_pixel(i + 9),  [ 18, 18, 18]);
        assert_eq!(GrayscalePalRGB24::get_pixel(i + 10), [ 54, 54, 54]);
        assert_eq!(GrayscalePalRGB24::get_pixel(i + 11), [ 72, 72, 72]);
        assert_eq!(GrayscalePalRGB24::get_pixel(i + 12), [182,182,182]);
        assert_eq!(GrayscalePalRGB24::get_pixel(i + 13), [200,200,200]);
        assert_eq!(GrayscalePalRGB24::get_pixel(i + 14), [236,236,236]);
        assert_eq!(GrayscalePalRGB24::get_pixel(i + 15), [255,255,255]);
    }
}

#[test]
fn pixel_palette_grb_works() {
    assert_eq!(SpectrumPalRGB24::get_pixel_grb8(0), [0, 0, 0]);
    assert_eq!(SpectrumPalRGB24::get_pixel_grb8(0b000_001_00), [0b00100100, 0, 0]);
    assert_eq!(SpectrumPalRGB24::get_pixel_grb8(0b001_010_00), [0b01001001, 0b00100100, 0]);
    assert_eq!(SpectrumPalRGB24::get_pixel_grb8(1), [0, 0, 0b01101101]);
    assert_eq!(SpectrumPalRGB24::get_pixel_grb8(0b000_101_01), [0b10110110, 0, 0b01101101]);
    assert_eq!(SpectrumPalRGB24::get_pixel_grb8(0b110_111_01), [0b11111111, 0b11011011, 0b01101101]);
    assert_eq!(SpectrumPalRGB24::get_pixel_grb8(2), [0, 0, 0b10110110]);
    assert_eq!(SpectrumPalRGB24::get_pixel_grb8(0b011_011_10), [0b01101101, 0b01101101, 0b10110110]);
    assert_eq!(SpectrumPalRGB24::get_pixel_grb8(3), [0, 0, 0b11111111]);
    assert_eq!(SpectrumPalRGB24::get_pixel_grb8(255), [255, 255, 255]);
    assert_eq!(SpectrumPalRGBA32::get_pixel_grb8(0), [0, 0, 0, 255]);
    assert_eq!(SpectrumPalRGBA32::get_pixel_grb8(0b111_011_01), [0b01101101, 0b11111111, 0b01101101, 255]);
    assert_eq!(SpectrumPalRGBA32::get_pixel_grb8(255), [255, 255, 255, 255]);
    assert_eq!(SpectrumPalARGB32::get_pixel_grb8(0), [255, 0, 0, 0]);
    assert_eq!(SpectrumPalARGB32::get_pixel_grb8(0b111_011_01), [255, 0b01101101, 0b11111111, 0b01101101]);
    assert_eq!(SpectrumPalARGB32::get_pixel_grb8(255), [255, 255, 255, 255]);
    assert_eq!(SpectrumPalR8G8B8A8::get_pixel_grb8(0), 255);
    assert_eq!(SpectrumPalR8G8B8A8::get_pixel_grb8(0b111_011_01), 0b01101101_11111111_01101101_11111111);
    assert_eq!(SpectrumPalR8G8B8A8::get_pixel_grb8(255), 0xffff_ffff);
    assert_eq!(SpectrumPalA8R8G8B8::get_pixel_grb8(0), 0xff00_0000);
    assert_eq!(SpectrumPalA8R8G8B8::get_pixel_grb8(0b111_011_01), 0b11111111_01101101_11111111_01101101);
    assert_eq!(SpectrumPalA8R8G8B8::get_pixel_grb8(255), 0xffff_ffff);
    assert_eq!(SpectrumPalR5G6B5::get_pixel_grb8(0), 0);
    assert_eq!(SpectrumPalR5G6B5::get_pixel_grb8(0b111_011_01), 0b01101_111111_01101);
    assert_eq!(SpectrumPalR5G6B5::get_pixel_grb8(255), 0xffff);
    assert_eq!(SpectrumPalR3G3B2::get_pixel_grb8(0), 0);
    assert_eq!(SpectrumPalR3G3B2::get_pixel_grb8(0b111_011_01), 0b011_111_01);
    assert_eq!(SpectrumPalR3G3B2::get_pixel_grb8(255), 0xff);
}

#[test]
fn pixel_palette_gray_works() {
    let grayscale_u16 = |v| (((v as u16) >> 3) << 11)|(((v as u16) >> 2) << 5)|((v as u16) >> 3);
    let grayscale_u8 = |v| ((v >> 5) << 5)|((v >> 5) << 2)|(v >> 6);
    for i in 0..=255u8 {
        let v = grb_gray(i);
        assert_eq!(SpectrumPalRGB24::get_pixel_gray8(i), [i, i, i]);
        assert_eq!(GrayscalePalRGB24::get_pixel_gray8(i), [i, i, i]);
        assert_eq!(GrayscalePalRGB24::get_pixel_grb8(i), [v, v, v]);
        assert_eq!(SpectrumPalRGBA32::get_pixel_gray8(i), [i, i, i, 255]);
        assert_eq!(GrayscalePalRGBA32::get_pixel_gray8(i), [i, i, i, 255]);
        assert_eq!(GrayscalePalRGBA32::get_pixel_grb8(i), [v, v, v, 255]);
        assert_eq!(SpectrumPalARGB32::get_pixel_gray8(i), [255, i, i, i]);
        assert_eq!(GrayscalePalARGB32::get_pixel_gray8(i), [255, i, i, i]);
        assert_eq!(GrayscalePalARGB32::get_pixel_grb8(i), [255, v, v, v]);
        assert_eq!(SpectrumPalA8R8G8B8::get_pixel_gray8(i), u32::from_be_bytes([255, i, i, i]));
        assert_eq!(GrayscalePalA8R8G8B8::get_pixel_gray8(i), u32::from_be_bytes([255, i, i, i]));
        assert_eq!(GrayscalePalA8R8G8B8::get_pixel_grb8(i), u32::from_be_bytes([255, v, v, v]));
        assert_eq!(SpectrumPalR8G8B8A8::get_pixel_gray8(i), u32::from_be_bytes([i, i, i, 255]));
        assert_eq!(GrayscalePalR8G8B8A8::get_pixel_gray8(i), u32::from_be_bytes([i, i, i, 255]));
        assert_eq!(GrayscalePalR8G8B8A8::get_pixel_grb8(i), u32::from_be_bytes([v, v, v, 255]));
        assert_eq!(SpectrumPalR5G6B5::get_pixel_gray8(i), grayscale_u16(i));
        assert_eq!(GrayscalePalR5G6B5::get_pixel_gray8(i), grayscale_u16(i));
        assert_eq!(GrayscalePalR5G6B5::get_pixel_grb8(i), grayscale_u16(v));
        assert_eq!(SpectrumPalR3G3B2::get_pixel_gray8(i), grayscale_u8(i));
        assert_eq!(GrayscalePalR3G3B2::get_pixel_gray8(i), grayscale_u8(i));
        assert_eq!(GrayscalePalR3G3B2::get_pixel_grb8(i), grayscale_u8(v));
    }
}

#[test]
fn pixel_buffers_fill_lines_from_their_start() {
    let mut line = [0u8; 7];
    {
        let mut buf = PixelBufA24::from_line(&mut line);
        buf.put_pixel([1, 2, 3]);
        buf.put_pixels([4, 5, 6], 2);
    }
    assert_eq!(line, [1, 2, 3, 4, 5, 6, 0]);
    let mut line = [0u8; 9];
    {
        let mut buf = PixelBufA32::from_line(&mut line);
        buf.put_pixels([9, 8, 7, 6], 3);
    }
    assert_eq!(line, [9, 8, 7, 6, 9, 8, 7, 6, 0]);
    let mut line = [0u8; 8];
    {
        let mut buf = PixelBufP32::from_line(&mut line);
        buf.put_pixel(0x0102_0304);
        buf.put_pixel(0x0506_0708);
        buf.put_pixel(0x0A0B_0C0D);
    }
    assert_eq!(&line[..4], &0x0102_0304u32.to_ne_bytes());
    assert_eq!(&line[4..], &0x0506_0708u32.to_ne_bytes());
    let mut line = [0u8; 5];
    {
        let mut buf = PixelBufP16::from_line(&mut line);
        buf.put_pixels(0xABCD, 3);
    }
    assert_eq!(&line[..2], &0xABCDu16.to_ne_bytes());
    assert_eq!(&line[2..4], &0xABCDu16.to_ne_bytes());
    assert_eq!(line[4], 0);
    let mut line = [0u8; 3];
    {
        let mut buf = PixelBufP8::from_line(&mut line);
        buf.put_pixels(7, 5);
    }
    assert_eq!(line, [7, 7, 7]);
    assert_eq!(PixelBufA24::pixel_stride(), 3);
    assert_eq!(PixelBufP16::pixel_stride(), 2);
}
