use std::io::Cursor;

use spectrusty::formats::snapshot::{ComputerModel, InterruptMode, JoystickModel};
use spectrusty::formats::z80::common::{
    cycles_to_z80, load_header_ex, load_mem_header, z80_to_cycles, Flags1, Flags2, Flags3, Header,
    HeaderEx, MemoryHeader, Z80Version, PAGE_SIZE,
};
use spectrusty::formats::z80::compress::{
    compress, compress_repeat, compress_repeat_write_all, compress_write_all,
};
use spectrusty::formats::z80::decompress::MemDecompress;
use spectrusty::chip::flags::ReadEarMode;
use spectrusty::video::BorderColor;

fn read_to_end(decompress: &mut MemDecompress, out: &mut Vec<u8>) -> usize {
    let mut total = 0;
    let mut buf = [0u8; 7];
    loop {
        let n = decompress.read(&mut buf[..]).unwrap();
        if n == 0 {
            return total;
        }
        out.extend_from_slice(&buf[..n]);
        total += n;
    }
}

fn test_decompress(data: &[u8], expect: &[u8]) {
    let mut decompress = MemDecompress::new(data);
    let mut buffer = Vec::new();
    assert_eq!(decompress.read(&mut []).unwrap(), 0);
    let mut decompress = MemDecompress::new(data);
    assert_eq!(expect.len(), read_to_end(&mut decompress, &mut buffer));
    assert_eq!(expect, &buffer[..]);
    for n in 1..expect.len() {
        let mut decompress = MemDecompress::new(data);
        buffer.resize(n, 0);
        let mut expected = expect;
        while expected.len() != 0 {
            let len = decompress.read(&mut buffer[..]).unwrap();
            assert_eq!(len, buffer.len().min(expected.len()));
            assert_eq!(buffer[..len], expected[..len]);
            expected = &expected[len..];
        }
        assert_eq!(decompress.read(&mut buffer[..]).unwrap(), 0);
    }
}

#[test]
fn decompress_works() {
    test_decompress(&[0xED,0xED,7,42,96,0xED,0xED,2,0xED], &[42,42,42,42,42,42,42,96,0xED,0xED]);
    test_decompress(&[69,0xED,0xED,0,0xED,0xED,0,0xED,0xED,4,0xED], &[69,0xED,0,0xED,0xED,0xED,0xED]);
    test_decompress(&[0,1,2,3,4,5,0xED], &[0,1,2,3,4,5,0xED]);
    test_decompress(&[0xED, 0,1,2,3,4,5,0xED, 0xED], &[0xED, 0,1,2,3,4,5]);
    test_decompress(&[33, 0xED, 0xED, 0xED], &[33]);
    test_decompress(&[0xED, 0xED, 0xED], &[]);
    test_decompress(&[0, 0xED, 0xED, 0], &[0]);
    test_decompress(&[0xED, 0xED, 2, 0xED, 0xED, 1, 0xED, 2, 0xED], &[0xED, 0xED, 0xED, 1, 0xED, 2, 0xED]);
}

#[test]
fn compress_repeat_works() {
    let mut buf = Vec::new();
    compress_repeat_write_all(42, 0, &mut buf).unwrap();
    assert!(buf.is_empty());
    buf.clear();
    compress_repeat_write_all(42, 1, &mut buf).unwrap();
    assert_eq!(&[42], &buf[..]);
    buf.clear();
    compress_repeat_write_all(0xED, 1, &mut buf).unwrap();
    assert_eq!(&[0xED], &buf[..]);
    buf.clear();
    compress_repeat_write_all(0xED, 2, &mut buf).unwrap();
    assert_eq!(&[0xED,0xED,2,0xED], &buf[..]);
    buf.clear();
    compress_repeat_write_all(42, 4, &mut buf).unwrap();
    assert_eq!(&[42,42,42,42], &buf[..]);
    buf.clear();
    compress_repeat_write_all(42, 5, &mut buf).unwrap();
    assert_eq!(&[0xED,0xED,5,42], &buf[..]);
    buf.clear();
    compress_repeat_write_all(42, 255, &mut buf).unwrap();
    assert_eq!(&[0xED,0xED,255,42], &buf[..]);
    buf.clear();
    compress_repeat_write_all(42, 256, &mut buf).unwrap();
    assert_eq!(&[0xED,0xED,255,42,42], &buf[..]);
    buf.clear();
    compress_repeat_write_all(42, 1000, &mut buf).unwrap();
    assert_eq!(&[0xED,0xED,255,42,0xED,0xED,255,42,0xED,0xED,255,42,0xED,0xED,235,42], &buf[..]);
}

#[test]
fn compress_works() {
    let mut buf = Vec::new();
    compress_write_all(&[], &mut buf).unwrap();
    assert!(buf.is_empty());
    buf.clear();
    compress_write_all(&[42], &mut buf).unwrap();
    assert_eq!(&[42], &buf[..]);
    buf.clear();
    compress_write_all(&[0xED], &mut buf).unwrap();
    assert_eq!(&[0xED], &buf[..]);
    buf.clear();
    compress_write_all(&[1,2,3,42,77], &mut buf).unwrap();
    assert_eq!(&[1,2,3,42,77], &buf[..]);
    buf.clear();
    compress_write_all(&[0xED,0xED], &mut buf).unwrap();
    assert_eq!(&[0xED,0xED,2,0xED], &buf[..]);
    buf.clear();
    compress_write_all(&[69,0xED,0xED], &mut buf).unwrap();
    assert_eq!(&[69,0xED,0xED,2,0xED], &buf[..]);
    buf.clear();
    compress_write_all(&[0xED,69,0xED], &mut buf).unwrap();
    assert_eq!(&[0xED,69,0xED], &buf[..]);
    buf.clear();
    compress_write_all(&[0xED,69,0xED,42], &mut buf).unwrap();
    assert_eq!(&[0xED,69,0xED,42], &buf[..]);
    buf.clear();
    compress_write_all(&[0;255], &mut buf).unwrap();
    assert_eq!(&[0xED,0xED,255,0], &buf[..]);
    buf.clear();
    compress_write_all(&[69;1000], &mut buf).unwrap();
    assert_eq!(&[0xED,0xED,255,69,0xED,0xED,255,69,0xED,0xED,255,69,0xED,0xED,235,69], &buf[..]);
    buf.clear();
    compress_write_all(&[1,1,1,1,1,2,2,2,2], &mut buf).unwrap();
    assert_eq!(&[0xED,0xED,5,1,2,2,2,2], &buf[..]);
    buf.clear();
    compress_write_all(&[1,2,2,3,3,3,4,4,4,5,5,5,5,5,6,6,6,6,6,6], &mut buf).unwrap();
    assert_eq!(&[1,2,2,3,3,3,4,4,4,0xED,0xED,5,5,0xED,0xED,6,6], &buf[..]);
}

fn decompress_all(data: &[u8]) -> Vec<u8> {
    let mut out = Vec::new();
    read_to_end(&mut MemDecompress::new(data), &mut out);
    out
}

#[test]
fn compressed_memory_decompresses_to_the_same_bytes() {
    let mut data = vec![0u8; 300];
    data.extend_from_slice(&[1, 2, 0xED, 0xED, 0xED, 3, 0xED, 4, 4, 4, 7, 7, 7, 7, 7, 7, 0xED]);
    data.extend(std::iter::repeat(0xED).take(600));
    data.push(9);
    assert_eq!(data, decompress_all(&compress(&data)));
    assert_eq!(vec![42u8; 1000], decompress_all(&compress_repeat(42, 1000)));
    assert_eq!(vec![0xEDu8; 257], decompress_all(&compress_repeat(0xED, 257)));
}

#[test]
fn byte_after_a_lone_ed_is_written_as_it_is() {
    let data = [0xED, 0, 0, 0, 0, 0];
    let packed = compress(&data);
    assert_eq!(&[0xED, 0, 0, 0, 0, 0][..], &packed[..]);
    assert_eq!(&data[..], &decompress_all(&packed)[..]);
    let data = [7, 0xED, 0, 0, 0, 0, 0, 0, 0xED, 0xED, 0xED];
    let packed = compress(&data);
    assert_eq!(&[7, 0xED, 0, 0xED, 0xED, 5, 0, 0xED, 0xED, 3, 0xED][..], &packed[..]);
    assert_eq!(&data[..], &decompress_all(&packed)[..]);
}

#[test]
fn z80_cycles_works() {
    let model = ComputerModel::Spectrum48;
    assert_eq!(model.frame_tstates(), 69888);
    let model = ComputerModel::Spectrum128;
    assert_eq!(model.frame_tstates(), 70908);
    for model in &[ComputerModel::Spectrum48, ComputerModel::Spectrum128] {
        let frame_ts = model.frame_tstates();
        let qts: u16 = (frame_ts / 4).try_into().unwrap();
        for ts in 0..frame_ts {
            let (lo, hi) = cycles_to_z80(ts, *model);
            assert!((0..=3).contains(&hi));
            assert!((0..qts).contains(&lo));
            assert_eq!(z80_to_cycles(lo, hi, *model), ts.rem_euclid(frame_ts));
        }
    }
}

#[test]
fn z80_cycles_of_negative_and_later_frames() {
    let model = ComputerModel::SpectrumNTSC;
    let frame_ts = model.frame_tstates();
    for ts in [-1, -frame_ts, -frame_ts - 5, frame_ts, 3 * frame_ts + 17, i32::MIN, i32::MAX] {
        let (lo, hi) = cycles_to_z80(ts, model);
        assert_eq!(z80_to_cycles(lo, hi, model), ts.rem_euclid(frame_ts));
    }
}

#[test]
fn header_flags_read_back() {
    for border in [BorderColor::BLACK, BorderColor::RED, BorderColor::WHITE] {
        let flags = Flags1::from(0xFF).with_border_color(border);
        assert_eq!(border, flags.border_color());
    }
    assert_eq!(Flags1::from(0xFF).bits(), 1);
    let flags = Flags1::from(0).with_refresh_high_bit(0x80);
    assert_eq!(0xA5, flags.mix_r(0x25));
    assert_eq!(0x25, Flags1::from(0).mix_r(0xA5));
    assert!(Flags1::from(0x20).is_mem_compressed());
    for im in [InterruptMode::Mode0, InterruptMode::Mode1, InterruptMode::Mode2] {
        assert_eq!(im, Flags2::from(0xFF).with_interrupt_mode(im).interrupt_mode().unwrap());
    }
    assert!(Flags2::from(3).interrupt_mode().is_err());
    let mut flags = Flags2::from(0x3F);
    assert!(flags.insert_joystick_model(JoystickModel::Sinclair1));
    assert_eq!(JoystickModel::Sinclair1, flags.joystick_model());
    assert!(!flags.insert_joystick_model(JoystickModel::Fuller));
    assert_eq!(JoystickModel::Sinclair1, flags.joystick_model());
    assert!(Flags2::from(0).with_issue2_emulation(ReadEarMode::Issue2).is_issue2_emulation());
    assert!(!Flags2::from(4).with_issue2_emulation(ReadEarMode::Issue3).is_issue2_emulation());
    assert!(Flags3::from(0x04).is_ay_melodik());
    assert!(!Flags3::from(0x44).is_ay_melodik());
    assert!(Flags3::from(0x44).is_ay_fuller_box());
    assert!(Flags3::from(0x80).is_alt_hw_mode());
}

#[test]
fn z80_headers_read_and_write() {
    let bytes: Vec<u8> = (0..30).collect();
    let header = Header::from_bytes(&bytes);
    assert_eq!(header.pc, [6, 7]);
    assert_eq!(header.flags2, 29);
    assert_eq!(bytes, header.to_bytes());
    let mut file = vec![23, 0];
    file.extend(100..123u8);
    let (version, header_ex) = load_header_ex(Cursor::new(file)).unwrap();
    assert_eq!(Z80Version::V2, version);
    assert_eq!(header_ex.pc, [100, 101]);
    assert_eq!(header_ex.ay_regs[15], 122);
    assert_eq!(header_ex.port2, 0);
    assert_eq!(HeaderEx::from_bytes(&header_ex.to_bytes()[..23]), header_ex);
    assert!(load_header_ex(Cursor::new(vec![24, 0])).is_err());
    let mem = MemoryHeader::new(0x1234, 5);
    assert_eq!(vec![0x34, 0x12, 5], mem.to_bytes());
    assert_eq!((0x1234, 5, true), mem.info());
    assert_eq!(Some((PAGE_SIZE, 8, false)), load_mem_header(Cursor::new(vec![0xFF, 0xFF, 8])).unwrap());
    assert_eq!(None, load_mem_header(Cursor::new(vec![])).unwrap());
    assert!(load_mem_header(Cursor::new(vec![1])).is_err());
}
