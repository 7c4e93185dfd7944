use std::io::{Cursor, Read};

use spectrusty::formats::tap::read::{tap_chunk_info, TapChunkPulseIter, TapChunkReader, TapReadInfoIter};
use spectrusty::formats::tap::write::TapChunkWriter;
use spectrusty::formats::tap::{checksum, BlockType, Header, TapChunkInfo, HEADER_SIZE};

fn header() -> Header {
    Header {
        length: 6912,
        block_type: BlockType::Code,
        name: *b"screen    ",
        par1: [0x00, 0x40],
        par2: [0x00, 0x80],
    }
}

fn data_chunk(data: &[u8]) -> Vec<u8> {
    let mut chunk = vec![0xFF];
    chunk.extend_from_slice(data);
    chunk.push(checksum(&chunk));
    chunk
}

fn tap_file() -> Vec<u8> {
    let mut writer = TapChunkWriter::try_new(Cursor::new(Vec::new())).unwrap();
    assert_eq!(writer.write_header(&header()).unwrap(), 1);
    assert_eq!(writer.write_chunk(&data_chunk(&[1, 2, 3, 4, 5])).unwrap(), 1);
    let mut tran = writer.begin().unwrap();
    assert_eq!(tran.write(&mut writer, &[0xFF, 10, 20, 30]).unwrap(), 4);
    assert_eq!(tran.commit(&mut writer, true).unwrap(), 1);
    writer.flush().unwrap();
    writer.into_inner().into_inner().into_inner()
}

#[test]
fn tap_header_chunk() {
    let chunk = header().to_tap_chunk();
    assert_eq!(chunk.len(), HEADER_SIZE);
    assert_eq!(chunk[0], 0x00);
    assert_eq!(chunk[1], 3);
    assert_eq!(&chunk[2..12], b"screen    ");
    assert_eq!(&chunk[12..14], &[0x00, 0x1B]);
    assert_eq!(checksum(&chunk), 0);
    assert_eq!(Header::from_bytes(&chunk[1..18]), Some(header()));
    assert_eq!(Header::from_bytes(&chunk[1..17]), None);
    let mut bad = chunk.clone();
    bad[1] = 4;
    assert_eq!(Header::from_bytes(&bad[1..18]), None);
    assert_eq!(tap_chunk_info(&chunk), TapChunkInfo::Head(header()));
    assert_eq!(tap_chunk_info(&bad), TapChunkInfo::Unknown { size: 19, flag: 0 });
    assert_eq!(tap_chunk_info(&[]), TapChunkInfo::Empty);
    assert_eq!(tap_chunk_info(&[7]), TapChunkInfo::Unknown { size: 1, flag: 7 });
    assert_eq!(tap_chunk_info(&[7, 1, 2]), TapChunkInfo::Unknown { size: 3, flag: 7 });
    assert_eq!(tap_chunk_info(&data_chunk(&[9, 8])), TapChunkInfo::Data { length: 2, checksum: 0 });
    assert_eq!(tap_chunk_info(&[0xFF, 9, 8, 0]), TapChunkInfo::Data { length: 2, checksum: 0xFF ^ 9 ^ 8 });
}

#[test]
fn tap_write_and_read_chunks() {
    let file = tap_file();
    assert_eq!(&file[0..2], &[19, 0]);
    assert_eq!(&file[21..23], &[7, 0]);
    assert_eq!(&file[30..32], &[5, 0]);
    assert_eq!(&file[32..], &[0xFF, 10, 20, 30, 0xFF ^ 10 ^ 20 ^ 30]);
    assert_eq!(file.len(), 2 + 19 + 2 + 7 + 2 + 5);
    let mut iter = TapReadInfoIter::new(TapChunkReader::new(Cursor::new(file.clone())));
    assert_eq!(iter.next().unwrap().unwrap(), TapChunkInfo::Head(header()));
    assert_eq!(iter.next().unwrap().unwrap(), TapChunkInfo::Data { length: 5, checksum: 0 });
    assert_eq!(iter.next().unwrap().unwrap(), TapChunkInfo::Data { length: 3, checksum: 0 });
    assert!(iter.next().is_none());
    assert_eq!(iter.as_ref().chunk_no(), 3);
}

#[test]
fn tap_reader_navigates_chunks() {
    let file = tap_file();
    let mut rd = TapChunkReader::new(Cursor::new(file));
    assert_eq!(rd.chunk_no(), 0);
    assert_eq!(rd.next_chunk().unwrap(), Some(19));
    assert_eq!(rd.chunk_limit(), 19);
    let mut buf = Vec::new();
    rd.read_to_end(&mut buf).unwrap();
    assert_eq!(buf, header().to_tap_chunk());
    assert_eq!(rd.checksum, 0);
    assert_eq!(rd.chunk_limit(), 0);
    assert_eq!(rd.skip_chunks(1).unwrap(), Some(5));
    assert_eq!(rd.chunk_no(), 3);
    assert!(rd.rewind_nth_chunk(2).unwrap());
    assert_eq!(rd.chunk_no(), 2);
    assert_eq!(rd.chunk_limit(), 7);
    assert!(!rd.rewind_nth_chunk(5).unwrap());
    assert_eq!(rd.rewind_prev_chunk().unwrap(), 2);
    assert_eq!(rd.rewind_chunk().unwrap(), 2);
    assert!(rd.forward_chunk().unwrap());
    assert_eq!(rd.chunk_no(), 3);
    assert!(!rd.forward_chunk().unwrap());
    assert!(rd.rewind_nth_chunk(0).unwrap());
    assert_eq!(rd.chunk_no(), 0);
    rd.rewind();
    assert_eq!(rd.chunk_no(), 0);
}

#[test]
fn tap_pulses_round_trip() {
    let file = tap_file();
    let mut pulses = Vec::new();
    let mut iter = TapChunkPulseIter::new(TapChunkReader::new(Cursor::new(file.clone())));
    iter.next_chunk().unwrap();
    while let Some(pulse) = iter.next() {
        pulses.push(pulse);
    }
    assert!(iter.is_done());
    let mut writer = TapChunkWriter::try_new(Cursor::new(Vec::new())).unwrap();
    let written = writer.write_pulses_as_tap_chunks(&pulses).unwrap();
    let written = written + writer.end_pulse_chunk().unwrap();
    assert_eq!(written, 3);
    let out = writer.into_inner().into_inner().into_inner();
    assert_eq!(&out[..file.len()], &file[..]);
}
