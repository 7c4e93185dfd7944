use std::io::Cursor;

use spectrusty::formats::tap::pulse::consts::{
    LEAD_PULSES_DATA, LEAD_PULSES_HEAD, LEAD_PULSE_LENGTH, ONE_PULSE_LENGTH, PAUSE_PULSE_LENGTH,
    SYNC_PULSE1_LENGTH, SYNC_PULSE2_LENGTH, ZERO_PULSE_LENGTH,
};
use spectrusty::formats::tap::pulse::{PulseDecodeState, PulseDecodeWriter, ReadEncPulseIter};

fn collect_rest<R: std::io::Read>(iter: &mut ReadEncPulseIter<R>) -> Vec<u32> {
    let mut out = Vec::new();
    while let Some(delta) = iter.next() {
        out.push(delta);
    }
    out
}

#[test]
fn read_enc_pulse_iter_works() {
    let data = [0xFF, 0xA5, 0x00];
    let mut iter = ReadEncPulseIter::new(Cursor::new(data));
    assert_eq!(false, iter.is_done());
    for _ in 0..LEAD_PULSES_DATA as usize {
        assert_eq!(Some(LEAD_PULSE_LENGTH), iter.next());
    }
    assert_eq!(false, iter.is_done());
    assert_eq!(Some(SYNC_PULSE1_LENGTH), iter.next());
    assert_eq!(Some(SYNC_PULSE2_LENGTH), iter.next());
    assert_eq!(false, iter.is_done());
    assert_eq!(vec![
        ONE_PULSE_LENGTH, ONE_PULSE_LENGTH, ONE_PULSE_LENGTH, ONE_PULSE_LENGTH,
        ONE_PULSE_LENGTH, ONE_PULSE_LENGTH, ONE_PULSE_LENGTH, ONE_PULSE_LENGTH,
        ONE_PULSE_LENGTH, ONE_PULSE_LENGTH, ONE_PULSE_LENGTH, ONE_PULSE_LENGTH,
        ONE_PULSE_LENGTH, ONE_PULSE_LENGTH, ONE_PULSE_LENGTH, ONE_PULSE_LENGTH,

        ONE_PULSE_LENGTH, ONE_PULSE_LENGTH, ZERO_PULSE_LENGTH, ZERO_PULSE_LENGTH,
        ONE_PULSE_LENGTH, ONE_PULSE_LENGTH, ZERO_PULSE_LENGTH, ZERO_PULSE_LENGTH,
        ZERO_PULSE_LENGTH, ZERO_PULSE_LENGTH, ONE_PULSE_LENGTH, ONE_PULSE_LENGTH,
        ZERO_PULSE_LENGTH, ZERO_PULSE_LENGTH, ONE_PULSE_LENGTH, ONE_PULSE_LENGTH,

        ZERO_PULSE_LENGTH, ZERO_PULSE_LENGTH, ZERO_PULSE_LENGTH, ZERO_PULSE_LENGTH,
        ZERO_PULSE_LENGTH, ZERO_PULSE_LENGTH, ZERO_PULSE_LENGTH, ZERO_PULSE_LENGTH,
        ZERO_PULSE_LENGTH, ZERO_PULSE_LENGTH, ZERO_PULSE_LENGTH, ZERO_PULSE_LENGTH,
        ZERO_PULSE_LENGTH, ZERO_PULSE_LENGTH, ZERO_PULSE_LENGTH, ZERO_PULSE_LENGTH,
    ], collect_rest(&mut iter));
    assert_eq!(true, iter.is_done());

    let data = [0x00];
    let mut iter = ReadEncPulseIter::new(Cursor::new(data));
    assert_eq!(false, iter.is_done());
    for _ in 0..LEAD_PULSES_HEAD as usize {
        assert_eq!(Some(LEAD_PULSE_LENGTH), iter.next());
    }
    assert_eq!(false, iter.is_done());
    assert_eq!(Some(SYNC_PULSE1_LENGTH), iter.next());
    assert_eq!(Some(SYNC_PULSE2_LENGTH), iter.next());
    assert_eq!(false, iter.is_done());
    assert_eq!(vec![ZERO_PULSE_LENGTH; 16], collect_rest(&mut iter));
    assert_eq!(true, iter.is_done());

    let empty: [u8; 0] = [];
    let mut iter = ReadEncPulseIter::new(Cursor::new(empty));
    assert_eq!(true, iter.is_done());
    assert_eq!(None, iter.next());
}

#[test]
fn write_mic_works() {
    let wr = Cursor::new(Vec::new());
    let mut mpw = PulseDecodeWriter::new(wr);
    let pulses: [u32; 0] = [];
    assert_eq!(PulseDecodeState::Idle, mpw.state());
    assert_eq!(None, mpw.write_decoded_pulses(&pulses).unwrap());
    assert_eq!(PulseDecodeState::Idle, mpw.state());
    assert_eq!(None, mpw.data_size());
    let pulses = [PAUSE_PULSE_LENGTH, LEAD_PULSE_LENGTH];
    assert_eq!(None, mpw.write_decoded_pulses(&pulses).unwrap());
    assert_eq!(PulseDecodeState::Lead { counter: 1 }, mpw.state());
    assert_eq!(None, mpw.data_size());
    let pulses = vec![LEAD_PULSE_LENGTH; LEAD_PULSES_HEAD as usize];
    assert_eq!(None, mpw.write_decoded_pulses(&pulses).unwrap());
    assert_eq!(PulseDecodeState::Lead { counter: LEAD_PULSES_HEAD as u32 + 1 }, mpw.state());
    assert_eq!(None, mpw.data_size());
    let pulses = [SYNC_PULSE1_LENGTH, SYNC_PULSE2_LENGTH,
                  ZERO_PULSE_LENGTH, ZERO_PULSE_LENGTH,
                  ONE_PULSE_LENGTH, ONE_PULSE_LENGTH];
    assert_eq!(None, mpw.write_decoded_pulses(&pulses).unwrap());
    assert_eq!(PulseDecodeState::Data { current: 0b0000_0001, pulse: 4, written: 0 }, mpw.state());
    assert_eq!(None, mpw.data_size());
    assert_eq!(0, mpw.get_ref().position());
    let pulses = [ZERO_PULSE_LENGTH, ZERO_PULSE_LENGTH,
                  ONE_PULSE_LENGTH, ONE_PULSE_LENGTH,
                  ZERO_PULSE_LENGTH, ZERO_PULSE_LENGTH,
                  ONE_PULSE_LENGTH, ONE_PULSE_LENGTH,
                  ZERO_PULSE_LENGTH, ZERO_PULSE_LENGTH,
                  ONE_PULSE_LENGTH, ONE_PULSE_LENGTH];
    assert_eq!(None, mpw.write_decoded_pulses(&pulses).unwrap());
    assert_eq!(PulseDecodeState::Data { current: 0, pulse: 0, written: 1 }, mpw.state());
    assert_eq!(Some(1), mpw.data_size());
    assert_eq!(1, mpw.get_ref().position());
    assert_eq!(&[0b0101_0101], &mpw.get_ref().get_ref()[..]);
    assert_eq!(Some(1), mpw.end().unwrap());
    assert_eq!(PulseDecodeState::Idle, mpw.state());
    assert_eq!(None, mpw.data_size());
}

#[test]
fn write_mic_missing_bits_works() {
    let wr = Cursor::new(Vec::new());
    let mut mpw = PulseDecodeWriter::new(wr);
    let pulses = vec![LEAD_PULSE_LENGTH; LEAD_PULSES_DATA as usize];
    assert_eq!(None, mpw.write_decoded_pulses(&pulses).unwrap());
    assert_eq!(PulseDecodeState::Lead { counter: LEAD_PULSES_DATA as u32 }, mpw.state());
    assert_eq!(None, mpw.data_size());
    let pulses = [SYNC_PULSE1_LENGTH, SYNC_PULSE2_LENGTH,
                  ONE_PULSE_LENGTH, ONE_PULSE_LENGTH,
                  ZERO_PULSE_LENGTH, ZERO_PULSE_LENGTH,
                  ONE_PULSE_LENGTH];
    assert_eq!(None, mpw.write_decoded_pulses(&pulses).unwrap());
    assert_eq!(PulseDecodeState::Data { current: 0b0000_0101, pulse: 5, written: 0 }, mpw.state());
    assert_eq!(None, mpw.data_size());
    assert_eq!(Some(1), mpw.end().unwrap());
    assert_eq!(1, mpw.get_ref().position());
    assert_eq!(&[0b1000_0000], &mpw.get_ref().get_ref()[..]);
    assert_eq!(PulseDecodeState::Idle, mpw.state());
    assert_eq!(None, mpw.data_size());
}

#[test]
fn encoded_block_decodes_to_the_same_bytes() {
    let block = [0xFF, 0xA5, 0x00, 0x13, 0x80, 0x7F];
    let mut iter = ReadEncPulseIter::new(Cursor::new(block));
    let pulses = collect_rest(&mut iter);
    assert_eq!(LEAD_PULSES_DATA as usize + 2 + 16 * block.len(), pulses.len());
    let mut mpw = PulseDecodeWriter::new(Cursor::new(Vec::new()));
    assert_eq!(None, mpw.write_decoded_pulses(&pulses).unwrap());
    assert_eq!(PulseDecodeState::Data { current: 0, pulse: 0, written: block.len() as u32 }, mpw.state());
    assert_eq!(Some(block.len() as u32), mpw.end().unwrap());
    assert_eq!(&block[..], &mpw.into_inner().into_inner()[..]);
}

#[test]
fn header_block_gets_the_long_lead() {
    let mut iter = ReadEncPulseIter::new(Cursor::new([0x7F, 0x01]));
    let pulses = collect_rest(&mut iter);
    assert_eq!(LEAD_PULSES_HEAD as usize + 2 + 32, pulses.len());
    assert_eq!(0x7F, iter.flag());
}

#[test]
fn broken_data_pulse_ends_the_transfer() {
    let mut mpw = PulseDecodeWriter::new(Cursor::new(Vec::new()));
    let mut pulses = vec![LEAD_PULSE_LENGTH; 20];
    pulses.extend_from_slice(&[SYNC_PULSE1_LENGTH, SYNC_PULSE2_LENGTH]);
    // a whole byte 0x80
    pulses.extend_from_slice(&[ONE_PULSE_LENGTH, ONE_PULSE_LENGTH]);
    pulses.extend_from_slice(&[ZERO_PULSE_LENGTH; 14]);
    // three pulses of the next byte and then a pause
    pulses.extend_from_slice(&[ONE_PULSE_LENGTH, ONE_PULSE_LENGTH, ONE_PULSE_LENGTH, PAUSE_PULSE_LENGTH]);
    assert_eq!(Some(2), mpw.write_decoded_pulses(&pulses).unwrap());
    assert_eq!(PulseDecodeState::Idle, mpw.state());
    assert_eq!(&[0x80, 0b1000_0000], &mpw.get_ref().get_ref()[..]);
}
