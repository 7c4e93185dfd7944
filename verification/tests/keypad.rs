use spectrusty::peripherals::serial::keypad::{KeypadKeys, SerialKeypad};
use spectrusty::peripherals::serial::{ControlState, DataState};

/// Waits until the keypad's data line gets to `state`, from `ts` on; returns the time it did.
fn wait_for(kp: &mut SerialKeypad, state: DataState, mut ts: i32) -> i32 {
    for _ in 0..10_000 {
        if kp.read_data(ts) == state {
            return ts;
        }
        ts += 5;
    }
    panic!("the keypad did not answer");
}

#[test]
fn keypad_synchronizes_and_sends_bits() {
    let mut kp = SerialKeypad::default();
    assert_eq!(kp.get_key_state(), KeypadKeys::empty());
    assert_eq!(kp.write_data(DataState::Space, 0), ControlState::Inactive);
    assert_eq!(kp.poll_ready(0), ControlState::Inactive);
    // too early: nothing happens
    kp.update_cts(ControlState::Active, 100);
    assert_eq!(kp.read_data(100), DataState::Mark);
    // the Spectrum polls: the keypad answers PRESENT, SET, CORRECT, GO
    let mut ts = 7_000_000;
    kp.update_cts(ControlState::Active, ts);
    assert_eq!(kp.read_data(ts), DataState::Mark);
    ts = wait_for(&mut kp, DataState::Space, ts);
    kp.update_cts(ControlState::Inactive, ts);
    assert_eq!(kp.read_data(ts), DataState::Space);
    ts = wait_for(&mut kp, DataState::Mark, ts);
    kp.update_cts(ControlState::Active, ts);
    // synchronized: each bit is asked for with ATTENTION, READY, START, STOP, STAND EASY
    let mut bits = Vec::new();
    for _ in 0..4 {
        ts += 100;
        assert_eq!(kp.read_data(ts), DataState::Mark);
        kp.update_cts(ControlState::Inactive, ts);
        ts = wait_for(&mut kp, DataState::Space, ts);
        kp.update_cts(ControlState::Active, ts);
        bits.push(kp.read_data(ts));
        ts += 10;
        kp.update_cts(ControlState::Inactive, ts);
        assert_eq!(kp.read_data(ts), DataState::Space);
        ts += 10;
        kp.update_cts(ControlState::Active, ts);
    }
    assert_eq!(bits, vec![DataState::Space, DataState::Space, DataState::Mark, DataState::Space]);
}

#[test]
fn keypad_keys_and_timeouts() {
    let mut kp = SerialKeypad::default();
    kp.set_key_state(KeypadKeys::N1().union(KeypadKeys::ENTER()));
    assert_eq!(kp.get_key_state().bits(), 0b1001_0000);
    assert_eq!(u32::from(KeypadKeys::from(0xFFF_FFFFu32)), 0xF_FFFF);
    assert!(KeypadKeys::ROW4_MASK().intersects(KeypadKeys::N1()));
    assert_eq!(KeypadKeys::SHIFT(), KeypadKeys::N0());
    // a protocol left waiting for more than the reset interval starts over
    kp.update_cts(ControlState::Active, 7_000_000);
    kp.next_frame(9_500_000);
    assert_eq!(kp.read_data(0), DataState::Mark);
    kp.update_cts(ControlState::Inactive, 0);
    assert_eq!(kp.read_data(0), DataState::Mark);
}
