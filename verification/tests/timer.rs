use std::time::Duration;

use spectrusty::chip::{duration_from_frame_tc_cpu_hz, nanos_from_frame_tc_cpu_hz, ThreadSyncTimer};

#[test]
fn thread_sync_timer_works() {
    let mut timer = ThreadSyncTimer::new(20_000_000);
    assert_eq!(timer.frame_duration, Duration::from_nanos(20_000_000));
    timer.set_frame_duration(0);
    assert_eq!(timer.frame_duration, Duration::from_nanos(0));
    let start = timer.time;
    // a period of no time has always elapsed
    assert!(timer.check_frame_elapsed().is_some());
    assert_eq!(timer.time, start);
    timer.set_frame_duration(u32::MAX);
    assert!(timer.check_frame_elapsed().is_none());
    assert_eq!(timer.time, start);
    let previous = timer.restart();
    assert_eq!(previous, start);
    assert!(timer.time >= start);
}

#[test]
fn frame_durations() {
    assert_eq!(nanos_from_frame_tc_cpu_hz(69888, 3_500_000), 19_968_000);
    assert_eq!(duration_from_frame_tc_cpu_hz(70908, 3_546_900), Duration::from_nanos(19_991_541));
}
