use time_flo::timer::Timer;

#[test]
fn test_timer() {
    // test basic operations

    let t1 = Timer::from_duration(0);

    assert!(!t1.is_paused());
    assert!(!t1.is_running());
    assert!(!t1.has_started(0));

    let mut t2 = Timer {
        duration: 20_000,
        accumulated_time: 12_000,
        start_timestamp: None,
    };

    assert!(t2.is_paused());
    assert!(!t2.is_running());
    assert!(t2.has_started(0));
    assert_eq!(12_000, t2.elapsed(0));
    assert_eq!(8_000, t2.remaining_time(0));

    t2.start(0);
    assert!(!t2.is_paused());
    assert!(t2.is_running());
    assert!(t2.has_started(1));

    // test formatting
    assert_eq!("00:00", Timer::default().display_string(0));
    assert_eq!("12:34", Timer::from_duration(754_000).display_string(0));
}

#[test]
fn fresh_timer() {
    let t = Timer::from_duration(5_000);
    assert_eq!(5_000, t.remaining_time(123_456));
    assert!(!t.has_started(123_456));
    assert!(!t.is_over(123_456));
    assert!(!t.is_running());
    assert!(!t.is_paused());

    let z = Timer::from_duration(0);
    assert!(z.is_over(123_456));
}

#[test]
fn pause_resume_round_trip() {
    let mut t = Timer::from_duration(30_000);
    t.start(1_000);
    assert!(t.is_running());
    t.pause(6_000);
    // the active span of 5 s is credited, no more, no less
    assert!(t.is_paused());
    assert_eq!(5_000, t.elapsed(6_000));
    assert_eq!(5_000, t.accumulated_time);
    // resuming much later and waiting zero leaves elapsed unchanged
    t.start(100_000);
    assert_eq!(5_000, t.elapsed(100_000));
    // a second active span adds up
    t.pause(102_500);
    assert_eq!(7_500, t.elapsed(200_000));
}

#[test]
fn start_is_idempotent() {
    let mut t = Timer::from_duration(30_000);
    t.start(1_000);
    t.start(9_000);
    // the second start changed nothing: the run still dates from 1 s
    assert_eq!(Some(1_000), t.start_timestamp);
    assert_eq!(4_000, t.elapsed(5_000));
}

#[test]
fn pause_is_idempotent() {
    let mut t = Timer::from_duration(30_000);
    t.start(0);
    t.pause(2_000);
    t.pause(50_000);
    assert_eq!(2_000, t.accumulated_time);
    assert!(t.is_paused());
}

#[test]
fn remaining_saturates() {
    // elapsed far beyond the target: remaining stays at zero
    let t = Timer {
        duration: 10,
        accumulated_time: 50_000,
        start_timestamp: None,
    };
    assert_eq!(0, t.remaining_time(0));
    assert!(t.is_over(0));

    let mut r = Timer::from_duration(1_000);
    r.start(0);
    assert_eq!(0, r.remaining_time(999_999));
}

#[test]
fn retarget_preserves_accumulated_time() {
    let mut t = Timer {
        duration: 20_000,
        accumulated_time: 12_000,
        start_timestamp: None,
    };
    t.set_duration(30_000);
    assert_eq!(12_000, t.accumulated_time);
    assert_eq!(18_000, t.remaining_time(0));
}

#[test]
fn stale_clock_reading_credits_nothing() {
    // a reading older than the recorded start adds no credit
    let mut t = Timer::from_duration(10_000);
    t.start(5_000);
    assert_eq!(0, t.elapsed(3_000));
    t.pause(3_000);
    assert_eq!(0, t.accumulated_time);
}

#[test]
fn display_rendering() {
    assert_eq!("00:59", Timer::from_duration(59_000).display_string(0));
    assert_eq!("01:00", Timer::from_duration(60_000).display_string(0));
    assert_eq!("100:00", Timer::from_duration(6_000_000).display_string(0));
    // sub-second remainders are truncated to whole seconds
    assert_eq!("00:01", Timer::from_duration(1_999).display_string(0));
    // a running timer renders what is left at the given reading
    let mut t = Timer::from_duration(754_000);
    t.start(0);
    assert_eq!("12:00", t.display_string(34_000));
}
