use frame_harness::clock::{Elapsed, FrameClock, FRAME_QUANTUM_NANOS, NANOS_PER_SEC};

#[test]
fn elapsed_is_seconds_and_fraction_since_the_start() {
    let clock = FrameClock::new(5);
    assert_eq!(clock.start(), 5);
    assert_eq!(clock.elapsed_seconds(5), Elapsed { secs: 0, subsec_nanos: 0 });
    assert_eq!(
        clock.elapsed_seconds(2_500_000_005),
        Elapsed { secs: 2, subsec_nanos: 500_000_000 }
    );
    assert_eq!(
        clock.elapsed_seconds(1_000_000_004),
        Elapsed { secs: 0, subsec_nanos: 999_999_999 }
    );
}

#[test]
fn elapsed_covers_the_whole_range_of_timestamps() {
    let clock = FrameClock::new(0);
    assert_eq!(
        clock.elapsed_seconds(u64::MAX),
        Elapsed { secs: 18_446_744_073, subsec_nanos: 709_551_615 }
    );
}

#[test]
fn elapsed_strictly_increases_with_the_reading() {
    let clock = FrameClock::new(1_000);
    let readings: [u64; 5] = [1_000, 1_001, 999_999_999 + 1_000, NANOS_PER_SEC + 1_000, u64::MAX];
    let mut last: Option<(u64, u32)> = None;
    for now in readings.iter() {
        let e = clock.elapsed_seconds(*now);
        let this = (e.secs, e.subsec_nanos);
        if let Some(before) = last {
            assert!(before < this);
        }
        last = Some(this);
    }
}

#[test]
fn quantum_is_a_sixtieth_of_a_second() {
    assert_eq!(FRAME_QUANTUM_NANOS, 16_666_667);
    assert_eq!(NANOS_PER_SEC, 1_000_000_000);
}

#[test]
fn next_deadline_is_one_quantum_after_now() {
    assert_eq!(FrameClock::next_deadline(0, FRAME_QUANTUM_NANOS), 16_666_667);
    assert_eq!(FrameClock::next_deadline(1_000, FRAME_QUANTUM_NANOS), 16_667_667);
    assert_eq!(FrameClock::next_deadline(7, 0), 7);
    assert_eq!(FrameClock::next_deadline(u64::MAX - 5, 5), u64::MAX);
}

#[test]
fn next_deadline_is_never_before_now() {
    let quanta: [u64; 4] = [0, 1, FRAME_QUANTUM_NANOS, 1 << 40];
    let readings: [u64; 4] = [0, 1, 123_456_789, 1 << 62];
    for quantum in quanta.iter() {
        for now in readings.iter() {
            assert!(FrameClock::next_deadline(*now, *quantum) >= *now);
        }
    }
}

#[test]
fn remaining_is_zero_once_the_deadline_has_passed() {
    assert_eq!(FrameClock::remaining(100, 40), 60);
    assert_eq!(FrameClock::remaining(100, 100), 0);
    assert_eq!(FrameClock::remaining(100, 101), 0);
    assert_eq!(FrameClock::remaining(0, u64::MAX), 0);
    assert_eq!(FrameClock::remaining(u64::MAX, 0), u64::MAX);
}
