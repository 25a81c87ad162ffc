use eledom::{perf_to_system, Ele};

#[test]
fn perf_to_system_splits_whole_milliseconds() {
    let t = perf_to_system(1500);
    assert_eq!(t.secs, 1);
    assert_eq!(t.nanos, 500_000_000);
}

#[test]
fn perf_to_system_truncation_drops_sub_millisecond() {
    let a = perf_to_system(1500.0_f64 as u64);
    let b = perf_to_system(1500.7_f64 as u64);
    assert_eq!(a, b);
    assert_eq!(a.secs, 1);
    assert_eq!(a.nanos, 500_000_000);
}

#[test]
fn perf_to_system_zero_is_the_epoch() {
    let t = perf_to_system(0);
    assert_eq!(t.secs, 0);
    assert_eq!(t.nanos, 0);
}

#[test]
fn perf_to_system_below_one_second() {
    let t = perf_to_system(999);
    assert_eq!(t.secs, 0);
    assert_eq!(t.nanos, 999_000_000);
}

#[test]
fn perf_to_system_whole_seconds_leave_no_nanos() {
    let t = perf_to_system(3000);
    assert_eq!(t.secs, 3);
    assert_eq!(t.nanos, 0);
}

#[test]
fn perf_to_system_largest_input() {
    let t = perf_to_system(u64::MAX);
    assert_eq!(t.secs, u64::MAX / 1000);
    assert_eq!(t.nanos, 615_000_000);
}

#[test]
fn from_found_nothing_stays_nothing() {
    assert!(Ele::from_found(None).is_none());
}
