//! Tests for the lock handle and the lease-time arithmetic.

use dynalock::DistLock;
use dynalock::LockDuration;

#[test]
fn test_distlock_new_success() {
    let mut lock = DistLock::new("test driver", LockDuration::from_secs(10));
    assert_eq!(lock.driver, "test driver");
    assert_eq!(lock.duration, LockDuration::from_secs(10));
    assert_eq!(*lock.driver(), "test driver");
    assert_eq!(lock.duration(), LockDuration::from_secs(10));
}

#[test]
fn remaining_is_strictly_less_once_time_elapsed() {
    let lock = DistLock::new((), LockDuration::from_secs(10));

    // 50 ms elapsed: 9.95 s left, strictly below the 10 s duration.
    let left = lock
        .remaining_after(&LockDuration::from_parts(0, 50_000_000))
        .unwrap();
    assert_eq!(left.as_secs(), 9);
    assert_eq!(left.subsec_nanos(), 950_000_000);

    // One nanosecond elapsed: still strictly below the duration.
    let left = lock
        .remaining_after(&LockDuration::from_parts(0, 1))
        .unwrap();
    assert_eq!(left.as_secs(), 9);
    assert_eq!(left.subsec_nanos(), 999_999_999);
}

#[test]
fn remaining_none_at_exact_boundary() {
    let lock = DistLock::new((), LockDuration::from_secs(10));

    // Elapsed equal to the duration: the lease is already expired.
    assert!(lock.remaining_after(&LockDuration::from_secs(10)).is_none());

    // Elapsed beyond the duration.
    assert!(lock
        .remaining_after(&LockDuration::from_parts(10, 1))
        .is_none());
    assert!(lock.remaining_after(&LockDuration::from_secs(11)).is_none());
}

#[test]
fn remaining_full_duration_when_nothing_elapsed() {
    let lock = DistLock::new((), LockDuration::from_secs(10));

    let left = lock
        .remaining_after(&LockDuration::from_parts(0, 0))
        .unwrap();
    assert_eq!(left.as_secs(), 10);
    assert_eq!(left.subsec_nanos(), 0);
}

#[test]
fn remaining_borrows_a_second_for_the_nanos() {
    let lock = DistLock::new((), LockDuration::from_parts(10, 100));

    let left = lock
        .remaining_after(&LockDuration::from_parts(2, 200))
        .unwrap();
    assert_eq!(left.as_secs(), 7);
    assert_eq!(left.subsec_nanos(), 999_999_900);
}

#[test]
fn duration_parts_round_trip() {
    let d = LockDuration::from_parts(3, 250_000_000);
    assert_eq!(d.as_secs(), 3);
    assert_eq!(d.subsec_nanos(), 250_000_000);

    let w = LockDuration::from_secs(42);
    assert_eq!(w.as_secs(), 42);
    assert_eq!(w.subsec_nanos(), 0);
}
