//! Tests for the in-memory mock provider through the Locking trait.

use dynalock::DistLock;
use dynalock::DynaErrorKind;
use dynalock::LockDuration;
use dynalock::Locking;
use dynalock::providers::mock::MockDetail;

#[test]
fn mock_acquire_release_acquire_round_trip() {
    let mut lock = DistLock::new(MockDetail::new("rvn"), LockDuration::from_secs(10));
    assert!(lock.driver.current_token().is_empty());
    assert_eq!(lock.driver.stored_token(), None);

    // First acquire on the unclaimed record succeeds.
    let start = Locking::acquire_lock(&mut lock, &()).unwrap();
    let first_token = lock.driver.current_token().clone();
    assert_eq!(first_token.len(), 36);
    assert_eq!(lock.driver.stored_token(), Some(first_token.clone()));
    assert!(lock.remaining(&start).is_some());

    // Release clears both the record and the local token.
    Locking::release_lock(&mut lock, &()).unwrap();
    assert!(lock.driver.current_token().is_empty());
    assert_eq!(lock.driver.stored_token(), None);

    // Acquire succeeds again, with a fresh token.
    Locking::acquire_lock(&mut lock, &()).unwrap();
    let second_token = lock.driver.current_token().clone();
    assert_eq!(second_token.len(), 36);
    assert_ne!(second_token, first_token);
    assert_eq!(lock.driver.stored_token(), Some(second_token));
}

#[test]
fn mock_renewal_succeeds_while_held() {
    let mut lock = DistLock::new(MockDetail::new("rvn"), LockDuration::from_secs(10));

    Locking::acquire_lock(&mut lock, &()).unwrap();
    let first_token = lock.driver.current_token().clone();

    // A renewal by the holder passes the condition and advances the token.
    Locking::acquire_lock(&mut lock, &()).unwrap();
    let second_token = lock.driver.current_token().clone();
    assert_ne!(second_token, first_token);
    assert_eq!(lock.driver.stored_token(), Some(second_token));
}

#[test]
fn mock_release_without_record_fails() {
    let mut lock = DistLock::new(MockDetail::new("rvn"), LockDuration::from_secs(10));

    // Nothing is stored, so the release condition cannot hold.
    let result = Locking::release_lock(&mut lock, &());
    assert_eq!(
        result.err().unwrap().kind(),
        DynaErrorKind::LockAlreadyAcquired
    );
    assert!(lock.driver.current_token().is_empty());
}

#[test]
fn mock_refresh_adopts_stored_token() {
    let mut lock = DistLock::new(MockDetail::new("rvn"), LockDuration::from_secs(10));

    Locking::acquire_lock(&mut lock, &()).unwrap();
    let held = lock.driver.current_token().clone();

    // Refresh re-reads the record; the believed token stays the stored one.
    Locking::refresh_lock(&mut lock, &()).unwrap();
    assert_eq!(lock.driver.current_token(), &held);

    // With no record at all, refresh changes nothing and still succeeds.
    Locking::release_lock(&mut lock, &()).unwrap();
    Locking::refresh_lock(&mut lock, &()).unwrap();
    assert!(lock.driver.current_token().is_empty());
}
