//! Dynalock: a lease based distributed lock.
//!
//! Dynalock supports lease based distributed locking through providers that
//! offer a strongly consistent compare-and-swap operation, or at least the
//! compare-and-set variant together with a consistent read.
//!
//! The library can be used to cooperatively synchronize access to a shared
//! resource. The main data structure describing a lock is [`DistLock`]: a
//! generic container binding a back-end driver to a configured lease
//! duration. Back-end drivers realize the locking algorithm over the
//! provider's primitives through the [`Locking`] trait.

use vstd::prelude::*;

pub mod error;
pub mod providers;
pub mod time;

pub use error::DynaError;
pub use error::DynaErrorKind;
pub use providers::DynamoDbDriver;
pub use providers::dynamodb;
pub use providers::mock;
pub use time::LeaseStart;
pub use time::LockDuration;

verus! {

use crate::time::elapsed_since;

/// The Locking trait provides a contractual API that providers implement the
/// Dynalock algorithm with, using the particular provider's primitives.
///
/// Each method has an associated type on the trait for its `input`. Providers
/// must implement all of the associated types to provide input to this
/// trait's methods.
///
/// All trait methods return `Result<T, E>` where `E` is always `DynaError`
/// except for `remaining` where it returns `Option<LockDuration>`.
pub trait Locking {
    /// Associated type for the `acquire_lock` method input type.
    type AcquireLockInputType;

    /// Associated type for the `refresh_lock` method input type.
    type RefreshLockInputType;

    /// Associated type for the `release_lock` method input type.
    type ReleaseLockInputType;

    /// Try to acquire a lock on a shared resource.
    ///
    /// If successful this method must return a [`LeaseStart`] that marks the
    /// point in time when the lease on a lock was obtained. Providers should
    /// only generate it after the last I/O call is made.
    fn acquire_lock(&mut self, input: &Self::AcquireLockInputType) -> Result<LeaseStart, DynaError>;

    /// Try to refresh the current lock data structure.
    ///
    /// This is useful when `acquire_lock` fails with
    /// `DynaErrorKind::LockAlreadyAcquired` and the provider doesn't support
    /// a compare-and-swap primitive, only the compare-and-set variant.
    fn refresh_lock(&mut self, input: &Self::RefreshLockInputType) -> Result<(), DynaError>;

    /// When `acquire_lock` is successful it returns a [`LeaseStart`] which is
    /// used to track the time from when the lease was issued. This method
    /// safely calculates the duration left since `acquire_lock` was called.
    /// If the return value is `None` the lock lease has expired and the
    /// caller must stop mutating the shared resource immediately.
    fn remaining(&self, start: &LeaseStart) -> Option<LockDuration>;

    /// This optional method is only useful in rare situations and highly
    /// depends on the provider's implementation and primitives supported.
    /// Providers should implement this method to release the lock by
    /// clearing the fence token. The default is a no-op success, for
    /// back-ends that cannot cheaply release.
    fn release_lock(&mut self, _input: &Self::ReleaseLockInputType) -> (r: Result<(), DynaError>)
        default_ensures
            r is Ok,
    {
        Ok(())
    }
}

/// The distributed lock structure that holds all the internal lock state and
/// information.
///
/// This is the entry point to this library and should be used to hold a lock
/// on a shared resource. The `driver` field is the only mutable state
/// reachable from the handle; `duration` is the configured lease length and
/// does not change across acquire/refresh cycles.
#[derive(Debug)]
pub struct DistLock<Driver> {
    pub driver: Driver,
    pub duration: LockDuration,
}

impl<Driver> DistLock<Driver> {
    /// Initialize a new DistLock structure and return it.
    ///
    /// This static method accepts a `Driver` and a [`LockDuration`] as
    /// parameters. The `duration` parameter describes the time for which the
    /// lock should be held.
    pub fn new(driver: Driver, duration: LockDuration) -> (r: Self)
        ensures
            r.driver == driver,
            r.duration == duration,
    {
        DistLock { driver, duration }
    }

    /// Return a mutable reference to the underlying `driver` field.
    pub fn driver(&mut self) -> (r: &mut Driver)
        ensures
            *r == old(self).driver,
            final(self).driver == *final(r),
            final(self).duration == old(self).duration,
    {
        &mut self.driver
    }

    /// Return the configured lease duration for the lock.
    pub fn duration(&self) -> (r: LockDuration)
        ensures
            r == self.duration,
    {
        self.duration
    }

    /// The lease time left once `elapsed` has passed since the lease start:
    /// the configured duration minus elapsed time, and `None` from the
    /// moment elapsed time reaches the duration.
    pub fn remaining_after(&self, elapsed: &LockDuration) -> (r: Option<LockDuration>)
        ensures
            (match LockDuration::spec_remaining(
                self.duration.total_nanos(),
                elapsed.total_nanos(),
            ) {
                Some(left) => r matches Some(l) && l.total_nanos() == left,
                None => r is None,
            }),
            (r matches Some(l) ==> l.spec_nanos() < 1_000_000_000),
    {
        self.duration.remaining_from(elapsed)
    }

    /// The lease time left right now for a lease obtained at `start`: the
    /// configured duration minus the monotonic time elapsed since `start`.
    /// The elapsed time depends on the clock, so only this is promised: any
    /// answer stays within the configured duration, and `None` means the
    /// lease must be treated as expired.
    pub fn remaining(&self, start: &LeaseStart) -> (r: Option<LockDuration>)
        ensures
            (r matches Some(l) ==> l.total_nanos() <= self.duration.total_nanos()
                && l.spec_nanos() < 1_000_000_000),
    {
        let elapsed = elapsed_since(start);
        proof {
            elapsed.lemma_parts();
        }
        self.remaining_after(&elapsed)
    }
}

} // verus!

