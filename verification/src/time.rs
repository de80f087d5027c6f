//! Lease durations and lease-start instants.
//!
//! A lease duration is a span of time held as whole seconds plus a
//! sub-second nanosecond part; the lease-start instant wraps a monotonic
//! clock reading taken when a lease was granted. All duration arithmetic is
//! done here, on plain values; only reading the clocks is delegated to std.

use vstd::prelude::*;

verus! {

/// A span of time: whole seconds and a sub-second nanosecond part.
#[derive(Debug, Clone, Copy, PartialEq, Eq, Structural)]
pub struct LockDuration {
    secs: u64,
    nanos: u32,
}

impl LockDuration {
    /// A duration's nanosecond part always stays below one second.
    #[verifier::type_invariant]
    pub closed spec fn wf(self) -> bool {
        self.nanos < 1_000_000_000
    }

    /// The whole-second part.
    pub closed spec fn spec_secs(self) -> u64 {
        self.secs
    }

    /// The sub-second part, in nanoseconds.
    pub closed spec fn spec_nanos(self) -> u32 {
        self.nanos
    }

    /// The whole span, in nanoseconds.
    pub closed spec fn total_nanos(self) -> int {
        self.secs * 1_000_000_000 + self.nanos
    }

    /// How the parts make up the whole span.
    pub proof fn lemma_parts(self)
        ensures
            self.total_nanos() == self.spec_secs() * 1_000_000_000 + self.spec_nanos(),
            0 <= self.total_nanos(),
    {
    }

    /// A duration of a whole number of seconds.
    pub fn from_secs(secs: u64) -> (r: Self)
        ensures
            r.spec_secs() == secs,
            r.spec_nanos() == 0,
            r.total_nanos() == secs * 1_000_000_000,
    {
        LockDuration { secs, nanos: 0 }
    }

    /// A duration from seconds and a nanosecond remainder.
    pub fn from_parts(secs: u64, nanos: u32) -> (r: Self)
        requires
            nanos < 1_000_000_000,
        ensures
            r.spec_secs() == secs,
            r.spec_nanos() == nanos,
            r.total_nanos() == secs * 1_000_000_000 + nanos,
    {
        LockDuration { secs, nanos }
    }

    /// The whole-second part.
    pub fn as_secs(&self) -> (r: u64)
        ensures
            r == self.spec_secs(),
    {
        self.secs
    }

    /// The sub-second part, in nanoseconds.
    pub fn subsec_nanos(&self) -> (r: u32)
        ensures
            r == self.spec_nanos(),
    {
        self.nanos
    }

    /// What is left of a lease of length `total` once `elapsed` has passed:
    /// the difference while elapsed time is strictly below the total, and
    /// nothing from the boundary on.
    pub open spec fn spec_remaining(total: int, elapsed: int) -> Option<int> {
        if elapsed < total {
            Some(total - elapsed)
        } else {
            None
        }
    }

    /// What is left of a lease of this duration once `elapsed` has passed.
    pub fn remaining_from(&self, elapsed: &LockDuration) -> (r: Option<LockDuration>)
        ensures
            (match Self::spec_remaining(self.total_nanos(), elapsed.total_nanos()) {
                Some(left) => r matches Some(l) && l.total_nanos() == left,
                None => r is None,
            }),
            (r matches Some(l) ==> l.spec_nanos() < 1_000_000_000),
    {
        proof {
            use_type_invariant(*self);
            use_type_invariant(*elapsed);
        }
        let strictly_less: bool = elapsed.secs < self.secs || (elapsed.secs == self.secs
            && elapsed.nanos < self.nanos);
        if strictly_less {
            if self.nanos >= elapsed.nanos {
                Some(LockDuration {
                    secs: self.secs - elapsed.secs,
                    nanos: self.nanos - elapsed.nanos,
                })
            } else {
                Some(LockDuration {
                    secs: self.secs - elapsed.secs - 1,
                    nanos: self.nanos + 1_000_000_000 - elapsed.nanos,
                })
            }
        } else {
            None
        }
    }
}

/// Remaining lease time is strictly below the configured duration
/// whenever any time at all has elapsed, and is nothing once elapsed time
/// reaches or exceeds the duration — at exact equality, already nothing.
/// With nothing elapsed and a positive duration — a valid configuration
/// never has a zero one — the full duration remains.
pub proof fn lemma_remaining_bounds(total: int, elapsed: int)
    ensures
        0 < elapsed ==> (match LockDuration::spec_remaining(total, elapsed) {
            Some(left) => left < total,
            None => true,
        }),
        elapsed >= total ==> LockDuration::spec_remaining(total, elapsed) is None,
        elapsed == 0 && 0 < total ==> LockDuration::spec_remaining(total, elapsed) == Some(total),
{
}

/// The moment a lease was granted, as read from this process's monotonic
/// clock. Produced by every successful acquire; never persisted; consumed
/// only to compute remaining lease time.
pub struct LeaseStart {
    instant: std::time::Instant,
}

#[verifier::external_type_specification]
#[verifier::external_body]
pub struct ExInstant(std::time::Instant);

/// Relies on std::time::Instant::now: the current monotonic instant.
/// Nothing is promised of the value — it depends on the clock.
#[verifier::external_body]
pub fn lease_start_now() -> LeaseStart {
    LeaseStart { instant: std::time::Instant::now() }
}

/// Relies on std::time::Instant::elapsed: the time since the instant. std
/// documents the sub-second part of a Duration to stay below one second;
/// nothing more is promised — the value depends on the clock.
#[verifier::external_body]
pub fn elapsed_since(start: &LeaseStart) -> (r: LockDuration)
    ensures
        r.spec_nanos() < 1_000_000_000,
{
    let elapsed = start.instant.elapsed();
    LockDuration { secs: elapsed.as_secs(), nanos: elapsed.subsec_nanos() }
}

/// Relies on std::time::SystemTime::now and duration_since(UNIX_EPOCH):
/// whole seconds of wall-clock time since the Unix epoch, or the clock
/// error's message when the clock reads earlier than the epoch. Nothing is
/// promised of the value — it depends on the clock.
#[verifier::external_body]
pub fn epoch_seconds_now() -> Result<u64, String> {
    match std::time::SystemTime::now().duration_since(std::time::UNIX_EPOCH) {
        Ok(since) => Ok(since.as_secs()),
        Err(e) => Err(e.to_string()),
    }
}

} // verus!
