//! A mock implementation of the locking API with in-memory storage.
//!
//! [`LockRecord`] is the in-memory counterpart of the stored lock record:
//! it answers conditional updates exactly as a conditional-write store
//! would, so the protocol can be exercised — and its guarantees proved —
//! without a store. [`MockDetail`] is a driver over one such record, and
//! `DistLock<MockDetail>` implements the full [`Locking`] contract with it.

use vstd::prelude::*;

use crate::DistLock;
use crate::Locking;
use crate::error::DynaError;
use crate::error::DynaErrorKind;
use crate::providers::UpdateOutcome;
use crate::providers::acquire_allowed;
use crate::providers::fresh_token;
use crate::providers::release_allowed;
use crate::providers::store_after_acquire;
use crate::providers::store_after_release;
use crate::time::LeaseStart;
use crate::time::LockDuration;
use crate::time::elapsed_since;
use crate::time::lease_start_now;

verus! {

/// One lock record held in memory: the fencing-token attribute, if present.
#[derive(Debug)]
pub struct LockRecord {
    token: Option<String>,
}

impl LockRecord {
    /// The record's token attribute, as a mathematical value.
    pub closed spec fn token_view(&self) -> Option<Seq<char>> {
        match self.token {
            Some(t) => Some(t@),
            None => None,
        }
    }

    /// A record with no token attribute: the unclaimed resource.
    pub fn new() -> (r: LockRecord)
        ensures
            r.token_view() is None,
    {
        LockRecord { token: None }
    }

    /// Apply the conditional update an acquire request carries: set the
    /// token to `fresh` if the attribute is absent or equals `believed`.
    pub fn apply_acquire(&mut self, believed: &String, fresh: &String) -> (r: UpdateOutcome)
        ensures
            final(self).token_view() == store_after_acquire(
                old(self).token_view(),
                believed@,
                fresh@,
            ),
            r is Applied <==> acquire_allowed(old(self).token_view(), believed@),
            r is Applied || r is ConditionFailed,
            !acquire_allowed(old(self).token_view(), believed@) ==> *final(self) == *old(self),
    {
        let allowed: bool = match &self.token {
            None => true,
            Some(t) => *t == *believed,
        };
        if allowed {
            self.token = Some(fresh.clone());
            UpdateOutcome::Applied
        } else {
            UpdateOutcome::ConditionFailed
        }
    }

    /// Apply the conditional update a release request carries: remove the
    /// token attribute if it exists and equals `believed`.
    pub fn apply_release(&mut self, believed: &String) -> (r: UpdateOutcome)
        ensures
            final(self).token_view() == store_after_release(old(self).token_view(), believed@),
            r is Applied <==> release_allowed(old(self).token_view(), believed@),
            r is Applied || r is ConditionFailed,
            !release_allowed(old(self).token_view(), believed@) ==> *final(self) == *old(self),
    {
        let allowed: bool = match &self.token {
            None => false,
            Some(t) => *t == *believed,
        };
        if allowed {
            self.token = None;
            UpdateOutcome::Applied
        } else {
            UpdateOutcome::ConditionFailed
        }
    }

    /// Read the record: the token attribute, if present.
    pub fn read_token(&self) -> (r: Option<String>)
        ensures
            (match r {
                Some(t) => self.token_view() == Some(t@),
                None => self.token_view() is None,
            }),
    {
        match &self.token {
            Some(t) => Some(t.clone()),
            None => None,
        }
    }
}

/// A struct to contain details of the in-memory mock lock implementation:
/// the token field's name, the record itself, and the fencing token this
/// handle believes is currently valid.
#[derive(Debug)]
pub struct MockDetail {
    field_name: String,
    record: LockRecord,
    current_token: String,
}

impl MockDetail {
    /// The believed-current token, as a mathematical value.
    pub closed spec fn token_view(&self) -> Seq<char> {
        self.current_token@
    }

    /// The record's token attribute, as a mathematical value.
    pub closed spec fn stored_view(&self) -> Option<Seq<char>> {
        self.record.token_view()
    }

    /// The token field's name, as a mathematical value.
    pub closed spec fn field_name_view(&self) -> Seq<char> {
        self.field_name@
    }

    /// A mock driver over an unclaimed in-memory record.
    pub fn new(field_name: &str) -> (r: MockDetail)
        ensures
            r.field_name_view() == field_name@,
            r.token_view().len() == 0,
            r.stored_view() is None,
    {
        MockDetail {
            field_name: field_name.to_owned(),
            record: LockRecord::new(),
            current_token: String::new(),
        }
    }

    /// The believed-current token.
    pub fn current_token(&self) -> (r: &String)
        ensures
            r@ == self.token_view(),
    {
        &self.current_token
    }

    /// The record's token attribute, as the store would report it.
    pub fn stored_token(&self) -> (r: Option<String>)
        ensures
            (match r {
                Some(t) => self.stored_view() == Some(t@),
                None => self.stored_view() is None,
            }),
    {
        self.record.read_token()
    }
}

impl Locking for DistLock<MockDetail> {
    type AcquireLockInputType = ();

    type RefreshLockInputType = ();

    type ReleaseLockInputType = ();

    /// Acquire against the in-memory record: one conditional write, with a
    /// fresh fencing token and the first-attempt adoption the protocol
    /// prescribes.
    fn acquire_lock(&mut self, _input: &()) -> (r: Result<LeaseStart, DynaError>)
        ensures
            old(self).driver.stored_view() is None ==> r is Ok,
            (old(self).driver.stored_view() == Some(old(self).driver.token_view()) && old(
                self,
            ).driver.token_view().len() != 0 ==> r is Ok),
            (old(self).driver.token_view().len() != 0 && (old(self).driver.stored_view()
                matches Some(t) && t != old(self).driver.token_view()) ==> r is Err),
            (r is Ok ==> {
                &&& final(self).driver.stored_view() == Some(final(self).driver.token_view())
                &&& final(self).driver.token_view().len() == 36
                &&& final(self).driver.field_name_view() == old(self).driver.field_name_view()
                &&& final(self).duration == old(self).duration
            }),
            (r matches Err(e) ==> e.kind == DynaErrorKind::LockAlreadyAcquired && *final(self)
                == *old(self)),
    {
        let fresh = fresh_token();
        let believed = if self.driver.current_token.as_str().is_empty() {
            fresh.clone()
        } else {
            self.driver.current_token.clone()
        };
        let outcome = self.driver.record.apply_acquire(&believed, &fresh);
        match outcome {
            UpdateOutcome::Applied => {
                let start = lease_start_now();
                self.driver.current_token = fresh;
                Ok(start)
            },
            _ => Err(DynaError::new(DynaErrorKind::LockAlreadyAcquired, None)),
        }
    }

    /// Refresh against the in-memory record: one read; adopt the stored
    /// token when one is present, change nothing otherwise. Never fails.
    fn refresh_lock(&mut self, _input: &()) -> (r: Result<(), DynaError>)
        ensures
            r is Ok,
            (match old(self).driver.stored_view() {
                Some(t) => final(self).driver.token_view() == t,
                None => *final(self) == *old(self),
            }),
            final(self).driver.stored_view() == old(self).driver.stored_view(),
            final(self).driver.field_name_view() == old(self).driver.field_name_view(),
            final(self).duration == old(self).duration,
    {
        let found = self.driver.record.read_token();
        match found {
            Some(token) => {
                self.driver.current_token = token;
            },
            None => {},
        }
        Ok(())
    }

    /// Remaining lease time for a lease obtained at `start`, from the
    /// configured duration and the monotonic clock: any answer stays within
    /// the configured duration, and `None` means the lease has expired.
    fn remaining(&self, start: &LeaseStart) -> (r: Option<LockDuration>)
        ensures
            (r matches Some(l) ==> l.total_nanos() <= self.duration.total_nanos()
                && l.spec_nanos() < 1_000_000_000),
    {
        let elapsed = elapsed_since(start);
        proof {
            elapsed.lemma_parts();
        }
        self.remaining_after(&elapsed)
    }

    /// Release against the in-memory record: one conditional write that
    /// removes the token if it still equals the believed-current token,
    /// which is then cleared locally; otherwise local state is untouched.
    fn release_lock(&mut self, _input: &()) -> (r: Result<(), DynaError>)
        ensures
            r is Ok <==> release_allowed(
                old(self).driver.stored_view(),
                old(self).driver.token_view(),
            ),
            (r is Ok ==> {
                &&& final(self).driver.stored_view() is None
                &&& final(self).driver.token_view().len() == 0
                &&& final(self).driver.field_name_view() == old(self).driver.field_name_view()
                &&& final(self).duration == old(self).duration
            }),
            (r matches Err(e) ==> e.kind == DynaErrorKind::LockAlreadyAcquired && *final(self)
                == *old(self)),
    {
        let outcome = self.driver.record.apply_release(&self.driver.current_token);
        match outcome {
            UpdateOutcome::Applied => {
                self.driver.current_token = String::new();
                Ok(())
            },
            _ => Err(DynaError::new(DynaErrorKind::LockAlreadyAcquired, None)),
        }
    }
}

} // verus!
