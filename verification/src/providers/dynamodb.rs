//! An implementation of the locking API against a DynamoDB-class
//! conditional-write store.
//!
//! Lock items on the table are composed of the following attributes:
//!
//! - Partition key field
//! - Fence token field
//! - Lease duration field
//! - TTL field
//!
//! The partition key of the table identifies the shared resource, while the
//! fence token prevents the ABA problem. The duration attribute records the
//! lock's lease length. The TTL field tells the store when to garbage-collect
//! items that have expired, if TTL is configured on the table; it is advisory
//! only and never read by this code to decide whether a lease is valid.
//!
//! The fence token is a version-4 UUID generated for every acquire attempt;
//! its strength rests on the process's CSPRNG, which makes collisions as rare
//! as the generator's period allows.
//!
//! Every operation is exactly one round trip. The functions here build the
//! full conditional request for that round trip and interpret the store's
//! answer to it; performing the network call itself is the surrounding
//! process's part, outside this library.

use vstd::prelude::*;

use crate::DistLock;
use crate::error::DynaError;
use crate::error::DynaErrorKind;
use crate::providers::ReadOutcome;
use crate::providers::UpdateOutcome;
use crate::providers::cond_token_for;
use crate::providers::fresh_token;
use crate::time::LeaseStart;
use crate::time::LockDuration;
use crate::time::epoch_seconds_now;
use crate::time::lease_start_now;

verus! {

/// The number of seconds in 24 hours.
pub const DAY_SECONDS: u64 = 86400;

/// A structure to contain details of the DynamoDB lock implementation: the
/// store coordinates, the attribute names this driver reads and writes on
/// the stored lock record, and the fencing token this process believes is
/// currently valid. The store client that carries the requests lives with
/// the surrounding process, not here.
#[derive(Debug)]
pub struct DynamoDbDriver {
    /// The lock table name.
    pub table_name: String,
    /// The partition key field name.
    pub partition_key_field_name: String,
    /// The fence token field name.
    pub token_field_name: String,
    /// The lease duration field name.
    pub duration_field_name: String,
    /// The TTL field name.
    pub ttl_field_name: String,
    /// The duration added to the wall clock for the store-side TTL hint.
    pub ttl_value: u64,
    /// The partition key value identifying the protected resource.
    pub partition_key_value: String,
    /// The fencing token this process believes is currently valid. Starts
    /// empty; set on successful acquire, updated on refresh, cleared on
    /// successful release.
    pub current_token: String,
}

impl DynamoDbDriver {
    /// Initialize a new DynamoDbDriver structure and fill it with the
    /// `input` variable's contents.
    pub fn new(input: &DynamoDbDriverInput) -> (r: DynamoDbDriver)
        ensures
            r.table_name@ == input.table_name@,
            r.partition_key_field_name@ == input.partition_key_field_name@,
            r.partition_key_value@ == input.partition_key_value@,
            r.token_field_name@ == input.token_field_name@,
            r.duration_field_name@ == input.duration_field_name@,
            r.ttl_field_name@ == input.ttl_field_name@,
            r.ttl_value == input.ttl_value,
            r.current_token@.len() == 0,
    {
        DynamoDbDriver {
            table_name: input.table_name.clone(),
            partition_key_field_name: input.partition_key_field_name.clone(),
            partition_key_value: input.partition_key_value.clone(),
            token_field_name: input.token_field_name.clone(),
            duration_field_name: input.duration_field_name.clone(),
            ttl_field_name: input.ttl_field_name.clone(),
            ttl_value: input.ttl_value,
            current_token: String::new(),
        }
    }
}

/// A structure that describes the inputs to `DynamoDbDriver::new`.
///
/// This structure's `Default` implementation provides sane default values.
/// Only the `table_name` and the `partition_key_field_name` fields are
/// required.
#[derive(Debug)]
pub struct DynamoDbDriverInput {
    /// The DynamoDB lock table name to be used.
    pub table_name: String,
    /// The partition key field name.
    pub partition_key_field_name: String,
    /// The partition key value (default: "singleton"). This field should be
    /// provided to use the lock driver on multiple shared resources, each
    /// represented by a partition key value.
    pub partition_key_value: String,
    /// The fence token field name (default: "rvn").
    pub token_field_name: String,
    /// The lease duration field name (default: "duration").
    pub duration_field_name: String,
    /// The TTL field name (default: "ttl").
    pub ttl_field_name: String,
    /// The TTL value to be added to the wall clock for expiration (default:
    /// 7 days in seconds).
    pub ttl_value: u64,
}

impl Default for DynamoDbDriverInput {
    fn default() -> (r: Self)
        ensures
            r.table_name@.len() == 0,
            r.partition_key_field_name@.len() == 0,
            r.partition_key_value@ == "singleton"@,
            r.token_field_name@ == "rvn"@,
            r.duration_field_name@ == "duration"@,
            r.ttl_field_name@ == "ttl"@,
            r.ttl_value == DAY_SECONDS * 7,
    {
        DynamoDbDriverInput {
            table_name: String::new(),
            partition_key_field_name: String::new(),
            partition_key_value: "singleton".to_owned(),
            token_field_name: "rvn".to_owned(),
            duration_field_name: "duration".to_owned(),
            ttl_field_name: "ttl".to_owned(),
            ttl_value: DAY_SECONDS * 7,
        }
    }
}

/// A struct to hold input variables for the locking operations.
///
/// The optional field `consistent_read` matters only for refresh requests;
/// it exists here for convenience.
#[derive(Debug, Clone)]
pub struct DynamoDbLockInput {
    /// After how much time the surrounding process should time out of a lock
    /// acquisition or refresh request to the store.
    pub timeout: LockDuration,
    /// Whether a refresh request should read the table with strong
    /// consistency.
    pub consistent_read: Option<bool>,
}

impl Default for DynamoDbLockInput {
    fn default() -> (r: Self)
        ensures
            r.timeout.spec_secs() == 10,
            r.timeout.spec_nanos() == 0,
            r.consistent_read == Some(false),
    {
        DynamoDbLockInput { timeout: LockDuration::from_secs(10), consistent_read: Some(false) }
    }
}

/// A struct to hold input variables for an acquire operation alone, for
/// callers that never refresh or release.
#[derive(Debug, Clone)]
pub struct DynamoDbAcquireLockInput {
    /// After how much time the surrounding process should time out of a lock
    /// acquisition request to the store.
    pub timeout: LockDuration,
}

impl Default for DynamoDbAcquireLockInput {
    fn default() -> (r: Self)
        ensures
            r.timeout.spec_secs() == 10,
            r.timeout.spec_nanos() == 0,
    {
        DynamoDbAcquireLockInput { timeout: LockDuration::from_secs(10) }
    }
}

/// The update expression an acquire request carries.
pub open spec fn spec_acquire_update_expr() -> Seq<char> {
    "SET #token_field = :new_token, #duration_field = :lease, #ttl_field = :ttl"@
}

/// The condition expression an acquire request carries.
pub open spec fn spec_acquire_condition_expr() -> Seq<char> {
    "attribute_not_exists(#token_field) OR #token_field = :cond_current_token"@
}

/// The update expression a release request carries.
pub open spec fn spec_release_update_expr() -> Seq<char> {
    "REMOVE #token_field"@
}

/// The condition expression a release request carries.
pub open spec fn spec_release_condition_expr() -> Seq<char> {
    "attribute_exists(#token_field) AND #token_field = :cond_current_token"@
}

fn acquire_update_expr() -> (r: &'static str)
    ensures
        r@ == spec_acquire_update_expr(),
{
    "SET #token_field = :new_token, #duration_field = :lease, #ttl_field = :ttl"
}

fn acquire_condition_expr() -> (r: &'static str)
    ensures
        r@ == spec_acquire_condition_expr(),
{
    "attribute_not_exists(#token_field) OR #token_field = :cond_current_token"
}

fn release_update_expr() -> (r: &'static str)
    ensures
        r@ == spec_release_update_expr(),
{
    "REMOVE #token_field"
}

fn release_condition_expr() -> (r: &'static str)
    ensures
        r@ == spec_release_condition_expr(),
{
    "attribute_exists(#token_field) AND #token_field = :cond_current_token"
}

/// The value of one request attribute: a string or a number, as the store
/// types them.
#[derive(Debug, Clone, PartialEq)]
pub enum AttrValue {
    /// A string attribute value.
    S(String),
    /// A numeric attribute value, held as whole seconds.
    N(u64),
}

/// One conditional update, fully laid out: everything an acquire attempt
/// sends to the store in its single round trip.
#[derive(Debug, Clone)]
pub struct AcquireRequest {
    /// The lock table name.
    pub table_name: String,
    /// The partition key field name.
    pub key_field: String,
    /// The partition key value identifying the resource.
    pub key_value: String,
    /// The update expression.
    pub update_expression: String,
    /// The condition expression.
    pub condition_expression: String,
    /// Expression attribute names: placeholder to field name.
    pub attribute_names: Vec<(String, String)>,
    /// Expression attribute values: placeholder to value.
    pub attribute_values: Vec<(String, AttrValue)>,
    /// The fresh fencing token this attempt writes on success.
    pub new_token: String,
    /// The token the condition compares the stored attribute against.
    pub cond_token: String,
    /// The timeout to apply to the round trip.
    pub timeout: LockDuration,
}

/// One read of the lock record: everything a refresh sends to the store,
/// and the name of the attribute whose value it is after.
#[derive(Debug, Clone)]
pub struct RefreshRequest {
    /// The lock table name.
    pub table_name: String,
    /// The partition key field name.
    pub key_field: String,
    /// The partition key value identifying the resource.
    pub key_value: String,
    /// The fence token field name, whose value the answer is read for.
    pub token_field: String,
    /// Whether to read with strong consistency.
    pub consistent_read: Option<bool>,
    /// The timeout to apply to the round trip.
    pub timeout: LockDuration,
}

/// One conditional update, fully laid out: everything a release sends to
/// the store in its single round trip.
#[derive(Debug, Clone)]
pub struct ReleaseRequest {
    /// The lock table name.
    pub table_name: String,
    /// The partition key field name.
    pub key_field: String,
    /// The partition key value identifying the resource.
    pub key_value: String,
    /// The update expression.
    pub update_expression: String,
    /// The condition expression.
    pub condition_expression: String,
    /// Expression attribute names: placeholder to field name.
    pub attribute_names: Vec<(String, String)>,
    /// Expression attribute values: placeholder to value.
    pub attribute_values: Vec<(String, AttrValue)>,
    /// The token the condition compares the stored attribute against.
    pub cond_token: String,
    /// The timeout to apply to the round trip.
    pub timeout: LockDuration,
}

/// The driver fields that never change after construction: everything but
/// the believed-current token.
pub open spec fn same_config(a: DynamoDbDriver, b: DynamoDbDriver) -> bool {
    &&& a.table_name == b.table_name
    &&& a.partition_key_field_name == b.partition_key_field_name
    &&& a.partition_key_value == b.partition_key_value
    &&& a.token_field_name == b.token_field_name
    &&& a.duration_field_name == b.duration_field_name
    &&& a.ttl_field_name == b.ttl_field_name
    &&& a.ttl_value == b.ttl_value
}

/// The store-side expiry hint: the wall clock plus the configured TTL
/// window, pinned to the top of the range where it would overflow.
pub open spec fn spec_ttl_hint(now: u64, window: u64) -> u64 {
    if now + window <= u64::MAX {
        (now + window) as u64
    } else {
        u64::MAX
    }
}

/// An acquire request carries exactly the driver's coordinates, the acquire
/// expressions, the three field-name bindings, and the four value bindings:
/// the fresh token, the lease length in seconds, the TTL hint, and the
/// condition token.
pub open spec fn acquire_request_wf(
    r: AcquireRequest,
    driver: DynamoDbDriver,
    lease_secs: u64,
) -> bool {
    &&& r.table_name@ == driver.table_name@
    &&& r.key_field@ == driver.partition_key_field_name@
    &&& r.key_value@ == driver.partition_key_value@
    &&& r.update_expression@ == spec_acquire_update_expr()
    &&& r.condition_expression@ == spec_acquire_condition_expr()
    &&& r.attribute_names@.len() == 3
    &&& r.attribute_names@[0].0@ == "#token_field"@
    &&& r.attribute_names@[0].1@ == driver.token_field_name@
    &&& r.attribute_names@[1].0@ == "#duration_field"@
    &&& r.attribute_names@[1].1@ == driver.duration_field_name@
    &&& r.attribute_names@[2].0@ == "#ttl_field"@
    &&& r.attribute_names@[2].1@ == driver.ttl_field_name@
    &&& r.attribute_values@.len() == 4
    &&& r.attribute_values@[0].0@ == ":new_token"@
    &&& (r.attribute_values@[0].1 matches AttrValue::S(t) && t@ == r.new_token@)
    &&& r.attribute_values@[1].0@ == ":lease"@
    &&& r.attribute_values@[1].1 == AttrValue::N(lease_secs)
    &&& r.attribute_values@[2].0@ == ":ttl"@
    &&& r.attribute_values@[2].1 is N
    &&& r.attribute_values@[3].0@ == ":cond_current_token"@
    &&& (r.attribute_values@[3].1 matches AttrValue::S(t) && t@ == r.cond_token@)
}

/// A release request carries exactly the driver's coordinates, the release
/// expressions, the token field-name binding, and the condition token.
pub open spec fn release_request_wf(r: ReleaseRequest, driver: DynamoDbDriver) -> bool {
    &&& r.table_name@ == driver.table_name@
    &&& r.key_field@ == driver.partition_key_field_name@
    &&& r.key_value@ == driver.partition_key_value@
    &&& r.update_expression@ == spec_release_update_expr()
    &&& r.condition_expression@ == spec_release_condition_expr()
    &&& r.attribute_names@.len() == 1
    &&& r.attribute_names@[0].0@ == "#token_field"@
    &&& r.attribute_names@[0].1@ == driver.token_field_name@
    &&& r.attribute_values@.len() == 1
    &&& r.attribute_values@[0].0@ == ":cond_current_token"@
    &&& (r.attribute_values@[0].1 matches AttrValue::S(t) && t@ == r.cond_token@)
    &&& r.cond_token@ == driver.current_token@
}

impl DistLock<DynamoDbDriver> {
    /// The acquire algorithm up to the store call, with the wall clock
    /// already read: generate a fresh fencing token, adopt it as the
    /// believed-current token on a first attempt, compute the TTL hint, and
    /// lay out the single conditional update to send.
    pub fn acquire_request_at(
        &mut self,
        input: &DynamoDbLockInput,
        now_epoch_seconds: u64,
    ) -> (r: AcquireRequest)
        ensures
            acquire_request_wf(r, old(self).driver, old(self).duration.spec_secs()),
            r.attribute_values@[2].1 == AttrValue::N(
                spec_ttl_hint(now_epoch_seconds, old(self).driver.ttl_value),
            ),
            r.new_token@.len() == 36,
            r.cond_token@ == cond_token_for(old(self).driver.current_token@, r.new_token@),
            final(self).driver.current_token@ == r.cond_token@,
            same_config(old(self).driver, final(self).driver),
            final(self).duration == old(self).duration,
            r.timeout == input.timeout,
    {
        let new_token = fresh_token();

        // Use the new token as the believed-current token if this is the
        // first run, so the "attribute absent" branch carries the attempt.
        if self.driver.current_token.as_str().is_empty() {
            self.driver.current_token = new_token.clone();
        }

        let ttl_epoch_seconds: u64 = if now_epoch_seconds <= u64::MAX - self.driver.ttl_value {
            now_epoch_seconds + self.driver.ttl_value
        } else {
            u64::MAX
        };

        let mut attribute_names: Vec<(String, String)> = Vec::new();
        attribute_names.push(("#token_field".to_owned(), self.driver.token_field_name.clone()));
        attribute_names.push((
            "#duration_field".to_owned(),
            self.driver.duration_field_name.clone(),
        ));
        attribute_names.push(("#ttl_field".to_owned(), self.driver.ttl_field_name.clone()));

        let mut attribute_values: Vec<(String, AttrValue)> = Vec::new();
        attribute_values.push((":new_token".to_owned(), AttrValue::S(new_token.clone())));
        attribute_values.push((":lease".to_owned(), AttrValue::N(self.duration.as_secs())));
        attribute_values.push((":ttl".to_owned(), AttrValue::N(ttl_epoch_seconds)));
        attribute_values.push((
            ":cond_current_token".to_owned(),
            AttrValue::S(self.driver.current_token.clone()),
        ));

        AcquireRequest {
            table_name: self.driver.table_name.clone(),
            key_field: self.driver.partition_key_field_name.clone(),
            key_value: self.driver.partition_key_value.clone(),
            update_expression: acquire_update_expr().to_owned(),
            condition_expression: acquire_condition_expr().to_owned(),
            attribute_names,
            attribute_values,
            new_token,
            cond_token: self.driver.current_token.clone(),
            timeout: input.timeout,
        }
    }

    /// The acquire algorithm up to the store call: read the wall clock for
    /// the TTL hint and lay out the conditional update. A failure to read
    /// the clock is local to this process and reported as the unhandled
    /// kind, with the state untouched.
    pub fn acquire_request(&mut self, input: &DynamoDbLockInput) -> (r: Result<
        AcquireRequest,
        DynaError,
    >)
        ensures
            (r matches Ok(req) ==> {
                &&& acquire_request_wf(req, old(self).driver, old(self).duration.spec_secs())
                &&& req.new_token@.len() == 36
                &&& req.cond_token@ == cond_token_for(
                    old(self).driver.current_token@,
                    req.new_token@,
                )
                &&& final(self).driver.current_token@ == req.cond_token@
                &&& same_config(old(self).driver, final(self).driver)
                &&& final(self).duration == old(self).duration
                &&& req.timeout == input.timeout
            }),
            (r matches Err(e) ==> e.kind == DynaErrorKind::UnhandledError && *final(self) == *old(
                self,
            )),
    {
        match epoch_seconds_now() {
            Ok(now_epoch_seconds) => Ok(self.acquire_request_at(input, now_epoch_seconds)),
            Err(message) => Err(
                DynaError::new(DynaErrorKind::UnhandledError, Some(message.as_str())),
            ),
        }
    }

    /// Interpret the store's answer to an acquire request. On success the
    /// lease clock starts — only after the round trip has completed — and
    /// the fresh token becomes the believed-current token. A failed
    /// condition means another processor's token is of record: the lock is
    /// reported as already acquired and local state is left untouched. Any
    /// other failure of the call is reported as the provider kind, with the
    /// provider's message and local state untouched.
    pub fn finish_acquire(&mut self, request: &AcquireRequest, outcome: UpdateOutcome) -> (r:
        Result<LeaseStart, DynaError>)
        ensures
            r is Ok <==> outcome is Applied,
            (outcome is Applied ==> {
                &&& final(self).driver.current_token@ == request.new_token@
                &&& same_config(old(self).driver, final(self).driver)
                &&& final(self).duration == old(self).duration
            }),
            (outcome is ConditionFailed ==> *final(self) == *old(self) && (r matches Err(e)
                && e.kind == DynaErrorKind::LockAlreadyAcquired && e.description is None)),
            (outcome matches UpdateOutcome::Failed(m) ==> *final(self) == *old(self) && (r matches
                Err(e) && e.kind == DynaErrorKind::ProviderError && (e.description matches Some(d)
                && d@ == m@))),
    {
        match outcome {
            UpdateOutcome::Applied => {
                // After this point the lock clock starts.
                let start = lease_start_now();
                self.driver.current_token = request.new_token.clone();
                Ok(start)
            },
            UpdateOutcome::ConditionFailed => Err(
                DynaError::new(DynaErrorKind::LockAlreadyAcquired, None),
            ),
            UpdateOutcome::Failed(message) => Err(
                DynaError::new(DynaErrorKind::ProviderError, Some(message.as_str())),
            ),
        }
    }

    /// Lay out the single read a refresh sends: the record by resource
    /// identity, with the caller-selected consistency.
    pub fn refresh_request(&self, input: &DynamoDbLockInput) -> (r: RefreshRequest)
        ensures
            r.table_name@ == self.driver.table_name@,
            r.key_field@ == self.driver.partition_key_field_name@,
            r.key_value@ == self.driver.partition_key_value@,
            r.token_field@ == self.driver.token_field_name@,
            r.consistent_read == input.consistent_read,
            r.timeout == input.timeout,
    {
        RefreshRequest {
            table_name: self.driver.table_name.clone(),
            key_field: self.driver.partition_key_field_name.clone(),
            key_value: self.driver.partition_key_value.clone(),
            token_field: self.driver.token_field_name.clone(),
            consistent_read: input.consistent_read,
            timeout: input.timeout,
        }
    }

    /// Interpret the store's answer to a refresh request: when the record
    /// holds a token, adopt it as the believed-current token; when the
    /// record or its token attribute is absent, change nothing — a success
    /// either way, never a failure merely because the token changed. Only a
    /// failure of the read itself is reported, as the provider kind.
    pub fn finish_refresh(&mut self, outcome: ReadOutcome) -> (r: Result<(), DynaError>)
        ensures
            r is Ok <==> !(outcome is Failed),
            (outcome matches ReadOutcome::Found(t) ==> {
                &&& final(self).driver.current_token@ == t@
                &&& same_config(old(self).driver, final(self).driver)
                &&& final(self).duration == old(self).duration
            }),
            (outcome is Missing ==> *final(self) == *old(self)),
            (outcome matches ReadOutcome::Failed(m) ==> *final(self) == *old(self) && (r matches
                Err(e) && e.kind == DynaErrorKind::ProviderError && (e.description matches Some(d)
                && d@ == m@))),
    {
        match outcome {
            ReadOutcome::Found(token) => {
                self.driver.current_token = token;
                Ok(())
            },
            ReadOutcome::Missing => Ok(()),
            ReadOutcome::Failed(message) => Err(
                DynaError::new(DynaErrorKind::ProviderError, Some(message.as_str())),
            ),
        }
    }

    /// Lay out the single conditional update a release sends: remove the
    /// token attribute, on the condition that it exists and still equals
    /// the believed-current token.
    pub fn release_request(&self, input: &DynamoDbLockInput) -> (r: ReleaseRequest)
        ensures
            release_request_wf(r, self.driver),
            r.timeout == input.timeout,
    {
        let mut attribute_names: Vec<(String, String)> = Vec::new();
        attribute_names.push(("#token_field".to_owned(), self.driver.token_field_name.clone()));

        let mut attribute_values: Vec<(String, AttrValue)> = Vec::new();
        attribute_values.push((
            ":cond_current_token".to_owned(),
            AttrValue::S(self.driver.current_token.clone()),
        ));

        ReleaseRequest {
            table_name: self.driver.table_name.clone(),
            key_field: self.driver.partition_key_field_name.clone(),
            key_value: self.driver.partition_key_value.clone(),
            update_expression: release_update_expr().to_owned(),
            condition_expression: release_condition_expr().to_owned(),
            attribute_names,
            attribute_values,
            cond_token: self.driver.current_token.clone(),
            timeout: input.timeout,
        }
    }

    /// Interpret the store's answer to a release request: on success the
    /// stored token was cleared, so clear the believed-current token too. A
    /// failed condition means another processor has since advanced the
    /// token: the lock is reported as already acquired and local state is
    /// left untouched, so the caller can detect the takeover. Any other
    /// failure of the call is reported as the provider kind.
    pub fn finish_release(&mut self, outcome: UpdateOutcome) -> (r: Result<(), DynaError>)
        ensures
            r is Ok <==> outcome is Applied,
            (outcome is Applied ==> {
                &&& final(self).driver.current_token@.len() == 0
                &&& same_config(old(self).driver, final(self).driver)
                &&& final(self).duration == old(self).duration
            }),
            (outcome is ConditionFailed ==> *final(self) == *old(self) && (r matches Err(e)
                && e.kind == DynaErrorKind::LockAlreadyAcquired && e.description is None)),
            (outcome matches UpdateOutcome::Failed(m) ==> *final(self) == *old(self) && (r matches
                Err(e) && e.kind == DynaErrorKind::ProviderError && (e.description matches Some(d)
                && d@ == m@))),
    {
        match outcome {
            UpdateOutcome::Applied => {
                // Lock released successfully: clear the fence token.
                self.driver.current_token = String::new();
                Ok(())
            },
            UpdateOutcome::ConditionFailed => Err(
                DynaError::new(DynaErrorKind::LockAlreadyAcquired, None),
            ),
            UpdateOutcome::Failed(message) => Err(
                DynaError::new(DynaErrorKind::ProviderError, Some(message.as_str())),
            ),
        }
    }
}

} // verus!
