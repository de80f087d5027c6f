//! Data store providers which provide a common API to storage of lock states.
//!
//! Every provider realizes the same protocol: a conditional write that
//! claims or clears the lock record's fencing-token attribute, and a read
//! that reports it. The spec functions here state that protocol — which
//! conditional writes the store lets through, and what the record holds
//! afterwards — and the lemmas state the guarantees the protocol gives.

use vstd::prelude::*;

pub mod dynamodb;
pub mod mock;

pub use crate::DistLock;
pub use crate::Locking;
pub use dynamodb::DynamoDbDriver;

verus! {

/// Outcome of one conditional update against the store, as the core
/// interprets the provider's answer.
#[derive(Debug, Clone, PartialEq)]
pub enum UpdateOutcome {
    /// The store applied the write: its condition held.
    Applied,
    /// The store rejected the write: its condition did not hold.
    ConditionFailed,
    /// The call itself failed (timeout, transport, malformed response,
    /// authorization); carries the provider's message.
    Failed(String),
}

/// Outcome of one read of the lock record.
#[derive(Debug, Clone, PartialEq)]
pub enum ReadOutcome {
    /// The record exists and its token attribute holds this value.
    Found(String),
    /// The record, or its token attribute, is absent.
    Missing,
    /// The call itself failed; carries the provider's message.
    Failed(String),
}

/// The condition an acquire update carries: the token attribute is absent,
/// or it equals the caller's believed-current token.
pub open spec fn acquire_allowed(stored: Option<Seq<char>>, believed: Seq<char>) -> bool {
    stored is None || stored == Some(believed)
}

/// The condition a release update carries: the token attribute exists and
/// equals the caller's believed-current token.
pub open spec fn release_allowed(stored: Option<Seq<char>>, believed: Seq<char>) -> bool {
    stored is Some && stored == Some(believed)
}

/// The token an acquire attempt compares against: on a process's first
/// attempt (empty believed token) the fresh token itself, so that the
/// "attribute absent" branch of the condition carries the attempt; on later
/// attempts the believed-current token.
pub open spec fn cond_token_for(believed: Seq<char>, fresh: Seq<char>) -> Seq<char> {
    if believed.len() == 0 {
        fresh
    } else {
        believed
    }
}

/// The record's token attribute after the store processes an acquire
/// update: the fresh token when the condition held, else unchanged.
pub open spec fn store_after_acquire(
    stored: Option<Seq<char>>,
    believed: Seq<char>,
    fresh: Seq<char>,
) -> Option<Seq<char>> {
    if acquire_allowed(stored, believed) {
        Some(fresh)
    } else {
        stored
    }
}

/// The record's token attribute after the store processes a release
/// update: removed when the condition held, else unchanged.
pub open spec fn store_after_release(
    stored: Option<Seq<char>>,
    believed: Seq<char>,
) -> Option<Seq<char>> {
    if release_allowed(stored, believed) {
        None
    } else {
        stored
    }
}

/// On a resource with no stored record, a first acquire attempt —
/// empty believed token, any fresh fencing token — passes the store's
/// condition, and the record then holds exactly the fresh token.
pub proof fn lemma_first_acquire_succeeds(fresh: Seq<char>)
    ensures
        acquire_allowed(None, cond_token_for(Seq::<char>::empty(), fresh)),
        store_after_acquire(None, cond_token_for(Seq::<char>::empty(), fresh), fresh) == Some(
            fresh,
        ),
{
}

/// Mutual exclusion: two processes racing a first acquire on the same unclaimed
/// resource, with distinct fencing tokens: whichever conditional write the
/// store applies first is granted, and the other's condition then fails, so
/// exactly one of the two attempts succeeds. Distinct tokens are what the
/// high-entropy token generator provides.
pub proof fn lemma_concurrent_acquire_excludes(first: Seq<char>, second: Seq<char>)
    requires
        first != second,
    ensures
        acquire_allowed(None, cond_token_for(Seq::<char>::empty(), first)),
        !acquire_allowed(
            store_after_acquire(None, cond_token_for(Seq::<char>::empty(), first), first),
            cond_token_for(Seq::<char>::empty(), second),
        ),
{
}

/// A release's condition holds exactly when the stored token still
/// equals the caller's believed-current token. Then the record is cleared;
/// when another process has since acquired with a different token, the
/// condition fails and the record is left exactly as it was.
pub proof fn lemma_release_only_matching(stored: Option<Seq<char>>, believed: Seq<char>)
    ensures
        release_allowed(stored, believed) <==> stored == Some(believed),
        stored == Some(believed) ==> store_after_release(stored, believed) is None,
        stored != Some(believed) ==> store_after_release(stored, believed) == stored,
{
}

/// Acquire, release, acquire round trip. A first acquire on an
/// unclaimed resource is granted; the holder's release passes the condition
/// and clears the record; a following acquire by any process starting fresh
/// then passes the condition again.
pub proof fn lemma_release_reopens(first: Seq<char>, second: Seq<char>)
    ensures
        acquire_allowed(None, cond_token_for(Seq::<char>::empty(), first)),
        release_allowed(
            store_after_acquire(None, cond_token_for(Seq::<char>::empty(), first), first),
            first,
        ),
        acquire_allowed(
            store_after_release(
                store_after_acquire(None, cond_token_for(Seq::<char>::empty(), first), first),
                first,
            ),
            cond_token_for(Seq::<char>::empty(), second),
        ),
{
}

/// Relies on uuid::Uuid::new_v4 and its hyphenated form: a fresh random
/// version-4 UUID, written as the 36-character hyphenated string. The value
/// depends on the process's random source, so nothing is promised of it
/// beyond its length.
#[verifier::external_body]
pub fn fresh_token() -> (r: String)
    ensures
        r@.len() == 36,
{
    uuid::Uuid::new_v4().hyphenated().to_string()
}

} // verus!
