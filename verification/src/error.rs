//! Dynalock error type and kinds.

use vstd::prelude::*;

verus! {

/// Kinds of errors.
#[derive(Debug, Copy, Clone, Eq, PartialEq, Structural)]
pub enum DynaErrorKind {
    /// Unhandled error from another crate or the standard library.
    UnhandledError,
    /// Provider error from another crate.
    ProviderError,
    /// Lock has been acquired by another processor.
    LockAlreadyAcquired,
}

impl DynaErrorKind {
    /// The fixed description of each kind of error.
    pub open spec fn spec_str(self) -> Seq<char> {
        match self {
            DynaErrorKind::UnhandledError => "unhandled internal error"@,
            DynaErrorKind::ProviderError => "provider error"@,
            DynaErrorKind::LockAlreadyAcquired => "lock has been acquired by another processor"@,
        }
    }

    /// Return a string description of the error.
    pub fn as_str(&self) -> (r: &'static str)
        ensures
            r@ == self.spec_str(),
    {
        match *self {
            DynaErrorKind::UnhandledError => "unhandled internal error",
            DynaErrorKind::ProviderError => "provider error",
            DynaErrorKind::LockAlreadyAcquired => "lock has been acquired by another processor",
        }
    }
}

/// Error type: a kind together with an optional human-readable detail.
#[derive(Debug)]
pub struct DynaError {
    pub kind: DynaErrorKind,
    pub description: Option<String>,
}

impl DynaError {
    /// Create a new error object with an optional error message.
    pub fn new(kind: DynaErrorKind, description: Option<&str>) -> (r: DynaError)
        ensures
            r.kind == kind,
            (match description {
                Some(d) => r.description matches Some(s) && s@ == d@,
                None => r.description is None,
            }),
    {
        DynaError {
            kind,
            description: match description {
                Some(d) => Some(d.to_owned()),
                None => None,
            },
        }
    }

    /// Get DynaErrorKind for this error.
    pub fn kind(&self) -> (r: DynaErrorKind)
        ensures
            r == self.kind,
    {
        self.kind
    }

    /// Return the fixed description of this error's kind.
    pub fn description(&self) -> (r: &'static str)
        ensures
            r@ == self.kind.spec_str(),
    {
        self.kind.as_str()
    }
}

impl PartialEq for DynaError {
    fn eq(&self, other: &DynaError) -> (r: bool) {
        let kind_eq: bool = self.kind == other.kind;
        let desc_eq: bool = match (&self.description, &other.description) {
            (Some(a), Some(b)) => *a == *b,
            (None, None) => true,
            _ => false,
        };
        kind_eq && desc_eq
    }
}

impl vstd::std_specs::cmp::PartialEqSpecImpl for DynaError {
    open spec fn obeys_eq_spec() -> bool {
        true
    }

    open spec fn eq_spec(&self, other: &DynaError) -> bool {
        self.kind == other.kind && match (self.description, other.description) {
            (Some(a), Some(b)) => a@ == b@,
            (None, None) => true,
            _ => false,
        }
    }
}

impl From<DynaErrorKind> for DynaError {
    fn from(kind: DynaErrorKind) -> (r: DynaError) {
        DynaError { kind, description: None }
    }
}

impl vstd::std_specs::convert::FromSpecImpl<DynaErrorKind> for DynaError {
    open spec fn obeys_from_spec() -> bool {
        true
    }

    open spec fn from_spec(kind: DynaErrorKind) -> DynaError {
        DynaError { kind, description: None }
    }
}

} // verus!
