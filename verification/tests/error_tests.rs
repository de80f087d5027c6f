//! Tests for the error type and its kinds.

use dynalock::DynaError;
use dynalock::DynaErrorKind;

#[test]
fn test_dynaerrorkind_as_str_success() {
    assert_eq!(
        DynaErrorKind::UnhandledError.as_str(),
        "unhandled internal error"
    );
    assert_eq!(DynaErrorKind::ProviderError.as_str(), "provider error");
    assert_eq!(
        DynaErrorKind::LockAlreadyAcquired.as_str(),
        "lock has been acquired by another processor"
    );
}

#[test]
fn test_dynaerror_new_success() {
    let err = DynaError::new(DynaErrorKind::ProviderError, None);

    assert_eq!(err.kind(), DynaErrorKind::ProviderError);
    assert_eq!(err.description, None);
    assert_eq!(err.description(), "provider error");
}

#[test]
fn test_from_dynaerrorkind_to_dynaerror_success() {
    let err = DynaError::new(DynaErrorKind::UnhandledError, None);

    assert_eq!(err, DynaError::from(DynaErrorKind::UnhandledError));
}

#[test]
fn dynaerror_with_description() {
    let err = DynaError::new(DynaErrorKind::ProviderError, Some("connection reset"));

    assert_eq!(err.kind(), DynaErrorKind::ProviderError);
    assert_eq!(err.description, Some(String::from("connection reset")));
    assert_eq!(err.description(), "provider error");
}

#[test]
fn dynaerror_equality_distinguishes_kind_and_description() {
    let a = DynaError::new(DynaErrorKind::ProviderError, Some("x"));
    let b = DynaError::new(DynaErrorKind::ProviderError, Some("x"));
    let c = DynaError::new(DynaErrorKind::ProviderError, Some("y"));
    let d = DynaError::new(DynaErrorKind::UnhandledError, Some("x"));

    assert_eq!(a, b);
    assert_ne!(a, c);
    assert_ne!(a, d);
}
