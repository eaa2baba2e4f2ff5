//! Symbolic discovery errors and the mapping from the native provider's
//! signed integer status codes.
//!
//! The provider reports status as a signed integer: zero means success and a
//! fixed negative range carries one named condition each. A code outside the
//! mapped set is surfaced as the explicit [`ServiceError::Unmapped`] kind,
//! never silently treated as success.

use vstd::prelude::*;

verus! {

/// One symbolic discovery error, mirroring the native provider's status set.
#[derive(Clone, Copy, Debug, PartialEq, Eq, Structural)]
pub enum ServiceError {
    NoError,
    Unknown,
    NoSuchName,
    NoMemory,
    BadParam,
    BadReference,
    BadState,
    BadFlags,
    Unsupported,
    NotInitialized,
    AlreadyRegistered,
    NameConflict,
    Invalid,
    Firewall,
    Incompatible,
    BadInterfaceIndex,
    Refused,
    NoSuchRecord,
    NoAuth,
    NoSuchKey,
    NATTraversal,
    DoubleNAT,
    BadTime,
    BadSig,
    BadKey,
    Transiet,
    ServiceNotRunning,
    NatPortMappingUnsupported,
    NatPortMappingDisabled,
    NoRouter,
    PollingMode,
    Timeout,
    /// A status code outside the provider's documented range.
    Unmapped,
}

/// The meaning of a native status code: zero is success, each code of the
/// documented negative range is one named error, and anything else is
/// [`ServiceError::Unmapped`].
pub open spec fn error_from_code(code: int) -> ServiceError {
    if code == 0 {
        ServiceError::NoError
    } else if code == -65537 {
        ServiceError::Unknown
    } else if code == -65538 {
        ServiceError::NoSuchName
    } else if code == -65539 {
        ServiceError::NoMemory
    } else if code == -65540 {
        ServiceError::BadParam
    } else if code == -65541 {
        ServiceError::BadReference
    } else if code == -65542 {
        ServiceError::BadState
    } else if code == -65543 {
        ServiceError::BadFlags
    } else if code == -65544 {
        ServiceError::Unsupported
    } else if code == -65545 {
        ServiceError::NotInitialized
    } else if code == -65547 {
        ServiceError::AlreadyRegistered
    } else if code == -65548 {
        ServiceError::NameConflict
    } else if code == -65549 {
        ServiceError::Invalid
    } else if code == -65550 {
        ServiceError::Firewall
    } else if code == -65551 {
        ServiceError::Incompatible
    } else if code == -65552 {
        ServiceError::BadInterfaceIndex
    } else if code == -65553 {
        ServiceError::Refused
    } else if code == -65554 {
        ServiceError::NoSuchRecord
    } else if code == -65555 {
        ServiceError::NoAuth
    } else if code == -65556 {
        ServiceError::NoSuchKey
    } else if code == -65557 {
        ServiceError::NATTraversal
    } else if code == -65558 {
        ServiceError::DoubleNAT
    } else if code == -65559 {
        ServiceError::BadTime
    } else if code == -65560 {
        ServiceError::BadSig
    } else if code == -65561 {
        ServiceError::BadKey
    } else if code == -65562 {
        ServiceError::Transiet
    } else if code == -65563 {
        ServiceError::ServiceNotRunning
    } else if code == -65564 {
        ServiceError::NatPortMappingUnsupported
    } else if code == -65565 {
        ServiceError::NatPortMappingDisabled
    } else if code == -65566 {
        ServiceError::NoRouter
    } else if code == -65567 {
        ServiceError::PollingMode
    } else if code == -65568 {
        ServiceError::Timeout
    } else {
        ServiceError::Unmapped
    }
}

impl ServiceError {
    /// Maps a native status code to its symbolic error.
    pub fn from_code(code: i32) -> (r: ServiceError)
        ensures
            r == error_from_code(code as int),
    {
        match code {
            0 => ServiceError::NoError,
            -65537 => ServiceError::Unknown,
            -65538 => ServiceError::NoSuchName,
            -65539 => ServiceError::NoMemory,
            -65540 => ServiceError::BadParam,
            -65541 => ServiceError::BadReference,
            -65542 => ServiceError::BadState,
            -65543 => ServiceError::BadFlags,
            -65544 => ServiceError::Unsupported,
            -65545 => ServiceError::NotInitialized,
            -65547 => ServiceError::AlreadyRegistered,
            -65548 => ServiceError::NameConflict,
            -65549 => ServiceError::Invalid,
            -65550 => ServiceError::Firewall,
            -65551 => ServiceError::Incompatible,
            -65552 => ServiceError::BadInterfaceIndex,
            -65553 => ServiceError::Refused,
            -65554 => ServiceError::NoSuchRecord,
            -65555 => ServiceError::NoAuth,
            -65556 => ServiceError::NoSuchKey,
            -65557 => ServiceError::NATTraversal,
            -65558 => ServiceError::DoubleNAT,
            -65559 => ServiceError::BadTime,
            -65560 => ServiceError::BadSig,
            -65561 => ServiceError::BadKey,
            -65562 => ServiceError::Transiet,
            -65563 => ServiceError::ServiceNotRunning,
            -65564 => ServiceError::NatPortMappingUnsupported,
            -65565 => ServiceError::NatPortMappingDisabled,
            -65566 => ServiceError::NoRouter,
            -65567 => ServiceError::PollingMode,
            -65568 => ServiceError::Timeout,
            _ => ServiceError::Unmapped,
        }
    }
}

/// An error of the discovery client: either a provider status or a failure of
/// the descriptor reactor underneath it.
#[derive(Clone, Copy, Debug, PartialEq, Eq, Structural)]
pub enum Error {
    ServiceError(ServiceError),
    IoError,
}

} // verus!
