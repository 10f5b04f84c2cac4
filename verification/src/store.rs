//! The platform's credential store, reached through `keyring`.
//!
//! What the store holds is outside this process: other programs write to it
//! and the platform may refuse access at any time. So nothing here says what
//! a call will answer, only how an answer is classified.

use vstd::prelude::*;

verus! {

/// `keyring::Error`, carried from a call to where it is classified.
#[verifier::external_type_specification]
#[verifier::external_body]
pub struct ExKeyringError(keyring::Error);

/// `keyring::Entry`, the handle on the secret under one identity.
#[verifier::external_type_specification]
#[verifier::external_body]
pub struct ExKeyringEntry(keyring::Entry);

/// Why the credential store did not do what it was asked.
#[derive(Debug, Clone, Copy, PartialEq, Eq, Structural)]
pub enum StoreFault {
    /// The store holds no secret under the identity.
    NoEntry,
    /// The store could not be used, or refused the request.
    Platform,
}

/// Calls `keyring::Entry::new`. Nothing is claimed of the answer. The call
/// panics if the lock that `keyring` keeps on its default credential builder
/// is poisoned, which only a panic inside `keyring` can bring about.
#[verifier::external_body]
fn open(service: &str, user: &str) -> Result<keyring::Entry, keyring::Error> {
    keyring::Entry::new(service, user)
}

/// Calls `keyring::Entry::get_password`. Nothing is claimed of the answer.
#[verifier::external_body]
fn get_password(entry: &keyring::Entry) -> Result<String, keyring::Error> {
    entry.get_password()
}

/// Calls `keyring::Entry::set_password`. Nothing is claimed of the answer.
#[verifier::external_body]
fn set_password(entry: &keyring::Entry, password: &str) -> Result<(), keyring::Error> {
    entry.set_password(password)
}

/// Calls `keyring::Entry::delete_credential`. Nothing is claimed of the answer.
#[verifier::external_body]
fn delete_credential(entry: &keyring::Entry) -> Result<(), keyring::Error> {
    entry.delete_credential()
}

/// Which variant of `keyring::Error` an error is. `Other` stands for the
/// variants that a later `keyring` may add.
#[derive(Debug, Clone, Copy, PartialEq, Eq, Structural)]
pub enum ErrorKind {
    PlatformFailure,
    NoStorageAccess,
    NoEntry,
    BadEncoding,
    TooLong,
    Invalid,
    Ambiguous,
    Other,
}

/// Tells the variants of `keyring::Error` apart and drops what they carry.
/// Nothing is claimed of the answer.
#[verifier::external_body]
fn kind_of(error: &keyring::Error) -> ErrorKind {
    match error {
        keyring::Error::PlatformFailure(_) => ErrorKind::PlatformFailure,
        keyring::Error::NoStorageAccess(_) => ErrorKind::NoStorageAccess,
        keyring::Error::NoEntry => ErrorKind::NoEntry,
        keyring::Error::BadEncoding(_) => ErrorKind::BadEncoding,
        keyring::Error::TooLong(_, _) => ErrorKind::TooLong,
        keyring::Error::Invalid(_, _) => ErrorKind::Invalid,
        keyring::Error::Ambiguous(_) => ErrorKind::Ambiguous,
        _ => ErrorKind::Other,
    }
}

/// The fault that an error of the given kind is: only `NoEntry` says that
/// the store holds no secret under the identity; every other kind, a secret
/// that is not text and an identity that the store refuses among them, is a
/// failure of the store.
pub open spec fn fault(kind: ErrorKind) -> StoreFault {
    if kind == ErrorKind::NoEntry {
        StoreFault::NoEntry
    } else {
        StoreFault::Platform
    }
}

/// Classifies an error of the store by its kind.
fn fault_of(kind: ErrorKind) -> (r: StoreFault)
    ensures
        r == fault(kind),
{
    match kind {
        ErrorKind::NoEntry => StoreFault::NoEntry,
        _ => StoreFault::Platform,
    }
}

/// Asks the store for the secret under `(service, user)`.
pub(crate) fn fetch(service: &str, user: &str) -> Result<String, StoreFault> {
    match open(service, user) {
        Ok(entry) => match get_password(&entry) {
            Ok(secret) => Ok(secret),
            Err(error) => Err(fault_of(kind_of(&error))),
        },
        Err(error) => Err(fault_of(kind_of(&error))),
    }
}

/// Asks the store to hold `secret` under `(service, user)`.
pub(crate) fn save(service: &str, user: &str, secret: &str) -> Result<(), StoreFault> {
    match open(service, user) {
        Ok(entry) => match set_password(&entry, secret) {
            Ok(_) => Ok(()),
            Err(error) => Err(fault_of(kind_of(&error))),
        },
        Err(error) => Err(fault_of(kind_of(&error))),
    }
}

/// Asks the store to drop what it holds under `(service, user)`.
pub(crate) fn erase(service: &str, user: &str) -> Result<(), StoreFault> {
    match open(service, user) {
        Ok(entry) => match delete_credential(&entry) {
            Ok(_) => Ok(()),
            Err(error) => Err(fault_of(kind_of(&error))),
        },
        Err(error) => Err(fault_of(kind_of(&error))),
    }
}

} // verus!
