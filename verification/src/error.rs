//! The ways in which an operation on a secret can fail.

use vstd::prelude::*;

verus! {

/// Why an operation on a secret did not succeed.
#[derive(Debug, Clone, Copy, PartialEq, Eq, Structural)]
pub enum KeyError {
    /// Neither the override source nor the credential store holds the secret.
    NotFound,
    /// The credential store failed, or does not allow the operation, such as
    /// deleting a secret that it does not hold.
    StoreError,
    /// The stored text is not a record of the expected shape.
    DecodeError,
    /// The console did not deliver the input that was asked for.
    InputError,
}

} // verus!
