//! Failure kinds of the registry operations.
//!
//! Every failure aborts the whole operation: an operation that returns one
//! of these errors leaves the registry exactly as it was.

use vstd::prelude::*;

verus! {

/// Why an operation was refused.
#[derive(Clone, Copy, Debug, PartialEq, Eq, Structural)]
pub enum RegistryError {
    /// The subject DID is empty, or the cid's UTF-8 encoding is 10 bytes
    /// or shorter.
    InvalidInput,
    /// `issue_credential` found a record already stored under the derived key.
    AlreadyExists,
    /// `revoke_credential` found no record under the derived key.
    NotFound,
    /// `revoke_credential` was called by an identity other than the stored issuer.
    Unauthorized,
}

} // verus!
