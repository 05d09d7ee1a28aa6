//! A minimal verifiable-credential registry.
//!
//! The registry records that an issuer attests a claim (a content
//! identifier, "cid") about a subject (a decentralized identifier, "did"),
//! and lets any party later check whether that attestation is still valid.
//! Records are indexed by the composite key `subject_did ++ ":" ++ cid`;
//! they are created by `issue_credential`, flipped to revoked (one way) by
//! `revoke_credential`, and never deleted.
//!
//! The hosting environment supplies the caller identity and a non-decreasing
//! logical clock; both enter every operation as plain arguments, so the
//! registry itself is a self-contained, fully verified state machine.

pub mod credential;
pub mod error;
pub mod laws;
pub mod model;
pub mod registry;

pub use credential::VerifiableCredential;
pub use credential::VerifiableCredentialOutput;
pub use error::RegistryError;
pub use model::CredModel;
pub use registry::NearProofType2025;
