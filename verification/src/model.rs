//! The mathematical model of the registry.
//!
//! A registry state is a map from derived keys (character sequences) to
//! credential records. Each operation is described here as a pure function
//! from a state and the operation's inputs to a result and a next state;
//! the executable operations are proved to return exactly what these
//! functions say, and the laws in `laws` are proved about these functions.

use vstd::prelude::*;

use crate::error::RegistryError;

verus! {

/// A credential record as the contracts see it: every stored field,
/// with the strings abstracted to character sequences.
pub ghost struct CredModel {
    /// The claim subject, stored verbatim; non-empty.
    pub subject_did: Seq<char>,
    /// The identity that issued the record; set once, never mutated.
    pub issuer: Seq<char>,
    /// The content identifier, opaque; its UTF-8 encoding is longer than
    /// 10 bytes.
    pub cid: Seq<char>,
    /// Logical time of creation, in milliseconds.
    pub issued_at: u64,
    /// Absolute expiry in milliseconds; `None` means the record never expires.
    pub expires_at: Option<u64>,
    /// One-way flag: `false` at issuance, flipped to `true` by revocation.
    pub revoked: bool,
}

/// A full registry state: the persistent map, keyed by [`key_of`].
pub type RegistryModel = Map<Seq<char>, CredModel>;

/// The validation gate applied to every operation before any state is
/// touched: the subject DID must be non-empty and the cid longer than
/// 10 bytes in its UTF-8 encoding (a sanity threshold, not a format
/// check).
pub open spec fn input_ok(subject_did: Seq<char>, cid: Seq<char>) -> bool {
    subject_did.len() > 0 && vstd::utf8::encode_utf8(cid).len() > 10
}

/// The sole index into the store: `subject_did ++ ":" ++ cid`.
///
/// The scheme is deliberately kept as plain concatenation; two distinct
/// pairs whose fields move the colon around can collide, and the registry
/// then treats them as the same credential.
pub open spec fn key_of(subject_did: Seq<char>, cid: Seq<char>) -> Seq<char> {
    subject_did + seq![':'] + cid
}

/// Whether the record under `key_of(subject_did, cid)` exists and is valid
/// at time `now_ms`: present, not revoked, and either without expiry or
/// with `now_ms` strictly before it (validity ends exactly at the expiry
/// instant).
pub open spec fn credential_live(
    m: RegistryModel,
    subject_did: Seq<char>,
    cid: Seq<char>,
    now_ms: u64,
) -> bool {
    let key = key_of(subject_did, cid);
    &&& m.contains_key(key)
    &&& !m[key].revoked
    &&& match m[key].expires_at {
        Some(t) => now_ms < t,
        None => true,
    }
}

/// What issuing does: rejects bad input, refuses a key already present
/// (exactly-once creation, with no re-issuance even after revocation),
/// and otherwise inserts a fresh, unrevoked record stamped with the
/// caller and the current logical time.
pub open spec fn issue_spec(
    m: RegistryModel,
    subject_did: Seq<char>,
    cid: Seq<char>,
    expires_at: Option<u64>,
    caller: Seq<char>,
    now_ms: u64,
) -> (Result<(), RegistryError>, RegistryModel) {
    if !input_ok(subject_did, cid) {
        (Err(RegistryError::InvalidInput), m)
    } else if m.contains_key(key_of(subject_did, cid)) {
        (Err(RegistryError::AlreadyExists), m)
    } else {
        (
            Ok(()),
            m.insert(
                key_of(subject_did, cid),
                CredModel {
                    subject_did: subject_did,
                    issuer: caller,
                    cid: cid,
                    issued_at: now_ms,
                    expires_at: expires_at,
                    revoked: false,
                },
            ),
        )
    }
}

/// What revoking does: rejects bad input, requires the record to exist,
/// requires the caller to be the stored issuer, and otherwise writes the
/// record back with `revoked` set — a no-op re-write when it already was.
pub open spec fn revoke_spec(
    m: RegistryModel,
    subject_did: Seq<char>,
    cid: Seq<char>,
    caller: Seq<char>,
) -> (Result<(), RegistryError>, RegistryModel) {
    let key = key_of(subject_did, cid);
    if !input_ok(subject_did, cid) {
        (Err(RegistryError::InvalidInput), m)
    } else if !m.contains_key(key) {
        (Err(RegistryError::NotFound), m)
    } else if m[key].issuer != caller {
        (Err(RegistryError::Unauthorized), m)
    } else {
        (Ok(()), m.insert(key, CredModel { revoked: true, ..m[key] }))
    }
}

/// What the validity check returns: an error only on bad input, and
/// otherwise the time-aware answer of [`credential_live`] — a missing
/// record is simply not valid, never an error.
pub open spec fn is_valid_spec(
    m: RegistryModel,
    subject_did: Seq<char>,
    cid: Seq<char>,
    now_ms: u64,
) -> Result<bool, RegistryError> {
    if !input_ok(subject_did, cid) {
        Err(RegistryError::InvalidInput)
    } else {
        Ok(credential_live(m, subject_did, cid, now_ms))
    }
}

/// What fetching returns: an error only on bad input, absence for a
/// missing record, and otherwise the stored record verbatim — including
/// `revoked`, with no re-derivation of time-aware validity.
pub open spec fn get_credential_spec(
    m: RegistryModel,
    subject_did: Seq<char>,
    cid: Seq<char>,
) -> Result<Option<CredModel>, RegistryError> {
    let key = key_of(subject_did, cid);
    if !input_ok(subject_did, cid) {
        Err(RegistryError::InvalidInput)
    } else if m.contains_key(key) {
        Ok(Some(m[key]))
    } else {
        Ok(None)
    }
}

} // verus!
