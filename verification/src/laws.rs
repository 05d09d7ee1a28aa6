//! The registry's guarantees, stated once over the model in `model` and
//! proved for every state and every input. The executable operations are
//! proved to follow that model exactly, so these laws carry over to them.

use vstd::prelude::*;

use crate::error::RegistryError;
use crate::model::RegistryModel;
use crate::model::input_ok;
use crate::model::is_valid_spec;
use crate::model::issue_spec;
use crate::model::key_of;
use crate::model::revoke_spec;

verus! {

/// No operation ever removes a credential: a key present before an issue
/// or a revoke — whatever its inputs, whoever its caller — is present after.
pub proof fn lemma_operations_preserve_presence(
    m: RegistryModel,
    subject_did: Seq<char>,
    cid: Seq<char>,
    expires_at: Option<u64>,
    caller: Seq<char>,
    now_ms: u64,
    k: Seq<char>,
)
    requires
        m.contains_key(k),
    ensures
        issue_spec(m, subject_did, cid, expires_at, caller, now_ms).1.contains_key(k),
        revoke_spec(m, subject_did, cid, caller).1.contains_key(k),
{
}

/// What is stored never silently changes: whatever inputs an issue or a
/// revoke runs with, a record already present keeps its subject, issuer,
/// cid, issuance time and expiry exactly as stored, and its `revoked`
/// flag moves one way only — `false` may become `true`, `true` never
/// becomes `false`.
pub proof fn lemma_records_immutable(
    m: RegistryModel,
    subject_did: Seq<char>,
    cid: Seq<char>,
    expires_at: Option<u64>,
    caller: Seq<char>,
    now_ms: u64,
    k: Seq<char>,
)
    requires
        m.contains_key(k),
    ensures
        ({
            let mi = issue_spec(m, subject_did, cid, expires_at, caller, now_ms).1;
            let mr = revoke_spec(m, subject_did, cid, caller).1;
            &&& mi[k] == m[k]
            &&& mr[k].subject_did == m[k].subject_did
            &&& mr[k].issuer == m[k].issuer
            &&& mr[k].cid == m[k].cid
            &&& mr[k].issued_at == m[k].issued_at
            &&& mr[k].expires_at == m[k].expires_at
            &&& (m[k].revoked ==> mr[k].revoked)
        }),
{
}

/// Uniqueness: once an issue of `(subject_did, cid)` has succeeded, every
/// later issue of the same pair fails with `AlreadyExists` and changes
/// nothing, whatever expiry, caller and time it brings.
pub proof fn lemma_issue_exactly_once(
    m: RegistryModel,
    subject_did: Seq<char>,
    cid: Seq<char>,
    expires_at1: Option<u64>,
    caller1: Seq<char>,
    now_ms1: u64,
    expires_at2: Option<u64>,
    caller2: Seq<char>,
    now_ms2: u64,
)
    requires
        issue_spec(m, subject_did, cid, expires_at1, caller1, now_ms1).0 is Ok,
    ensures
        ({
            let m1 = issue_spec(m, subject_did, cid, expires_at1, caller1, now_ms1).1;
            &&& issue_spec(m1, subject_did, cid, expires_at2, caller2, now_ms2).0 == Err::<
                (),
                RegistryError,
            >(RegistryError::AlreadyExists)
            &&& issue_spec(m1, subject_did, cid, expires_at2, caller2, now_ms2).1 == m1
        }),
{
}

/// Uniqueness holds even after revocation: issue a pair, revoke anything
/// by anyone, and a second issue of the same pair still fails with
/// `AlreadyExists` — a revoked credential's key is never freed.
pub proof fn lemma_no_reissue_after_revoke(
    m: RegistryModel,
    subject_did: Seq<char>,
    cid: Seq<char>,
    expires_at1: Option<u64>,
    caller1: Seq<char>,
    now_ms1: u64,
    revoke_did: Seq<char>,
    revoke_cid: Seq<char>,
    revoke_caller: Seq<char>,
    expires_at2: Option<u64>,
    caller2: Seq<char>,
    now_ms2: u64,
)
    requires
        issue_spec(m, subject_did, cid, expires_at1, caller1, now_ms1).0 is Ok,
    ensures
        ({
            let m1 = issue_spec(m, subject_did, cid, expires_at1, caller1, now_ms1).1;
            let m2 = revoke_spec(m1, revoke_did, revoke_cid, revoke_caller).1;
            issue_spec(m2, subject_did, cid, expires_at2, caller2, now_ms2).0 == Err::<
                (),
                RegistryError,
            >(RegistryError::AlreadyExists)
        }),
{
}

/// Authorization: a revoke by any identity other than the stored issuer
/// fails with `Unauthorized` and leaves the state — in particular the
/// record's `revoked` flag — exactly as it was.
pub proof fn lemma_revoke_unauthorized(
    m: RegistryModel,
    subject_did: Seq<char>,
    cid: Seq<char>,
    caller: Seq<char>,
)
    requires
        input_ok(subject_did, cid),
        m.contains_key(key_of(subject_did, cid)),
        caller != m[key_of(subject_did, cid)].issuer,
    ensures
        revoke_spec(m, subject_did, cid, caller).0 == Err::<(), RegistryError>(
            RegistryError::Unauthorized,
        ),
        revoke_spec(m, subject_did, cid, caller).1 == m,
{
}

/// Idempotent revoke: a revoke by the stored issuer succeeds and leaves
/// the record revoked; a second revoke by the same caller succeeds again,
/// changes nothing, and the record stays revoked.
pub proof fn lemma_revoke_idempotent(
    m: RegistryModel,
    subject_did: Seq<char>,
    cid: Seq<char>,
    caller: Seq<char>,
)
    requires
        revoke_spec(m, subject_did, cid, caller).0 is Ok,
    ensures
        ({
            let key = key_of(subject_did, cid);
            let m1 = revoke_spec(m, subject_did, cid, caller).1;
            &&& m1[key].revoked
            &&& revoke_spec(m1, subject_did, cid, caller).0 is Ok
            &&& revoke_spec(m1, subject_did, cid, caller).1 == m1
            &&& revoke_spec(m1, subject_did, cid, caller).1[key].revoked
        }),
{
    let key = key_of(subject_did, cid);
    let m1 = revoke_spec(m, subject_did, cid, caller).1;
    assert(revoke_spec(m1, subject_did, cid, caller).1 =~= m1);
}

/// Expiry boundary: for an unrevoked record whose expiry is `t`, the
/// validity check answers `true` strictly before `t` and `false` at `t`
/// and after — the expiry instant itself is already invalid.
pub proof fn lemma_expiry_boundary(
    m: RegistryModel,
    subject_did: Seq<char>,
    cid: Seq<char>,
    now_ms: u64,
    t: u64,
)
    requires
        input_ok(subject_did, cid),
        m.contains_key(key_of(subject_did, cid)),
        !m[key_of(subject_did, cid)].revoked,
        m[key_of(subject_did, cid)].expires_at == Some(t),
    ensures
        is_valid_spec(m, subject_did, cid, now_ms) == Ok::<bool, RegistryError>(now_ms < t),
{
}

} // verus!
