//! The stored credential record and its outward view.

use vstd::prelude::*;

use crate::model::CredModel;

verus! {

/// A credential record as the registry stores it. The fields are fixed at
/// issuance; only `revoked` ever changes, and only from `false` to `true`.
#[derive(Debug)]
pub struct VerifiableCredential {
    subject_did: String,
    issuer: String,
    cid: String,
    issued_at: u64,
    expires_at: Option<u64>,
    revoked: bool,
}

impl View for VerifiableCredential {
    type V = CredModel;

    closed spec fn view(&self) -> CredModel {
        CredModel {
            subject_did: self.subject_did@,
            issuer: self.issuer@,
            cid: self.cid@,
            issued_at: self.issued_at,
            expires_at: self.expires_at,
            revoked: self.revoked,
        }
    }
}

impl Clone for VerifiableCredential {
    fn clone(&self) -> (r: Self)
        ensures
            r == *self,
    {
        VerifiableCredential {
            subject_did: self.subject_did.clone(),
            issuer: self.issuer.clone(),
            cid: self.cid.clone(),
            issued_at: self.issued_at,
            expires_at: self.expires_at,
            revoked: self.revoked,
        }
    }
}

impl VerifiableCredential {
    /// A fresh, unrevoked record, stamped with its issuer and issuance time.
    pub fn new(
        subject_did: String,
        cid: String,
        expires_at: Option<u64>,
        issuer: String,
        issued_at: u64,
    ) -> (r: Self)
        ensures
            r@ == (CredModel {
                subject_did: subject_did@,
                issuer: issuer@,
                cid: cid@,
                issued_at: issued_at,
                expires_at: expires_at,
                revoked: false,
            }),
    {
        VerifiableCredential {
            subject_did: subject_did,
            issuer: issuer,
            cid: cid,
            issued_at: issued_at,
            expires_at: expires_at,
            revoked: false,
        }
    }

    /// The identity that issued this record.
    pub fn issuer(&self) -> (r: &String)
        ensures
            r@ == self@.issuer,
    {
        &self.issuer
    }

    /// Whether this record has been revoked.
    pub fn is_revoked(&self) -> (r: bool)
        ensures
            r == self@.revoked,
    {
        self.revoked
    }

    /// The absolute expiry instant, if the record has one.
    pub fn expires_at(&self) -> (r: Option<u64>)
        ensures
            r == self@.expires_at,
    {
        self.expires_at
    }

    /// Flip the record to revoked; every other field stays as it was.
    pub fn set_revoked(&mut self)
        ensures
            final(self)@ == (CredModel { revoked: true, ..old(self)@ }),
    {
        self.revoked = true;
    }

    /// Project the record onto its outward view, all fields copied verbatim.
    pub fn to_output(&self) -> (r: VerifiableCredentialOutput)
        ensures
            r@ == self@,
    {
        VerifiableCredentialOutput {
            subject_did: self.subject_did.clone(),
            issuer: self.issuer.clone(),
            cid: self.cid.clone(),
            issued_at: self.issued_at,
            expires_at: self.expires_at,
            revoked: self.revoked,
        }
    }
}

/// The outward form of a record, as `get_credential` returns it: every
/// stored field copied verbatim, with the issuer in its string form.
/// It reports `revoked` as stored and does not re-derive time-aware
/// validity; callers ask `is_valid` for that.
#[derive(Debug, PartialEq)]
pub struct VerifiableCredentialOutput {
    pub subject_did: String,
    pub issuer: String,
    pub cid: String,
    pub issued_at: u64,
    pub expires_at: Option<u64>,
    pub revoked: bool,
}

impl View for VerifiableCredentialOutput {
    type V = CredModel;

    open spec fn view(&self) -> CredModel {
        CredModel {
            subject_did: self.subject_did@,
            issuer: self.issuer@,
            cid: self.cid@,
            issued_at: self.issued_at,
            expires_at: self.expires_at,
            revoked: self.revoked,
        }
    }
}

impl From<VerifiableCredential> for VerifiableCredentialOutput {
    fn from(cred: VerifiableCredential) -> (r: Self) {
        VerifiableCredentialOutput {
            subject_did: cred.subject_did,
            issuer: cred.issuer,
            cid: cred.cid,
            issued_at: cred.issued_at,
            expires_at: cred.expires_at,
            revoked: cred.revoked,
        }
    }
}

impl vstd::std_specs::convert::FromSpecImpl<VerifiableCredential> for VerifiableCredentialOutput {
    open spec fn obeys_from_spec() -> bool {
        true
    }

    closed spec fn from_spec(v: VerifiableCredential) -> Self {
        VerifiableCredentialOutput {
            subject_did: v.subject_did,
            issuer: v.issuer,
            cid: v.cid,
            issued_at: v.issued_at,
            expires_at: v.expires_at,
            revoked: v.revoked,
        }
    }
}

/// The conversion behind `VerifiableCredentialOutput::from` preserves the
/// record's model: every field of the output equals the corresponding
/// stored field. Stated here because the conversion's spec function reads
/// the record's private fields and so cannot be open.
pub proof fn lemma_from_preserves_model(v: VerifiableCredential)
    ensures
        (<VerifiableCredentialOutput as vstd::std_specs::convert::FromSpec<
            VerifiableCredential,
        >>::from_spec(v))@ == v@,
{
}

} // verus!
