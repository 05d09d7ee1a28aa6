use credential_registry::NearProofType2025;
use credential_registry::RegistryError;
use credential_registry::VerifiableCredential;
use credential_registry::VerifiableCredentialOutput;

const CID: &str = "0123456789A";

fn issue(
    reg: &mut NearProofType2025,
    did: &str,
    cid: &str,
    expires_at: Option<u64>,
    caller: &str,
    now_ms: u64,
) -> Result<(), RegistryError> {
    reg.issue_credential(did.to_string(), cid.to_string(), expires_at, caller.to_string(), now_ms)
}

fn revoke(
    reg: &mut NearProofType2025,
    did: &str,
    cid: &str,
    caller: &str,
) -> Result<(), RegistryError> {
    reg.revoke_credential(did.to_string(), cid.to_string(), caller.to_string())
}

fn is_valid(
    reg: &NearProofType2025,
    did: &str,
    cid: &str,
    now_ms: u64,
) -> Result<bool, RegistryError> {
    reg.is_valid(did.to_string(), cid.to_string(), now_ms)
}

fn get(
    reg: &NearProofType2025,
    did: &str,
    cid: &str,
) -> Result<Option<VerifiableCredentialOutput>, RegistryError> {
    reg.get_credential(did.to_string(), cid.to_string())
}

#[test]
fn fresh_registry_is_empty() {
    let reg = NearProofType2025::default();
    assert_eq!(is_valid(&reg, "did:x", CID, 0), Ok(false));
    assert!(get(&reg, "did:x", CID).unwrap().is_none());
}

#[test]
fn input_gate_rejects_empty_subject() {
    let mut reg = NearProofType2025::default();
    assert_eq!(issue(&mut reg, "", CID, None, "alice", 1), Err(RegistryError::InvalidInput));
    assert_eq!(revoke(&mut reg, "", CID, "alice"), Err(RegistryError::InvalidInput));
    assert_eq!(is_valid(&reg, "", CID, 1), Err(RegistryError::InvalidInput));
    assert_eq!(get(&reg, "", CID), Err(RegistryError::InvalidInput));
}

#[test]
fn input_gate_boundary_on_cid_length() {
    let mut reg = NearProofType2025::default();
    let cid10 = "0123456789";
    assert_eq!(cid10.len(), 10);
    assert_eq!(issue(&mut reg, "did:x", cid10, None, "alice", 1), Err(RegistryError::InvalidInput));
    assert_eq!(is_valid(&reg, "did:x", cid10, 1), Err(RegistryError::InvalidInput));
    assert_eq!(get(&reg, "did:x", cid10), Err(RegistryError::InvalidInput));
    assert_eq!(revoke(&mut reg, "did:x", cid10, "alice"), Err(RegistryError::InvalidInput));
    let cid11 = "0123456789A";
    assert_eq!(cid11.len(), 11);
    assert_eq!(issue(&mut reg, "did:x", cid11, None, "alice", 1), Ok(()));
}

#[test]
fn input_gate_counts_utf8_bytes() {
    // The cid threshold is over the UTF-8 encoding: five two-byte
    // characters are 10 bytes and are rejected, six are 12 and pass.
    let mut reg = NearProofType2025::default();
    let cid_10_bytes = "\u{e9}".repeat(5);
    assert_eq!(cid_10_bytes.len(), 10);
    assert_eq!(
        issue(&mut reg, "did:x", &cid_10_bytes, None, "alice", 1),
        Err(RegistryError::InvalidInput)
    );
    let cid_12_bytes = "\u{e9}".repeat(6);
    assert_eq!(cid_12_bytes.len(), 12);
    assert_eq!(issue(&mut reg, "did:x", &cid_12_bytes, None, "alice", 1), Ok(()));
}

#[test]
fn issue_round_trip() {
    let mut reg = NearProofType2025::default();
    assert_eq!(issue(&mut reg, "did:x", CID, None, "alice.near", 5), Ok(()));
    let out = get(&reg, "did:x", CID).unwrap().expect("stored credential");
    assert_eq!(out.subject_did, "did:x");
    assert_eq!(out.cid, CID);
    assert_eq!(out.issuer, "alice.near");
    assert_eq!(out.issued_at, 5);
    assert_eq!(out.expires_at, None);
    assert!(!out.revoked);
}

#[test]
fn issue_is_exactly_once() {
    let mut reg = NearProofType2025::default();
    assert_eq!(issue(&mut reg, "did:x", CID, None, "alice", 1), Ok(()));
    assert_eq!(issue(&mut reg, "did:x", CID, None, "alice", 2), Err(RegistryError::AlreadyExists));
    assert_eq!(issue(&mut reg, "did:x", CID, Some(99), "bob", 3), Err(RegistryError::AlreadyExists));
    // The record is untouched by the failed attempts.
    let out = get(&reg, "did:x", CID).unwrap().unwrap();
    assert_eq!(out.issuer, "alice");
    assert_eq!(out.issued_at, 1);
}

#[test]
fn no_reissue_after_revocation() {
    let mut reg = NearProofType2025::default();
    assert_eq!(issue(&mut reg, "did:x", CID, None, "alice", 1), Ok(()));
    assert_eq!(revoke(&mut reg, "did:x", CID, "alice"), Ok(()));
    assert_eq!(issue(&mut reg, "did:x", CID, None, "alice", 2), Err(RegistryError::AlreadyExists));
}

#[test]
fn distinct_pairs_coexist() {
    let mut reg = NearProofType2025::default();
    assert_eq!(issue(&mut reg, "did:x", CID, None, "alice", 1), Ok(()));
    assert_eq!(issue(&mut reg, "did:y", CID, None, "bob", 2), Ok(()));
    assert_eq!(issue(&mut reg, "did:x", "A9876543210", None, "carol", 3), Ok(()));
    assert_eq!(is_valid(&reg, "did:x", CID, 9), Ok(true));
    assert_eq!(is_valid(&reg, "did:y", CID, 9), Ok(true));
    assert_eq!(is_valid(&reg, "did:x", "A9876543210", 9), Ok(true));
}

#[test]
fn colon_ambiguity_collides_keys() {
    // The key is plain concatenation with a colon, so these two distinct
    // pairs derive the same key and the second issue is refused.
    let mut reg = NearProofType2025::default();
    assert_eq!(issue(&mut reg, "a", "b:0123456789X", None, "alice", 1), Ok(()));
    assert_eq!(
        issue(&mut reg, "a:b", "0123456789X", None, "bob", 2),
        Err(RegistryError::AlreadyExists)
    );
}

#[test]
fn revoke_requires_existing_record() {
    let mut reg = NearProofType2025::default();
    assert_eq!(revoke(&mut reg, "did:x", CID, "alice"), Err(RegistryError::NotFound));
}

#[test]
fn revoke_requires_the_issuer() {
    let mut reg = NearProofType2025::default();
    assert_eq!(issue(&mut reg, "did:x", CID, None, "alice", 1), Ok(()));
    assert_eq!(revoke(&mut reg, "did:x", CID, "mallory"), Err(RegistryError::Unauthorized));
    // The record is left unrevoked and still valid.
    assert!(!get(&reg, "did:x", CID).unwrap().unwrap().revoked);
    assert_eq!(is_valid(&reg, "did:x", CID, 9), Ok(true));
}

#[test]
fn revoke_is_idempotent() {
    let mut reg = NearProofType2025::default();
    assert_eq!(issue(&mut reg, "did:x", CID, None, "alice", 1), Ok(()));
    assert_eq!(revoke(&mut reg, "did:x", CID, "alice"), Ok(()));
    assert!(get(&reg, "did:x", CID).unwrap().unwrap().revoked);
    assert_eq!(revoke(&mut reg, "did:x", CID, "alice"), Ok(()));
    assert!(get(&reg, "did:x", CID).unwrap().unwrap().revoked);
}

#[test]
fn expiry_boundary_is_exclusive() {
    let mut reg = NearProofType2025::default();
    assert_eq!(issue(&mut reg, "did:x", CID, Some(100), "alice", 5), Ok(()));
    assert_eq!(is_valid(&reg, "did:x", CID, 0), Ok(true));
    assert_eq!(is_valid(&reg, "did:x", CID, 99), Ok(true));
    assert_eq!(is_valid(&reg, "did:x", CID, 100), Ok(false));
    assert_eq!(is_valid(&reg, "did:x", CID, 101), Ok(false));
    assert_eq!(is_valid(&reg, "did:x", CID, u64::MAX), Ok(false));
    // Expiry is computed on read, never persisted: the stored record still
    // reports itself unrevoked.
    assert!(!get(&reg, "did:x", CID).unwrap().unwrap().revoked);
}

#[test]
fn no_expiry_means_never_expires() {
    let mut reg = NearProofType2025::default();
    assert_eq!(issue(&mut reg, "did:x", CID, None, "alice", 5), Ok(()));
    assert_eq!(is_valid(&reg, "did:x", CID, u64::MAX), Ok(true));
}

#[test]
fn issue_revoke_lifecycle() {
    let mut reg = NearProofType2025::default();
    assert_eq!(issue(&mut reg, "did:a", CID, None, "alice", 1), Ok(()));
    assert_eq!(is_valid(&reg, "did:a", CID, 2), Ok(true));
    assert_eq!(revoke(&mut reg, "did:a", CID, "eve"), Err(RegistryError::Unauthorized));
    assert_eq!(is_valid(&reg, "did:a", CID, 3), Ok(true));
    assert_eq!(revoke(&mut reg, "did:a", CID, "alice"), Ok(()));
    assert_eq!(is_valid(&reg, "did:a", CID, 4), Ok(false));
    assert!(get(&reg, "did:a", CID).unwrap().unwrap().revoked);
}

#[test]
fn credential_projects_onto_output() {
    let cred = VerifiableCredential::new(
        "did:x".to_string(),
        CID.to_string(),
        Some(42),
        "alice".to_string(),
        7,
    );
    let out = cred.to_output();
    assert_eq!(out.subject_did, "did:x");
    assert_eq!(out.cid, CID);
    assert_eq!(out.issuer, "alice");
    assert_eq!(out.issued_at, 7);
    assert_eq!(out.expires_at, Some(42));
    assert!(!out.revoked);
    let converted = VerifiableCredentialOutput::from(cred);
    assert_eq!(converted.subject_did, "did:x");
    assert_eq!(converted.cid, CID);
    assert_eq!(converted.issuer, "alice");
    assert_eq!(converted.issued_at, 7);
    assert_eq!(converted.expires_at, Some(42));
    assert!(!converted.revoked);
}

#[test]
fn credential_accessors_report_stored_fields() {
    let mut cred = VerifiableCredential::new(
        "did:x".to_string(),
        CID.to_string(),
        None,
        "alice".to_string(),
        7,
    );
    assert_eq!(cred.issuer().as_str(), "alice");
    assert_eq!(cred.expires_at(), None);
    assert!(!cred.is_revoked());
    cred.set_revoked();
    assert!(cred.is_revoked());
    assert!(cred.clone().to_output().revoked);
}
