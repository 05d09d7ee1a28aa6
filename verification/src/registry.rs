//! The credential registry: a persistent keyed store of credential
//! records and the four operations on it.
//!
//! The store is a vector of `(key, record)` entries whose keys are
//! pairwise distinct; its abstract value, [`View`], is the map from key
//! to record model that the operation contracts and the laws speak of.

use vstd::prelude::*;
use vstd::string::StringExecFns;

use crate::credential::VerifiableCredential;
use crate::credential::VerifiableCredentialOutput;
use crate::error::RegistryError;
use crate::model::CredModel;
use crate::model::RegistryModel;
use crate::model::get_credential_spec;
use crate::model::input_ok;
use crate::model::is_valid_spec;
use crate::model::issue_spec;
use crate::model::key_of;
use crate::model::revoke_spec;

verus! {

/// The registry: one persistent map from derived key to credential
/// record, created empty and never shrunk.
pub struct NearProofType2025 {
    credentials: Vec<(String, VerifiableCredential)>,
}

/// The keys of the entries are pairwise distinct, so the entry list
/// represents a map faithfully.
spec fn keys_unique(entries: Seq<(String, VerifiableCredential)>) -> bool {
    forall|i: int, j: int| 0 <= i < j < entries.len() ==> entries[i].0@ != entries[j].0@
}

/// The map an entry list stands for: later entries win, which with
/// [`keys_unique`] never matters.
spec fn map_of(entries: Seq<(String, VerifiableCredential)>) -> RegistryModel
    decreases entries.len(),
{
    if entries.len() == 0 {
        Map::empty()
    } else {
        map_of(entries.drop_last()).insert(entries.last().0@, entries.last().1@)
    }
}

impl View for NearProofType2025 {
    type V = RegistryModel;

    closed spec fn view(&self) -> RegistryModel {
        map_of(self.credentials@)
    }
}

/// A key is in the represented map exactly when some entry carries it.
proof fn lemma_map_of_contains(entries: Seq<(String, VerifiableCredential)>, k: Seq<char>)
    ensures
        map_of(entries).contains_key(k) <==> exists|i: int|
            0 <= i < entries.len() && entries[i].0@ == k,
    decreases entries.len(),
{
    if entries.len() > 0 {
        lemma_map_of_contains(entries.drop_last(), k);
        let last: int = entries.len() - 1;
        if entries[last].0@ == k {
            assert(map_of(entries).contains_key(k));
        } else {
            if map_of(entries).contains_key(k) {
                let i = choose|i: int|
                    0 <= i < entries.drop_last().len() && entries.drop_last()[i].0@ == k;
                assert(entries[i].0@ == k);
            }
            if exists|i: int| 0 <= i < entries.len() && entries[i].0@ == k {
                let i = choose|i: int| 0 <= i < entries.len() && entries[i].0@ == k;
                assert(entries.drop_last()[i].0@ == k);
            }
        }
    }
}

/// With distinct keys, each entry is the map's record under its key.
proof fn lemma_map_of_index(entries: Seq<(String, VerifiableCredential)>, i: int)
    requires
        keys_unique(entries),
        0 <= i < entries.len(),
    ensures
        map_of(entries).contains_key(entries[i].0@),
        map_of(entries)[entries[i].0@] == entries[i].1@,
    decreases entries.len(),
{
    let last: int = entries.len() - 1;
    if i < last {
        assert(keys_unique(entries.drop_last()));
        lemma_map_of_index(entries.drop_last(), i);
        assert(entries[last].0@ != entries[i].0@);
    }
}

/// Appending an entry inserts its record under its key.
proof fn lemma_map_of_push(
    entries: Seq<(String, VerifiableCredential)>,
    e: (String, VerifiableCredential),
)
    ensures
        map_of(entries.push(e)) == map_of(entries).insert(e.0@, e.1@),
{
    assert(entries.push(e).drop_last() =~= entries);
    assert(entries.push(e).last() == e);
}

/// Replacing the entry at `i` by one with the same key overwrites that
/// key's record and leaves every other key's record alone.
proof fn lemma_map_of_update(
    entries: Seq<(String, VerifiableCredential)>,
    i: int,
    e: (String, VerifiableCredential),
)
    requires
        keys_unique(entries),
        0 <= i < entries.len(),
        e.0@ == entries[i].0@,
    ensures
        map_of(entries.update(i, e)) == map_of(entries).insert(e.0@, e.1@),
        keys_unique(entries.update(i, e)),
    decreases entries.len(),
{
    let last: int = entries.len() - 1;
    if i == last {
        assert(entries.update(i, e).drop_last() =~= entries.drop_last());
        assert(map_of(entries.update(i, e)) =~= map_of(entries).insert(e.0@, e.1@));
    } else {
        assert(keys_unique(entries.drop_last()));
        assert(entries.drop_last()[i] == entries[i]);
        lemma_map_of_update(entries.drop_last(), i, e);
        assert(entries.update(i, e).drop_last() =~= entries.drop_last().update(i, e));
        assert(entries.update(i, e).last() == entries.last());
        assert(entries[last].0@ != e.0@);
        assert(map_of(entries.update(i, e)) =~= map_of(entries).insert(e.0@, e.1@));
    }
}

/// The composite lookup key: the subject DID, a literal colon, the cid.
fn derive_key(subject_did: &String, cid: &String) -> (k: String)
    ensures
        k@ == key_of(subject_did@, cid@),
{
    let mut k: String = subject_did.clone();
    k.append(":");
    k.append(cid.as_str());
    proof {
        reveal_strlit(":");
        assert(k@ =~= key_of(subject_did@, cid@));
    }
    k
}

/// The validation preamble of every operation. The cid threshold counts
/// the bytes of the UTF-8 encoding, as `str::len` does.
fn gate_ok(subject_did: &String, cid: &String) -> (r: bool)
    ensures
        r == input_ok(subject_did@, cid@),
{
    !subject_did.as_str().is_empty() && cid.as_str().as_bytes().len() > 10
}

/// Linear scan for the entry carrying `key`.
fn find_entry(entries: &Vec<(String, VerifiableCredential)>, key: &String) -> (r: Option<usize>)
    ensures
        match r {
            Some(i) => i < entries@.len() && entries@[i as int].0@ == key@,
            None => forall|i: int| 0 <= i < entries@.len() ==> entries@[i].0@ != key@,
        },
{
    let mut idx: usize = 0;
    while idx < entries.len()
        invariant
            idx <= entries@.len(),
            forall|j: int| 0 <= j < idx ==> entries@[j].0@ != key@,
        decreases entries@.len() - idx,
    {
        let e = &entries[idx];
        if e.0 == *key {
            return Some(idx);
        }
        idx = idx + 1;
    }
    None
}

impl NearProofType2025 {
    #[verifier::type_invariant]
    spec fn well_formed(self) -> bool {
        keys_unique(self.credentials@)
    }

    /// Record that `caller` attests `cid` about `subject_did`, stamped with
    /// the current logical time: exactly-once creation per derived key.
    pub fn issue_credential(
        &mut self,
        subject_did: String,
        cid: String,
        expires_at: Option<u64>,
        caller: String,
        now_ms: u64,
    ) -> (r: Result<(), RegistryError>)
        ensures
            r == issue_spec(old(self)@, subject_did@, cid@, expires_at, caller@, now_ms).0,
            final(self)@ == issue_spec(old(self)@, subject_did@, cid@, expires_at, caller@, now_ms).1,
    {
        proof {
            use_type_invariant(&*self);
        }
        if !gate_ok(&subject_did, &cid) {
            return Err(RegistryError::InvalidInput);
        }
        let key = derive_key(&subject_did, &cid);
        let found = find_entry(&self.credentials, &key);
        proof {
            lemma_map_of_contains(self.credentials@, key@);
        }
        if found.is_some() {
            return Err(RegistryError::AlreadyExists);
        }
        let cred = VerifiableCredential::new(subject_did, cid, expires_at, caller, now_ms);
        let entry = (key, cred);
        let ghost ge = entry;
        let ghost s0 = self.credentials@;
        let mut entries: Vec<(String, VerifiableCredential)> = Vec::new();
        std::mem::swap(&mut entries, &mut self.credentials);
        entries.push(entry);
        proof {
            lemma_map_of_push(s0, ge);
            assert(keys_unique(entries@));
        }
        self.credentials = entries;
        Ok(())
    }

    /// Flip the record under the derived key to revoked; only the stored
    /// issuer may do so, and doing so again is a no-op re-write.
    pub fn revoke_credential(
        &mut self,
        subject_did: String,
        cid: String,
        caller: String,
    ) -> (r: Result<(), RegistryError>)
        ensures
            r == revoke_spec(old(self)@, subject_did@, cid@, caller@).0,
            final(self)@ == revoke_spec(old(self)@, subject_did@, cid@, caller@).1,
    {
        proof {
            use_type_invariant(&*self);
        }
        if !gate_ok(&subject_did, &cid) {
            return Err(RegistryError::InvalidInput);
        }
        let key = derive_key(&subject_did, &cid);
        let found = find_entry(&self.credentials, &key);
        proof {
            lemma_map_of_contains(self.credentials@, key@);
        }
        match found {
            None => Err(RegistryError::NotFound),
            Some(i) => {
                proof {
                    lemma_map_of_index(self.credentials@, i as int);
                }
                let entry = &self.credentials[i];
                if !(*entry.1.issuer() == caller) {
                    return Err(RegistryError::Unauthorized);
                }
                let mut cred = entry.1.clone();
                cred.set_revoked();
                let new_entry = (entry.0.clone(), cred);
                let ghost ge = new_entry;
                let ghost s0 = self.credentials@;
                let mut entries: Vec<(String, VerifiableCredential)> = Vec::new();
                std::mem::swap(&mut entries, &mut self.credentials);
                entries[i] = new_entry;
                proof {
                    lemma_map_of_update(s0, i as int, ge);
                }
                self.credentials = entries;
                Ok(())
            },
        }
    }

    /// Whether the record under the derived key exists, is unrevoked, and
    /// has not reached its expiry instant. A pure read, open to anyone; a
    /// missing record answers `false`, never an error.
    pub fn is_valid(&self, subject_did: String, cid: String, now_ms: u64) -> (r: Result<
        bool,
        RegistryError,
    >)
        ensures
            r == is_valid_spec(self@, subject_did@, cid@, now_ms),
    {
        proof {
            use_type_invariant(&*self);
        }
        if !gate_ok(&subject_did, &cid) {
            return Err(RegistryError::InvalidInput);
        }
        let key = derive_key(&subject_did, &cid);
        let found = find_entry(&self.credentials, &key);
        proof {
            lemma_map_of_contains(self.credentials@, key@);
        }
        match found {
            None => Ok(false),
            Some(i) => {
                proof {
                    lemma_map_of_index(self.credentials@, i as int);
                }
                let entry = &self.credentials[i];
                if entry.1.is_revoked() {
                    Ok(false)
                } else {
                    match entry.1.expires_at() {
                        Some(t) => Ok(now_ms < t),
                        None => Ok(true),
                    }
                }
            },
        }
    }

    /// Fetch the record under the derived key as an outward view, every
    /// field copied verbatim. A pure read, open to anyone; a missing
    /// record answers `None`, never an error.
    pub fn get_credential(&self, subject_did: String, cid: String) -> (r: Result<
        Option<VerifiableCredentialOutput>,
        RegistryError,
    >)
        ensures
            ({
                let res = get_credential_spec(self@, subject_did@, cid@);
                match r {
                    Ok(Some(v)) => res == Ok::<Option<CredModel>, RegistryError>(Some(v@)),
                    Ok(None) => res == Ok::<Option<CredModel>, RegistryError>(None),
                    Err(e) => res == Err::<Option<CredModel>, RegistryError>(e),
                }
            }),
    {
        proof {
            use_type_invariant(&*self);
        }
        if !gate_ok(&subject_did, &cid) {
            return Err(RegistryError::InvalidInput);
        }
        let key = derive_key(&subject_did, &cid);
        let found = find_entry(&self.credentials, &key);
        proof {
            lemma_map_of_contains(self.credentials@, key@);
        }
        match found {
            None => Ok(None),
            Some(i) => {
                proof {
                    lemma_map_of_index(self.credentials@, i as int);
                }
                let entry = &self.credentials[i];
                Ok(Some(entry.1.to_output()))
            },
        }
    }
}

impl Default for NearProofType2025 {
    /// The empty registry, as contract initialization creates it.
    fn default() -> (r: Self)
        ensures
            r@ == Map::<Seq<char>, CredModel>::empty(),
    {
        NearProofType2025 { credentials: Vec::new() }
    }
}

} // verus!
