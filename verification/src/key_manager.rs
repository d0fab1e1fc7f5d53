//! The key-manager core: master seed ownership, per-branch index
//! bookkeeping, deterministic key derivation, and key import.
//!
//! The core owns the single root secret and a table mapping branch names
//! to the highest index issued so far.  Issuing a key handle reads the
//! branch's current index, derives the key at `index + 1` from the
//! master seed and branch name, persists the incremented index and
//! returns the handle together with the public key.  Indices issued for
//! a branch are strictly increasing and never reused.

use vstd::prelude::*;

use crate::byte_codec::push_bytes;
use crate::byte_codec::push_u64_le;
use crate::byte_codec::spec_u64_le;
use crate::byte_codec::zero_scalar_bytes;
use crate::branch::CoreKeyManagerBranch;
use crate::crypto_ops::blake2b_hash;
use crate::crypto_ops::hash64_of;
use crate::crypto_ops::is_canonical_scalar;
use crate::crypto_ops::pk_from_secret;
use crate::crypto_ops::pub_key_of;
use crate::crypto_ops::scalar_from_u64;
use crate::crypto_ops::scalar_from_wide;
use crate::crypto_ops::wide_scalar_of;
use crate::key_id::spec_key_id_matches;
use crate::key_id::KeyId;
use crate::types::bytes_eq;
use crate::types::PrivateKey;
use crate::types::PublicKey;
use vstd::utf8::encode_utf8;

verus! {

/// Domain tag for keys managed directly under a branch.
pub const TAG_MANAGED: u8 = 1;
/// Domain tag for diversified keys sub-derived under a branch.
pub const TAG_DERIVED: u8 = 2;

/// The outcome of registering a branch.
#[derive(Clone, Copy, Debug, PartialEq, Eq, Structural)]
pub enum AddResult {
    /// The branch was not known and was registered with index 0.
    NewEntry,
    /// The branch was already registered; nothing changed.
    AlreadyExists,
}

/// The errors the key manager reports.
#[derive(Clone, Copy, Debug, PartialEq, Eq, Structural)]
pub enum KeyManagerError {
    /// The named branch is not registered.
    UnknownKeyBranch,
    /// No key known to this manager matches the request.
    KeyNotFound,
    /// The branch has issued every representable index.
    IndexExhausted,
}

/// A freshly issued key together with its index; returning the raw
/// secret is a deliberately discouraged legacy capability.
#[derive(Clone, Debug, PartialEq, Eq)]
pub struct NextKeyResult {
    pub key: PrivateKey,
    pub index: u64,
}

/// The derivation preimage: a domain tag, then the length-prefixed seed
/// and branch name, then the index.
pub open spec fn spec_preimage(tag: u8, seed: Seq<u8>, branch_bytes: Seq<u8>, index: u64) -> Seq<
    u8,
> {
    seq![tag] + spec_u64_le(seed.len() as u64) + seed + spec_u64_le(branch_bytes.len() as u64)
        + branch_bytes + spec_u64_le(index)
}

/// The UTF-8 bytes of a branch name.
pub open spec fn branch_bytes_of(branch: Seq<char>) -> Seq<u8> {
    encode_utf8(branch)
}

/// The secret scalar of the key at `index` of a branch: a wide-reduced
/// hash of the domain-tagged seed, branch name and index.  Equal
/// `(seed, branch, index)` always give the same scalar.
pub open spec fn managed_secret_of(seed: Seq<u8>, branch: Seq<char>, index: u64) -> Seq<u8> {
    wide_scalar_of(hash64_of(spec_preimage(TAG_MANAGED, seed, branch_bytes_of(branch), index)))
}

/// The secret scalar of the diversified key at `index` of a branch,
/// domain-separated from the managed keys.
pub open spec fn derived_secret_of(seed: Seq<u8>, branch: Seq<char>, index: u64) -> Seq<u8> {
    wide_scalar_of(hash64_of(spec_preimage(TAG_DERIVED, seed, branch_bytes_of(branch), index)))
}

/// One registered branch: its name and the highest index issued.
#[derive(Clone, Debug)]
struct BranchEntry {
    name: String,
    index: u64,
}

/// The current index of the first entry with the given name.
spec fn lookup_branch(s: Seq<BranchEntry>, name: Seq<char>) -> Option<u64>
    decreases s.len(),
{
    if s.len() == 0 {
        None
    } else if s[0].name@ == name {
        Some(s[0].index)
    } else {
        lookup_branch(s.drop_first(), name)
    }
}

/// The first stored secret whose public key matches.
spec fn lookup_imported(s: Seq<Seq<u8>>, key: Seq<u8>) -> Option<Seq<u8>>
    decreases s.len(),
{
    if s.len() == 0 {
        None
    } else if pub_key_of(s[0]) == key {
        Some(s[0])
    } else {
        lookup_imported(s.drop_first(), key)
    }
}

proof fn lemma_lookup_branch_push(s: Seq<BranchEntry>, e: BranchEntry, name: Seq<char>)
    ensures
        lookup_branch(s.push(e), name) == if lookup_branch(s, name) is Some {
            lookup_branch(s, name)
        } else if e.name@ == name {
            Some(e.index)
        } else {
            None
        },
    decreases s.len(),
{
    if s.len() == 0 {
        assert(s.push(e)[0] == e);
        assert(s.push(e).drop_first() =~= Seq::<BranchEntry>::empty());
        assert(lookup_branch(s.push(e).drop_first(), name) is None);
    } else {
        assert(s.push(e)[0] == s[0]);
        assert(s.push(e).drop_first() =~= s.drop_first().push(e));
        lemma_lookup_branch_push(s.drop_first(), e, name);
    }
}

proof fn lemma_lookup_imported_push(s: Seq<Seq<u8>>, e: Seq<u8>, key: Seq<u8>)
    ensures
        lookup_imported(s.push(e), key) == if lookup_imported(s, key) is Some {
            lookup_imported(s, key)
        } else if pub_key_of(e) == key {
            Some(e)
        } else {
            None
        },
    decreases s.len(),
{
    if s.len() == 0 {
        assert(s.push(e)[0] == e);
        assert(s.push(e).drop_first() =~= Seq::<Seq<u8>>::empty());
        assert(lookup_imported(s.push(e).drop_first(), key) is None);
    } else {
        assert(s.push(e)[0] == s[0]);
        assert(s.push(e).drop_first() =~= s.drop_first().push(e));
        lemma_lookup_imported_push(s.drop_first(), e, key);
    }
}

proof fn lemma_lookup_branch_first(s: Seq<BranchEntry>, p: int, name: Seq<char>)
    requires
        0 <= p < s.len(),
        s[p].name@ == name,
        forall|j: int| 0 <= j < p ==> s[j].name@ != name,
    ensures
        lookup_branch(s, name) == Some(s[p].index),
    decreases p,
{
    if p == 0 {
    } else {
        assert(s.drop_first()[p - 1] == s[p]);
        assert(forall|j: int| 0 <= j < p - 1 ==> s.drop_first()[j] == s[j + 1]);
        lemma_lookup_branch_first(s.drop_first(), p - 1, name);
    }
}

proof fn lemma_lookup_branch_none(s: Seq<BranchEntry>, name: Seq<char>)
    requires
        forall|j: int| 0 <= j < s.len() ==> s[j].name@ != name,
    ensures
        lookup_branch(s, name) is None,
    decreases s.len(),
{
    if s.len() > 0 {
        assert(forall|j: int| 0 <= j < s.drop_first().len() ==> s.drop_first()[j] == s[j + 1]);
        lemma_lookup_branch_none(s.drop_first(), name);
    }
}

proof fn lemma_lookup_imported_first(s: Seq<Seq<u8>>, p: int, key: Seq<u8>)
    requires
        0 <= p < s.len(),
        pub_key_of(s[p]) == key,
        forall|j: int| 0 <= j < p ==> pub_key_of(s[j]) != key,
    ensures
        lookup_imported(s, key) == Some(s[p]),
    decreases p,
{
    if p == 0 {
    } else {
        assert(s.drop_first()[p - 1] == s[p]);
        assert(forall|j: int| 0 <= j < p - 1 ==> s.drop_first()[j] == s[j + 1]);
        lemma_lookup_imported_first(s.drop_first(), p - 1, key);
    }
}

proof fn lemma_lookup_imported_none(s: Seq<Seq<u8>>, key: Seq<u8>)
    requires
        forall|j: int| 0 <= j < s.len() ==> pub_key_of(s[j]) != key,
    ensures
        lookup_imported(s, key) is None,
    decreases s.len(),
{
    if s.len() > 0 {
        assert(forall|j: int| 0 <= j < s.drop_first().len() ==> s.drop_first()[j] == s[j + 1]);
        lemma_lookup_imported_none(s.drop_first(), key);
    }
}

proof fn lemma_lookup_branch_update(s: Seq<BranchEntry>, p: int, e: BranchEntry, other: Seq<char>)
    requires
        0 <= p < s.len(),
        s[p].name@ == e.name@,
        forall|j: int| 0 <= j < p ==> s[j].name@ != e.name@,
    ensures
        lookup_branch(s.update(p, e), e.name@) == Some(e.index),
        other != e.name@ ==> lookup_branch(s.update(p, e), other) == lookup_branch(s, other),
    decreases p,
{
    let s2 = s.update(p, e);
    if p == 0 {
        assert(s2[0] == e);
        assert(s2.drop_first() =~= s.drop_first());
    } else {
        assert(s2[0] == s[0]);
        assert(s2.drop_first() =~= s.drop_first().update(p - 1, e));
        assert(s.drop_first()[p - 1] == s[p]);
        assert(forall|j: int| 0 <= j < p - 1 ==> s.drop_first()[j] == s[j + 1]);
        lemma_lookup_branch_update(s.drop_first(), p - 1, e, other);
    }
}

/// The key-manager core.  It exclusively owns the master seed and the
/// branch-index table; no operation exposes the seed, and the secret
/// scalars it resolves stay inside the crate.
pub struct KeyManagerCore {
    seed: Vec<u8>,
    branches: Vec<BranchEntry>,
    imported: Vec<Vec<u8>>,
}

impl KeyManagerCore {
    /// The master seed, as an abstract byte string.
    pub closed spec fn seed_view(self) -> Seq<u8> {
        self.seed@
    }

    /// The current index of a branch, if registered.
    pub closed spec fn branch_index(self, branch: Seq<char>) -> Option<u64> {
        lookup_branch(self.branches@, branch)
    }

    /// Whether a branch is registered.
    pub open spec fn has_branch(self, branch: Seq<char>) -> bool {
        self.branch_index(branch) is Some
    }

    /// The imported secrets, in insertion order.
    pub closed spec fn imported_view(self) -> Seq<Seq<u8>> {
        Seq::new(self.imported@.len(), |i: int| self.imported@[i]@)
    }

    /// Every imported secret is a canonical scalar encoding.
    pub closed spec fn wf(self) -> bool {
        forall|j: int|
            0 <= j < self.imported@.len() ==> (#[trigger] self.imported@[j]@).len() == 32
                && is_canonical_scalar(self.imported@[j]@)
    }

    /// The secret scalar a key id resolves to, if this manager can
    /// resolve it.  Only the key manager itself applies this resolution;
    /// callers receive public data.
    pub open spec fn spec_secret_of(self, id: KeyId) -> Option<Seq<u8>> {
        match id {
            KeyId::Managed { branch, index } => if self.has_branch(branch@) {
                Some(managed_secret_of(self.seed_view(), branch@, index))
            } else {
                None
            },
            KeyId::Derived { branch, index } => if self.has_branch(branch@) {
                Some(derived_secret_of(self.seed_view(), branch@, index))
            } else {
                None
            },
            KeyId::Imported { key } => self.spec_imported_secret(key.bytes@),
            KeyId::Zero => Some(zero_scalar_bytes()),
        }
    }

    /// The first imported secret whose public key matches.
    pub closed spec fn spec_imported_secret(self, key: Seq<u8>) -> Option<Seq<u8>> {
        lookup_imported(self.imported_view(), key)
    }

    /// A new manager owning the given master seed, with no branches and
    /// no imported keys.
    pub fn new(master_seed: Vec<u8>) -> (r: KeyManagerCore)
        ensures
            r.wf(),
            r.seed_view() == master_seed@,
            forall|b: Seq<char>| !(#[trigger] r.has_branch(b)),
            r.imported_view() =~= Seq::<Seq<u8>>::empty(),
    {
        let r = KeyManagerCore { seed: master_seed, branches: Vec::new(), imported: Vec::new() };
        proof {
            assert forall|b: Seq<char>| !(#[trigger] r.has_branch(b)) by {
                assert(lookup_branch(r.branches@, b) is None);
            }
        }
        r
    }

    /// Find the position of a branch in the table.
    fn find_branch_pos(&self, name: &String) -> (r: Option<usize>)
        ensures
            match r {
                Some(p) => p < self.branches@.len() && self.branches@[p as int].name@ == name@
                    && self.branch_index(name@) == Some(self.branches@[p as int].index) && forall|
                    j: int,
                |
                    0 <= j < p ==> self.branches@[j].name@ != name@,
                None => self.branch_index(name@) is None,
            },
    {
        let mut i: usize = 0;
        let n: usize = self.branches.len();
        while i < n
            invariant
                i <= n,
                n == self.branches@.len(),
                forall|j: int| 0 <= j < i ==> self.branches@[j].name@ != name@,
            decreases n - i,
        {
            if self.branches[i].name == *name {
                proof {
                    lemma_lookup_branch_first(self.branches@, i as int, name@);
                }
                return Some(i);
            }
            i = i + 1;
        }
        proof {
            lemma_lookup_branch_none(self.branches@, name@);
        }
        None
    }

    /// Derive the managed secret at `index` of a branch.
    fn derive_managed(&self, branch: &str, index: u64) -> (r: Vec<u8>)
        ensures
            r@ == managed_secret_of(self.seed_view(), branch@, index),
            r@.len() == 32,
            is_canonical_scalar(r@),
    {
        self.derive_tagged(TAG_MANAGED, branch, index)
    }

    /// Derive the diversified secret at `index` of a branch.
    fn derive_derived(&self, branch: &str, index: u64) -> (r: Vec<u8>)
        ensures
            r@ == derived_secret_of(self.seed_view(), branch@, index),
            r@.len() == 32,
            is_canonical_scalar(r@),
    {
        self.derive_tagged(TAG_DERIVED, branch, index)
    }

    /// Build the domain-tagged preimage and reduce its hash to a scalar.
    fn derive_tagged(&self, tag: u8, branch: &str, index: u64) -> (r: Vec<u8>)
        ensures
            r@ == wide_scalar_of(
                hash64_of(spec_preimage(tag, self.seed_view(), branch_bytes_of(branch@), index)),
            ),
            r@.len() == 32,
            is_canonical_scalar(r@),
    {
        let branch_bytes: &[u8] = branch.as_bytes();
        let mut pre: Vec<u8> = Vec::new();
        pre.push(tag);
        push_u64_le(&mut pre, self.seed.len() as u64);
        push_bytes(&mut pre, self.seed.as_slice());
        push_u64_le(&mut pre, branch_bytes.len() as u64);
        push_bytes(&mut pre, branch_bytes);
        push_u64_le(&mut pre, index);
        proof {
            assert(pre@ =~= spec_preimage(tag, self.seed_view(), branch_bytes_of(branch@), index));
        }
        let h = blake2b_hash(&pre);
        scalar_from_wide(&h)
    }

    /// Register a branch with initial index 0 if it is absent; report
    /// whether it was newly added or already existed.
    pub fn add_new_branch(&mut self, branch: &str) -> (r: AddResult)
        requires
            old(self).wf(),
        ensures
            final(self).wf(),
            final(self).seed_view() == old(self).seed_view(),
            final(self).imported_view() == old(self).imported_view(),
            final(self).has_branch(branch@),
            old(self).has_branch(branch@) ==> r == AddResult::AlreadyExists && *final(self)
                == *old(self),
            !old(self).has_branch(branch@) ==> r == AddResult::NewEntry && final(self)
                .branch_index(branch@) == Some(0u64),
            forall|b2: Seq<char>|
                b2 != branch@ ==> final(self).branch_index(b2) == old(self).branch_index(b2),
    {
        let name: String = branch.to_owned();
        match self.find_branch_pos(&name) {
            Some(_) => AddResult::AlreadyExists,
            None => {
                let entry = BranchEntry { name, index: 0 };
                proof {
                    assert forall|b2: Seq<char>| true implies lookup_branch(
                        old(self).branches@.push(BranchEntry { name: entry.name, index: 0u64 }),
                        b2,
                    ) == if lookup_branch(old(self).branches@, b2) is Some {
                        lookup_branch(old(self).branches@, b2)
                    } else if entry.name@ == b2 {
                        Some(0u64)
                    } else {
                        None
                    } by {
                        lemma_lookup_branch_push(
                            old(self).branches@,
                            BranchEntry { name: entry.name, index: 0u64 },
                            b2,
                        );
                    }
                }
                self.branches.push(entry);
                AddResult::NewEntry
            },
        }
    }

    /// Atomically read the branch's current index, derive the key at
    /// `index + 1`, persist the incremented index, and return the key
    /// handle with its public key.  Two sequential calls never return
    /// the same index.
    pub fn get_next_key_id(&mut self, branch: &str) -> (r: Result<
        (KeyId, PublicKey),
        KeyManagerError,
    >)
        requires
            old(self).wf(),
        ensures
            final(self).wf(),
            final(self).seed_view() == old(self).seed_view(),
            final(self).imported_view() == old(self).imported_view(),
            old(self).branch_index(branch@) is None ==> r == Err::<
                (KeyId, PublicKey),
                KeyManagerError,
            >(KeyManagerError::UnknownKeyBranch) && *final(self) == *old(self),
            old(self).branch_index(branch@) matches Some(i) ==> {
                &&& i == u64::MAX ==> r == Err::<(KeyId, PublicKey), KeyManagerError>(
                    KeyManagerError::IndexExhausted,
                ) && *final(self) == *old(self)
                &&& i < u64::MAX ==> {
                    &&& final(self).branch_index(branch@) == Some((i + 1) as u64)
                    &&& forall|b2: Seq<char>|
                        b2 != branch@ ==> final(self).branch_index(b2) == old(self).branch_index(
                            b2,
                        )
                    &&& r matches Ok(p)
                    &&& r matches Ok(p) ==> p.0.is_managed(branch@, (i + 1) as u64) && p.1.wf()
                        && p.1.bytes@ == pub_key_of(
                        managed_secret_of(old(self).seed_view(), branch@, (i + 1) as u64),
                    )
                }
            },
    {
        let name: String = branch.to_owned();
        match self.find_branch_pos(&name) {
            None => Err(KeyManagerError::UnknownKeyBranch),
            Some(p) => {
                let cur: u64 = self.branches[p].index;
                if cur == u64::MAX {
                    Err(KeyManagerError::IndexExhausted)
                } else {
                    let next: u64 = cur + 1;
                    let entry_name: String = self.branches[p].name.clone();
                    let entry = BranchEntry { name: entry_name, index: next };
                    proof {
                        let e2 = BranchEntry { name: entry.name, index: next };
                        let s2 = old(self).branches@.update(p as int, e2);
                        lemma_lookup_branch_update(old(self).branches@, p as int, e2, name@);
                        assert forall|b2: Seq<char>| b2 != name@ implies lookup_branch(s2, b2)
                            == lookup_branch(old(self).branches@, b2) by {
                            lemma_lookup_branch_update(old(self).branches@, p as int, e2, b2);
                        }
                    }
                    self.branches.set(p, entry);
                    let secret = self.derive_managed(branch, next);
                    let pk_bytes = pk_from_secret(&secret);
                    Ok(
                        (
                            KeyId::Managed { branch: name, index: next },
                            PublicKey { bytes: pk_bytes },
                        ),
                    )
                }
            },
        }
    }

    /// The legacy form of issuance: increments the branch index and
    /// returns the raw secret with its index.  Kept only for
    /// interoperability; production callers route all uses of the
    /// secret through the crypto operations instead.
    pub fn get_next_key(&mut self, branch: &str) -> (r: Result<NextKeyResult, KeyManagerError>)
        requires
            old(self).wf(),
        ensures
            final(self).wf(),
            final(self).seed_view() == old(self).seed_view(),
            final(self).imported_view() == old(self).imported_view(),
            old(self).branch_index(branch@) is None ==> r == Err::<NextKeyResult, KeyManagerError>(
                KeyManagerError::UnknownKeyBranch,
            ) && *final(self) == *old(self),
            old(self).branch_index(branch@) matches Some(i) ==> {
                &&& i == u64::MAX ==> r == Err::<NextKeyResult, KeyManagerError>(
                    KeyManagerError::IndexExhausted,
                ) && *final(self) == *old(self)
                &&& i < u64::MAX ==> {
                    &&& final(self).branch_index(branch@) == Some((i + 1) as u64)
                    &&& forall|b2: Seq<char>|
                        b2 != branch@ ==> final(self).branch_index(b2) == old(self).branch_index(
                            b2,
                        )
                    &&& r matches Ok(n) ==> n.index == i + 1 && n.key.wf() && n.key.bytes@
                        == managed_secret_of(old(self).seed_view(), branch@, (i + 1) as u64)
                    &&& r is Ok
                }
            },
    {
        let name: String = branch.to_owned();
        match self.find_branch_pos(&name) {
            None => Err(KeyManagerError::UnknownKeyBranch),
            Some(p) => {
                let cur: u64 = self.branches[p].index;
                if cur == u64::MAX {
                    Err(KeyManagerError::IndexExhausted)
                } else {
                    let next: u64 = cur + 1;
                    let entry_name: String = self.branches[p].name.clone();
                    let entry = BranchEntry { name: entry_name, index: next };
                    proof {
                        let e2 = BranchEntry { name: entry.name, index: next };
                        let s2 = old(self).branches@.update(p as int, e2);
                        lemma_lookup_branch_update(old(self).branches@, p as int, e2, name@);
                        assert forall|b2: Seq<char>| b2 != name@ implies lookup_branch(s2, b2)
                            == lookup_branch(old(self).branches@, b2) by {
                            lemma_lookup_branch_update(old(self).branches@, p as int, e2, b2);
                        }
                    }
                    self.branches.set(p, entry);
                    let secret = self.derive_managed(branch, next);
                    Ok(NextKeyResult { key: PrivateKey { bytes: secret }, index: next })
                }
            },
        }
    }

    /// The handle for index 0 of a branch reserved for single-key use.
    /// Idempotent: it never changes manager state.
    pub fn get_static_key_id(&self, branch: &str) -> (r: Result<KeyId, KeyManagerError>)
        ensures
            self.has_branch(branch@) ==> (r matches Ok(id) && id.is_managed(branch@, 0)),
            !self.has_branch(branch@) ==> r == Err::<KeyId, KeyManagerError>(
                KeyManagerError::UnknownKeyBranch,
            ),
    {
        let name: String = branch.to_owned();
        match self.find_branch_pos(&name) {
            None => Err(KeyManagerError::UnknownKeyBranch),
            Some(_) => Ok(KeyId::Managed { branch: name, index: 0 }),
        }
    }

    /// The key handle and public key at a given index of a branch,
    /// derived without touching the branch's current index.  Derivation
    /// is defined for any index; spending authority is implied only by
    /// issuance.
    pub fn get_next_key_id_for_branch_index(&self, branch: &str, index: u64) -> (r: Result<
        (KeyId, PublicKey),
        KeyManagerError,
    >)
        ensures
            self.has_branch(branch@) ==> (r matches Ok(p) && p.0.is_managed(branch@, index)
                && p.1.wf() && p.1.bytes@ == pub_key_of(
                managed_secret_of(self.seed_view(), branch@, index),
            )),
            !self.has_branch(branch@) ==> r == Err::<(KeyId, PublicKey), KeyManagerError>(
                KeyManagerError::UnknownKeyBranch,
            ),
    {
        let name: String = branch.to_owned();
        match self.find_branch_pos(&name) {
            None => Err(KeyManagerError::UnknownKeyBranch),
            Some(_) => {
                let secret = self.derive_managed(branch, index);
                let pk_bytes = pk_from_secret(&secret);
                Ok((KeyId::Managed { branch: name, index }, PublicKey { bytes: pk_bytes }))
            },
        }
    }

    /// Pure deterministic derivation of the key at an index of a branch.
    /// Equal `(seed, branch, index)` always yield the same key; spending
    /// authority is implied only by issuance, not by derivability.
    pub fn get_key_at_index(&self, branch: &str, index: u64) -> (r: Result<
        PrivateKey,
        KeyManagerError,
    >)
        ensures
            self.has_branch(branch@) ==> (r matches Ok(k) && k.wf() && k.bytes@
                == managed_secret_of(self.seed_view(), branch@, index)),
            !self.has_branch(branch@) ==> r == Err::<PrivateKey, KeyManagerError>(
                KeyManagerError::UnknownKeyBranch,
            ),
    {
        let name: String = branch.to_owned();
        match self.find_branch_pos(&name) {
            None => Err(KeyManagerError::UnknownKeyBranch),
            Some(_) => Ok(PrivateKey { bytes: self.derive_managed(branch, index) }),
        }
    }

    /// The current index of a branch: the highest index issued so far.
    pub fn current_index(&self, branch: &str) -> (r: Result<u64, KeyManagerError>)
        ensures
            self.branch_index(branch@) matches Some(i) ==> r == Ok::<u64, KeyManagerError>(i),
            self.branch_index(branch@) is None ==> r == Err::<u64, KeyManagerError>(
                KeyManagerError::UnknownKeyBranch,
            ),
    {
        let name: String = branch.to_owned();
        match self.find_branch_pos(&name) {
            None => Err(KeyManagerError::UnknownKeyBranch),
            Some(p) => Ok(self.branches[p].index),
        }
    }

    /// Resolve a key id to its secret scalar.  Crate-internal: the
    /// secret never crosses the public interface boundary.
    pub(crate) fn secret_of_key_id(&self, id: &KeyId) -> (r: Result<Vec<u8>, KeyManagerError>)
        requires
            self.wf(),
        ensures
            r is Ok <==> self.spec_secret_of(*id) is Some,
            r matches Ok(s) ==> s@ == self.spec_secret_of(*id).unwrap() && s@.len() == 32
                && is_canonical_scalar(s@),
            r matches Err(e) ==> (e == KeyManagerError::UnknownKeyBranch || e
                == KeyManagerError::KeyNotFound),
            *id matches KeyId::Imported { key } ==> (r matches Ok(s) ==> pub_key_of(s@)
                == key.bytes@),
    {
        match id {
            KeyId::Managed { branch, index } => {
                match self.find_branch_pos(branch) {
                    None => Err(KeyManagerError::UnknownKeyBranch),
                    Some(_) => Ok(self.derive_managed(branch.as_str(), *index)),
                }
            },
            KeyId::Derived { branch, index } => {
                match self.find_branch_pos(branch) {
                    None => Err(KeyManagerError::UnknownKeyBranch),
                    Some(_) => Ok(self.derive_derived(branch.as_str(), *index)),
                }
            },
            KeyId::Imported { key } => self.find_imported_secret(&key.bytes),
            KeyId::Zero => {
                let z = scalar_from_u64(0);
                Ok(z)
            },
        }
    }

    /// Scan the imported secrets for one whose public key matches.
    fn find_imported_secret(&self, key: &Vec<u8>) -> (r: Result<Vec<u8>, KeyManagerError>)
        requires
            self.wf(),
        ensures
            r is Ok <==> self.spec_imported_secret(key@) is Some,
            r matches Ok(s) ==> s@ == self.spec_imported_secret(key@).unwrap() && s@.len() == 32
                && is_canonical_scalar(s@) && pub_key_of(s@) == key@,
            r matches Err(e) ==> e == KeyManagerError::KeyNotFound,
    {
        let n: usize = self.imported.len();
        let mut i: usize = 0;
        while i < n
            invariant
                self.wf(),
                i <= n,
                n == self.imported@.len(),
                forall|j: int| 0 <= j < i ==> pub_key_of(#[trigger] self.imported_view()[j]) != key@,
            decreases n - i,
        {
            let pk = pk_from_secret(&self.imported[i]);
            if bytes_eq(&pk, key) {
                proof {
                    lemma_lookup_imported_first(self.imported_view(), i as int, key@);
                }
                let s = self.imported[i].clone();
                proof {
                    assert(s@ == self.imported_view()[i as int]);
                }
                return Ok(s);
            }
            i = i + 1;
        }
        proof {
            lemma_lookup_imported_none(self.imported_view(), key@);
        }
        Err(KeyManagerError::KeyNotFound)
    }

    /// Resolve any key id to its public key without exposing the secret.
    pub fn get_public_key_at_key_id(&self, id: &KeyId) -> (r: Result<PublicKey, KeyManagerError>)
        requires
            self.wf(),
        ensures
            r is Ok <==> self.spec_secret_of(*id) is Some,
            r matches Ok(p) ==> p.wf() && p.bytes@ == pub_key_of(
                self.spec_secret_of(*id).unwrap(),
            ),
    {
        let secret = match self.secret_of_key_id(id) {
            Ok(s) => s,
            Err(e) => {
                return Err(e);
            },
        };
        Ok(PublicKey { bytes: pk_from_secret(&secret) })
    }

    /// Linear scan over the issued indices of a branch, deriving each
    /// candidate public key and comparing; returns the first match.
    /// Cost is proportional to the issued index range.
    pub fn find_key_index(&self, branch: &str, key: &PublicKey) -> (r: Result<
        u64,
        KeyManagerError,
    >)
        ensures
            !self.has_branch(branch@) ==> r == Err::<u64, KeyManagerError>(
                KeyManagerError::UnknownKeyBranch,
            ),
            self.branch_index(branch@) matches Some(c) ==> {
                &&& r matches Ok(i) ==> i <= c && pub_key_of(
                    managed_secret_of(self.seed_view(), branch@, i),
                ) == key.bytes@ && forall|j: u64|
                    j < i ==> pub_key_of(
                        #[trigger] managed_secret_of(self.seed_view(), branch@, j),
                    ) != key.bytes@
                &&& r is Ok <==> exists|i: u64|
                    i <= c && pub_key_of(#[trigger] managed_secret_of(self.seed_view(), branch@, i))
                        == key.bytes@
                &&& r is Err ==> r == Err::<u64, KeyManagerError>(KeyManagerError::KeyNotFound)
            },
    {
        let name: String = branch.to_owned();
        let cur: u64 = match self.find_branch_pos(&name) {
            None => {
                return Err(KeyManagerError::UnknownKeyBranch);
            },
            Some(p) => self.branches[p].index,
        };
        let mut i: u64 = 0;
        loop
            invariant
                i <= cur,
                self.branch_index(branch@) == Some(cur),
                forall|j: u64|
                    j < i ==> pub_key_of(
                        #[trigger] managed_secret_of(self.seed_view(), branch@, j),
                    ) != key.bytes@,
            decreases cur - i,
        {
            let secret = self.derive_managed(branch, i);
            let pk = pk_from_secret(&secret);
            if bytes_eq(&pk, &key.bytes) {
                return Ok(i);
            }
            if i == cur {
                proof {
                    assert(forall|j: u64|
                        j <= cur ==> pub_key_of(
                            #[trigger] managed_secret_of(self.seed_view(), branch@, j),
                        ) != key.bytes@);
                }
                return Err(KeyManagerError::KeyNotFound);
            }
            i = i + 1;
        }
    }

    /// Advance the branch's persisted index only if `index` exceeds the
    /// current value; the index never moves backward.
    pub fn update_current_key_index_if_higher(&mut self, branch: &str, index: u64) -> (r: Result<
        (),
        KeyManagerError,
    >)
        requires
            old(self).wf(),
        ensures
            final(self).wf(),
            final(self).seed_view() == old(self).seed_view(),
            final(self).imported_view() == old(self).imported_view(),
            old(self).branch_index(branch@) is None ==> r == Err::<(), KeyManagerError>(
                KeyManagerError::UnknownKeyBranch,
            ) && *final(self) == *old(self),
            old(self).branch_index(branch@) matches Some(i) ==> {
                &&& r == Ok::<(), KeyManagerError>(())
                &&& final(self).branch_index(branch@) == Some(if index > i {
                    index
                } else {
                    i
                })
                &&& forall|b2: Seq<char>|
                    b2 != branch@ ==> final(self).branch_index(b2) == old(self).branch_index(b2)
            },
    {
        let name: String = branch.to_owned();
        match self.find_branch_pos(&name) {
            None => Err(KeyManagerError::UnknownKeyBranch),
            Some(p) => {
                let cur: u64 = self.branches[p].index;
                if index > cur {
                    let entry_name: String = self.branches[p].name.clone();
                    let entry = BranchEntry { name: entry_name, index };
                    proof {
                        let e2 = BranchEntry { name: entry.name, index };
                        let s2 = old(self).branches@.update(p as int, e2);
                        lemma_lookup_branch_update(old(self).branches@, p as int, e2, name@);
                        assert forall|b2: Seq<char>| b2 != name@ implies lookup_branch(s2, b2)
                            == lookup_branch(old(self).branches@, b2) by {
                            lemma_lookup_branch_update(old(self).branches@, p as int, e2, b2);
                        }
                    }
                    self.branches.set(p, entry);
                    Ok(())
                } else {
                    Ok(())
                }
            },
        }
    }

    /// Store an externally supplied secret under a fresh imported
    /// identifier; the secret is never re-derivable from the hierarchy.
    pub fn import_key(&mut self, secret: PrivateKey) -> (r: Result<KeyId, KeyManagerError>)
        requires
            old(self).wf(),
            secret.wf(),
        ensures
            final(self).wf(),
            final(self).seed_view() == old(self).seed_view(),
            forall|b2: Seq<char>| final(self).branch_index(b2) == old(self).branch_index(b2),
            final(self).imported_view() =~= old(self).imported_view().push(secret.bytes@),
            r matches Ok(id) ==> id.wf() && (id matches KeyId::Imported { key } && key.bytes@
                == pub_key_of(secret.bytes@)),
            r is Ok,
            old(self).spec_imported_secret(pub_key_of(secret.bytes@)) is None ==> final(self)
                .spec_imported_secret(pub_key_of(secret.bytes@)) == Some(secret.bytes@),
    {
        let pk_bytes = pk_from_secret(&secret.bytes);
        proof {
            lemma_lookup_imported_push(
                old(self).imported_view(),
                secret.bytes@,
                pub_key_of(secret.bytes@),
            );
        }
        self.imported.push(secret.bytes);
        proof {
            assert(self.imported_view() =~= old(self).imported_view().push(secret.bytes@));
        }
        Ok(KeyId::Imported { key: PublicKey { bytes: pk_bytes } })
    }

    /// Issue a fresh spend key (commitment-mask branch) and script key
    /// (script-key branch) in one step: each branch's index advances by
    /// exactly one, with the same no-duplicate guarantee as
    /// `get_next_key_id`, and every other branch is untouched.
    pub fn get_next_spend_and_script_key_ids(&mut self) -> (r: Result<
        (KeyId, KeyId),
        KeyManagerError,
    >)
        requires
            old(self).wf(),
        ensures
            final(self).wf(),
            final(self).seed_view() == old(self).seed_view(),
            final(self).imported_view() == old(self).imported_view(),
            forall|b2: Seq<char>|
                (b2 != CoreKeyManagerBranch::CommitmentMask.spec_branch_key() && b2
                    != CoreKeyManagerBranch::ScriptKey.spec_branch_key()) ==> final(self)
                    .branch_index(b2) == old(self).branch_index(b2),
            old(self).branch_index(CoreKeyManagerBranch::CommitmentMask.spec_branch_key())
                is None ==> r == Err::<(KeyId, KeyId), KeyManagerError>(
                KeyManagerError::UnknownKeyBranch,
            ) && *final(self) == *old(self),
            old(self).branch_index(CoreKeyManagerBranch::CommitmentMask.spec_branch_key())
                matches Some(cm) ==> {
                &&& cm == u64::MAX ==> r == Err::<(KeyId, KeyId), KeyManagerError>(
                    KeyManagerError::IndexExhausted,
                ) && *final(self) == *old(self)
                &&& cm < u64::MAX ==> {
                    &&& final(self).branch_index(
                        CoreKeyManagerBranch::CommitmentMask.spec_branch_key(),
                    ) == Some((cm + 1) as u64)
                    &&& old(self).branch_index(CoreKeyManagerBranch::ScriptKey.spec_branch_key())
                        is None ==> r == Err::<(KeyId, KeyId), KeyManagerError>(
                        KeyManagerError::UnknownKeyBranch,
                    )
                    &&& old(self).branch_index(CoreKeyManagerBranch::ScriptKey.spec_branch_key())
                        matches Some(sk) ==> {
                        &&& sk == u64::MAX ==> r == Err::<(KeyId, KeyId), KeyManagerError>(
                            KeyManagerError::IndexExhausted,
                        ) && final(self).branch_index(
                            CoreKeyManagerBranch::ScriptKey.spec_branch_key(),
                        ) == Some(sk)
                        &&& sk < u64::MAX ==> (r matches Ok(ids) && ids.0.is_managed(
                            CoreKeyManagerBranch::CommitmentMask.spec_branch_key(),
                            (cm + 1) as u64,
                        ) && ids.1.is_managed(
                            CoreKeyManagerBranch::ScriptKey.spec_branch_key(),
                            (sk + 1) as u64,
                        ) && final(self).branch_index(
                            CoreKeyManagerBranch::ScriptKey.spec_branch_key(),
                        ) == Some((sk + 1) as u64))
                    }
                }
            },
    {
        let spend_branch: String = CoreKeyManagerBranch::CommitmentMask.get_branch_key();
        let script_branch: String = CoreKeyManagerBranch::ScriptKey.get_branch_key();
        proof {
            reveal_strlit("core: commitment mask");
            reveal_strlit("core: script key");
            assert(CoreKeyManagerBranch::CommitmentMask.spec_branch_key().len() == 21);
            assert(CoreKeyManagerBranch::ScriptKey.spec_branch_key().len() == 16);
        }
        let (spend_id, _spend_pk) = match self.get_next_key_id(spend_branch.as_str()) {
            Ok(p) => p,
            Err(e) => {
                return Err(e);
            },
        };
        let (script_id, _script_pk) = match self.get_next_key_id(script_branch.as_str()) {
            Ok(p) => p,
            Err(e) => {
                return Err(e);
            },
        };
        Ok((spend_id, script_id))
    }

    /// The static key id of the data-encryption branch, used to derive
    /// recovery encryption keys.
    pub fn get_recovery_key_id(&self) -> (r: Result<KeyId, KeyManagerError>)
        ensures
            self.has_branch(CoreKeyManagerBranch::DataEncryption.spec_branch_key()) ==> (r
                matches Ok(id) && id.is_managed(
                CoreKeyManagerBranch::DataEncryption.spec_branch_key(),
                0,
            )),
            !self.has_branch(CoreKeyManagerBranch::DataEncryption.spec_branch_key()) ==> r == Err::<
                KeyId,
                KeyManagerError,
            >(KeyManagerError::UnknownKeyBranch),
    {
        let branch: String = CoreKeyManagerBranch::DataEncryption.get_branch_key();
        self.get_static_key_id(branch.as_str())
    }
}

/// Two key ids that refer to the same key resolve to the same secret.
pub proof fn lemma_secret_of_congruence(km: KeyManagerCore, a: KeyId, b: KeyId)
    requires
        spec_key_id_matches(a, b),
    ensures
        km.spec_secret_of(a) == km.spec_secret_of(b),
{
}

/// Secret resolution depends only on the master seed, the set of
/// registered branch names and the imported secrets: two managers that
/// agree on those resolve every key id alike.
pub proof fn lemma_secret_of_depends(a: KeyManagerCore, b: KeyManagerCore, id: KeyId)
    requires
        a.seed_view() == b.seed_view(),
        a.imported_view() == b.imported_view(),
        forall|br: Seq<char>| #[trigger] a.has_branch(br) == b.has_branch(br),
    ensures
        a.spec_secret_of(id) == b.spec_secret_of(id),
{
}

/// The indices returned by `n` successive issuances that start from
/// current index `start`: `start + 1, …, start + n`.
pub open spec fn issued_indices(start: u64, n: nat) -> Seq<int> {
    Seq::new(n, |k: int| start + k + 1)
}

/// Sequential issuance yields exactly the next `n` indices, each one
/// once: no duplicates, no gaps, and every index in `(start, start + n]`
/// is returned.  Together with the contract of `get_next_key_id` (each
/// call returns the stored index plus one and persists the increment),
/// this pins down the indices seen by any number of callers whose calls
/// are serialized through the manager.
pub proof fn lemma_sequential_issuance(start: u64, n: nat)
    requires
        start + n <= u64::MAX,
    ensures
        issued_indices(start, n).len() == n,
        forall|a: int, b: int|
            0 <= a < b < n ==> #[trigger] issued_indices(start, n)[a] != #[trigger] issued_indices(
                start,
                n,
            )[b],
        forall|a: int| 0 <= a < n ==> start < #[trigger] issued_indices(start, n)[a] <= start + n,
        forall|v: int| #[trigger] issued_indices(start, n).contains(v) <==> start < v <= start
            + n,
{
    let s = issued_indices(start, n);
    assert forall|v: int| #[trigger] s.contains(v) <==> start < v <= start + n by {
        if start < v <= start + n {
            assert(s[v - start - 1] == v);
        }
    }
}

} // verus!
