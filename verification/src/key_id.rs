//! Opaque references to keys held by the key manager.

use vstd::prelude::*;

use crate::types::PublicKey;

verus! {

/// Whether two key ids refer to the same key: same branch name and
/// index, same imported public key, or both the zero sentinel.
pub open spec fn spec_key_id_matches(a: KeyId, b: KeyId) -> bool {
    match (a, b) {
        (KeyId::Managed { branch: b1, index: i1 }, KeyId::Managed { branch: b2, index: i2 }) => b1@
            == b2@ && i1 == i2,
        (KeyId::Derived { branch: b1, index: i1 }, KeyId::Derived { branch: b2, index: i2 }) => b1@
            == b2@ && i1 == i2,
        (KeyId::Imported { key: k1 }, KeyId::Imported { key: k2 }) => k1.bytes@ == k2.bytes@,
        (KeyId::Zero, KeyId::Zero) => true,
        _ => false,
    }
}

/// An opaque reference to a key.  A `KeyId` never carries secret scalar
/// material; only the key manager can resolve one to a scalar, and only
/// internally.
#[derive(Clone, Debug, PartialEq, Eq)]
pub enum KeyId {
    /// A key derivable on demand from the master seed, as the key at
    /// `index` of the named branch.
    Managed { branch: String, index: u64 },
    /// A key reached from the branch hierarchy through a domain-separated
    /// sub-derivation, used for diversified keys.
    Derived { branch: String, index: u64 },
    /// An externally supplied secret, stored under its public key and
    /// never re-derivable from the branch hierarchy.
    Imported { key: PublicKey },
    /// The additive identity, used as a sentinel; it has no secret
    /// material.
    Zero,
}

impl KeyId {
    /// A well-formed key id carries a well-formed public key when it is
    /// imported.
    pub open spec fn wf(self) -> bool {
        match self {
            KeyId::Imported { key } => key.wf(),
            _ => true,
        }
    }


    /// A copy of this key id referring to the same key.
    pub fn clone_id(&self) -> (r: KeyId)
        ensures
            spec_key_id_matches(r, *self),
            r.wf() == self.wf(),
    {
        match self {
            KeyId::Managed { branch, index } => KeyId::Managed {
                branch: branch.clone(),
                index: *index,
            },
            KeyId::Derived { branch, index } => KeyId::Derived {
                branch: branch.clone(),
                index: *index,
            },
            KeyId::Imported { key } => KeyId::Imported { key: key.clone_key() },
            KeyId::Zero => KeyId::Zero,
        }
    }

    /// Whether this id is the managed key of the given branch and index.
    pub open spec fn is_managed(self, branch: Seq<char>, index: u64) -> bool {
        match self {
            KeyId::Managed { branch: b, index: i } => b@ == branch && i == index,
            _ => false,
        }
    }
}

} // verus!
