//! Plain-value key, commitment and shared-secret types.
//!
//! Secret scalars, public keys and commitments are carried as their
//! canonical 32-byte encodings, with well-formedness predicates tying
//! them to the curve library's accepted encodings.

use vstd::prelude::*;

use crate::byte_codec::spec_u64_le_32;
use crate::crypto_ops::is_canonical_scalar;
use crate::crypto_ops::is_valid_point;
use crate::crypto_ops::point_check;
use crate::crypto_ops::pub_key_of;
use crate::crypto_ops::pk_from_secret;
use crate::crypto_ops::scalar_check;
use crate::crypto_ops::scalar_from_u64;

verus! {

/// Whether two byte vectors hold the same bytes.
pub fn bytes_eq(a: &Vec<u8>, b: &Vec<u8>) -> (r: bool)
    ensures
        r == (a@ == b@),
{
    let r: bool = a == b;
    proof {
        if r {
            assert(a@ =~= b@);
        }
    }
    r
}

/// A secret scalar, held as its canonical 32-byte encoding.  It never
/// crosses the public key-manager interface except through the
/// deliberately discouraged legacy operations.
#[derive(Clone, Debug, PartialEq, Eq)]
pub struct PrivateKey {
    pub bytes: Vec<u8>,
}

impl PrivateKey {
    /// A well-formed secret key is a canonical 32-byte scalar encoding.
    pub open spec fn wf(self) -> bool {
        self.bytes@.len() == 32 && is_canonical_scalar(self.bytes@)
    }

    /// The canonical encoding of this key.
    pub open spec fn view_bytes(self) -> Seq<u8> {
        self.bytes@
    }

    /// Accept exactly the canonical 32-byte scalar encodings.
    pub fn from_canonical_bytes(bytes: Vec<u8>) -> (r: Option<PrivateKey>)
        ensures
            match r {
                Some(k) => k.wf() && k.bytes@ == bytes@,
                None => !(bytes@.len() == 32 && is_canonical_scalar(bytes@)),
            },
    {
        if bytes.len() == 32 && scalar_check(&bytes) {
            Some(PrivateKey { bytes })
        } else {
            None
        }
    }

    /// The scalar of a plain `u64` value, used to commit to amounts.
    pub fn from_value(v: u64) -> (r: PrivateKey)
        ensures
            r.wf(),
            r.bytes@ == spec_u64_le_32(v),
    {
        PrivateKey { bytes: scalar_from_u64(v) }
    }

    /// The canonical encoding of this key.
    pub fn as_bytes(&self) -> (r: &Vec<u8>)
        ensures
            r@ == self.bytes@,
    {
        &self.bytes
    }
}

/// A public key, held as its compressed 32-byte point encoding.
#[derive(Clone, Debug, PartialEq, Eq)]
pub struct PublicKey {
    pub bytes: Vec<u8>,
}

impl PublicKey {
    /// A well-formed public key is the compressed encoding of a valid
    /// curve point.
    pub open spec fn wf(self) -> bool {
        self.bytes@.len() == 32 && is_valid_point(self.bytes@)
    }

    /// The compressed encoding of this key.
    pub open spec fn view_bytes(self) -> Seq<u8> {
        self.bytes@
    }

    /// Accept exactly the compressed encodings of valid curve points.
    pub fn from_canonical_bytes(bytes: Vec<u8>) -> (r: Option<PublicKey>)
        ensures
            match r {
                Some(k) => k.wf() && k.bytes@ == bytes@,
                None => !(bytes@.len() == 32 && is_valid_point(bytes@)),
            },
    {
        if bytes.len() == 32 && point_check(&bytes) {
            Some(PublicKey { bytes })
        } else {
            None
        }
    }

    /// The public key of a secret key.
    pub fn from_secret_key(k: &PrivateKey) -> (r: PublicKey)
        requires
            k.wf(),
        ensures
            r.wf(),
            r.bytes@ == pub_key_of(k.bytes@),
    {
        PublicKey { bytes: pk_from_secret(&k.bytes) }
    }

    /// The compressed encoding of this key.
    pub fn as_bytes(&self) -> (r: &Vec<u8>)
        ensures
            r@ == self.bytes@,
    {
        &self.bytes
    }

    /// Whether two public keys are the same point.
    pub fn equals(&self, other: &PublicKey) -> (r: bool)
        ensures
            r == (self.bytes@ == other.bytes@),
    {
        bytes_eq(&self.bytes, &other.bytes)
    }


    /// A copy of this key with the same encoding.
    pub fn clone_key(&self) -> (r: PublicKey)
        ensures
            r.bytes@ == self.bytes@,
    {
        let bytes = self.bytes.clone();
        proof {
            assert(bytes@ =~= self.bytes@);
        }
        PublicKey { bytes }
    }
}

/// A Pedersen commitment, held as its compressed 32-byte point encoding.
#[derive(Clone, Debug, PartialEq, Eq)]
pub struct Commitment {
    pub bytes: Vec<u8>,
}

impl Commitment {
    /// A well-formed commitment is the compressed encoding of a valid
    /// curve point.
    pub open spec fn wf(self) -> bool {
        self.bytes@.len() == 32 && is_valid_point(self.bytes@)
    }

    /// The compressed encoding of this commitment.
    pub open spec fn view_bytes(self) -> Seq<u8> {
        self.bytes@
    }

    /// Accept exactly the compressed encodings of valid curve points.
    pub fn from_canonical_bytes(bytes: Vec<u8>) -> (r: Option<Commitment>)
        ensures
            match r {
                Some(c) => c.wf() && c.bytes@ == bytes@,
                None => !(bytes@.len() == 32 && is_valid_point(bytes@)),
            },
    {
        if bytes.len() == 32 && point_check(&bytes) {
            Some(Commitment { bytes })
        } else {
            None
        }
    }

    /// The compressed encoding of this commitment.
    pub fn as_bytes(&self) -> (r: &Vec<u8>)
        ensures
            r@ == self.bytes@,
    {
        &self.bytes
    }

    /// Whether two commitments are the same point.
    pub fn equals(&self, other: &Commitment) -> (r: bool)
        ensures
            r == (self.bytes@ == other.bytes@),
    {
        bytes_eq(&self.bytes, &other.bytes)
    }
}

/// A Diffie-Hellman shared secret: the compressed point `k · P`.
#[derive(Clone, Debug, PartialEq, Eq)]
pub struct SharedSecret {
    pub bytes: Vec<u8>,
}

impl SharedSecret {
    /// The compressed encoding of the shared point.
    pub open spec fn view_bytes(self) -> Seq<u8> {
        self.bytes@
    }

    /// The compressed encoding of the shared point.
    pub fn as_bytes(&self) -> (r: &Vec<u8>)
        ensures
            r@ == self.bytes@,
    {
        &self.bytes
    }
}

/// A serialized zero-knowledge range proof.
#[derive(Clone, Debug, PartialEq, Eq)]
pub struct RangeProof {
    pub bytes: Vec<u8>,
}

impl RangeProof {
    /// The serialized proof bytes.
    pub fn as_bytes(&self) -> (r: &Vec<u8>)
        ensures
            r@ == self.bytes@,
    {
        &self.bytes
    }
}

} // verus!
