//! Signature values: Schnorr signatures over the public-key group and
//! dual commitment-plus-public-key signatures, with componentwise
//! homomorphic addition.

use vstd::prelude::*;

use crate::byte_codec::zero_scalar_bytes;
use crate::crypto_ops::identity_point_bytes;
use crate::crypto_ops::is_canonical_scalar;
use crate::crypto_ops::is_valid_point;
use crate::crypto_ops::point_add_of;
use crate::crypto_ops::point_add;
use crate::crypto_ops::scalar_add_of;
use crate::crypto_ops::scalar_add;

verus! {

/// The mathematical shape of a dual commitment-plus-public-key
/// signature: two ephemeral group elements and three response scalars.
pub struct SigView {
    pub ephemeral_commitment: Seq<u8>,
    pub ephemeral_pubkey: Seq<u8>,
    pub u_a: Seq<u8>,
    pub u_x: Seq<u8>,
    pub u_y: Seq<u8>,
}

/// The componentwise sum of two dual signatures: group addition on the
/// ephemeral elements, scalar addition on the responses.
pub open spec fn sig_add_spec(a: SigView, b: SigView) -> SigView {
    SigView {
        ephemeral_commitment: point_add_of(a.ephemeral_commitment, b.ephemeral_commitment),
        ephemeral_pubkey: point_add_of(a.ephemeral_pubkey, b.ephemeral_pubkey),
        u_a: scalar_add_of(a.u_a, b.u_a),
        u_x: scalar_add_of(a.u_x, b.u_x),
        u_y: scalar_add_of(a.u_y, b.u_y),
    }
}

/// A dual commitment-plus-public-key signature over an output's
/// metadata or an input's script: an ephemeral commitment
/// `r_a · H + r_x · G`, an ephemeral public key `r_y · G`, and the
/// responses `u_a`, `u_x`, `u_y`.
#[derive(Clone, Debug, PartialEq, Eq)]
pub struct ComAndPubSignature {
    pub ephemeral_commitment: Vec<u8>,
    pub ephemeral_pubkey: Vec<u8>,
    pub u_a: Vec<u8>,
    pub u_x: Vec<u8>,
    pub u_y: Vec<u8>,
}

impl View for ComAndPubSignature {
    type V = SigView;

    open spec fn view(&self) -> SigView {
        SigView {
            ephemeral_commitment: self.ephemeral_commitment@,
            ephemeral_pubkey: self.ephemeral_pubkey@,
            u_a: self.u_a@,
            u_x: self.u_x@,
            u_y: self.u_y@,
        }
    }
}

impl ComAndPubSignature {
    /// Well-formed: the ephemeral parts are valid group elements and
    /// the responses are canonical scalars.
    pub open spec fn wf(self) -> bool {
        &&& is_valid_point(self.ephemeral_commitment@)
        &&& is_valid_point(self.ephemeral_pubkey@)
        &&& is_canonical_scalar(self.u_a@)
        &&& is_canonical_scalar(self.u_x@)
        &&& is_canonical_scalar(self.u_y@)
    }

    /// The homomorphic sum of two partial signatures: each component is
    /// added in its group.  Two partial signatures over the same
    /// challenge combine into the signature a single party holding all
    /// keys would produce.
    pub fn add(&self, other: &ComAndPubSignature) -> (r: ComAndPubSignature)
        requires
            self.wf(),
            other.wf(),
        ensures
            r.wf(),
            r@ == sig_add_spec(self@, other@),
            self@.ephemeral_commitment == identity_point_bytes() ==> r@.ephemeral_commitment
                == other@.ephemeral_commitment,
            other@.ephemeral_commitment == identity_point_bytes() ==> r@.ephemeral_commitment
                == self@.ephemeral_commitment,
            self@.ephemeral_pubkey == identity_point_bytes() ==> r@.ephemeral_pubkey
                == other@.ephemeral_pubkey,
            other@.ephemeral_pubkey == identity_point_bytes() ==> r@.ephemeral_pubkey
                == self@.ephemeral_pubkey,
            self@.u_a == zero_scalar_bytes() ==> r@.u_a == other@.u_a,
            other@.u_a == zero_scalar_bytes() ==> r@.u_a == self@.u_a,
            self@.u_x == zero_scalar_bytes() ==> r@.u_x == other@.u_x,
            other@.u_x == zero_scalar_bytes() ==> r@.u_x == self@.u_x,
            self@.u_y == zero_scalar_bytes() ==> r@.u_y == other@.u_y,
            other@.u_y == zero_scalar_bytes() ==> r@.u_y == self@.u_y,
    {
        ComAndPubSignature {
            ephemeral_commitment: point_add(&self.ephemeral_commitment, &other.ephemeral_commitment),
            ephemeral_pubkey: point_add(&self.ephemeral_pubkey, &other.ephemeral_pubkey),
            u_a: scalar_add(&self.u_a, &other.u_a),
            u_x: scalar_add(&self.u_x, &other.u_x),
            u_y: scalar_add(&self.u_y, &other.u_y),
        }
    }
}

/// A Schnorr signature: the public nonce `r · G` and the response
/// scalar.
#[derive(Clone, Debug, PartialEq, Eq)]
pub struct Signature {
    pub public_nonce: Vec<u8>,
    pub signature: Vec<u8>,
}

impl Signature {
    /// Well-formed: a valid group element and a canonical scalar.
    pub open spec fn wf(self) -> bool {
        is_valid_point(self.public_nonce@) && is_canonical_scalar(self.signature@)
    }
}

} // verus!
