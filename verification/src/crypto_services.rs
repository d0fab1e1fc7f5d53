//! Cryptographic operations layered on the key-manager core.
//!
//! Every operation takes key ids, resolves secrets internally and
//! returns only public data (commitments, signatures, public keys) or
//! ciphertext; the private scalar never crosses the return boundary.

use vstd::prelude::*;

use crate::byte_codec::push_bytes;
use crate::byte_codec::push_u64_le;
use crate::byte_codec::read_u64_le;
use crate::byte_codec::spec_le_u64;
use crate::byte_codec::spec_u64_le;
use crate::byte_codec::spec_u64_le_32;
use crate::byte_codec::sub_bytes;
use crate::byte_codec::zero_scalar_bytes;
use crate::byte_codec::lemma_u64_le_round_trip;
use crate::branch::CoreKeyManagerBranch;
use crate::branch::TxoType;
use crate::components::EncryptedData;
use crate::components::RangeProofType;
use crate::components::TransactionError;
use crate::components::TransactionInputVersion;
use crate::components::TransactionKernelVersion;
use crate::components::TransactionOutputVersion;
use crate::components::KernelFeatures;
use crate::crypto_ops::aead_decrypt;
use crate::crypto_ops::aead_dec_of;
use crate::crypto_ops::aead_encrypt;
use crate::crypto_ops::aead_enc_of;
use crate::crypto_ops::blake2b_hash;
use crate::crypto_ops::bp_construct_proof;
use crate::crypto_ops::bp_verifies;
use crate::crypto_ops::bp_verify_proof;
use crate::crypto_ops::commit_of;
use crate::crypto_ops::commit_scalars;
use crate::crypto_ops::hash64_of;
use crate::crypto_ops::identity_point_bytes;
use crate::crypto_ops::is_canonical_scalar;
use crate::crypto_ops::is_valid_point;
use crate::crypto_ops::pk_identity;
use crate::crypto_ops::pk_from_secret;
use crate::crypto_ops::point_mul;
use crate::crypto_ops::point_mul_of;
use crate::crypto_ops::pub_key_of;
use crate::crypto_ops::scalar_add;
use crate::crypto_ops::scalar_add_of;
use crate::crypto_ops::scalar_check;
use crate::crypto_ops::scalar_from_u64;
use crate::crypto_ops::scalar_from_wide;
use crate::crypto_ops::scalar_mul;
use crate::crypto_ops::scalar_mul_of;
use crate::crypto_ops::scalar_sub;
use crate::crypto_ops::scalar_sub_of;
use crate::crypto_ops::wide_scalar_of;
use crate::key_id::KeyId;
use crate::key_manager::lemma_secret_of_depends;
use crate::key_manager::managed_secret_of;
use crate::key_manager::KeyManagerCore;
use crate::key_manager::KeyManagerError;
use crate::amount::MicroTari;
use crate::signature::sig_add_spec;
use crate::signature::ComAndPubSignature;
use crate::signature::SigView;
use crate::signature::Signature;
use crate::types::bytes_eq;
use crate::types::Commitment;
use crate::types::PrivateKey;
use crate::types::PublicKey;
use crate::types::RangeProof;
use crate::types::SharedSecret;

verus! {

/// Domain tag for the first sub-nonce of a metadata signature.
pub const TAG_META_NONCE_A: u8 = 3;
/// Domain tag for the second sub-nonce of a metadata signature.
pub const TAG_META_NONCE_X: u8 = 4;
/// Domain tag for the value sub-nonce of a script signature.
pub const TAG_SCRIPT_NONCE_A: u8 = 5;
/// Domain tag for the spend-key sub-nonce of a script signature.
pub const TAG_SCRIPT_NONCE_X: u8 = 6;
/// Domain tag for the script-key sub-nonce of a script signature.
pub const TAG_SCRIPT_NONCE_Y: u8 = 7;
/// Domain tag for the private kernel offset.
pub const TAG_KERNEL_OFFSET: u8 = 8;
/// Domain tag for recovery-data encryption keys.
pub const TAG_AEAD_KEY: u8 = 9;
/// Domain tag for metadata-signature challenges.
pub const TAG_META_CHALLENGE: u8 = 10;
/// Domain tag for kernel-signature challenges.
pub const TAG_KERNEL_CHALLENGE: u8 = 11;
/// Domain tag for script-signature challenges.
pub const TAG_SCRIPT_CHALLENGE: u8 = 12;

/// A deterministic sub-nonce: the wide-reduced hash of a domain tag and
/// a secret.
pub open spec fn sub_nonce_of(tag: u8, secret: Seq<u8>) -> Seq<u8> {
    wide_scalar_of(hash64_of(seq![tag] + secret))
}

/// The all-zero AEAD nonce; every recovery-data key is used only once.
pub open spec fn zero_nonce12() -> Seq<u8> {
    Seq::new(12, |i: int| 0u8)
}

/// The challenge scalar of a metadata signature: a wide-reduced hash
/// binding the version, both ephemeral elements, the commitment, the
/// sender-offset public key and the 32-byte message.
pub open spec fn metadata_challenge_of(
    version: u8,
    eph_com: Seq<u8>,
    eph_pub: Seq<u8>,
    commitment: Seq<u8>,
    sender_offset_pk: Seq<u8>,
    msg: Seq<u8>,
) -> Seq<u8> {
    wide_scalar_of(
        hash64_of(
            seq![TAG_META_CHALLENGE, version] + eph_com + eph_pub + commitment + sender_offset_pk
                + msg,
        ),
    )
}

/// The challenge scalar of a kernel signature: a wide-reduced hash
/// binding the version, the aggregate nonce and excess, the kernel
/// feature bits and the 32-byte message.
pub open spec fn kernel_challenge_of(
    version: u8,
    total_nonce: Seq<u8>,
    total_excess: Seq<u8>,
    features_bits: u8,
    msg: Seq<u8>,
) -> Seq<u8> {
    wide_scalar_of(
        hash64_of(seq![TAG_KERNEL_CHALLENGE, version, features_bits] + total_nonce + total_excess + msg),
    )
}

/// The challenge scalar of a script signature: a wide-reduced hash
/// binding the version, both ephemeral elements, the input's commitment,
/// the script public key and the 32-byte message.
pub open spec fn script_challenge_of(
    version: u8,
    eph_com: Seq<u8>,
    eph_pub: Seq<u8>,
    commitment: Seq<u8>,
    script_pk: Seq<u8>,
    msg: Seq<u8>,
) -> Seq<u8> {
    wide_scalar_of(
        hash64_of(seq![TAG_SCRIPT_CHALLENGE, version] + eph_com + eph_pub + commitment + script_pk + msg),
    )
}

/// The value-side nonce of a metadata signature: zero when the value is
/// revealed, a derived sub-nonce otherwise.
pub open spec fn meta_nonce_a_of(nonce_secret: Seq<u8>, revealed: bool) -> Seq<u8> {
    if revealed {
        zero_scalar_bytes()
    } else {
        sub_nonce_of(TAG_META_NONCE_A, nonce_secret)
    }
}

/// The ephemeral commitment of a metadata signature:
/// `r_a · H + r_x · G` for the two sub-nonces of the nonce secret.
pub open spec fn ephemeral_commitment_of(nonce_secret: Seq<u8>, revealed: bool) -> Seq<u8> {
    commit_of(sub_nonce_of(TAG_META_NONCE_X, nonce_secret), meta_nonce_a_of(nonce_secret, revealed))
}

/// The receiver's half of a metadata signature: it proves knowledge of
/// the spend key and value behind the commitment; its public-key slot
/// is the identity and its `u_y` response is zero.
pub open spec fn receiver_metadata_sig_of(
    spend_secret: Seq<u8>,
    value_scalar: Seq<u8>,
    nonce_secret: Seq<u8>,
    sender_offset_pk: Seq<u8>,
    eph_pub: Seq<u8>,
    version: u8,
    msg: Seq<u8>,
    revealed: bool,
) -> SigView {
    let r_a = meta_nonce_a_of(nonce_secret, revealed);
    let r_x = sub_nonce_of(TAG_META_NONCE_X, nonce_secret);
    let commitment = commit_of(spend_secret, value_scalar);
    let eph_com = commit_of(r_x, r_a);
    let e = metadata_challenge_of(version, eph_com, eph_pub, commitment, sender_offset_pk, msg);
    SigView {
        ephemeral_commitment: eph_com,
        ephemeral_pubkey: identity_point_bytes(),
        u_a: scalar_add_of(r_a, scalar_mul_of(e, value_scalar)),
        u_x: scalar_add_of(r_x, scalar_mul_of(e, spend_secret)),
        u_y: zero_scalar_bytes(),
    }
}

/// The sender's half of a metadata signature: it proves knowledge of
/// the sender-offset key; its commitment slot is the identity and its
/// `u_a`, `u_x` responses are zero.
pub open spec fn sender_metadata_sig_of(
    nonce_secret: Seq<u8>,
    offset_secret: Seq<u8>,
    commitment: Seq<u8>,
    eph_com: Seq<u8>,
    version: u8,
    msg: Seq<u8>,
) -> SigView {
    let eph_pub = pub_key_of(nonce_secret);
    let e = metadata_challenge_of(
        version,
        eph_com,
        eph_pub,
        commitment,
        pub_key_of(offset_secret),
        msg,
    );
    SigView {
        ephemeral_commitment: identity_point_bytes(),
        ephemeral_pubkey: eph_pub,
        u_a: zero_scalar_bytes(),
        u_x: zero_scalar_bytes(),
        u_y: scalar_add_of(nonce_secret, scalar_mul_of(e, offset_secret)),
    }
}

/// The full metadata signature a single party holding both keys
/// produces, written with each component in simplified form.
pub open spec fn metadata_sig_of(
    spend_secret: Seq<u8>,
    value_scalar: Seq<u8>,
    com_nonce_secret: Seq<u8>,
    pub_nonce_secret: Seq<u8>,
    offset_secret: Seq<u8>,
    version: u8,
    msg: Seq<u8>,
    revealed: bool,
) -> SigView {
    let r_a = meta_nonce_a_of(com_nonce_secret, revealed);
    let r_x = sub_nonce_of(TAG_META_NONCE_X, com_nonce_secret);
    let commitment = commit_of(spend_secret, value_scalar);
    let eph_com = commit_of(r_x, r_a);
    let eph_pub = pub_key_of(pub_nonce_secret);
    let e = metadata_challenge_of(
        version,
        eph_com,
        eph_pub,
        commitment,
        pub_key_of(offset_secret),
        msg,
    );
    SigView {
        ephemeral_commitment: eph_com,
        ephemeral_pubkey: eph_pub,
        u_a: scalar_add_of(r_a, scalar_mul_of(e, value_scalar)),
        u_x: scalar_add_of(r_x, scalar_mul_of(e, spend_secret)),
        u_y: scalar_add_of(pub_nonce_secret, scalar_mul_of(e, offset_secret)),
    }
}

/// The script signature over an input: a dual signature by the spend
/// key and value (commitment side) and the script key (public-key
/// side), with deterministic message-bound sub-nonces.
pub open spec fn script_sig_of(
    script_secret: Seq<u8>,
    spend_secret: Seq<u8>,
    value_scalar: Seq<u8>,
    version: u8,
    msg: Seq<u8>,
) -> SigView {
    let r_a = sub_nonce_of(TAG_SCRIPT_NONCE_A, spend_secret + msg);
    let r_x = sub_nonce_of(TAG_SCRIPT_NONCE_X, spend_secret + msg);
    let r_y = sub_nonce_of(TAG_SCRIPT_NONCE_Y, script_secret + msg);
    let commitment = commit_of(spend_secret, value_scalar);
    let eph_com = commit_of(r_x, r_a);
    let eph_pub = pub_key_of(r_y);
    let e = script_challenge_of(
        version,
        eph_com,
        eph_pub,
        commitment,
        pub_key_of(script_secret),
        msg,
    );
    SigView {
        ephemeral_commitment: eph_com,
        ephemeral_pubkey: eph_pub,
        u_a: scalar_add_of(r_a, scalar_mul_of(e, value_scalar)),
        u_x: scalar_add_of(r_x, scalar_mul_of(e, spend_secret)),
        u_y: scalar_add_of(r_y, scalar_mul_of(e, script_secret)),
    }
}

/// This party's private contribution to the transaction-wide kernel
/// offset, derived from its spend and nonce secrets.
pub open spec fn kernel_offset_of(spend_secret: Seq<u8>, nonce_secret: Seq<u8>) -> Seq<u8> {
    wide_scalar_of(hash64_of(seq![TAG_KERNEL_OFFSET] + spend_secret + nonce_secret))
}

/// This party's partial kernel signature response: `r + e · k` for an
/// output, `r − e · k` for an input being spent.
pub open spec fn kernel_response_of(
    spend_secret: Seq<u8>,
    nonce_secret: Seq<u8>,
    e: Seq<u8>,
    txo_type: TxoType,
) -> Seq<u8> {
    match txo_type {
        TxoType::Output => scalar_add_of(nonce_secret, scalar_mul_of(e, spend_secret)),
        TxoType::Input => scalar_sub_of(nonce_secret, scalar_mul_of(e, spend_secret)),
    }
}

/// The AEAD key that seals recovery data: a truncated hash of the
/// Diffie-Hellman shared point between the recovery secret and the
/// commitment the data is bound to, so only a holder of the recovery
/// key can re-derive it.
pub open spec fn recovery_key_of(recovery_secret: Seq<u8>, commitment: Seq<u8>) -> Seq<u8> {
    hash64_of(seq![TAG_AEAD_KEY] + point_mul_of(recovery_secret, commitment) + commitment)
        .subrange(0, 32)
}

/// The sealed recovery payload: the value's eight little-endian bytes
/// followed by the 32-byte commitment mask.
pub open spec fn recovery_payload_of(value: u64, mask: Seq<u8>) -> Seq<u8> {
    spec_u64_le(value) + mask
}

/// The ciphertext of an output's recovery data.
pub open spec fn encrypted_data_of(recovery_secret: Seq<u8>, mask: Seq<u8>, value: u64) -> Seq<
    u8,
> {
    aead_enc_of(
        recovery_key_of(recovery_secret, commit_of(mask, spec_u64_le_32(value))),
        zero_nonce12(),
        commit_of(mask, spec_u64_le_32(value)),
        recovery_payload_of(value, mask),
    )
}

/// What recovering from a ciphertext yields: the value and mask exactly
/// when authenticated decryption succeeds, the payload is well-formed,
/// the mask is a canonical scalar, and the re-derived commitment equals
/// the one the data claims to open.  Anything else yields nothing — a
/// wrong key or tampered data never yields a wrong value silently.
pub open spec fn recovery_of(
    recovery_secret: Seq<u8>,
    commitment: Seq<u8>,
    data: Seq<u8>,
) -> Option<(u64, Seq<u8>)> {
    match aead_dec_of(
        recovery_key_of(recovery_secret, commitment),
        zero_nonce12(),
        commitment,
        data,
    ) {
        Some(pt) => {
            if pt.len() == 40 {
                let value = spec_le_u64(pt.subrange(0, 8));
                let mask = pt.subrange(8, 40);
                if is_canonical_scalar(mask) && commit_of(mask, spec_u64_le_32(value))
                    == commitment {
                    Some((value, mask))
                } else {
                    None
                }
            } else {
                None
            }
        },
        None => None,
    }
}

/// Encrypting and then recovering with the same recovery secret gives
/// back exactly the value and mask that were sealed.
pub proof fn lemma_recovery_round_trip(
    recovery_secret: Seq<u8>,
    mask: Seq<u8>,
    value: u64,
    data: Seq<u8>,
)
    requires
        mask.len() == 32,
        is_canonical_scalar(mask),
        data == encrypted_data_of(recovery_secret, mask, value),
        aead_dec_of(
            recovery_key_of(recovery_secret, commit_of(mask, spec_u64_le_32(value))),
            zero_nonce12(),
            commit_of(mask, spec_u64_le_32(value)),
            data,
        ) == Some(recovery_payload_of(value, mask)),
    ensures
        recovery_of(recovery_secret, commit_of(mask, spec_u64_le_32(value)), data) == Some(
            (value, mask),
        ),
{
    let pt = recovery_payload_of(value, mask);
    assert(pt.len() == 40);
    assert(pt.subrange(0, 8) =~= spec_u64_le(value));
    assert(pt.subrange(8, 40) =~= mask);
    lemma_u64_le_round_trip(value);
}

/// The key id as a spec value behind an optional borrowed id.
pub open spec fn spec_opt_key_id(o: Option<&KeyId>) -> Option<KeyId> {
    match o {
        Some(id) => Some(*id),
        None => None,
    }
}

/// Build a deterministic sub-nonce from a domain tag and secret bytes.
fn sub_nonce(tag: u8, secret: &Vec<u8>) -> (r: Vec<u8>)
    ensures
        r@ == sub_nonce_of(tag, secret@),
        r@.len() == 32,
        is_canonical_scalar(r@),
{
    let mut pre: Vec<u8> = Vec::new();
    pre.push(tag);
    push_bytes(&mut pre, secret.as_slice());
    proof {
        assert(pre@ =~= seq![tag] + secret@);
    }
    let h = blake2b_hash(&pre);
    scalar_from_wide(&h)
}

/// The concatenation of two byte vectors.
fn concat_bytes(a: &Vec<u8>, b: &Vec<u8>) -> (r: Vec<u8>)
    ensures
        r@ == a@ + b@,
{
    let mut out: Vec<u8> = Vec::new();
    push_bytes(&mut out, a.as_slice());
    push_bytes(&mut out, b.as_slice());
    proof {
        assert(out@ =~= a@ + b@);
    }
    out
}

/// The all-zero AEAD nonce.
fn zero_nonce() -> (r: Vec<u8>)
    ensures
        r@ == zero_nonce12(),
{
    let mut out: Vec<u8> = Vec::new();
    let mut i: usize = 0;
    while i < 12
        invariant
            i <= 12,
            out@ =~= Seq::new(i as nat, |j: int| 0u8),
        decreases 12 - i,
    {
        out.push(0u8);
        i = i + 1;
        proof {
            assert(out@ =~= Seq::new(i as nat, |j: int| 0u8));
        }
    }
    proof {
        assert(out@ =~= zero_nonce12());
    }
    out
}

/// The canonical zero scalar.
fn zero_scalar() -> (r: Vec<u8>)
    ensures
        r@ == zero_scalar_bytes(),
        is_canonical_scalar(r@),
        r@.len() == 32,
{
    scalar_from_u64(0)
}

/// A challenge scalar from a two-byte header and five byte-string
/// parts.
fn challenge2_5(
    tag: u8,
    version: u8,
    p1: &Vec<u8>,
    p2: &Vec<u8>,
    p3: &Vec<u8>,
    p4: &Vec<u8>,
    p5: &Vec<u8>,
) -> (r: Vec<u8>)
    ensures
        r@ == wide_scalar_of(hash64_of(seq![tag, version] + p1@ + p2@ + p3@ + p4@ + p5@)),
        r@.len() == 32,
        is_canonical_scalar(r@),
{
    let mut pre: Vec<u8> = Vec::new();
    pre.push(tag);
    pre.push(version);
    push_bytes(&mut pre, p1.as_slice());
    push_bytes(&mut pre, p2.as_slice());
    push_bytes(&mut pre, p3.as_slice());
    push_bytes(&mut pre, p4.as_slice());
    push_bytes(&mut pre, p5.as_slice());
    proof {
        assert(pre@ =~= seq![tag, version] + p1@ + p2@ + p3@ + p4@ + p5@);
    }
    let h = blake2b_hash(&pre);
    scalar_from_wide(&h)
}

/// The response scalar `nonce + e · key`.
fn respond(nonce: &Vec<u8>, e: &Vec<u8>, key: &Vec<u8>) -> (r: Vec<u8>)
    requires
        is_canonical_scalar(nonce@),
        is_canonical_scalar(e@),
        is_canonical_scalar(key@),
    ensures
        r@ == scalar_add_of(nonce@, scalar_mul_of(e@, key@)),
        r@.len() == 32,
        is_canonical_scalar(r@),
{
    let m = scalar_mul(e, key);
    scalar_add(nonce, &m)
}

impl KeyManagerCore {
    /// The Pedersen commitment `value · H + k · G` where `k` is the
    /// secret behind the key id.
    pub fn get_commitment(&self, spend_key_id: &KeyId, value: &PrivateKey) -> (r: Result<
        Commitment,
        TransactionError,
    >)
        requires
            self.wf(),
            value.wf(),
        ensures
            r is Ok <==> self.spec_secret_of(*spend_key_id) is Some,
            r matches Ok(c) ==> c.wf() && c.bytes@ == commit_of(
                self.spec_secret_of(*spend_key_id).unwrap(),
                value.bytes@,
            ),
            r matches Err(e) ==> (e matches TransactionError::KeyManager(_)),
    {
        let secret = match self.secret_of_key_id(spend_key_id) {
            Ok(s) => s,
            Err(e) => {
                return Err(TransactionError::KeyManager(e));
            },
        };
        Ok(Commitment { bytes: commit_scalars(&secret, &value.bytes) })
    }

    /// Whether the commitment equals the commitment produced from the
    /// key id and value: true exactly when it does, without revealing
    /// the key.
    pub fn verify_mask(&self, commitment: &Commitment, spend_key_id: &KeyId, value: u64) -> (r:
        Result<bool, TransactionError>)
        requires
            self.wf(),
        ensures
            r is Ok <==> self.spec_secret_of(*spend_key_id) is Some,
            r matches Ok(b) ==> (b <==> commitment.bytes@ == commit_of(
                self.spec_secret_of(*spend_key_id).unwrap(),
                spec_u64_le_32(value),
            )),
    {
        let secret = match self.secret_of_key_id(spend_key_id) {
            Ok(s) => s,
            Err(e) => {
                return Err(TransactionError::KeyManager(e));
            },
        };
        let value_scalar = scalar_from_u64(value);
        let expected = commit_scalars(&secret, &value_scalar);
        Ok(bytes_eq(&expected, &commitment.bytes))
    }

    /// The Diffie-Hellman shared secret `k · P` between the secret
    /// behind the key id and the given public key.
    pub fn get_diffie_hellman_shared_secret(&self, secret_key_id: &KeyId, public_key: &PublicKey)
        -> (r: Result<SharedSecret, TransactionError>)
        requires
            self.wf(),
            public_key.wf(),
        ensures
            r is Ok <==> self.spec_secret_of(*secret_key_id) is Some,
            r matches Ok(s) ==> s.bytes@ == point_mul_of(
                self.spec_secret_of(*secret_key_id).unwrap(),
                public_key.bytes@,
            ),
    {
        let secret = match self.secret_of_key_id(secret_key_id) {
            Ok(s) => s,
            Err(e) => {
                return Err(TransactionError::KeyManager(e));
            },
        };
        Ok(SharedSecret { bytes: point_mul(&secret, &public_key.bytes) })
    }

    /// Reverse lookup of a key id from a known public spending key:
    /// first over the issued commitment-mask indices, then over the
    /// imported keys.
    pub fn get_spending_key_id(&self, public_spending_key: &PublicKey) -> (r: Result<
        KeyId,
        TransactionError,
    >)
        requires
            self.wf(),
            public_spending_key.wf(),
        ensures
            r matches Ok(id) ==> id.wf() && self.spec_secret_of(id) is Some && pub_key_of(
                self.spec_secret_of(id).unwrap(),
            ) == public_spending_key.bytes@,
            r is Ok <==> ((self.branch_index(
                CoreKeyManagerBranch::CommitmentMask.spec_branch_key(),
            ) matches Some(c) && exists|i: u64|
                i <= c && pub_key_of(
                    #[trigger] managed_secret_of(
                        self.seed_view(),
                        CoreKeyManagerBranch::CommitmentMask.spec_branch_key(),
                        i,
                    ),
                ) == public_spending_key.bytes@) || self.spec_imported_secret(
                public_spending_key.bytes@,
            ) is Some),
            r is Err ==> r == Err::<KeyId, TransactionError>(
                TransactionError::KeyManager(KeyManagerError::KeyNotFound),
            ),
    {
        let branch: String = CoreKeyManagerBranch::CommitmentMask.get_branch_key();
        match self.find_key_index(branch.as_str(), public_spending_key) {
            Ok(index) => {
                return Ok(KeyId::Managed { branch, index });
            },
            Err(_) => (),
        }
        let imported = KeyId::Imported { key: public_spending_key.clone_key() };
        match self.secret_of_key_id(&imported) {
            Ok(_) => Ok(imported),
            Err(_) => Err(TransactionError::KeyManager(KeyManagerError::KeyNotFound)),
        }
    }

    /// A zero-knowledge range proof that the committed value is at
    /// least `min_value` and fits the supported bit width, bound to the
    /// same commitment as `get_commitment`.  The proof bytes are
    /// randomized by the prover, but every constructed proof verifies
    /// against that commitment.
    pub fn construct_range_proof(&self, spend_key_id: &KeyId, value: u64, min_value: u64) -> (r:
        Result<RangeProof, TransactionError>)
        requires
            self.wf(),
        ensures
            min_value > value ==> r == Err::<RangeProof, TransactionError>(
                TransactionError::ValueOutsideRange,
            ),
            r is Ok ==> min_value <= value && self.spec_secret_of(*spend_key_id) is Some,
            r matches Ok(p) ==> bp_verifies(
                p.bytes@,
                commit_of(self.spec_secret_of(*spend_key_id).unwrap(), spec_u64_le_32(value)),
            ),
            self.spec_secret_of(*spend_key_id) is None && min_value <= value ==> (r matches Err(e)
                && e matches TransactionError::KeyManager(_)),
    {
        if min_value > value {
            return Err(TransactionError::ValueOutsideRange);
        }
        let secret = match self.secret_of_key_id(spend_key_id) {
            Ok(s) => s,
            Err(e) => {
                return Err(TransactionError::KeyManager(e));
            },
        };
        match bp_construct_proof(&secret, value) {
            Some(bytes) => Ok(RangeProof { bytes }),
            None => Err(TransactionError::RangeProofConstructionFailure),
        }
    }

    /// Whether a serialized range proof opens the given commitment to a
    /// value in the supported range.
    pub fn verify_range_proof(&self, proof: &RangeProof, commitment: &Commitment) -> (r: bool)
        requires
            commitment.wf(),
        ensures
            r == bp_verifies(proof.bytes@, commitment.bytes@),
    {
        bp_verify_proof(&proof.bytes, &commitment.bytes)
    }
}

/// Build the AEAD key sealing recovery data to a recovery secret and a
/// commitment: hash the shared point of the two with the commitment.
fn recovery_aead_key(recovery_secret: &Vec<u8>, commitment: &Vec<u8>) -> (r: Vec<u8>)
    requires
        is_canonical_scalar(recovery_secret@),
        is_valid_point(commitment@),
    ensures
        r@ == recovery_key_of(recovery_secret@, commitment@),
        r@.len() == 32,
{
    let shared = point_mul(recovery_secret, commitment);
    let mut pre: Vec<u8> = Vec::new();
    pre.push(TAG_AEAD_KEY);
    push_bytes(&mut pre, shared.as_slice());
    push_bytes(&mut pre, commitment.as_slice());
    proof {
        assert(pre@ =~= seq![TAG_AEAD_KEY] + point_mul_of(recovery_secret@, commitment@)
            + commitment@);
    }
    let h = blake2b_hash(&pre);
    sub_bytes(&h, 0, 32)
}

/// A kernel-signature challenge from a three-byte header and three
/// byte-string parts.
fn challenge3_3(tag: u8, version: u8, bits: u8, p1: &Vec<u8>, p2: &Vec<u8>, p3: &Vec<u8>) -> (r:
    Vec<u8>)
    ensures
        r@ == wide_scalar_of(hash64_of(seq![tag, version, bits] + p1@ + p2@ + p3@)),
        r@.len() == 32,
        is_canonical_scalar(r@),
{
    let mut pre: Vec<u8> = Vec::new();
    pre.push(tag);
    pre.push(version);
    pre.push(bits);
    push_bytes(&mut pre, p1.as_slice());
    push_bytes(&mut pre, p2.as_slice());
    push_bytes(&mut pre, p3.as_slice());
    proof {
        assert(pre@ =~= seq![tag, version, bits] + p1@ + p2@ + p3@);
    }
    let h = blake2b_hash(&pre);
    scalar_from_wide(&h)
}

/// The running sum of the secrets behind a sequence of key ids, or
/// nothing if any id does not resolve.
pub open spec fn spec_sum_secrets(km: KeyManagerCore, ids: Seq<KeyId>, acc: Seq<u8>) -> Option<
    Seq<u8>,
>
    decreases ids.len(),
{
    if ids.len() == 0 {
        Some(acc)
    } else {
        match km.spec_secret_of(ids[0]) {
            None => None,
            Some(s) => spec_sum_secrets(km, ids.drop_first(), scalar_add_of(acc, s)),
        }
    }
}

impl KeyManagerCore {
    /// The recovery secret: the secret behind the caller-supplied
    /// recovery key id, or the static data-encryption branch key.
    pub open spec fn spec_recovery_secret(self, custom: Option<KeyId>) -> Option<Seq<u8>> {
        match custom {
            Some(id) => self.spec_secret_of(id),
            None => if self.has_branch(CoreKeyManagerBranch::DataEncryption.spec_branch_key()) {
                Some(
                    managed_secret_of(
                        self.seed_view(),
                        CoreKeyManagerBranch::DataEncryption.spec_branch_key(),
                        0,
                    ),
                )
            } else {
                None
            },
        }
    }

    /// Resolve the recovery secret for an optional custom recovery key.
    fn resolve_recovery_secret(&self, custom: Option<&KeyId>) -> (r: Result<
        Vec<u8>,
        KeyManagerError,
    >)
        requires
            self.wf(),
        ensures
            r is Ok <==> self.spec_recovery_secret(spec_opt_key_id(custom)) is Some,
            r matches Ok(s) ==> s@ == self.spec_recovery_secret(spec_opt_key_id(custom)).unwrap()
                && s@.len() == 32 && is_canonical_scalar(s@),
    {
        match custom {
            Some(id) => self.secret_of_key_id(id),
            None => {
                let id = match self.get_recovery_key_id() {
                    Ok(id) => id,
                    Err(e) => {
                        return Err(e);
                    },
                };
                self.secret_of_key_id(&id)
            },
        }
    }

    /// Seal the value and commitment mask behind an output for later
    /// recovery: derive a symmetric key from the recovery secret and
    /// the output's commitment, and authenticated-encrypt the value and
    /// mask bound to that commitment.  Recovering the result with the
    /// same recovery secret returns exactly the value and the mask.
    pub fn encrypt_data_for_recovery(
        &self,
        spend_key_id: &KeyId,
        custom_recovery_key_id: Option<&KeyId>,
        value: u64,
    ) -> (r: Result<EncryptedData, TransactionError>)
        requires
            self.wf(),
        ensures
            r is Ok <==> (self.spec_secret_of(*spend_key_id) is Some && self.spec_recovery_secret(
                spec_opt_key_id(custom_recovery_key_id),
            ) is Some),
            r matches Ok(d) ==> {
                &&& d.bytes@ == encrypted_data_of(
                    self.spec_recovery_secret(spec_opt_key_id(custom_recovery_key_id)).unwrap(),
                    self.spec_secret_of(*spend_key_id).unwrap(),
                    value,
                )
                &&& recovery_of(
                    self.spec_recovery_secret(spec_opt_key_id(custom_recovery_key_id)).unwrap(),
                    commit_of(
                        self.spec_secret_of(*spend_key_id).unwrap(),
                        spec_u64_le_32(value),
                    ),
                    d.bytes@,
                ) == Some((value, self.spec_secret_of(*spend_key_id).unwrap()))
                &&& d.bytes@.len() == 56
            },
            r matches Err(e) ==> (e matches TransactionError::KeyManager(_)),
    {
        let mask = match self.secret_of_key_id(spend_key_id) {
            Ok(s) => s,
            Err(e) => {
                return Err(TransactionError::KeyManager(e));
            },
        };
        let recovery_secret = match self.resolve_recovery_secret(custom_recovery_key_id) {
            Ok(s) => s,
            Err(e) => {
                return Err(TransactionError::KeyManager(e));
            },
        };
        let value_scalar = scalar_from_u64(value);
        let commitment = commit_scalars(&mask, &value_scalar);
        let key = recovery_aead_key(&recovery_secret, &commitment);
        let nonce = zero_nonce();
        let mut payload: Vec<u8> = Vec::new();
        push_u64_le(&mut payload, value);
        push_bytes(&mut payload, mask.as_slice());
        proof {
            assert(payload@ =~= recovery_payload_of(value, mask@));
        }
        let ct = aead_encrypt(&key, &nonce, &commitment, &payload);
        proof {
            lemma_recovery_round_trip(recovery_secret@, mask@, value, ct@);
        }
        Ok(EncryptedData { bytes: ct })
    }

    /// Recover the value and key id behind a commitment from its sealed
    /// recovery data: decrypt, re-derive the commitment from the
    /// recovered value and mask, and fail on any mismatch.  Success
    /// returns the key id whose secret is the recovered mask and the
    /// recovered value; a wrong key or tampered data fails and never
    /// yields a wrong value.
    pub fn try_commitment_key_recovery(
        &self,
        commitment: &Commitment,
        data: &EncryptedData,
        custom_recovery_key_id: Option<&KeyId>,
    ) -> (r: Result<(KeyId, MicroTari), TransactionError>)
        requires
            self.wf(),
            commitment.wf(),
        ensures
            self.spec_recovery_secret(spec_opt_key_id(custom_recovery_key_id)) is None ==> (r
                matches Err(e) && e matches TransactionError::KeyManager(_)),
            self.spec_recovery_secret(spec_opt_key_id(custom_recovery_key_id)) matches Some(rs)
                ==> {
                &&& recovery_of(rs, commitment.bytes@, data.bytes@) is None ==> r == Err::<
                    (KeyId, MicroTari),
                    TransactionError,
                >(TransactionError::CryptoVerificationFailure)
                &&& recovery_of(rs, commitment.bytes@, data.bytes@) matches Some(pair) ==> {
                    &&& r matches Ok(res) ==> res.0.wf() && self.spec_secret_of(res.0) == Some(
                        pair.1,
                    ) && res.1 == MicroTari(pair.0)
                    &&& (self.branch_index(
                        CoreKeyManagerBranch::CommitmentMask.spec_branch_key(),
                    ) matches Some(c) && exists|i: u64|
                        i <= c && #[trigger] managed_secret_of(
                            self.seed_view(),
                            CoreKeyManagerBranch::CommitmentMask.spec_branch_key(),
                            i,
                        ) == pair.1) ==> r is Ok
                    &&& r is Err ==> r == Err::<(KeyId, MicroTari), TransactionError>(
                        TransactionError::KeyManager(KeyManagerError::KeyNotFound),
                    )
                }
            },
    {
        let recovery_secret = match self.resolve_recovery_secret(custom_recovery_key_id) {
            Ok(s) => s,
            Err(e) => {
                return Err(TransactionError::KeyManager(e));
            },
        };
        let key = recovery_aead_key(&recovery_secret, &commitment.bytes);
        let nonce = zero_nonce();
        let pt = match aead_decrypt(&key, &nonce, &commitment.bytes, &data.bytes) {
            Some(p) => p,
            None => {
                return Err(TransactionError::CryptoVerificationFailure);
            },
        };
        if pt.len() != 40 {
            return Err(TransactionError::CryptoVerificationFailure);
        }
        let value: u64 = read_u64_le(&pt, 0);
        let mask = sub_bytes(&pt, 8, 40);
        if !scalar_check(&mask) {
            return Err(TransactionError::CryptoVerificationFailure);
        }
        let value_scalar = scalar_from_u64(value);
        let check = commit_scalars(&mask, &value_scalar);
        if !bytes_eq(&check, &commitment.bytes) {
            return Err(TransactionError::CryptoVerificationFailure);
        }
        proof {
            assert(recovery_of(recovery_secret@, commitment.bytes@, data.bytes@) == Some(
                (value, mask@),
            ));
        }
        let branch: String = CoreKeyManagerBranch::CommitmentMask.get_branch_key();
        match self.current_index(branch.as_str()) {
            Err(_) => (),
            Ok(cur) => {
                let mut i: u64 = 0;
                loop
                    invariant
                        i <= cur,
                        self.wf(),
                        commitment.wf(),
                        self.branch_index(branch@) == Some(cur),
                        branch@ == CoreKeyManagerBranch::CommitmentMask.spec_branch_key(),
                        mask@.len() == 32,
                        is_canonical_scalar(mask@),
                        self.spec_recovery_secret(spec_opt_key_id(custom_recovery_key_id)) == Some(
                            recovery_secret@,
                        ),
                        recovery_of(recovery_secret@, commitment.bytes@, data.bytes@) == Some(
                            (value, mask@),
                        ),
                        forall|j: u64|
                            j < i ==> #[trigger] managed_secret_of(self.seed_view(), branch@, j)
                                != mask@,
                    ensures
                        forall|j: u64|
                            j <= cur ==> #[trigger] managed_secret_of(self.seed_view(), branch@, j)
                                != mask@,
                    decreases cur - i,
                {
                    let k = match self.get_key_at_index(branch.as_str(), i) {
                        Ok(k) => k,
                        Err(_) => {
                            // Unreachable: the branch is registered, so
                            // derivation cannot fail.
                            proof {
                                assert(false);
                            }
                            return Err(TransactionError::CryptoVerificationFailure);
                        },
                    };
                    if bytes_eq(k.as_bytes(), &mask) {
                        return Ok((KeyId::Managed { branch, index: i }, MicroTari(value)));
                    }
                    if i == cur {
                        proof {
                            assert(forall|j: u64|
                                j <= cur ==> #[trigger] managed_secret_of(
                                    self.seed_view(),
                                    branch@,
                                    j,
                                ) != mask@);
                        }
                        break;
                    }
                    i = i + 1;
                }
            },
        }
        let pk = pk_from_secret(&mask);
        let id = KeyId::Imported { key: PublicKey { bytes: pk } };
        match self.secret_of_key_id(&id) {
            Ok(s) => {
                if bytes_eq(&s, &mask) {
                    Ok((id, MicroTari(value)))
                } else {
                    Err(TransactionError::KeyManager(KeyManagerError::KeyNotFound))
                }
            },
            Err(_) => Err(TransactionError::KeyManager(KeyManagerError::KeyNotFound)),
        }
    }
}

impl KeyManagerCore {
    /// The dual signature authorizing the spend of an input under its
    /// script: it proves joint knowledge of the spend key (with the
    /// committed value) and the script key over the 32-byte message.
    pub fn get_script_signature(
        &self,
        script_key_id: &KeyId,
        spend_key_id: &KeyId,
        value: &PrivateKey,
        txi_version: &TransactionInputVersion,
        script_message: &Vec<u8>,
    ) -> (r: Result<ComAndPubSignature, TransactionError>)
        requires
            self.wf(),
            value.wf(),
            script_message@.len() == 32,
        ensures
            r is Ok <==> (self.spec_secret_of(*script_key_id) is Some && self.spec_secret_of(
                *spend_key_id,
            ) is Some),
            r matches Ok(s) ==> s.wf() && s@ == script_sig_of(
                self.spec_secret_of(*script_key_id).unwrap(),
                self.spec_secret_of(*spend_key_id).unwrap(),
                value.bytes@,
                txi_version.spec_as_u8(),
                script_message@,
            ),
            r matches Err(e) ==> (e matches TransactionError::KeyManager(_)),
    {
        let script_secret = match self.secret_of_key_id(script_key_id) {
            Ok(s) => s,
            Err(e) => {
                return Err(TransactionError::KeyManager(e));
            },
        };
        let spend_secret = match self.secret_of_key_id(spend_key_id) {
            Ok(s) => s,
            Err(e) => {
                return Err(TransactionError::KeyManager(e));
            },
        };
        let spend_msg = concat_bytes(&spend_secret, script_message);
        let script_msg = concat_bytes(&script_secret, script_message);
        let r_a = sub_nonce(TAG_SCRIPT_NONCE_A, &spend_msg);
        let r_x = sub_nonce(TAG_SCRIPT_NONCE_X, &spend_msg);
        let r_y = sub_nonce(TAG_SCRIPT_NONCE_Y, &script_msg);
        let commitment = commit_scalars(&spend_secret, &value.bytes);
        let eph_com = commit_scalars(&r_x, &r_a);
        let eph_pub = pk_from_secret(&r_y);
        let script_pk = pk_from_secret(&script_secret);
        let e = challenge2_5(
            TAG_SCRIPT_CHALLENGE,
            txi_version.as_u8(),
            &eph_com,
            &eph_pub,
            &commitment,
            &script_pk,
            script_message,
        );
        let u_a = respond(&r_a, &e, &value.bytes);
        let u_x = respond(&r_x, &e, &spend_secret);
        let u_y = respond(&r_y, &e, &script_secret);
        Ok(
            ComAndPubSignature {
                ephemeral_commitment: eph_com,
                ephemeral_pubkey: eph_pub,
                u_a,
                u_x,
                u_y,
            },
        )
    }

    /// This party's partial kernel signature: the response
    /// `r + e · k` (or `r − e · k` when spending an input) over the
    /// challenge built from the aggregate nonce and excess, so that the
    /// parties' partial signatures sum into a valid aggregate.
    pub fn get_partial_kernel_signature(
        &self,
        spend_key_id: &KeyId,
        nonce_id: &KeyId,
        total_nonce: &PublicKey,
        total_excess: &PublicKey,
        kernel_version: &TransactionKernelVersion,
        kernel_message: &Vec<u8>,
        kernel_features: &KernelFeatures,
        txo_type: TxoType,
    ) -> (r: Result<Signature, TransactionError>)
        requires
            self.wf(),
            kernel_message@.len() == 32,
        ensures
            r is Ok <==> (self.spec_secret_of(*spend_key_id) is Some && self.spec_secret_of(
                *nonce_id,
            ) is Some),
            r matches Ok(s) ==> s.wf() && s.public_nonce@ == pub_key_of(
                self.spec_secret_of(*nonce_id).unwrap(),
            ) && s.signature@ == kernel_response_of(
                self.spec_secret_of(*spend_key_id).unwrap(),
                self.spec_secret_of(*nonce_id).unwrap(),
                kernel_challenge_of(
                    kernel_version.spec_as_u8(),
                    total_nonce.bytes@,
                    total_excess.bytes@,
                    kernel_features.bits,
                    kernel_message@,
                ),
                txo_type,
            ),
            r matches Err(e) ==> (e matches TransactionError::KeyManager(_)),
    {
        let spend_secret = match self.secret_of_key_id(spend_key_id) {
            Ok(s) => s,
            Err(e) => {
                return Err(TransactionError::KeyManager(e));
            },
        };
        let nonce_secret = match self.secret_of_key_id(nonce_id) {
            Ok(s) => s,
            Err(e) => {
                return Err(TransactionError::KeyManager(e));
            },
        };
        let e = challenge3_3(
            TAG_KERNEL_CHALLENGE,
            kernel_version.as_u8(),
            kernel_features.bits,
            &total_nonce.bytes,
            &total_excess.bytes,
            kernel_message,
        );
        let u = match txo_type {
            TxoType::Output => respond(&nonce_secret, &e, &spend_secret),
            TxoType::Input => {
                let m = scalar_mul(&e, &spend_secret);
                scalar_sub(&nonce_secret, &m)
            },
        };
        Ok(Signature { public_nonce: pk_from_secret(&nonce_secret), signature: u })
    }

    /// The public excess this party contributes to the kernel, with its
    /// private offset already subtracted.
    pub fn get_partial_kernel_signature_excess(&self, spend_key_id: &KeyId, nonce_id: &KeyId)
        -> (r: Result<PublicKey, TransactionError>)
        requires
            self.wf(),
        ensures
            r is Ok <==> (self.spec_secret_of(*spend_key_id) is Some && self.spec_secret_of(
                *nonce_id,
            ) is Some),
            r matches Ok(p) ==> p.wf() && p.bytes@ == pub_key_of(
                scalar_sub_of(
                    self.spec_secret_of(*spend_key_id).unwrap(),
                    kernel_offset_of(
                        self.spec_secret_of(*spend_key_id).unwrap(),
                        self.spec_secret_of(*nonce_id).unwrap(),
                    ),
                ),
            ),
            r matches Err(e) ==> (e matches TransactionError::KeyManager(_)),
    {
        let spend_secret = match self.secret_of_key_id(spend_key_id) {
            Ok(s) => s,
            Err(e) => {
                return Err(TransactionError::KeyManager(e));
            },
        };
        let nonce_secret = match self.secret_of_key_id(nonce_id) {
            Ok(s) => s,
            Err(e) => {
                return Err(TransactionError::KeyManager(e));
            },
        };
        let offset = self.kernel_offset(&spend_secret, &nonce_secret);
        let adjusted = scalar_sub(&spend_secret, &offset);
        Ok(PublicKey { bytes: pk_from_secret(&adjusted) })
    }

    /// This party's private contribution to the transaction-wide kernel
    /// offset.  The offset itself is key-manager-internal data derived
    /// from the spend and nonce secrets, not a stored key.
    pub fn get_partial_private_kernel_offset(&self, spend_key_id: &KeyId, nonce_id: &KeyId) -> (r:
        Result<PrivateKey, TransactionError>)
        requires
            self.wf(),
        ensures
            r is Ok <==> (self.spec_secret_of(*spend_key_id) is Some && self.spec_secret_of(
                *nonce_id,
            ) is Some),
            r matches Ok(o) ==> o.wf() && o.bytes@ == kernel_offset_of(
                self.spec_secret_of(*spend_key_id).unwrap(),
                self.spec_secret_of(*nonce_id).unwrap(),
            ),
            r matches Err(e) ==> (e matches TransactionError::KeyManager(_)),
    {
        let spend_secret = match self.secret_of_key_id(spend_key_id) {
            Ok(s) => s,
            Err(e) => {
                return Err(TransactionError::KeyManager(e));
            },
        };
        let nonce_secret = match self.secret_of_key_id(nonce_id) {
            Ok(s) => s,
            Err(e) => {
                return Err(TransactionError::KeyManager(e));
            },
        };
        Ok(PrivateKey { bytes: self.kernel_offset(&spend_secret, &nonce_secret) })
    }

    /// Derive the private kernel offset from the spend and nonce
    /// secrets.
    fn kernel_offset(&self, spend_secret: &Vec<u8>, nonce_secret: &Vec<u8>) -> (r: Vec<u8>)
        ensures
            r@ == kernel_offset_of(spend_secret@, nonce_secret@),
            r@.len() == 32,
            is_canonical_scalar(r@),
    {
        let mut pre: Vec<u8> = Vec::new();
        pre.push(TAG_KERNEL_OFFSET);
        push_bytes(&mut pre, spend_secret.as_slice());
        push_bytes(&mut pre, nonce_secret.as_slice());
        proof {
            assert(pre@ =~= seq![TAG_KERNEL_OFFSET] + spend_secret@ + nonce_secret@);
        }
        let h = blake2b_hash(&pre);
        scalar_from_wide(&h)
    }

    /// The ephemeral commitment term of a metadata signature, which the
    /// counterparty needs to complete its half.
    pub fn get_metadata_signature_ephemeral_commitment(
        &self,
        nonce_id: &KeyId,
        range_proof_type: RangeProofType,
    ) -> (r: Result<Commitment, TransactionError>)
        requires
            self.wf(),
        ensures
            r is Ok <==> self.spec_secret_of(*nonce_id) is Some,
            r matches Ok(c) ==> c.wf() && c.bytes@ == ephemeral_commitment_of(
                self.spec_secret_of(*nonce_id).unwrap(),
                range_proof_type == RangeProofType::RevealedValue,
            ),
            r matches Err(e) ==> (e matches TransactionError::KeyManager(_)),
    {
        let nonce_secret = match self.secret_of_key_id(nonce_id) {
            Ok(s) => s,
            Err(e) => {
                return Err(TransactionError::KeyManager(e));
            },
        };
        let r_a = match range_proof_type {
            RangeProofType::RevealedValue => zero_scalar(),
            RangeProofType::BulletProofPlus => sub_nonce(TAG_META_NONCE_A, &nonce_secret),
        };
        let r_x = sub_nonce(TAG_META_NONCE_X, &nonce_secret);
        Ok(Commitment { bytes: commit_scalars(&r_x, &r_a) })
    }

    /// The receiver's half of an output's metadata signature: it signs
    /// with the spend key and value, against the sender's offset public
    /// key and ephemeral public key.
    pub fn get_receiver_partial_metadata_signature(
        &self,
        spend_key_id: &KeyId,
        value: &PrivateKey,
        nonce_id: &KeyId,
        sender_offset_public_key: &PublicKey,
        ephemeral_pubkey: &PublicKey,
        txo_version: &TransactionOutputVersion,
        metadata_signature_message: &Vec<u8>,
        range_proof_type: RangeProofType,
    ) -> (r: Result<ComAndPubSignature, TransactionError>)
        requires
            self.wf(),
            value.wf(),
            metadata_signature_message@.len() == 32,
        ensures
            r is Ok <==> (self.spec_secret_of(*spend_key_id) is Some && self.spec_secret_of(
                *nonce_id,
            ) is Some),
            r matches Ok(s) ==> s.wf() && s@ == receiver_metadata_sig_of(
                self.spec_secret_of(*spend_key_id).unwrap(),
                value.bytes@,
                self.spec_secret_of(*nonce_id).unwrap(),
                sender_offset_public_key.bytes@,
                ephemeral_pubkey.bytes@,
                txo_version.spec_as_u8(),
                metadata_signature_message@,
                range_proof_type == RangeProofType::RevealedValue,
            ),
            r matches Err(e) ==> (e matches TransactionError::KeyManager(_)),
    {
        let spend_secret = match self.secret_of_key_id(spend_key_id) {
            Ok(s) => s,
            Err(e) => {
                return Err(TransactionError::KeyManager(e));
            },
        };
        let nonce_secret = match self.secret_of_key_id(nonce_id) {
            Ok(s) => s,
            Err(e) => {
                return Err(TransactionError::KeyManager(e));
            },
        };
        let r_a = match range_proof_type {
            RangeProofType::RevealedValue => zero_scalar(),
            RangeProofType::BulletProofPlus => sub_nonce(TAG_META_NONCE_A, &nonce_secret),
        };
        let r_x = sub_nonce(TAG_META_NONCE_X, &nonce_secret);
        let commitment = commit_scalars(&spend_secret, &value.bytes);
        let eph_com = commit_scalars(&r_x, &r_a);
        let e = challenge2_5(
            TAG_META_CHALLENGE,
            txo_version.as_u8(),
            &eph_com,
            &ephemeral_pubkey.bytes,
            &commitment,
            &sender_offset_public_key.bytes,
            metadata_signature_message,
        );
        let u_a = respond(&r_a, &e, &value.bytes);
        let u_x = respond(&r_x, &e, &spend_secret);
        Ok(
            ComAndPubSignature {
                ephemeral_commitment: eph_com,
                ephemeral_pubkey: pk_identity(),
                u_a,
                u_x,
                u_y: zero_scalar(),
            },
        )
    }

    /// The sender's half of an output's metadata signature: it signs
    /// with the sender-offset key, against the receiver's commitment
    /// and ephemeral commitment.
    pub fn get_sender_partial_metadata_signature(
        &self,
        ephemeral_private_nonce_id: &KeyId,
        sender_offset_key_id: &KeyId,
        commitment: &Commitment,
        ephemeral_commitment: &Commitment,
        txo_version: &TransactionOutputVersion,
        metadata_signature_message: &Vec<u8>,
    ) -> (r: Result<ComAndPubSignature, TransactionError>)
        requires
            self.wf(),
            metadata_signature_message@.len() == 32,
        ensures
            r is Ok <==> (self.spec_secret_of(*ephemeral_private_nonce_id) is Some
                && self.spec_secret_of(*sender_offset_key_id) is Some),
            r matches Ok(s) ==> s.wf() && s@ == sender_metadata_sig_of(
                self.spec_secret_of(*ephemeral_private_nonce_id).unwrap(),
                self.spec_secret_of(*sender_offset_key_id).unwrap(),
                commitment.bytes@,
                ephemeral_commitment.bytes@,
                txo_version.spec_as_u8(),
                metadata_signature_message@,
            ),
            r matches Err(e) ==> (e matches TransactionError::KeyManager(_)),
    {
        let nonce_secret = match self.secret_of_key_id(ephemeral_private_nonce_id) {
            Ok(s) => s,
            Err(e) => {
                return Err(TransactionError::KeyManager(e));
            },
        };
        let offset_secret = match self.secret_of_key_id(sender_offset_key_id) {
            Ok(s) => s,
            Err(e) => {
                return Err(TransactionError::KeyManager(e));
            },
        };
        let eph_pub = pk_from_secret(&nonce_secret);
        let offset_pk = pk_from_secret(&offset_secret);
        let e = challenge2_5(
            TAG_META_CHALLENGE,
            txo_version.as_u8(),
            &ephemeral_commitment.bytes,
            &eph_pub,
            &commitment.bytes,
            &offset_pk,
            metadata_signature_message,
        );
        let u_y = respond(&nonce_secret, &e, &offset_secret);
        Ok(
            ComAndPubSignature {
                ephemeral_commitment: pk_identity(),
                ephemeral_pubkey: eph_pub,
                u_a: zero_scalar(),
                u_x: zero_scalar(),
                u_y,
            },
        )
    }
}

impl KeyManagerCore {
    /// The full metadata signature for a self-signed output, where the
    /// sender is also the receiver: two fresh nonce handles are issued,
    /// the receiver and sender halves are built over the same challenge
    /// and summed.  The result equals both the componentwise sum of the
    /// two halves and the single-party signature — the partial
    /// signatures are homomorphically additive.
    pub fn get_metadata_signature(
        &mut self,
        spending_key_id: &KeyId,
        value_as_private_key: &PrivateKey,
        sender_offset_key_id: &KeyId,
        txo_version: &TransactionOutputVersion,
        metadata_signature_message: &Vec<u8>,
        range_proof_type: RangeProofType,
    ) -> (r: Result<ComAndPubSignature, TransactionError>)
        requires
            old(self).wf(),
            value_as_private_key.wf(),
            metadata_signature_message@.len() == 32,
        ensures
            final(self).wf(),
            final(self).seed_view() == old(self).seed_view(),
            final(self).imported_view() == old(self).imported_view(),
            forall|b2: Seq<char>|
                b2 != CoreKeyManagerBranch::Nonce.spec_branch_key() ==> final(self).branch_index(
                    b2,
                ) == old(self).branch_index(b2),
            forall|b2: Seq<char>| #[trigger]
                final(self).has_branch(b2) == old(self).has_branch(b2),
            r matches Ok(s) ==> ({
                &&& s.wf()
                &&& old(self).branch_index(CoreKeyManagerBranch::Nonce.spec_branch_key())
                    matches Some(c) && c + 2 <= u64::MAX && final(self).branch_index(
                    CoreKeyManagerBranch::Nonce.spec_branch_key(),
                ) == Some((c + 2) as u64) && (old(self).spec_secret_of(*spending_key_id)
                    matches Some(k) && (old(self).spec_secret_of(*sender_offset_key_id)
                    matches Some(y) && s@ == sig_add_spec(
                    receiver_metadata_sig_of(
                        k,
                        value_as_private_key.bytes@,
                        managed_secret_of(
                            old(self).seed_view(),
                            CoreKeyManagerBranch::Nonce.spec_branch_key(),
                            (c + 1) as u64,
                        ),
                        pub_key_of(y),
                        pub_key_of(
                            managed_secret_of(
                                old(self).seed_view(),
                                CoreKeyManagerBranch::Nonce.spec_branch_key(),
                                (c + 2) as u64,
                            ),
                        ),
                        txo_version.spec_as_u8(),
                        metadata_signature_message@,
                        range_proof_type == RangeProofType::RevealedValue,
                    ),
                    sender_metadata_sig_of(
                        managed_secret_of(
                            old(self).seed_view(),
                            CoreKeyManagerBranch::Nonce.spec_branch_key(),
                            (c + 2) as u64,
                        ),
                        y,
                        commit_of(k, value_as_private_key.bytes@),
                        ephemeral_commitment_of(
                            managed_secret_of(
                                old(self).seed_view(),
                                CoreKeyManagerBranch::Nonce.spec_branch_key(),
                                (c + 1) as u64,
                            ),
                            range_proof_type == RangeProofType::RevealedValue,
                        ),
                        txo_version.spec_as_u8(),
                        metadata_signature_message@,
                    ),
                ) && s@ == metadata_sig_of(
                    k,
                    value_as_private_key.bytes@,
                    managed_secret_of(
                        old(self).seed_view(),
                        CoreKeyManagerBranch::Nonce.spec_branch_key(),
                        (c + 1) as u64,
                    ),
                    managed_secret_of(
                        old(self).seed_view(),
                        CoreKeyManagerBranch::Nonce.spec_branch_key(),
                        (c + 2) as u64,
                    ),
                    y,
                    txo_version.spec_as_u8(),
                    metadata_signature_message@,
                    range_proof_type == RangeProofType::RevealedValue,
                )))
            }),
            (old(self).branch_index(CoreKeyManagerBranch::Nonce.spec_branch_key()) matches Some(c)
                && c + 2 <= u64::MAX && old(self).spec_secret_of(*spending_key_id) is Some && old(
                self,
            ).spec_secret_of(*sender_offset_key_id) is Some) ==> r is Ok,
    {
        let nonce_branch: String = CoreKeyManagerBranch::Nonce.get_branch_key();
        let (nonce_com_id, _nonce_com_pk) = match self.get_next_key_id(nonce_branch.as_str()) {
            Ok(p) => p,
            Err(e) => {
                return Err(TransactionError::KeyManager(e));
            },
        };
        let (nonce_pub_id, nonce_pub_pk) = match self.get_next_key_id(nonce_branch.as_str()) {
            Ok(p) => p,
            Err(e) => {
                return Err(TransactionError::KeyManager(e));
            },
        };
        proof {
            lemma_secret_of_depends(*old(self), *self, *spending_key_id);
            lemma_secret_of_depends(*old(self), *self, *sender_offset_key_id);
        }
        let eph_com = match self.get_metadata_signature_ephemeral_commitment(
            &nonce_com_id,
            range_proof_type,
        ) {
            Ok(c) => c,
            Err(e) => {
                return Err(e);
            },
        };
        let sender_offset_pk = match self.get_public_key_at_key_id(sender_offset_key_id) {
            Ok(p) => p,
            Err(e) => {
                return Err(TransactionError::KeyManager(e));
            },
        };
        let commitment = match self.get_commitment(spending_key_id, value_as_private_key) {
            Ok(c) => c,
            Err(e) => {
                return Err(e);
            },
        };
        let receiver = match self.get_receiver_partial_metadata_signature(
            spending_key_id,
            value_as_private_key,
            &nonce_com_id,
            &sender_offset_pk,
            &nonce_pub_pk,
            txo_version,
            metadata_signature_message,
            range_proof_type,
        ) {
            Ok(s) => s,
            Err(e) => {
                return Err(e);
            },
        };
        let sender = match self.get_sender_partial_metadata_signature(
            &nonce_pub_id,
            sender_offset_key_id,
            &commitment,
            &eph_com,
            txo_version,
            metadata_signature_message,
        ) {
            Ok(s) => s,
            Err(e) => {
                return Err(e);
            },
        };
        Ok(receiver.add(&sender))
    }

    /// The transaction-level script offset
    /// `Σ script keys − Σ sender-offset keys`, preventing script
    /// substitution across inputs and outputs.
    pub fn get_script_offset(
        &self,
        script_key_ids: &Vec<KeyId>,
        sender_offset_key_ids: &Vec<KeyId>,
    ) -> (r: Result<PrivateKey, TransactionError>)
        requires
            self.wf(),
        ensures
            r is Ok <==> (spec_sum_secrets(*self, script_key_ids@, zero_scalar_bytes()) is Some
                && spec_sum_secrets(*self, sender_offset_key_ids@, zero_scalar_bytes()) is Some),
            r matches Ok(k) ==> k.wf() && k.bytes@ == scalar_sub_of(
                spec_sum_secrets(*self, script_key_ids@, zero_scalar_bytes()).unwrap(),
                spec_sum_secrets(*self, sender_offset_key_ids@, zero_scalar_bytes()).unwrap(),
            ),
            r matches Err(e) ==> (e matches TransactionError::KeyManager(_)),
    {
        let script_sum = match self.sum_key_secrets(script_key_ids) {
            Ok(s) => s,
            Err(e) => {
                return Err(TransactionError::KeyManager(e));
            },
        };
        let offset_sum = match self.sum_key_secrets(sender_offset_key_ids) {
            Ok(s) => s,
            Err(e) => {
                return Err(TransactionError::KeyManager(e));
            },
        };
        Ok(PrivateKey { bytes: scalar_sub(&script_sum, &offset_sum) })
    }

    /// Sum the secrets behind a list of key ids, starting from zero.
    fn sum_key_secrets(&self, ids: &Vec<KeyId>) -> (r: Result<Vec<u8>, KeyManagerError>)
        requires
            self.wf(),
        ensures
            r is Ok <==> spec_sum_secrets(*self, ids@, zero_scalar_bytes()) is Some,
            r matches Ok(s) ==> s@ == spec_sum_secrets(*self, ids@, zero_scalar_bytes()).unwrap()
                && s@.len() == 32 && is_canonical_scalar(s@),
    {
        let mut acc = zero_scalar();
        let n: usize = ids.len();
        let mut i: usize = 0;
        proof {
            assert(ids@.skip(0) =~= ids@);
        }
        while i < n
            invariant
                i <= n,
                n == ids@.len(),
                self.wf(),
                acc@.len() == 32,
                is_canonical_scalar(acc@),
                spec_sum_secrets(*self, ids@, zero_scalar_bytes()) == spec_sum_secrets(
                    *self,
                    ids@.skip(i as int),
                    acc@,
                ),
            decreases n - i,
        {
            proof {
                assert(ids@.skip(i as int)[0] == ids@[i as int]);
                assert(ids@.skip(i as int).drop_first() =~= ids@.skip(i as int + 1));
            }
            let secret = match self.secret_of_key_id(&ids[i]) {
                Ok(s) => s,
                Err(e) => {
                    return Err(e);
                },
            };
            acc = scalar_add(&acc, &secret);
            i = i + 1;
        }
        proof {
            assert(ids@.skip(n as int) =~= Seq::<KeyId>::empty());
        }
        Ok(acc)
    }
}

/// Seal recovery data under a directly supplied encryption key (rather
/// than a key-manager handle): authenticated-encrypt the value and mask
/// bound to the commitment they open.
pub fn encrypt_data_with_key(
    encryption_key: &PrivateKey,
    commitment: &Commitment,
    value: u64,
    mask: &PrivateKey,
) -> (r: EncryptedData)
    requires
        encryption_key.wf(),
        mask.wf(),
        commitment.wf(),
        commitment.bytes@ == commit_of(mask.bytes@, spec_u64_le_32(value)),
    ensures
        r.bytes@ == encrypted_data_of(encryption_key.bytes@, mask.bytes@, value),
        recovery_of(encryption_key.bytes@, commitment.bytes@, r.bytes@) == Some(
            (value, mask.bytes@),
        ),
        r.bytes@.len() == 56,
{
    let key = recovery_aead_key(&encryption_key.bytes, &commitment.bytes);
    let nonce = zero_nonce();
    let mut payload: Vec<u8> = Vec::new();
    push_u64_le(&mut payload, value);
    push_bytes(&mut payload, mask.bytes.as_slice());
    proof {
        assert(payload@ =~= recovery_payload_of(value, mask.bytes@));
    }
    let ct = aead_encrypt(&key, &nonce, &commitment.bytes, &payload);
    proof {
        lemma_recovery_round_trip(encryption_key.bytes@, mask.bytes@, value, ct@);
    }
    EncryptedData { bytes: ct }
}

} // verus!
