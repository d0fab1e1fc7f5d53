//! The trusted boundary to the outside cryptography crates.
//!
//! Every function here is an `external_body` wrapper around exactly one
//! outside call, and every contract states only what the outside crate's
//! source shows.  Results that would take pages to state (a digest, a
//! curve operation) are given uninterpreted names; the verified modules
//! build all key-manager and signature logic on those names.

use vstd::prelude::*;

use blake2::Blake2b512;
use blake2::Digest;
use chacha20poly1305::aead::Aead;
use chacha20poly1305::aead::Payload;
use chacha20poly1305::ChaCha20Poly1305;
use chacha20poly1305::KeyInit;
use tari_crypto::commitment::HomomorphicCommitmentFactory;
use tari_crypto::keys::PublicKey as PublicKeyTrait;
use tari_crypto::keys::SecretKey as SecretKeyTrait;
use tari_crypto::range_proof::RangeProofService;
use tari_crypto::ristretto::bulletproofs_plus::BulletproofsPlusService;
use tari_crypto::ristretto::pedersen::commitment_factory::PedersenCommitmentFactory;
use tari_crypto::ristretto::pedersen::extended_commitment_factory::ExtendedPedersenCommitmentFactory;
use tari_crypto::ristretto::RistrettoPublicKey;
use tari_crypto::ristretto::RistrettoSecretKey;
use tari_utilities::ByteArray;

use crate::byte_codec::spec_u64_le_32;
use crate::byte_codec::zero_scalar_bytes;

verus! {

/// The 64-byte Blake2b digest of a byte string.
pub uninterp spec fn hash64_of(data: Seq<u8>) -> Seq<u8>;

/// The canonical scalar obtained from 64 uniform bytes by wide reduction.
pub uninterp spec fn wide_scalar_of(bytes: Seq<u8>) -> Seq<u8>;

/// Whether a byte string is the canonical 32-byte encoding of a scalar.
pub uninterp spec fn is_canonical_scalar(bytes: Seq<u8>) -> bool;

/// The canonical encoding of the sum of two scalars.
pub uninterp spec fn scalar_add_of(a: Seq<u8>, b: Seq<u8>) -> Seq<u8>;

/// The canonical encoding of the difference of two scalars.
pub uninterp spec fn scalar_sub_of(a: Seq<u8>, b: Seq<u8>) -> Seq<u8>;

/// The canonical encoding of the product of two scalars.
pub uninterp spec fn scalar_mul_of(a: Seq<u8>, b: Seq<u8>) -> Seq<u8>;

/// Whether a byte string is the compressed encoding of a valid curve point.
pub uninterp spec fn is_valid_point(bytes: Seq<u8>) -> bool;

/// The compressed public key of a secret scalar (`k · G`).
pub uninterp spec fn pub_key_of(k: Seq<u8>) -> Seq<u8>;

/// The compressed sum of two curve points.
pub uninterp spec fn point_add_of(p: Seq<u8>, q: Seq<u8>) -> Seq<u8>;

/// The compressed scalar multiple of a curve point (`k · P`).
pub uninterp spec fn point_mul_of(k: Seq<u8>, p: Seq<u8>) -> Seq<u8>;

/// The compressed Pedersen commitment `v · H + k · G` for scalars `k`, `v`.
pub uninterp spec fn commit_of(k: Seq<u8>, v: Seq<u8>) -> Seq<u8>;

/// The AEAD ciphertext (with appended tag) of a plaintext under a key,
/// nonce and associated data.
pub uninterp spec fn aead_enc_of(key: Seq<u8>, nonce: Seq<u8>, aad: Seq<u8>, pt: Seq<u8>) -> Seq<u8>;

/// The AEAD decryption of a ciphertext: the plaintext when the tag
/// authenticates, nothing otherwise.
pub uninterp spec fn aead_dec_of(key: Seq<u8>, nonce: Seq<u8>, aad: Seq<u8>, ct: Seq<u8>) -> Option<
    Seq<u8>,
>;

/// Whether a serialized range proof verifies against a commitment over
/// the 64-bit range with the default generators.  Verification is
/// deterministic: the verifier draws its batch weights from a
/// transcript over the statement and proof, never from the environment.
pub uninterp spec fn bp_verifies(proof: Seq<u8>, commitment: Seq<u8>) -> bool;

/// The compressed encoding of the identity point: 32 zero bytes.
pub open spec fn identity_point_bytes() -> Seq<u8> {
    Seq::new(32, |i: int| 0u8)
}

/// Relies on `blake2::Blake2b512` (via `digest::Digest`): the 64-byte
/// Blake2b digest of the input, a function of the input alone.
#[verifier::external_body]
pub(crate) fn blake2b_hash(data: &Vec<u8>) -> (r: Vec<u8>)
    ensures
        r@ == hash64_of(data@),
        r@.len() == 64,
{
    let mut h = Blake2b512::new();
    h.update(data.as_slice());
    h.finalize().to_vec()
}

/// Relies on `RistrettoSecretKey::from_uniform_bytes`: wide reduction of
/// 64 bytes to a canonical scalar, a function of the bytes alone.
#[verifier::external_body]
pub(crate) fn scalar_from_wide(bytes: &Vec<u8>) -> (r: Vec<u8>)
    requires
        bytes@.len() == 64,
    ensures
        r@ == wide_scalar_of(bytes@),
        r@.len() == 32,
        is_canonical_scalar(r@),
{
    let k = RistrettoSecretKey::from_uniform_bytes(bytes.as_slice()).unwrap();
    k.as_bytes().to_vec()
}

/// Relies on `RistrettoSecretKey::from(u64)`: the scalar of a `u64`
/// value, encoded as the value's little-endian bytes padded to 32, which
/// is canonical because the value is far below the group order.
#[verifier::external_body]
pub(crate) fn scalar_from_u64(v: u64) -> (r: Vec<u8>)
    ensures
        r@ == spec_u64_le_32(v),
        r@.len() == 32,
        is_canonical_scalar(r@),
{
    let k = RistrettoSecretKey::from(v);
    k.as_bytes().to_vec()
}

/// Relies on `RistrettoSecretKey::from_canonical_bytes`: accepts exactly
/// the canonical 32-byte scalar encodings.
#[verifier::external_body]
pub(crate) fn scalar_check(bytes: &Vec<u8>) -> (r: bool)
    ensures
        r == is_canonical_scalar(bytes@),
{
    RistrettoSecretKey::from_canonical_bytes(bytes.as_slice()).is_ok()
}

/// Relies on scalar addition of `RistrettoSecretKey` (mod the group
/// order, result canonical); adding the zero scalar changes nothing.
#[verifier::external_body]
pub(crate) fn scalar_add(a: &Vec<u8>, b: &Vec<u8>) -> (r: Vec<u8>)
    requires
        is_canonical_scalar(a@),
        is_canonical_scalar(b@),
    ensures
        r@ == scalar_add_of(a@, b@),
        r@.len() == 32,
        is_canonical_scalar(r@),
        a@ == zero_scalar_bytes() ==> r@ == b@,
        b@ == zero_scalar_bytes() ==> r@ == a@,
{
    let ka = RistrettoSecretKey::from_canonical_bytes(a.as_slice()).unwrap();
    let kb = RistrettoSecretKey::from_canonical_bytes(b.as_slice()).unwrap();
    let k = &ka + &kb;
    k.as_bytes().to_vec()
}

/// Relies on scalar subtraction of `RistrettoSecretKey` (mod the group
/// order, result canonical); subtracting the zero scalar changes nothing.
#[verifier::external_body]
pub(crate) fn scalar_sub(a: &Vec<u8>, b: &Vec<u8>) -> (r: Vec<u8>)
    requires
        is_canonical_scalar(a@),
        is_canonical_scalar(b@),
    ensures
        r@ == scalar_sub_of(a@, b@),
        r@.len() == 32,
        is_canonical_scalar(r@),
        b@ == zero_scalar_bytes() ==> r@ == a@,
{
    let ka = RistrettoSecretKey::from_canonical_bytes(a.as_slice()).unwrap();
    let kb = RistrettoSecretKey::from_canonical_bytes(b.as_slice()).unwrap();
    let k = &ka - &kb;
    k.as_bytes().to_vec()
}

/// Relies on scalar multiplication of `RistrettoSecretKey` (mod the
/// group order, result canonical).
#[verifier::external_body]
pub(crate) fn scalar_mul(a: &Vec<u8>, b: &Vec<u8>) -> (r: Vec<u8>)
    requires
        is_canonical_scalar(a@),
        is_canonical_scalar(b@),
    ensures
        r@ == scalar_mul_of(a@, b@),
        r@.len() == 32,
        is_canonical_scalar(r@),
{
    let ka = RistrettoSecretKey::from_canonical_bytes(a.as_slice()).unwrap();
    let kb = RistrettoSecretKey::from_canonical_bytes(b.as_slice()).unwrap();
    let k = &ka * &kb;
    k.as_bytes().to_vec()
}

/// Relies on `RistrettoPublicKey::from_secret_key`: the compressed point
/// `k · G`, a function of the scalar alone.
#[verifier::external_body]
pub(crate) fn pk_from_secret(k: &Vec<u8>) -> (r: Vec<u8>)
    requires
        is_canonical_scalar(k@),
    ensures
        r@ == pub_key_of(k@),
        r@.len() == 32,
        is_valid_point(r@),
{
    let key = RistrettoSecretKey::from_canonical_bytes(k.as_slice()).unwrap();
    RistrettoPublicKey::from_secret_key(&key).as_bytes().to_vec()
}

/// Relies on `RistrettoPublicKey::default`: the identity point, whose
/// compressed encoding is 32 zero bytes.
#[verifier::external_body]
pub(crate) fn pk_identity() -> (r: Vec<u8>)
    ensures
        r@ == identity_point_bytes(),
        r@.len() == 32,
        is_valid_point(r@),
{
    RistrettoPublicKey::default().as_bytes().to_vec()
}

/// Relies on `RistrettoPublicKey::from_canonical_bytes`: accepts exactly
/// the compressed encodings of valid curve points.
#[verifier::external_body]
pub(crate) fn point_check(bytes: &Vec<u8>) -> (r: bool)
    ensures
        r == is_valid_point(bytes@),
{
    RistrettoPublicKey::from_canonical_bytes(bytes.as_slice()).is_ok()
}

/// Relies on point addition of `RistrettoPublicKey`; adding the identity
/// point changes nothing.
#[verifier::external_body]
pub(crate) fn point_add(p: &Vec<u8>, q: &Vec<u8>) -> (r: Vec<u8>)
    requires
        is_valid_point(p@),
        is_valid_point(q@),
    ensures
        r@ == point_add_of(p@, q@),
        r@.len() == 32,
        is_valid_point(r@),
        p@ == identity_point_bytes() ==> r@ == q@,
        q@ == identity_point_bytes() ==> r@ == p@,
{
    let pp = RistrettoPublicKey::from_canonical_bytes(p.as_slice()).unwrap();
    let qq = RistrettoPublicKey::from_canonical_bytes(q.as_slice()).unwrap();
    let s = &pp + &qq;
    s.as_bytes().to_vec()
}

/// Relies on scalar multiplication of a `RistrettoPublicKey` by a
/// `RistrettoSecretKey`: the compressed point `k · P`, used for
/// Diffie-Hellman shared secrets.
#[verifier::external_body]
pub(crate) fn point_mul(k: &Vec<u8>, p: &Vec<u8>) -> (r: Vec<u8>)
    requires
        is_canonical_scalar(k@),
        is_valid_point(p@),
    ensures
        r@ == point_mul_of(k@, p@),
        r@.len() == 32,
        is_valid_point(r@),
{
    let kk = RistrettoSecretKey::from_canonical_bytes(k.as_slice()).unwrap();
    let pp = RistrettoPublicKey::from_canonical_bytes(p.as_slice()).unwrap();
    let s = &pp * &kk;
    s.as_bytes().to_vec()
}

/// Relies on `PedersenCommitmentFactory::commit` with the default
/// (fixed) generators: the compressed point `v · H + k · G`, a function
/// of the two scalars alone.
#[verifier::external_body]
pub(crate) fn commit_scalars(k: &Vec<u8>, v: &Vec<u8>) -> (r: Vec<u8>)
    requires
        is_canonical_scalar(k@),
        is_canonical_scalar(v@),
    ensures
        r@ == commit_of(k@, v@),
        r@.len() == 32,
        is_valid_point(r@),
{
    let factory = PedersenCommitmentFactory::default();
    let kk = RistrettoSecretKey::from_canonical_bytes(k.as_slice()).unwrap();
    let vv = RistrettoSecretKey::from_canonical_bytes(v.as_slice()).unwrap();
    factory.commit(&kk, &vv).as_bytes().to_vec()
}

/// Relies on `ChaCha20Poly1305::encrypt`: authenticated encryption with
/// a 16-byte appended tag, a function of key, nonce, associated data and
/// plaintext; decrypting the result with the same key, nonce and
/// associated data returns the plaintext.
#[verifier::external_body]
pub(crate) fn aead_encrypt(key: &Vec<u8>, nonce: &Vec<u8>, aad: &Vec<u8>, pt: &Vec<u8>) -> (r: Vec<
    u8,
>)
    requires
        key@.len() == 32,
        nonce@.len() == 12,
        aad@.len() <= 0x10000000,
        pt@.len() <= 0x10000000,
    ensures
        r@ == aead_enc_of(key@, nonce@, aad@, pt@),
        r@.len() == pt@.len() + 16,
        aead_dec_of(key@, nonce@, aad@, r@) == Some(pt@),
{
    let cipher = ChaCha20Poly1305::new_from_slice(key.as_slice()).unwrap();
    let n = chacha20poly1305::Nonce::try_from(nonce.as_slice()).unwrap();
    cipher.encrypt(&n, Payload { msg: pt.as_slice(), aad: aad.as_slice() }).unwrap()
}

/// Relies on `ChaCha20Poly1305::decrypt`: returns the plaintext exactly
/// when the tag authenticates the ciphertext under this key, nonce and
/// associated data, and nothing otherwise.
#[verifier::external_body]
pub(crate) fn aead_decrypt(key: &Vec<u8>, nonce: &Vec<u8>, aad: &Vec<u8>, ct: &Vec<u8>) -> (r:
    Option<Vec<u8>>)
    requires
        key@.len() == 32,
        nonce@.len() == 12,
    ensures
        r is Some <==> aead_dec_of(key@, nonce@, aad@, ct@) is Some,
        r is Some ==> r.unwrap()@ == aead_dec_of(key@, nonce@, aad@, ct@).unwrap(),
{
    let cipher = ChaCha20Poly1305::new_from_slice(key.as_slice()).unwrap();
    let n = chacha20poly1305::Nonce::try_from(nonce.as_slice()).unwrap();
    cipher.decrypt(&n, Payload { msg: ct.as_slice(), aad: aad.as_slice() }).ok()
}

/// Relies on `BulletproofsPlusService::construct_proof` over a 64-bit
/// range with the default generators.  The proof bytes are randomized,
/// so nothing is stated of them beyond completeness: a constructed
/// proof verifies against the Pedersen commitment to the same key and
/// value, since the service commits over the same default generators
/// and its verifier accepts every honestly constructed proof.
#[verifier::external_body]
pub(crate) fn bp_construct_proof(k: &Vec<u8>, value: u64) -> (r: Option<Vec<u8>>)
    requires
        is_canonical_scalar(k@),
    ensures
        r matches Some(p) ==> bp_verifies(p@, commit_of(k@, spec_u64_le_32(value))),
{
    let factory = ExtendedPedersenCommitmentFactory::default();
    let service = match BulletproofsPlusService::init(64, 1, factory) {
        Ok(s) => s,
        Err(_) => return None,
    };
    let key = RistrettoSecretKey::from_canonical_bytes(k.as_slice()).unwrap();
    service.construct_proof(&key, value).ok()
}

/// Relies on `BulletproofsPlusService::verify` over a 64-bit range with
/// the default generators: whether the proof opens the commitment to a
/// value in range, a deterministic function of the proof and the
/// commitment.
#[verifier::external_body]
pub(crate) fn bp_verify_proof(proof: &Vec<u8>, commitment: &Vec<u8>) -> (r: bool)
    requires
        is_valid_point(commitment@),
    ensures
        r == bp_verifies(proof@, commitment@),
{
    let factory = ExtendedPedersenCommitmentFactory::default();
    let service = match BulletproofsPlusService::init(64, 1, factory) {
        Ok(s) => s,
        Err(_) => return false,
    };
    let c = match tari_crypto::ristretto::pedersen::PedersenCommitment::from_canonical_bytes(
        commitment.as_slice(),
    ) {
        Ok(c) => c,
        Err(_) => return false,
    };
    service.verify(proof, &c)
}

} // verus!
