//! Tests of the cryptographic operations: commitments and mask
//! verification, recovery-data round trips, partial-signature
//! additivity, script offsets, shared secrets and range proofs.

use wallet_core::branch::CoreKeyManagerBranch;
use wallet_core::branch::TxoType;
use wallet_core::components::KernelFeatures;
use wallet_core::components::RangeProofType;
use wallet_core::components::TransactionError;
use wallet_core::components::TransactionInputVersion;
use wallet_core::components::TransactionKernelVersion;
use wallet_core::components::TransactionOutputVersion;
use wallet_core::key_id::KeyId;
use wallet_core::key_manager::KeyManagerCore;
use wallet_core::types::PrivateKey;

fn seeded_manager(seed_byte: u8) -> KeyManagerCore {
    let seed = vec![seed_byte; 32];
    let mut km = KeyManagerCore::new(seed);
    km.add_new_branch(CoreKeyManagerBranch::DataEncryption.get_branch_key().as_str());
    km.add_new_branch(CoreKeyManagerBranch::Coinbase.get_branch_key().as_str());
    km.add_new_branch(CoreKeyManagerBranch::CommitmentMask.get_branch_key().as_str());
    km.add_new_branch(CoreKeyManagerBranch::Nonce.get_branch_key().as_str());
    km.add_new_branch(CoreKeyManagerBranch::ScriptKey.get_branch_key().as_str());
    km
}

fn msg32(byte: u8) -> Vec<u8> {
    vec![byte; 32]
}

#[test]
fn verify_mask_accepts_exactly_the_committed_value() {
    let mut km = seeded_manager(20);
    let branch = CoreKeyManagerBranch::CommitmentMask.get_branch_key();
    let (key_id, _) = km.get_next_key_id(branch.as_str()).unwrap();
    let commitment = km.get_commitment(&key_id, &PrivateKey::from_value(100)).unwrap();
    assert!(km.verify_mask(&commitment, &key_id, 100).unwrap());
    assert!(!km.verify_mask(&commitment, &key_id, 101).unwrap());
    let (other_id, _) = km.get_next_key_id(branch.as_str()).unwrap();
    assert!(!km.verify_mask(&commitment, &other_id, 100).unwrap());
}

#[test]
fn commitment_depends_on_both_key_and_value() {
    let mut km = seeded_manager(21);
    let branch = CoreKeyManagerBranch::CommitmentMask.get_branch_key();
    let (k1, _) = km.get_next_key_id(branch.as_str()).unwrap();
    let (k2, _) = km.get_next_key_id(branch.as_str()).unwrap();
    let c_a = km.get_commitment(&k1, &PrivateKey::from_value(5)).unwrap();
    let c_b = km.get_commitment(&k1, &PrivateKey::from_value(6)).unwrap();
    let c_c = km.get_commitment(&k2, &PrivateKey::from_value(5)).unwrap();
    assert_ne!(c_a.as_bytes(), c_b.as_bytes());
    assert_ne!(c_a.as_bytes(), c_c.as_bytes());
    assert_eq!(c_a.as_bytes().len(), 32);
}

#[test]
fn recovery_round_trip_returns_key_and_value() {
    let mut km = seeded_manager(22);
    let branch = CoreKeyManagerBranch::CommitmentMask.get_branch_key();
    let (key_id, _) = km.get_next_key_id(branch.as_str()).unwrap();
    let value: u64 = 1234;
    let data = km.encrypt_data_for_recovery(&key_id, None, value).unwrap();
    assert_eq!(data.bytes.len(), 56);
    let commitment = km.get_commitment(&key_id, &PrivateKey::from_value(value)).unwrap();
    let (recovered_id, recovered_value) = km
        .try_commitment_key_recovery(&commitment, &data, None)
        .unwrap();
    assert_eq!(recovered_value.0, value);
    assert_eq!(recovered_id, key_id);
}

#[test]
fn recovery_rejects_tampered_data() {
    let mut km = seeded_manager(23);
    let branch = CoreKeyManagerBranch::CommitmentMask.get_branch_key();
    let (key_id, _) = km.get_next_key_id(branch.as_str()).unwrap();
    let mut data = km.encrypt_data_for_recovery(&key_id, None, 999).unwrap();
    let commitment = km.get_commitment(&key_id, &PrivateKey::from_value(999)).unwrap();
    data.bytes[10] ^= 0x55;
    let err = km.try_commitment_key_recovery(&commitment, &data, None).unwrap_err();
    assert_eq!(err, TransactionError::CryptoVerificationFailure);
}

#[test]
fn recovery_rejects_wrong_recovery_key() {
    let mut km = seeded_manager(24);
    let branch = CoreKeyManagerBranch::CommitmentMask.get_branch_key();
    let (key_id, _) = km.get_next_key_id(branch.as_str()).unwrap();
    let data = km.encrypt_data_for_recovery(&key_id, None, 777).unwrap();
    let commitment = km.get_commitment(&key_id, &PrivateKey::from_value(777)).unwrap();
    // Decrypting under a different recovery key must fail, never
    // silently return a wrong value.
    let (wrong_key, _) = km.get_next_key_id(branch.as_str()).unwrap();
    let err = km
        .try_commitment_key_recovery(&commitment, &data, Some(&wrong_key))
        .unwrap_err();
    assert_eq!(err, TransactionError::CryptoVerificationFailure);
}

#[test]
fn partial_metadata_signatures_add_up_to_the_full_signature() {
    // Two managers over the same seed walk the same key hierarchy: one
    // signs as a single party, the other as receiver and sender
    // separately; the partial signatures must sum to the full one.
    let mut km_full = seeded_manager(25);
    let mut km_split = seeded_manager(25);
    let branch = CoreKeyManagerBranch::CommitmentMask.get_branch_key();
    let nonce_branch = CoreKeyManagerBranch::Nonce.get_branch_key();
    let version = TransactionOutputVersion::get_current_version();
    let msg = msg32(7);
    let value = PrivateKey::from_value(500);

    let (spend_a, _) = km_full.get_next_key_id(branch.as_str()).unwrap();
    let (offset_a, _) = km_full.get_next_key_id(nonce_branch.as_str()).unwrap();
    let full = km_full
        .get_metadata_signature(
            &spend_a,
            &value,
            &offset_a,
            &version,
            &msg,
            RangeProofType::BulletProofPlus,
        )
        .unwrap();

    let (spend_b, _) = km_split.get_next_key_id(branch.as_str()).unwrap();
    let (offset_b, _) = km_split.get_next_key_id(nonce_branch.as_str()).unwrap();
    let (nonce_com, _) = km_split.get_next_key_id(nonce_branch.as_str()).unwrap();
    let (nonce_pub, _) = km_split.get_next_key_id(nonce_branch.as_str()).unwrap();
    let eph_com = km_split
        .get_metadata_signature_ephemeral_commitment(&nonce_com, RangeProofType::BulletProofPlus)
        .unwrap();
    let eph_pub = km_split.get_public_key_at_key_id(&nonce_pub).unwrap();
    let offset_pub = km_split.get_public_key_at_key_id(&offset_b).unwrap();
    let commitment = km_split.get_commitment(&spend_b, &value).unwrap();
    let receiver = km_split
        .get_receiver_partial_metadata_signature(
            &spend_b,
            &value,
            &nonce_com,
            &offset_pub,
            &eph_pub,
            &version,
            &msg,
            RangeProofType::BulletProofPlus,
        )
        .unwrap();
    let sender = km_split
        .get_sender_partial_metadata_signature(
            &nonce_pub,
            &offset_b,
            &commitment,
            &eph_com,
            &version,
            &msg,
        )
        .unwrap();
    let summed = receiver.add(&sender);
    assert_eq!(summed, full);
}

#[test]
fn script_signature_is_deterministic_and_message_bound() {
    let mut km_a = seeded_manager(26);
    let mut km_b = seeded_manager(26);
    let mask = CoreKeyManagerBranch::CommitmentMask.get_branch_key();
    let script = CoreKeyManagerBranch::ScriptKey.get_branch_key();
    let version = TransactionInputVersion::get_current_version();
    let value = PrivateKey::from_value(4000);

    let (spend_a, _) = km_a.get_next_key_id(mask.as_str()).unwrap();
    let (script_a, _) = km_a.get_next_key_id(script.as_str()).unwrap();
    let sig_a = km_a
        .get_script_signature(&script_a, &spend_a, &value, &version, &msg32(1))
        .unwrap();

    let (spend_b, _) = km_b.get_next_key_id(mask.as_str()).unwrap();
    let (script_b, _) = km_b.get_next_key_id(script.as_str()).unwrap();
    let sig_b = km_b
        .get_script_signature(&script_b, &spend_b, &value, &version, &msg32(1))
        .unwrap();
    assert_eq!(sig_a, sig_b);

    let sig_c = km_b
        .get_script_signature(&script_b, &spend_b, &value, &version, &msg32(2))
        .unwrap();
    assert_ne!(sig_a, sig_c);
}

#[test]
fn kernel_signature_distinguishes_inputs_from_outputs() {
    let mut km = seeded_manager(27);
    let mask = CoreKeyManagerBranch::CommitmentMask.get_branch_key();
    let nonce = CoreKeyManagerBranch::Nonce.get_branch_key();
    let (spend, spend_pk) = km.get_next_key_id(mask.as_str()).unwrap();
    let (nonce_id, nonce_pk) = km.get_next_key_id(nonce.as_str()).unwrap();
    let version = TransactionKernelVersion::get_current_version();
    let features = KernelFeatures::empty();
    let msg = msg32(3);
    let as_output = km
        .get_partial_kernel_signature(
            &spend,
            &nonce_id,
            &nonce_pk,
            &spend_pk,
            &version,
            &msg,
            &features,
            TxoType::Output,
        )
        .unwrap();
    let as_input = km
        .get_partial_kernel_signature(
            &spend,
            &nonce_id,
            &nonce_pk,
            &spend_pk,
            &version,
            &msg,
            &features,
            TxoType::Input,
        )
        .unwrap();
    assert_eq!(as_output.public_nonce, as_input.public_nonce);
    assert_ne!(as_output.signature, as_input.signature);

    let excess = km.get_partial_kernel_signature_excess(&spend, &nonce_id).unwrap();
    assert_eq!(excess.as_bytes().len(), 32);
    let offset = km.get_partial_private_kernel_offset(&spend, &nonce_id).unwrap();
    assert_eq!(offset.as_bytes().len(), 32);
    // The excess is offset-adjusted, so it differs from the plain
    // public key of the spend key.
    assert_ne!(excess.as_bytes(), spend_pk.as_bytes());
}

#[test]
fn script_offset_of_identical_lists_is_zero() {
    let mut km = seeded_manager(28);
    let script = CoreKeyManagerBranch::ScriptKey.get_branch_key();
    let (id, _) = km.get_next_key_id(script.as_str()).unwrap();
    let ids = vec![id];
    let offset = km.get_script_offset(&ids, &ids).unwrap();
    assert_eq!(offset.as_bytes(), &vec![0u8; 32]);
}

#[test]
fn diffie_hellman_shared_secret_is_symmetric() {
    let mut km = seeded_manager(29);
    let mask = CoreKeyManagerBranch::CommitmentMask.get_branch_key();
    let (k1, p1) = km.get_next_key_id(mask.as_str()).unwrap();
    let (k2, p2) = km.get_next_key_id(mask.as_str()).unwrap();
    let s12 = km.get_diffie_hellman_shared_secret(&k1, &p2).unwrap();
    let s21 = km.get_diffie_hellman_shared_secret(&k2, &p1).unwrap();
    assert_eq!(s12.as_bytes(), s21.as_bytes());
    assert_ne!(s12.as_bytes(), p1.as_bytes());
}

#[test]
fn range_proof_round_trip_and_bounds() {
    let mut km = seeded_manager(30);
    let mask = CoreKeyManagerBranch::CommitmentMask.get_branch_key();
    let (key_id, _) = km.get_next_key_id(mask.as_str()).unwrap();
    let proof = km.construct_range_proof(&key_id, 1000, 0).unwrap();
    assert!(!proof.as_bytes().is_empty());
    let commitment = km.get_commitment(&key_id, &PrivateKey::from_value(1000)).unwrap();
    assert!(km.verify_range_proof(&proof, &commitment));
    let wrong = km.get_commitment(&key_id, &PrivateKey::from_value(1001)).unwrap();
    assert!(!km.verify_range_proof(&proof, &wrong));
    assert_eq!(
        km.construct_range_proof(&key_id, 10, 20).unwrap_err(),
        TransactionError::ValueOutsideRange
    );
}

#[test]
fn zero_key_id_resolves_to_the_identity_point() {
    let km = seeded_manager(31);
    let pk = km.get_public_key_at_key_id(&KeyId::Zero).unwrap();
    assert_eq!(pk.as_bytes(), &vec![0u8; 32]);
}
