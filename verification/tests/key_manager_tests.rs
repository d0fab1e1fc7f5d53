//! Tests of the key-manager core: branch registration, sequential
//! issuance, deterministic derivation, lookup, the monotonic ratchet
//! and key import.

use wallet_core::branch::CoreKeyManagerBranch;
use wallet_core::key_id::KeyId;
use wallet_core::key_manager::AddResult;
use wallet_core::key_manager::KeyManagerCore;
use wallet_core::key_manager::KeyManagerError;
use wallet_core::types::PrivateKey;
use wallet_core::types::PublicKey;

fn seeded_manager(seed_byte: u8) -> KeyManagerCore {
    let seed = vec![seed_byte; 32];
    let mut km = KeyManagerCore::new(seed);
    km.add_new_branch(CoreKeyManagerBranch::DataEncryption.get_branch_key().as_str());
    km.add_new_branch(CoreKeyManagerBranch::Coinbase.get_branch_key().as_str());
    km.add_new_branch(CoreKeyManagerBranch::CommitmentMask.get_branch_key().as_str());
    km.add_new_branch(CoreKeyManagerBranch::Nonce.get_branch_key().as_str());
    km.add_new_branch(CoreKeyManagerBranch::ScriptKey.get_branch_key().as_str());
    km
}

#[test]
fn branch_key_strings_are_fixed() {
    assert_eq!(
        CoreKeyManagerBranch::DataEncryption.get_branch_key(),
        "core: data encryption"
    );
    assert_eq!(CoreKeyManagerBranch::Coinbase.get_branch_key(), "core: coinbase");
    assert_eq!(
        CoreKeyManagerBranch::CommitmentMask.get_branch_key(),
        "core: commitment mask"
    );
    assert_eq!(CoreKeyManagerBranch::Nonce.get_branch_key(), "core: nonce");
    assert_eq!(CoreKeyManagerBranch::ScriptKey.get_branch_key(), "core: script key");
}

#[test]
fn sequential_issuance_returns_consecutive_indices() {
    let mut km = seeded_manager(1);
    let branch = CoreKeyManagerBranch::CommitmentMask.get_branch_key();
    let mut indices = Vec::new();
    for _ in 0..20 {
        let (id, _pk) = km.get_next_key_id(branch.as_str()).unwrap();
        match id {
            KeyId::Managed { index, .. } => indices.push(index),
            other => panic!("expected a managed key id, got {:?}", other),
        }
    }
    // Exactly 1..=20, in order: no duplicates, no gaps.
    let expected: Vec<u64> = (1..=20).collect();
    assert_eq!(indices, expected);
    assert_eq!(km.current_index(branch.as_str()).unwrap(), 20);
}

#[test]
fn issuance_is_independent_per_branch() {
    let mut km = seeded_manager(2);
    let mask = CoreKeyManagerBranch::CommitmentMask.get_branch_key();
    let nonce = CoreKeyManagerBranch::Nonce.get_branch_key();
    km.get_next_key_id(mask.as_str()).unwrap();
    km.get_next_key_id(mask.as_str()).unwrap();
    let (id, _) = km.get_next_key_id(nonce.as_str()).unwrap();
    match id {
        KeyId::Managed { index, .. } => assert_eq!(index, 1),
        other => panic!("expected a managed key id, got {:?}", other),
    }
    assert_eq!(km.current_index(mask.as_str()).unwrap(), 2);
    assert_eq!(km.current_index(nonce.as_str()).unwrap(), 1);
}

#[test]
fn derivation_is_deterministic() {
    // Equal (seed, branch, index) always yield the same key pair.
    let km_a = seeded_manager(3);
    let km_b = seeded_manager(3);
    let branch = CoreKeyManagerBranch::CommitmentMask.get_branch_key();
    let ka = km_a.get_key_at_index(branch.as_str(), 7).unwrap();
    let kb = km_b.get_key_at_index(branch.as_str(), 7).unwrap();
    assert_eq!(ka.as_bytes(), kb.as_bytes());
    let id = KeyId::Managed { branch: branch.clone(), index: 7 };
    let pa = km_a.get_public_key_at_key_id(&id).unwrap();
    let pb = km_b.get_public_key_at_key_id(&id).unwrap();
    assert_eq!(pa.as_bytes(), pb.as_bytes());
    // A different seed gives a different key.
    let km_c = seeded_manager(4);
    let kc = km_c.get_key_at_index(branch.as_str(), 7).unwrap();
    assert_ne!(ka.as_bytes(), kc.as_bytes());
    // A different index gives a different key.
    let k8 = km_a.get_key_at_index(branch.as_str(), 8).unwrap();
    assert_ne!(ka.as_bytes(), k8.as_bytes());
}

#[test]
fn unknown_branch_is_reported() {
    let mut km = KeyManagerCore::new(vec![9u8; 32]);
    assert_eq!(
        km.get_next_key_id("no such branch").unwrap_err(),
        KeyManagerError::UnknownKeyBranch
    );
    assert_eq!(
        km.get_static_key_id("no such branch").unwrap_err(),
        KeyManagerError::UnknownKeyBranch
    );
    assert_eq!(
        km.get_key_at_index("no such branch", 0).unwrap_err(),
        KeyManagerError::UnknownKeyBranch
    );
}

#[test]
fn add_branch_reports_existing() {
    let mut km = KeyManagerCore::new(vec![5u8; 32]);
    let branch = CoreKeyManagerBranch::Nonce.get_branch_key();
    assert_eq!(km.add_new_branch(branch.as_str()), AddResult::NewEntry);
    assert_eq!(km.add_new_branch(branch.as_str()), AddResult::AlreadyExists);
}

#[test]
fn static_key_id_is_index_zero() {
    let km = seeded_manager(6);
    let id = km.get_static_key_id(CoreKeyManagerBranch::DataEncryption.get_branch_key().as_str())
        .unwrap();
    match id {
        KeyId::Managed { branch, index } => {
            assert_eq!(branch, "core: data encryption");
            assert_eq!(index, 0);
        },
        other => panic!("expected a managed key id, got {:?}", other),
    }
    let recovery = km.get_recovery_key_id().unwrap();
    match recovery {
        KeyId::Managed { branch, index } => {
            assert_eq!(branch, "core: data encryption");
            assert_eq!(index, 0);
        },
        other => panic!("expected a managed key id, got {:?}", other),
    }
}

#[test]
fn find_key_index_finds_issued_key() {
    let mut km = seeded_manager(7);
    let branch = CoreKeyManagerBranch::CommitmentMask.get_branch_key();
    let mut pks = Vec::new();
    for _ in 0..3 {
        let (_id, pk) = km.get_next_key_id(branch.as_str()).unwrap();
        pks.push(pk);
    }
    assert_eq!(km.find_key_index(branch.as_str(), &pks[1]).unwrap(), 2);
    // A key from a different seed is not found.
    let other = seeded_manager(8);
    let stranger = other
        .get_public_key_at_key_id(&KeyId::Managed { branch: branch.clone(), index: 1 })
        .unwrap();
    assert_eq!(
        km.find_key_index(branch.as_str(), &stranger).unwrap_err(),
        KeyManagerError::KeyNotFound
    );
}

#[test]
fn ratchet_never_moves_backward() {
    let mut km = seeded_manager(10);
    let branch = CoreKeyManagerBranch::ScriptKey.get_branch_key();
    km.update_current_key_index_if_higher(branch.as_str(), 5).unwrap();
    assert_eq!(km.current_index(branch.as_str()).unwrap(), 5);
    km.update_current_key_index_if_higher(branch.as_str(), 3).unwrap();
    assert_eq!(km.current_index(branch.as_str()).unwrap(), 5);
    km.update_current_key_index_if_higher(branch.as_str(), 9).unwrap();
    assert_eq!(km.current_index(branch.as_str()).unwrap(), 9);
}

#[test]
fn import_key_resolves_to_its_public_key() {
    let mut km = seeded_manager(11);
    let secret = PrivateKey::from_value(424242);
    let expected_pk = PublicKey::from_secret_key(&secret);
    let id = km.import_key(secret).unwrap();
    let pk = km.get_public_key_at_key_id(&id).unwrap();
    assert_eq!(pk.as_bytes(), expected_pk.as_bytes());
    // Reverse lookup recognizes the imported key.
    let found = km.get_spending_key_id(&expected_pk).unwrap();
    assert_eq!(found, id);
}

#[test]
fn legacy_next_key_matches_derivation() {
    let mut km = seeded_manager(12);
    let branch = CoreKeyManagerBranch::Coinbase.get_branch_key();
    let next = km.get_next_key(branch.as_str()).unwrap();
    assert_eq!(next.index, 1);
    let derived = km.get_key_at_index(branch.as_str(), 1).unwrap();
    assert_eq!(next.key.as_bytes(), derived.as_bytes());
}

#[test]
fn next_spend_and_script_key_ids_come_from_their_branches() {
    let mut km = seeded_manager(13);
    let (spend, script) = km.get_next_spend_and_script_key_ids().unwrap();
    match spend {
        KeyId::Managed { branch, index } => {
            assert_eq!(branch, "core: commitment mask");
            assert_eq!(index, 1);
        },
        other => panic!("expected a managed key id, got {:?}", other),
    }
    match script {
        KeyId::Managed { branch, index } => {
            assert_eq!(branch, "core: script key");
            assert_eq!(index, 1);
        },
        other => panic!("expected a managed key id, got {:?}", other),
    }
}

#[test]
fn exhausted_branch_index_is_reported() {
    let mut km = seeded_manager(14);
    let branch = CoreKeyManagerBranch::Coinbase.get_branch_key();
    km.update_current_key_index_if_higher(branch.as_str(), u64::MAX).unwrap();
    assert_eq!(
        km.get_next_key_id(branch.as_str()).unwrap_err(),
        KeyManagerError::IndexExhausted
    );
}

#[test]
fn key_id_at_branch_index_matches_issuance() {
    let mut km = seeded_manager(15);
    let branch = CoreKeyManagerBranch::CommitmentMask.get_branch_key();
    let (issued_id, issued_pk) = km.get_next_key_id(branch.as_str()).unwrap();
    let (derived_id, derived_pk) = km
        .get_next_key_id_for_branch_index(branch.as_str(), 1)
        .unwrap();
    assert_eq!(issued_id, derived_id);
    assert_eq!(issued_pk.as_bytes(), derived_pk.as_bytes());
}
