//! Tests of the sender transaction builder: missing-field reporting,
//! fee and change computation, the change edge case, input and output
//! limits, insufficient funds, the minimum fee, and the recipient path.

use wallet_core::amount::MicroTari;
use wallet_core::branch::CoreKeyManagerBranch;
use wallet_core::components::build_metadata_signature_message;
use wallet_core::components::Covenant;
use wallet_core::components::EncryptedData;
use wallet_core::components::ExecutionStack;
use wallet_core::components::KeyManagerOutput;
use wallet_core::components::OutputFeatures;
use wallet_core::components::TariScript;
use wallet_core::components::TransactionOutputVersion;
use wallet_core::fee::ConsensusConstants;
use wallet_core::key_id::KeyId;
use wallet_core::key_manager::KeyManagerCore;
use wallet_core::sender::SenderState;
use wallet_core::sender::TxId;
use wallet_core::signature::ComAndPubSignature;
use wallet_core::transaction_initializer::BuildErrorReason;
use wallet_core::transaction_initializer::SenderTransactionInitializer;
use wallet_core::transaction_initializer::MAX_TRANSACTION_INPUTS;
use wallet_core::types::PrivateKey;

fn seeded_manager(seed_byte: u8) -> KeyManagerCore {
    let seed = vec![seed_byte; 32];
    let mut km = KeyManagerCore::new(seed);
    km.add_new_branch(CoreKeyManagerBranch::DataEncryption.get_branch_key().as_str());
    km.add_new_branch(CoreKeyManagerBranch::Coinbase.get_branch_key().as_str());
    km.add_new_branch(CoreKeyManagerBranch::CommitmentMask.get_branch_key().as_str());
    km.add_new_branch(CoreKeyManagerBranch::Nonce.get_branch_key().as_str());
    km.add_new_branch(CoreKeyManagerBranch::ScriptKey.get_branch_key().as_str());
    km
}

/// A fully signed output with default features and the one-opcode
/// script, under fresh keys of the manager.
fn make_output(km: &mut KeyManagerCore, value: u64) -> (KeyManagerOutput, KeyId) {
    let mask = CoreKeyManagerBranch::CommitmentMask.get_branch_key();
    let nonce = CoreKeyManagerBranch::Nonce.get_branch_key();
    let script_branch = CoreKeyManagerBranch::ScriptKey.get_branch_key();
    let (spending_key_id, _) = km.get_next_key_id(mask.as_str()).unwrap();
    let (script_key_id, _) = km.get_next_key_id(script_branch.as_str()).unwrap();
    let (sender_offset_key_id, sender_offset_public_key) =
        km.get_next_key_id(nonce.as_str()).unwrap();
    let features = OutputFeatures::default();
    let script = TariScript::script_nop();
    let covenant = Covenant::default();
    let version = TransactionOutputVersion::get_current_version();
    let encrypted_data = km.encrypt_data_for_recovery(&spending_key_id, None, value).unwrap();
    let msg = build_metadata_signature_message(
        &version,
        &script,
        &features,
        &covenant,
        &encrypted_data,
        MicroTari(0),
    );
    let metadata_signature = km
        .get_metadata_signature(
            &spending_key_id,
            &PrivateKey::from_value(value),
            &sender_offset_key_id,
            &version,
            &msg,
            features.range_proof_type,
        )
        .unwrap();
    let output = KeyManagerOutput {
        version,
        value: MicroTari(value),
        spending_key_id,
        features,
        script,
        covenant,
        input_data: ExecutionStack::default(),
        script_key_id,
        sender_offset_public_key,
        metadata_signature,
        script_lock_height: 0,
        encrypted_data,
        minimum_value_promise: MicroTari(0),
    };
    (output, sender_offset_key_id)
}

/// A structurally complete but unsigned output, cheap enough to build
/// by the hundreds.
fn cheap_output(value: u64, index: u64) -> KeyManagerOutput {
    let dummy_sig = ComAndPubSignature {
        ephemeral_commitment: vec![0u8; 32],
        ephemeral_pubkey: vec![0u8; 32],
        u_a: vec![0u8; 32],
        u_x: vec![0u8; 32],
        u_y: vec![0u8; 32],
    };
    KeyManagerOutput {
        version: TransactionOutputVersion::get_current_version(),
        value: MicroTari(value),
        spending_key_id: KeyId::Managed {
            branch: CoreKeyManagerBranch::CommitmentMask.get_branch_key(),
            index,
        },
        features: OutputFeatures::default(),
        script: TariScript::script_nop(),
        covenant: Covenant::default(),
        input_data: ExecutionStack::default(),
        script_key_id: KeyId::Managed {
            branch: CoreKeyManagerBranch::ScriptKey.get_branch_key(),
            index,
        },
        sender_offset_public_key: wallet_core::types::PublicKey::from_canonical_bytes(
            vec![0u8; 32],
        )
        .unwrap(),
        metadata_signature: dummy_sig,
        script_lock_height: 0,
        encrypted_data: EncryptedData::default(),
        minimum_value_promise: MicroTari(0),
    }
}

fn give_change_data(builder: &mut SenderTransactionInitializer, km: &mut KeyManagerCore) {
    let mask = CoreKeyManagerBranch::CommitmentMask.get_branch_key();
    let nonce = CoreKeyManagerBranch::Nonce.get_branch_key();
    let script_branch = CoreKeyManagerBranch::ScriptKey.get_branch_key();
    let (change_script_key_id, _) = km.get_next_key_id(script_branch.as_str()).unwrap();
    let (change_secret_key_id, _) = km.get_next_key_id(mask.as_str()).unwrap();
    let (change_sender_offset_key_id, _) = km.get_next_key_id(nonce.as_str()).unwrap();
    builder.with_change_data(
        TariScript::script_nop(),
        ExecutionStack::default(),
        change_script_key_id,
        change_secret_key_id,
        change_sender_offset_key_id,
        Covenant::default(),
    );
}

/// The rounded features-and-scripts size of `n` outputs with default
/// features and the one-opcode script.
fn size_for_default_features_and_scripts(n: usize) -> usize {
    let constants = ConsensusConstants::new();
    let features = OutputFeatures::default();
    let script = TariScript::script_nop();
    constants
        .transaction_weight()
        .round_up_features_and_scripts_size(
            features.get_serialized_size() + script.get_serialized_size(),
        )
        * n
}

/// Builds with missing fields report them, then change data is
/// demanded, then the transaction finalizes with the weight-model fee.
#[test]
fn no_receivers() {
    let mut km = seeded_manager(40);
    let constants = ConsensusConstants::new();
    let builder = SenderTransactionInitializer::new(&constants);
    // We should have fields missing still, but we can recover and
    // continue.
    let err = builder.build(&mut km).unwrap_err();
    assert_eq!(
        err.reason.message(),
        "Missing Lock Height,Missing Fee per gram"
    );
    let mut builder = err.builder;
    builder.with_lock_height(100);
    let (output, offset_id) = make_output(&mut km, 100);
    builder.with_output(output, offset_id, &mut km).unwrap();
    let (input, _) = make_output(&mut km, 5000);
    builder.with_input(input, &mut km).unwrap();
    builder.with_fee_per_gram(MicroTari(1));
    let expected_fee = builder.fee().calculate(
        MicroTari(1),
        1,
        1,
        2,
        size_for_default_features_and_scripts(2),
    );
    // We need a change output, so this should fail.
    let err = builder.build(&mut km).unwrap_err();
    assert_eq!(err.reason, BuildErrorReason::ChangeDataMissing);
    assert_eq!(err.reason.message(), "Change data was not provided");
    // Ok, give them change data.
    let mut builder = err.builder;
    give_change_data(&mut builder, &mut km);
    let result = builder.build(&mut km).unwrap();
    match result.into_state() {
        SenderState::Finalizing(info) => {
            assert_eq!(info.metadata.lock_height, 100, "Lock height");
            assert_eq!(info.metadata.fee, expected_fee, "Fee");
            assert_eq!(info.outputs.len(), 1, "There should be 1 sender output");
            assert!(info.change_output.is_some(), "There should be a change output");
            assert_eq!(info.inputs.len(), 1, "There should be 1 input");
        },
        _ => panic!("There were no recipients, so we should be finalizing"),
    }
}

/// One input, one output, the leftover exactly zero: no change output
/// and the weight-model fee.
#[test]
fn no_change_or_receivers() {
    let mut km = seeded_manager(41);
    let constants = ConsensusConstants::new();
    let expected_fee = wallet_core::fee::Fee::new(constants.transaction_weight()).calculate(
        MicroTari(4),
        1,
        1,
        1,
        size_for_default_features_and_scripts(1),
    );
    let mut builder = SenderTransactionInitializer::new(&constants);
    builder.with_lock_height(0);
    let (output, offset_id) = make_output(&mut km, 5000 - expected_fee.0);
    builder.with_output(output, offset_id, &mut km).unwrap();
    let (input, _) = make_output(&mut km, 5000);
    builder.with_input(input, &mut km).unwrap();
    builder.with_fee_per_gram(MicroTari(4));
    builder.with_prevent_fee_gt_amount(false);
    let result = builder.build(&mut km).unwrap();
    match result.into_state() {
        SenderState::Finalizing(info) => {
            assert_eq!(info.metadata.lock_height, 0, "Lock height");
            assert_eq!(info.metadata.fee, expected_fee, "Fee");
            assert_eq!(info.outputs.len(), 1, "There should be 1 output");
            assert!(info.change_output.is_none(), "There should be no change output");
            assert_eq!(info.inputs.len(), 1, "There should be 1 input");
        },
        _ => panic!("There were no recipients, so we should be finalizing"),
    }
}

/// The edge case where the leftover is one unit short of paying for a
/// change output: the whole leftover folds into the fee.
#[test]
fn change_edge_case() {
    let mut km = seeded_manager(42);
    let constants = ConsensusConstants::new();
    let fee_model = wallet_core::fee::Fee::new(constants.transaction_weight());
    let tx_fee = fee_model.calculate(
        MicroTari(1),
        1,
        1,
        1,
        size_for_default_features_and_scripts(1),
    );
    let fee_for_change_output = fee_model.calculate(
        MicroTari(1),
        0,
        0,
        1,
        constants.transaction_weight().round_up_features_and_scripts_size(
            OutputFeatures::default().get_serialized_size(),
        ),
    );
    // Pay out so that I should get change, but not enough to pay for
    // the change output.
    let input_value = 2000 + tx_fee.0 + fee_for_change_output.0 - 1;
    let mut builder = SenderTransactionInitializer::new(&constants);
    builder.with_lock_height(0);
    let (output, offset_id) = make_output(&mut km, 2000);
    builder.with_output(output, offset_id, &mut km).unwrap();
    let (input, _) = make_output(&mut km, input_value);
    builder.with_input(input, &mut km).unwrap();
    builder.with_fee_per_gram(MicroTari(1));
    builder.with_prevent_fee_gt_amount(false);
    give_change_data(&mut builder, &mut km);
    let result = builder.build(&mut km).unwrap();
    match result.into_state() {
        SenderState::Finalizing(info) => {
            assert_eq!(info.metadata.lock_height, 0, "Lock height");
            assert_eq!(
                info.metadata.fee.0,
                tx_fee.0 + fee_for_change_output.0 - 1,
                "Fee folds in the whole leftover"
            );
            assert_eq!(info.outputs.len(), 1, "There should be 1 output");
            assert!(info.change_output.is_none(), "There should be no change output");
            assert_eq!(info.inputs.len(), 1, "There should be 1 input");
        },
        _ => panic!("There were no recipients, so we should be finalizing"),
    }
}

/// One more input than the maximum is refused.
#[test]
fn too_many_inputs() {
    let mut km = seeded_manager(43);
    let constants = ConsensusConstants::new();
    let mut builder = SenderTransactionInitializer::new(&constants);
    builder.with_lock_height(0);
    let (output, offset_id) = make_output(&mut km, 500);
    builder.with_output(output, offset_id, &mut km).unwrap();
    builder.with_fee_per_gram(MicroTari(2));
    let mut i: u64 = 0;
    while i <= MAX_TRANSACTION_INPUTS as u64 {
        builder.with_input(cheap_output(50, 1000 + i), &mut km).unwrap();
        i += 1;
    }
    let err = builder.build(&mut km).unwrap_err();
    assert_eq!(err.reason, BuildErrorReason::TooManyInputs);
    assert_eq!(err.reason.message(), "Too many inputs in transaction");
}

/// A total fee below the minimum transaction fee is refused.
#[test]
fn fee_too_low() {
    let mut km = seeded_manager(44);
    let constants = ConsensusConstants::new();
    let fee_model = wallet_core::fee::Fee::new(constants.transaction_weight());
    let tx_fee = fee_model.calculate(
        MicroTari(1),
        1,
        1,
        1,
        size_for_default_features_and_scripts(1),
    );
    assert!(tx_fee.0 < wallet_core::fee::MINIMUM_TRANSACTION_FEE);
    let mut builder = SenderTransactionInitializer::new(&constants);
    builder.with_lock_height(0);
    let (input, _) = make_output(&mut km, 500 + tx_fee.0);
    builder.with_input(input, &mut km).unwrap();
    let (output, offset_id) = make_output(&mut km, 500);
    builder.with_output(output, offset_id, &mut km).unwrap();
    give_change_data(&mut builder, &mut km);
    builder.with_fee_per_gram(MicroTari(1));
    let err = builder.build(&mut km).unwrap_err();
    assert_eq!(err.reason, BuildErrorReason::FeeTooLow);
    assert_eq!(err.reason.message(), "Fee is less than the minimum");
}

/// Spending more than the inputs provide reports both amounts.
#[test]
fn not_enough_funds() {
    let mut km = seeded_manager(45);
    let constants = ConsensusConstants::new();
    let fee_model = wallet_core::fee::Fee::new(constants.transaction_weight());
    let tx_fee = fee_model.calculate(
        MicroTari(1),
        1,
        1,
        1,
        size_for_default_features_and_scripts(1),
    );
    let mut builder = SenderTransactionInitializer::new(&constants);
    builder.with_lock_height(0);
    let (input, _) = make_output(&mut km, 400);
    builder.with_input(input, &mut km).unwrap();
    let (output, offset_id) = make_output(&mut km, 400);
    builder.with_output(output, offset_id, &mut km).unwrap();
    give_change_data(&mut builder, &mut km);
    builder.with_fee_per_gram(MicroTari(1));
    let err = builder.build(&mut km).unwrap_err();
    assert_eq!(
        err.reason,
        BuildErrorReason::InsufficientFunds {
            required: 400 + tx_fee.0 as u128,
            provided: 400,
        }
    );
}

/// A single recipient: the builder reserves the recipient's amount,
/// creates change, and moves to awaiting the receiver.
#[test]
fn single_recipient() {
    let mut km = seeded_manager(46);
    let constants = ConsensusConstants::new();
    let fee_per_gram = MicroTari(6);
    let expected_fee = wallet_core::fee::Fee::new(constants.transaction_weight()).calculate(
        fee_per_gram,
        1,
        2,
        3,
        size_for_default_features_and_scripts(3),
    );
    let mut builder = SenderTransactionInitializer::new(&constants);
    builder.with_lock_height(1234);
    let (output, offset_id) = make_output(&mut km, 1500 - expected_fee.0);
    builder.with_output(output, offset_id, &mut km).unwrap();
    let (input1, _) = make_output(&mut km, 2000);
    builder.with_input(input1, &mut km).unwrap();
    let (input2, _) = make_output(&mut km, 3000);
    builder.with_input(input2, &mut km).unwrap();
    give_change_data(&mut builder, &mut km);
    builder.with_fee_per_gram(fee_per_gram);
    let nonce = CoreKeyManagerBranch::Nonce.get_branch_key();
    let (recipient_offset, _) = km.get_next_key_id(nonce.as_str()).unwrap();
    builder
        .with_recipient_data(
            TariScript::script_nop(),
            recipient_offset,
            OutputFeatures::default(),
            Covenant::default(),
            MicroTari(0),
            MicroTari(2500),
            &mut km,
        )
        .unwrap();
    let result = builder.build(&mut km).unwrap();
    match result.into_state() {
        SenderState::SingleRoundMessageReady(info) => {
            assert_eq!(info.metadata.lock_height, 1234, "Lock height");
            assert_eq!(info.metadata.fee, expected_fee, "Fee");
            assert_eq!(info.outputs.len(), 1, "There should be 1 output");
            assert!(info.change_output.is_some(), "There should be 1 change output");
            assert_eq!(info.inputs.len(), 2, "There should be 2 inputs");
        },
        _ => panic!("There was a recipient, we should be ready to send a message"),
    }
}

/// The fee-exceeds-amount veto applies only when the prevent flag is
/// set.
#[test]
fn fee_greater_than_amount_veto() {
    let mut km = seeded_manager(47);
    let constants = ConsensusConstants::new();
    let mut builder = SenderTransactionInitializer::new(&constants);
    builder.with_lock_height(0);
    let (input, _) = make_output(&mut km, 5000);
    builder.with_input(input, &mut km).unwrap();
    give_change_data(&mut builder, &mut km);
    builder.with_fee_per_gram(MicroTari(2));
    let nonce = CoreKeyManagerBranch::Nonce.get_branch_key();
    let (recipient_offset, _) = km.get_next_key_id(nonce.as_str()).unwrap();
    builder
        .with_recipient_data(
            TariScript::script_nop(),
            recipient_offset,
            OutputFeatures::default(),
            Covenant::default(),
            MicroTari(0),
            MicroTari(5),
            &mut km,
        )
        .unwrap();
    let err = builder.build(&mut km).unwrap_err();
    assert_eq!(err.reason, BuildErrorReason::FeeGreaterThanAmount);
    let mut builder = err.builder;
    builder.with_prevent_fee_gt_amount(false);
    assert!(builder.build(&mut km).is_ok());
}

/// An explicitly supplied transaction id is kept.
#[test]
fn explicit_tx_id_is_kept() {
    let mut km = seeded_manager(48);
    let constants = ConsensusConstants::new();
    let mut builder = SenderTransactionInitializer::new(&constants);
    builder.with_lock_height(0);
    builder.with_tx_id(TxId(987654321));
    let (input, _) = make_output(&mut km, 5000);
    builder.with_input(input, &mut km).unwrap();
    give_change_data(&mut builder, &mut km);
    builder.with_fee_per_gram(MicroTari(2));
    builder.with_prevent_fee_gt_amount(false);
    let result = builder.build(&mut km).unwrap();
    match result.into_state() {
        SenderState::Finalizing(info) => {
            assert_eq!(info.tx_id, TxId(987654321));
        },
        _ => panic!("There were no recipients, so we should be finalizing"),
    }
}

/// Each remaining failure reason has an input that triggers it.
#[test]
fn remaining_error_variants_are_reachable() {
    let mut km = seeded_manager(49);
    let constants = ConsensusConstants::new();

    // Only the lock height missing.
    let mut builder = SenderTransactionInitializer::new(&constants);
    builder.with_fee_per_gram(MicroTari(1));
    let err = builder.build(&mut km).unwrap_err();
    assert_eq!(err.reason.message(), "Missing Lock Height");

    // Only the fee per gram missing.
    let mut builder = SenderTransactionInitializer::new(&constants);
    builder.with_lock_height(0);
    let err = builder.build(&mut km).unwrap_err();
    assert_eq!(err.reason.message(), "Missing Fee per gram");

    // No inputs at all.
    let mut builder = SenderTransactionInitializer::new(&constants);
    builder.with_lock_height(0);
    builder.with_fee_per_gram(MicroTari(1));
    let err = builder.build(&mut km).unwrap_err();
    assert_eq!(err.reason, BuildErrorReason::NoInputs);
    assert_eq!(err.reason.message(), "A transaction cannot have zero inputs");

    // A change amount that cannot fit the amount type.
    let mut builder = SenderTransactionInitializer::new(&constants);
    builder.with_lock_height(0);
    builder.with_fee_per_gram(MicroTari(1));
    builder.with_tx_id(TxId(1));
    builder.with_input(cheap_output(u64::MAX, 1), &mut km).unwrap();
    builder.with_input(cheap_output(u64::MAX, 2), &mut km).unwrap();
    give_change_data(&mut builder, &mut km);
    let err = builder.build(&mut km).unwrap_err();
    assert_eq!(err.reason, BuildErrorReason::AmountOverflow);

    // Change keys that the manager cannot resolve surface as a
    // cryptographic failure.
    let mut builder = SenderTransactionInitializer::new(&constants);
    builder.with_lock_height(0);
    builder.with_fee_per_gram(MicroTari(2));
    builder.with_tx_id(TxId(2));
    let (input, _) = make_output(&mut km, 50000);
    builder.with_input(input, &mut km).unwrap();
    let bad_id = KeyId::Managed { branch: "unregistered".to_string(), index: 1 };
    builder.with_change_data(
        TariScript::script_nop(),
        ExecutionStack::default(),
        bad_id.clone(),
        bad_id.clone(),
        bad_id,
        Covenant::default(),
    );
    let err = builder.build(&mut km).unwrap_err();
    assert!(matches!(err.reason, BuildErrorReason::Crypto(_)));
}

/// The receiver's text message is carried into the snapshot.
#[test]
fn message_is_carried_into_the_snapshot() {
    let mut km = seeded_manager(50);
    let constants = ConsensusConstants::new();
    let mut builder = SenderTransactionInitializer::new(&constants);
    builder.with_lock_height(0);
    builder.with_fee_per_gram(MicroTari(2));
    builder.with_message("for the rainy day".to_string());
    builder.with_prevent_fee_gt_amount(false);
    let (input, _) = make_output(&mut km, 5000);
    builder.with_input(input, &mut km).unwrap();
    give_change_data(&mut builder, &mut km);
    let result = builder.build(&mut km).unwrap();
    match result.into_state() {
        SenderState::Finalizing(info) => {
            assert_eq!(info.text_message, "for the rainy day");
        },
        _ => panic!("There were no recipients, so we should be finalizing"),
    }
}

/// The output bound counts every sender-added output, change or not:
/// one over the maximum is refused even when no change is owed.
#[test]
fn too_many_outputs_without_change() {
    let mut km = seeded_manager(51);
    let constants = ConsensusConstants::new();
    let n: u64 = wallet_core::transaction_initializer::MAX_TRANSACTION_OUTPUTS as u64 + 1;
    let fee_model = wallet_core::fee::Fee::new(constants.transaction_weight());
    let expected_fee = fee_model.calculate(
        MicroTari(1),
        1,
        1,
        n as usize,
        size_for_default_features_and_scripts(n as usize),
    );
    let mut builder = SenderTransactionInitializer::new(&constants);
    builder.with_lock_height(0);
    builder.with_fee_per_gram(MicroTari(1));
    builder.with_tx_id(TxId(3));
    let mut i: u64 = 0;
    while i < n {
        builder
            .with_output(cheap_output(10, 2000 + i), KeyId::Zero, &mut km)
            .unwrap();
        i += 1;
    }
    // The input covers the outputs and fee exactly, so no change is
    // owed; the bound must still apply.
    builder
        .with_input(cheap_output(10 * n + expected_fee.0, 4000), &mut km)
        .unwrap();
    let err = builder.build(&mut km).unwrap_err();
    assert_eq!(err.reason, BuildErrorReason::TooManyOutputs);
    assert_eq!(err.reason.message(), "Too many outputs in transaction");
}
