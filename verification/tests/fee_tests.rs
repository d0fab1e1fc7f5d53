//! Tests of the fee and weight model, amounts, transaction ids and
//! metadata messages.

use wallet_core::amount::MicroTari;
use wallet_core::components::build_metadata_signature_message;
use wallet_core::components::Covenant;
use wallet_core::components::EncryptedData;
use wallet_core::components::OutputFeatures;
use wallet_core::components::TariScript;
use wallet_core::components::TransactionOutputVersion;
use wallet_core::fee::ConsensusConstants;
use wallet_core::fee::Fee;
use wallet_core::fee::TransactionWeight;
use wallet_core::fee::MINIMUM_TRANSACTION_FEE;
use wallet_core::output_builder::RecoveryData;
use wallet_core::output_builder::UnblindedOutputBuilder;
use wallet_core::sender::calculate_tx_id;
use wallet_core::types::PrivateKey;
use wallet_core::types::PublicKey;

#[test]
fn weight_is_linear_in_the_shape() {
    let w = TransactionWeight::v1();
    // One kernel, one input, one output, no features bytes.
    assert_eq!(w.calculate(1, 1, 1, 0), 10 + 8 + 53);
    // Sixteen rounded bytes make one extra gram.
    assert_eq!(w.calculate(1, 1, 1, 16), 10 + 8 + 53 + 1);
    assert_eq!(w.calculate(0, 0, 1, 16), 53 + 1);
    assert_eq!(w.calculate(1, 2, 3, 32), 10 + 16 + 159 + 2);
}

#[test]
fn fee_is_weight_times_rate() {
    let fee = Fee::new(TransactionWeight::v1());
    assert_eq!(fee.calculate(MicroTari(1), 1, 1, 1, 0).0, 71);
    assert_eq!(fee.calculate(MicroTari(4), 1, 1, 1, 16).0, 4 * 72);
    assert_eq!(fee.calculate(MicroTari(0), 1, 1, 1, 16).0, 0);
    assert!(MINIMUM_TRANSACTION_FEE > 0);
}

#[test]
fn fee_saturates_instead_of_overflowing() {
    let fee = Fee::new(TransactionWeight::v1());
    let r = fee.calculate(MicroTari(u64::MAX), 1, 1, 1, 0);
    assert_eq!(r.0, u64::MAX);
}

#[test]
fn rounding_goes_up_to_whole_grams() {
    let w = TransactionWeight::v1();
    assert_eq!(w.round_up_features_and_scripts_size(0), 0);
    assert_eq!(w.round_up_features_and_scripts_size(1), 16);
    assert_eq!(w.round_up_features_and_scripts_size(13), 16);
    assert_eq!(w.round_up_features_and_scripts_size(16), 16);
    assert_eq!(w.round_up_features_and_scripts_size(17), 32);
}

#[test]
fn weight_params_expose_the_constants() {
    let params = ConsensusConstants::new().transaction_weight().params();
    assert_eq!(params.kernel_weight, 10);
    assert_eq!(params.input_weight, 8);
    assert_eq!(params.output_weight, 53);
    assert_eq!(params.features_and_scripts_bytes_per_gram, 16);
}

#[test]
fn amounts_use_checked_arithmetic() {
    let a = MicroTari(u64::MAX);
    assert!(a.checked_add(&MicroTari(1)).is_none());
    assert_eq!(a.checked_add(&MicroTari(0)), Some(a));
    assert_eq!(MicroTari(5).checked_sub(&MicroTari(7)), None);
    assert_eq!(MicroTari(7).checked_sub(&MicroTari(5)), Some(MicroTari(2)));
    assert_eq!(MicroTari::zero().as_u64(), 0);
}

#[test]
fn tx_id_is_deterministic_in_its_inputs() {
    let pk_a = PublicKey::from_secret_key(&PrivateKey::from_value(11));
    let pk_b = PublicKey::from_secret_key(&PrivateKey::from_value(12));
    assert_eq!(calculate_tx_id(&pk_a, 0), calculate_tx_id(&pk_a, 0));
    assert_ne!(calculate_tx_id(&pk_a, 0), calculate_tx_id(&pk_a, 1));
    assert_ne!(calculate_tx_id(&pk_a, 0), calculate_tx_id(&pk_b, 0));
}

#[test]
fn metadata_message_binds_every_field() {
    let version = TransactionOutputVersion::get_current_version();
    let script = TariScript::script_nop();
    let features = OutputFeatures::default();
    let covenant = Covenant::default();
    let data = EncryptedData::default();
    let base = build_metadata_signature_message(
        &version,
        &script,
        &features,
        &covenant,
        &data,
        MicroTari(0),
    );
    assert_eq!(base.len(), 32);
    let same = build_metadata_signature_message(
        &version,
        &script,
        &features,
        &covenant,
        &data,
        MicroTari(0),
    );
    assert_eq!(base, same);
    let other_value = build_metadata_signature_message(
        &version,
        &script,
        &features,
        &covenant,
        &data,
        MicroTari(1),
    );
    assert_ne!(base, other_value);
    let other_script = build_metadata_signature_message(
        &version,
        &TariScript { bytes: vec![1, 2, 3] },
        &features,
        &covenant,
        &data,
        MicroTari(0),
    );
    assert_ne!(base, other_script);
}

#[test]
fn key_encodings_are_validated() {
    assert!(PrivateKey::from_canonical_bytes(vec![0u8; 31]).is_none());
    assert!(PrivateKey::from_canonical_bytes(vec![0u8; 32]).is_some());
    // The group order minus nothing: an all-0xff scalar is not
    // canonical.
    assert!(PrivateKey::from_canonical_bytes(vec![0xffu8; 32]).is_none());
    assert!(PublicKey::from_canonical_bytes(vec![0u8; 32]).is_some());
    assert!(PublicKey::from_canonical_bytes(vec![0u8; 31]).is_none());
}

#[test]
fn unblinded_output_builder_seals_recovery_data() {
    let spending_key = PrivateKey::from_value(123456);
    let builder = UnblindedOutputBuilder::new(MicroTari(900), spending_key);
    assert_eq!(builder.value().0, 900);
    let recovery = RecoveryData { encryption_key: PrivateKey::from_value(777) };
    let builder = builder
        .with_script(TariScript::script_nop())
        .with_recovery_and_encrypted_data(recovery);
    // Value and mask sealed with a 16-byte tag over a 40-byte payload.
    assert_eq!(builder.encrypted_data.bytes.len(), 56);
    assert!(builder.script().is_some());
}
