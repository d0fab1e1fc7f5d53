//! A builder for outputs whose secret material is supplied directly,
//! used where outputs are assembled outside key-manager custody.

use vstd::prelude::*;

use crate::amount::MicroTari;
use crate::components::Covenant;
use crate::components::EncryptedData;
use crate::components::ExecutionStack;
use crate::components::OutputFeatures;
use crate::components::OutputType;
use crate::components::RangeProofType;
use crate::components::TariScript;
use crate::crypto_ops::commit_scalars;
use crate::crypto_services::encrypt_data_with_key;
use crate::crypto_services::encrypted_data_of;
use crate::signature::ComAndPubSignature;
use crate::types::Commitment;
use crate::types::PrivateKey;
use crate::types::PublicKey;

verus! {

/// The key under which recovery data is sealed for outputs built
/// outside key-manager custody.
#[derive(Clone, Debug)]
pub struct RecoveryData {
    pub encryption_key: PrivateKey,
}

/// A builder for an output whose spending key is supplied directly.
#[derive(Debug)]
pub struct UnblindedOutputBuilder {
    pub value: MicroTari,
    pub spending_key: PrivateKey,
    pub features: OutputFeatures,
    pub script: Option<TariScript>,
    pub covenant: Covenant,
    pub input_data: Option<ExecutionStack>,
    pub script_private_key: Option<PrivateKey>,
    pub sender_offset_public_key: Option<PublicKey>,
    pub metadata_signature: Option<ComAndPubSignature>,
    pub metadata_signed_by_receiver: bool,
    pub metadata_signed_by_sender: bool,
    pub encrypted_data: EncryptedData,
    pub recovery_data: Option<RecoveryData>,
    pub minimum_value_promise: MicroTari,
}

impl UnblindedOutputBuilder {
    /// A fresh builder for the given value and spending key, with
    /// default features, no script and no signatures.
    pub fn new(value: MicroTari, spending_key: PrivateKey) -> (r: UnblindedOutputBuilder)
        ensures
            r.value == value,
            r.spending_key == spending_key,
            r.features.version == 0,
            r.features.output_type == OutputType::Payment,
            r.features.maturity == 0,
            r.features.coinbase_extra@.len() == 0,
            r.features.range_proof_type == RangeProofType::BulletProofPlus,
            r.covenant.bytes@.len() == 0,
            r.script is None,
            r.input_data is None,
            r.script_private_key is None,
            r.sender_offset_public_key is None,
            r.metadata_signature is None,
            !r.metadata_signed_by_receiver,
            !r.metadata_signed_by_sender,
            r.recovery_data is None,
            r.encrypted_data.bytes@.len() == 0,
            r.minimum_value_promise.0 == 0,
    {
        UnblindedOutputBuilder {
            value,
            spending_key,
            features: OutputFeatures::default(),
            script: None,
            covenant: Covenant::default(),
            input_data: None,
            script_private_key: None,
            sender_offset_public_key: None,
            metadata_signature: None,
            metadata_signed_by_receiver: false,
            metadata_signed_by_sender: false,
            encrypted_data: EncryptedData::default(),
            recovery_data: None,
            minimum_value_promise: MicroTari(0),
        }
    }

    /// Set the sender-offset public key.
    pub fn with_sender_offset_public_key(&mut self, sender_offset_public_key: PublicKey)
        ensures
            *final(self) == (UnblindedOutputBuilder {
                sender_offset_public_key: Some(sender_offset_public_key),
                ..*old(self)
            }),
    {
        self.sender_offset_public_key = Some(sender_offset_public_key);
    }

    /// Set the output features.
    pub fn with_features(self, features: OutputFeatures) -> (r: UnblindedOutputBuilder)
        ensures
            r == (UnblindedOutputBuilder { features, ..self }),
    {
        UnblindedOutputBuilder { features, ..self }
    }

    /// Set the spending script.
    pub fn with_script(self, script: TariScript) -> (r: UnblindedOutputBuilder)
        ensures
            r == (UnblindedOutputBuilder { script: Some(script), ..self }),
    {
        UnblindedOutputBuilder { script: Some(script), ..self }
    }

    /// Set the script input data.
    pub fn with_input_data(self, input_data: ExecutionStack) -> (r: UnblindedOutputBuilder)
        ensures
            r == (UnblindedOutputBuilder { input_data: Some(input_data), ..self }),
    {
        UnblindedOutputBuilder { input_data: Some(input_data), ..self }
    }

    /// Store the recovery data and seal the value and spending key
    /// under it, bound to this output's commitment.
    pub fn with_recovery_and_encrypted_data(self, recovery_data: RecoveryData) -> (r:
        UnblindedOutputBuilder)
        requires
            self.spending_key.wf(),
            recovery_data.encryption_key.wf(),
        ensures
            r.encrypted_data.bytes@ == encrypted_data_of(
                recovery_data.encryption_key.bytes@,
                self.spending_key.bytes@,
                self.value.0,
            ),
            r.recovery_data matches Some(rd) && rd.encryption_key == recovery_data.encryption_key,
            r.value == self.value,
            r.spending_key == self.spending_key,
            r.features == self.features,
            r.script == self.script,
    {
        let value_scalar = PrivateKey::from_value(self.value.0);
        let commitment = Commitment {
            bytes: commit_scalars(&self.spending_key.bytes, &value_scalar.bytes),
        };
        let encrypted_data = encrypt_data_with_key(
            &recovery_data.encryption_key,
            &commitment,
            self.value.0,
            &self.spending_key,
        );
        UnblindedOutputBuilder {
            encrypted_data,
            recovery_data: Some(recovery_data),
            ..self
        }
    }

    /// Set the script private key.
    pub fn with_script_private_key(self, script_private_key: PrivateKey) -> (r:
        UnblindedOutputBuilder)
        ensures
            r == (UnblindedOutputBuilder {
                script_private_key: Some(script_private_key),
                ..self
            }),
    {
        UnblindedOutputBuilder { script_private_key: Some(script_private_key), ..self }
    }

    /// The output's value.
    pub fn value(&self) -> (r: MicroTari)
        ensures
            r == self.value,
    {
        self.value
    }

    /// The output's features.
    pub fn features(&self) -> (r: &OutputFeatures)
        ensures
            r == self.features,
    {
        &self.features
    }

    /// The output's script, if one was provided.
    pub fn script(&self) -> (r: Option<&TariScript>)
        ensures
            r is Some <==> self.script is Some,
            r matches Some(s) ==> s == self.script.unwrap(),
    {
        self.script.as_ref()
    }

    /// The output's covenant.
    pub fn covenant(&self) -> (r: &Covenant)
        ensures
            r == self.covenant,
    {
        &self.covenant
    }
}

} // verus!
