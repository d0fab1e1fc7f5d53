//! The sender-side transaction builder: it accumulates inputs, outputs,
//! change and recipient data, computes the fee and change, constructs
//! the change output, and emits the initial protocol state.
//!
//! `build` consumes the builder; on failure it returns the builder back
//! together with a structured reason, so the caller can add the missing
//! data and try again.

use vstd::prelude::*;

use crate::amount::MicroTari;
use crate::branch::CoreKeyManagerBranch;
use crate::components::build_metadata_signature_message;
use crate::components::spec_default_features_encoding;
use crate::components::spec_features_encoding;
use crate::components::spec_metadata_message;
use crate::components::Covenant;
use crate::components::ExecutionStack;
use crate::components::KernelFeatures;
use crate::components::KeyManagerOutput;
use crate::components::OutputFeatures;
use crate::components::OutputType;
use crate::components::RangeProofType;
use crate::components::TariScript;
use crate::components::TransactionError;
use crate::components::TransactionMetadata;
use crate::components::TransactionOutputVersion;
use crate::crypto_ops::pk_identity;
use crate::crypto_ops::pub_key_of;
use crate::crypto_ops::scalar_from_u64;
use crate::byte_codec::spec_u64_le_32;
use crate::crypto_ops::commit_of;
use crate::crypto_services::ephemeral_commitment_of;
use crate::crypto_services::encrypted_data_of;
use crate::crypto_services::receiver_metadata_sig_of;
use crate::crypto_services::recovery_of;
use crate::crypto_services::sender_metadata_sig_of;
use crate::key_manager::managed_secret_of;
use crate::signature::sig_add_spec;
use crate::signature::SigView;
use crate::fee::spec_fee;
use crate::fee::spec_round_up_size;
use crate::fee::ConsensusConstants;
use crate::fee::Fee;
use crate::fee::FEATURES_AND_SCRIPTS_BYTES_PER_GRAM;
use crate::fee::INPUT_WEIGHT;
use crate::fee::KERNEL_WEIGHT;
use crate::fee::MINIMUM_TRANSACTION_FEE;
use crate::fee::OUTPUT_WEIGHT;
use crate::key_id::spec_key_id_matches;
use crate::key_id::KeyId;
use crate::byte_codec::clone_bytes;
use crate::key_manager::lemma_secret_of_depends;
use crate::key_manager::KeyManagerCore;
use crate::key_manager::KeyManagerError;
use crate::sender::calculate_tx_id;
use crate::sender::spec_tx_id_of;
use crate::sender::OutputPair;
use crate::sender::RawTransactionInfo;
use crate::sender::SenderState;
use crate::sender::SenderTransactionProtocol;
use crate::sender::TxId;
use crate::signature::Signature;
use crate::types::Commitment;
use crate::types::PrivateKey;
use crate::types::PublicKey;

verus! {

/// The most inputs a transaction may have; a sane bound against
/// overflow attacks.
pub const MAX_TRANSACTION_INPUTS: usize = 500;
/// The most sender-added outputs (including change) a transaction may
/// have.
pub const MAX_TRANSACTION_OUTPUTS: usize = 100;

/// The data needed to construct the change output lazily, only if
/// change is owed.
#[derive(Clone, Debug)]
pub struct ChangeDetails {
    pub change_secret_key_id: KeyId,
    pub change_script: TariScript,
    pub change_input_data: ExecutionStack,
    pub change_script_key_id: KeyId,
    pub change_sender_offset_key_id: KeyId,
    pub change_covenant: Covenant,
}

/// The data needed for a non-self recipient; absent for self-spends.
#[derive(Clone, Debug)]
pub struct RecipientDetails {
    pub amount: MicroTari,
    pub recipient_output_features: OutputFeatures,
    pub recipient_script: TariScript,
    pub recipient_sender_offset_key_id: KeyId,
    pub recipient_covenant: Covenant,
    pub recipient_minimum_value_promise: MicroTari,
    pub recipient_ephemeral_public_key_nonce: KeyId,
}

/// Why `build` failed.
#[derive(Clone, Copy, Debug, PartialEq, Eq, Structural)]
pub enum BuildErrorReason {
    /// A required field was never provided; each flag names one.
    ConfigurationIncomplete { missing_lock_height: bool, missing_fee_per_gram: bool },
    /// A transaction cannot have zero inputs.
    NoInputs,
    /// More inputs than the fixed maximum.
    TooManyInputs,
    /// More sender outputs (including change) than the fixed maximum.
    TooManyOutputs,
    /// The inputs cover less than the outputs plus the fee.
    InsufficientFunds { required: u128, provided: u128 },
    /// Change is owed but no change data was provided.
    ChangeDataMissing,
    /// The total fee is below the minimum transaction fee.
    FeeTooLow,
    /// The fee exceeds the amount sent and the prevent flag is set.
    FeeGreaterThanAmount,
    /// A money amount overflowed the amount type.
    AmountOverflow,
    /// A key-manager or cryptographic operation failed.
    Crypto(TransactionError),
}

impl BuildErrorReason {
    /// The message text of this reason.
    pub open spec fn spec_message(self) -> Seq<char> {
        match self {
            BuildErrorReason::ConfigurationIncomplete {
                missing_lock_height,
                missing_fee_per_gram,
            } => if missing_lock_height && missing_fee_per_gram {
                "Missing Lock Height,Missing Fee per gram"@
            } else if missing_lock_height {
                "Missing Lock Height"@
            } else {
                "Missing Fee per gram"@
            },
            BuildErrorReason::NoInputs => "A transaction cannot have zero inputs"@,
            BuildErrorReason::TooManyInputs => "Too many inputs in transaction"@,
            BuildErrorReason::TooManyOutputs => "Too many outputs in transaction"@,
            BuildErrorReason::InsufficientFunds { .. } => "You are spending more than you're providing."@,
            BuildErrorReason::ChangeDataMissing => "Change data was not provided"@,
            BuildErrorReason::FeeTooLow => "Fee is less than the minimum"@,
            BuildErrorReason::FeeGreaterThanAmount => "Fee is greater than amount"@,
            BuildErrorReason::AmountOverflow => "Amount overflowed"@,
            BuildErrorReason::Crypto(_) => "Key manager operation failed"@,
        }
    }

    /// The message text of this reason.
    pub fn message(&self) -> (r: String)
        ensures
            r@ == self.spec_message(),
    {
        match self {
            BuildErrorReason::ConfigurationIncomplete {
                missing_lock_height,
                missing_fee_per_gram,
            } => {
                if *missing_lock_height && *missing_fee_per_gram {
                    "Missing Lock Height,Missing Fee per gram".to_owned()
                } else if *missing_lock_height {
                    "Missing Lock Height".to_owned()
                } else {
                    "Missing Fee per gram".to_owned()
                }
            },
            BuildErrorReason::NoInputs => "A transaction cannot have zero inputs".to_owned(),
            BuildErrorReason::TooManyInputs => "Too many inputs in transaction".to_owned(),
            BuildErrorReason::TooManyOutputs => "Too many outputs in transaction".to_owned(),
            BuildErrorReason::InsufficientFunds { .. } => "You are spending more than you're providing.".to_owned(),
            BuildErrorReason::ChangeDataMissing => "Change data was not provided".to_owned(),
            BuildErrorReason::FeeTooLow => "Fee is less than the minimum".to_owned(),
            BuildErrorReason::FeeGreaterThanAmount => "Fee is greater than amount".to_owned(),
            BuildErrorReason::AmountOverflow => "Amount overflowed".to_owned(),
            BuildErrorReason::Crypto(_) => "Key manager operation failed".to_owned(),
        }
    }
}

/// A failed `build`: the builder comes back so accumulation can resume,
/// together with the reason.
#[derive(Debug)]
pub struct BuildError {
    pub builder: SenderTransactionInitializer,
    pub reason: BuildErrorReason,
}

/// The sum of the values of a list of attached outputs.
pub open spec fn sum_values(s: Seq<OutputPair>) -> int
    decreases s.len(),
{
    if s.len() == 0 {
        0
    } else {
        sum_values(s.drop_last()) + s.last().output.value.0
    }
}

/// The sum of the weight-rounded features-and-scripts sizes of a list
/// of attached outputs.
pub open spec fn sum_rounded_sizes(s: Seq<OutputPair>) -> int
    decreases s.len(),
{
    if s.len() == 0 {
        0
    } else {
        sum_rounded_sizes(s.drop_last()) + spec_round_up_size(
            s.last().output.spec_features_and_scripts_size(),
        )
    }
}

/// The builder that helps set up the initial state for the sender party
/// of a new transaction.  Accumulate data with the `with_*` methods,
/// then call `build`.
#[derive(Debug)]
pub struct SenderTransactionInitializer {
    pub lock_height: Option<u64>,
    pub fee_per_gram: Option<MicroTari>,
    pub inputs: Vec<OutputPair>,
    pub sender_custom_outputs: Vec<OutputPair>,
    pub change: Option<ChangeDetails>,
    pub recipient: Option<RecipientDetails>,
    pub recipient_text_message: Option<String>,
    pub prevent_fee_gt_amount: bool,
    pub tx_id: Option<TxId>,
    pub kernel_features: KernelFeatures,
    pub burn_commitment: Option<Commitment>,
    pub fee: Fee,
}

impl SenderTransactionInitializer {
    /// The fee-per-gram rate, once provided.
    pub open spec fn spec_fpg(self) -> int {
        self.fee_per_gram.unwrap().0 as int
    }

    /// The number of outputs excluding a possible residual change
    /// output.
    pub open spec fn spec_num_outputs(self) -> int {
        self.sender_custom_outputs@.len() + if self.recipient is Some {
            1int
        } else {
            0int
        }
    }

    /// The rounded features-and-scripts size of everything but change;
    /// a recipient output counts with default features.
    pub open spec fn spec_size_without_change(self) -> int {
        sum_rounded_sizes(self.sender_custom_outputs@) + (match self.recipient {
            Some(r) => spec_round_up_size(12 + r.recipient_script.bytes@.len() as int),
            None => 0,
        })
    }

    /// The fee before any change output is considered.
    pub open spec fn spec_fee_without_change(self) -> int {
        spec_fee(
            self.spec_fpg(),
            1,
            self.inputs@.len() as int,
            self.spec_num_outputs(),
            self.spec_size_without_change(),
        )
    }

    /// The rounded features-and-scripts size of a change output.
    pub open spec fn spec_change_size(self) -> int {
        match self.recipient {
            Some(r) => spec_round_up_size(
                r.recipient_script.bytes@.len() as int
                    + r.recipient_output_features.spec_serialized_size(),
            ),
            None => spec_round_up_size(12),
        }
    }

    /// The marginal fee of adding one change output.
    pub open spec fn spec_change_fee(self) -> int {
        spec_fee(self.spec_fpg(), 0, 0, 1, self.spec_change_size())
    }

    /// The total value of the inputs.
    pub open spec fn spec_total_in(self) -> int {
        sum_values(self.inputs@)
    }

    /// The recipient's amount, or zero for a self-spend.
    pub open spec fn spec_recipient_amount(self) -> int {
        match self.recipient {
            Some(r) => r.amount.0 as int,
            None => 0,
        }
    }

    /// What the inputs must cover: the sender's own outputs, the
    /// recipient's amount, and the fee before change.
    pub open spec fn spec_required(self) -> int {
        sum_values(self.sender_custom_outputs@) + self.spec_recipient_amount()
            + self.spec_fee_without_change()
    }

    /// What remains of the inputs after the required spend; negative
    /// when the funds are insufficient.
    pub open spec fn spec_leftover(self) -> int {
        self.spec_total_in() - self.spec_required()
    }

    /// Whether a change output is created: only when the leftover
    /// exceeds the cost of the extra output, so no dust output is made
    /// that costs more to spend than to create.
    pub open spec fn spec_creates_change(self) -> bool {
        self.spec_leftover() > self.spec_change_fee()
    }

    /// The sender-added output count including the change output, the
    /// count the output bound applies to.
    pub open spec fn spec_total_outputs(self) -> int {
        self.sender_custom_outputs@.len() + if self.spec_creates_change() {
            1int
        } else {
            0int
        }
    }

    /// The value of the change output, when one is created.
    pub open spec fn spec_change_amount(self) -> int {
        if self.spec_creates_change() {
            self.spec_leftover() - self.spec_change_fee()
        } else {
            0
        }
    }

    /// The total fee: the fee before change, plus either the whole
    /// leftover (folded in when it cannot pay for a change output) or
    /// the change output's marginal fee.
    pub open spec fn spec_total_fee(self) -> int {
        self.spec_fee_without_change() + if self.spec_leftover() <= self.spec_change_fee() {
            self.spec_leftover()
        } else {
            self.spec_change_fee()
        }
    }

    /// A fresh builder over the given consensus constants, with nothing
    /// accumulated and the fee-sanity override enabled.
    pub fn new(consensus_constants: &ConsensusConstants) -> (r: SenderTransactionInitializer)
        ensures
            r.lock_height is None,
            r.fee_per_gram is None,
            r.inputs@.len() == 0,
            r.sender_custom_outputs@.len() == 0,
            r.change is None,
            r.recipient is None,
            r.recipient_text_message is None,
            r.prevent_fee_gt_amount == true,
            r.tx_id is None,
            r.kernel_features.bits == 0,
            r.burn_commitment is None,
            r.fee.spec_weighting() == consensus_constants.spec_transaction_weight(),
    {
        SenderTransactionInitializer {
            fee: Fee::new(consensus_constants.transaction_weight()),
            lock_height: None,
            fee_per_gram: None,
            inputs: Vec::new(),
            sender_custom_outputs: Vec::new(),
            change: None,
            recipient_text_message: None,
            prevent_fee_gt_amount: true,
            recipient: None,
            kernel_features: KernelFeatures { bits: 0 },
            burn_commitment: None,
            tx_id: None,
        }
    }

    /// Set the fee per gram of weight.
    pub fn with_fee_per_gram(&mut self, fee_per_gram: MicroTari)
        ensures
            *final(self) == (SenderTransactionInitializer {
                fee_per_gram: Some(fee_per_gram),
                ..*old(self)
            }),
    {
        self.fee_per_gram = Some(fee_per_gram);
    }

    /// Set the minimum block height at which this transaction can be
    /// mined.
    pub fn with_lock_height(&mut self, lock_height: u64)
        ensures
            *final(self) == (SenderTransactionInitializer {
                lock_height: Some(lock_height),
                ..*old(self)
            }),
    {
        self.lock_height = Some(lock_height);
    }

    /// Provide a text message for the receiver.
    pub fn with_message(&mut self, message: String)
        ensures
            *final(self) == (SenderTransactionInitializer {
                recipient_text_message: Some(message),
                ..*old(self)
            }),
    {
        self.recipient_text_message = Some(message);
    }

    /// Select the kernel features to be signed.
    pub fn with_kernel_features(&mut self, features: KernelFeatures)
        ensures
            *final(self) == (SenderTransactionInitializer {
                kernel_features: features,
                ..*old(self)
            }),
    {
        self.kernel_features = features;
    }

    /// Set or clear the burn commitment.
    pub fn with_burn_commitment(&mut self, commitment: Option<Commitment>)
        ensures
            *final(self) == (SenderTransactionInitializer {
                burn_commitment: commitment,
                ..*old(self)
            }),
    {
        self.burn_commitment = commitment;
    }

    /// Enable or disable the failure when the fee exceeds the amount
    /// sent.
    pub fn with_prevent_fee_gt_amount(&mut self, prevent_fee_gt_amount: bool)
        ensures
            *final(self) == (SenderTransactionInitializer {
                prevent_fee_gt_amount: prevent_fee_gt_amount,
                ..*old(self)
            }),
    {
        self.prevent_fee_gt_amount = prevent_fee_gt_amount;
    }

    /// Specify the transaction id; if not provided it is derived
    /// deterministically on build.
    pub fn with_tx_id(&mut self, tx_id: TxId)
        ensures
            *final(self) == (SenderTransactionInitializer { tx_id: Some(tx_id), ..*old(self) }),
    {
        self.tx_id = Some(tx_id);
    }

    /// Provide the data used to construct the change output; the change
    /// amount is computed when the transaction is built.
    pub fn with_change_data(
        &mut self,
        change_script: TariScript,
        change_input_data: ExecutionStack,
        change_script_key_id: KeyId,
        change_secret_key_id: KeyId,
        change_sender_offset_key_id: KeyId,
        change_covenant: Covenant,
    )
        ensures
            final(self).change matches Some(d) && d.change_script == change_script
                && d.change_input_data == change_input_data && d.change_script_key_id
                == change_script_key_id && d.change_secret_key_id == change_secret_key_id
                && d.change_sender_offset_key_id == change_sender_offset_key_id
                && d.change_covenant == change_covenant,
            final(self).lock_height == old(self).lock_height,
            final(self).fee_per_gram == old(self).fee_per_gram,
            final(self).inputs == old(self).inputs,
            final(self).sender_custom_outputs == old(self).sender_custom_outputs,
            final(self).recipient == old(self).recipient,
            final(self).recipient_text_message == old(self).recipient_text_message,
            final(self).prevent_fee_gt_amount == old(self).prevent_fee_gt_amount,
            final(self).tx_id == old(self).tx_id,
            final(self).kernel_features == old(self).kernel_features,
            final(self).burn_commitment == old(self).burn_commitment,
            final(self).fee == old(self).fee,
    {
        self.change = Some(
            ChangeDetails {
                change_secret_key_id,
                change_script,
                change_input_data,
                change_script_key_id,
                change_sender_offset_key_id,
                change_covenant,
            },
        );
    }

    /// Add an input; a fresh kernel-nonce handle is issued for it.
    pub fn with_input(&mut self, input: KeyManagerOutput, km: &mut KeyManagerCore) -> (r: Result<
        (),
        KeyManagerError,
    >)
        requires
            old(km).wf(),
        ensures
            final(km).wf(),
            final(km).seed_view() == old(km).seed_view(),
            final(km).imported_view() == old(km).imported_view(),
            forall|b2: Seq<char>|
                b2 != CoreKeyManagerBranch::Nonce.spec_branch_key() ==> final(km).branch_index(b2)
                    == old(km).branch_index(b2),
            r is Err ==> *final(self) == *old(self),
            old(km).branch_index(CoreKeyManagerBranch::Nonce.spec_branch_key()) is None ==> r
                == Err::<(), KeyManagerError>(KeyManagerError::UnknownKeyBranch) && *final(km)
                == *old(km),
            old(km).branch_index(CoreKeyManagerBranch::Nonce.spec_branch_key()) matches Some(i)
                ==> {
                &&& i == u64::MAX ==> r == Err::<(), KeyManagerError>(
                    KeyManagerError::IndexExhausted,
                ) && *final(km) == *old(km)
                &&& i < u64::MAX ==> r is Ok && final(km).branch_index(
                    CoreKeyManagerBranch::Nonce.spec_branch_key(),
                ) == Some((i + 1) as u64) && final(self).inputs@.last().kernel_nonce.is_managed(
                    CoreKeyManagerBranch::Nonce.spec_branch_key(),
                    (i + 1) as u64,
                )
            },
            r is Ok ==> final(self).inputs@.len() == old(self).inputs@.len() + 1
                && final(self).inputs@.subrange(0, old(self).inputs@.len() as int)
                == old(self).inputs@ && final(self).inputs@.last().output == input
                && final(self).inputs@.last().sender_offset_key_id is None,
            final(self).lock_height == old(self).lock_height,
            final(self).fee_per_gram == old(self).fee_per_gram,
            final(self).sender_custom_outputs == old(self).sender_custom_outputs,
            final(self).change == old(self).change,
            final(self).recipient == old(self).recipient,
            final(self).recipient_text_message == old(self).recipient_text_message,
            final(self).prevent_fee_gt_amount == old(self).prevent_fee_gt_amount,
            final(self).tx_id == old(self).tx_id,
            final(self).kernel_features == old(self).kernel_features,
            final(self).burn_commitment == old(self).burn_commitment,
    {
        let branch: String = CoreKeyManagerBranch::Nonce.get_branch_key();
        let (nonce_id, _pk) = match km.get_next_key_id(branch.as_str()) {
            Ok(p) => p,
            Err(e) => {
                return Err(e);
            },
        };
        let pair = OutputPair { output: input, kernel_nonce: nonce_id, sender_offset_key_id: None };
        self.inputs.push(pair);
        proof {
            assert(self.inputs@.subrange(0, old(self).inputs@.len() as int) =~= old(self).inputs@);
        }
        Ok(())
    }

    /// Add a sender output; a fresh kernel-nonce handle is issued for
    /// it.
    pub fn with_output(
        &mut self,
        output: KeyManagerOutput,
        sender_offset_key_id: KeyId,
        km: &mut KeyManagerCore,
    ) -> (r: Result<(), KeyManagerError>)
        requires
            old(km).wf(),
        ensures
            final(km).wf(),
            final(km).seed_view() == old(km).seed_view(),
            final(km).imported_view() == old(km).imported_view(),
            forall|b2: Seq<char>|
                b2 != CoreKeyManagerBranch::Nonce.spec_branch_key() ==> final(km).branch_index(b2)
                    == old(km).branch_index(b2),
            r is Err ==> *final(self) == *old(self),
            old(km).branch_index(CoreKeyManagerBranch::Nonce.spec_branch_key()) is None ==> r
                == Err::<(), KeyManagerError>(KeyManagerError::UnknownKeyBranch) && *final(km)
                == *old(km),
            old(km).branch_index(CoreKeyManagerBranch::Nonce.spec_branch_key()) matches Some(i)
                ==> {
                &&& i == u64::MAX ==> r == Err::<(), KeyManagerError>(
                    KeyManagerError::IndexExhausted,
                ) && *final(km) == *old(km)
                &&& i < u64::MAX ==> r is Ok && final(km).branch_index(
                    CoreKeyManagerBranch::Nonce.spec_branch_key(),
                ) == Some((i + 1) as u64) && final(self)
                    .sender_custom_outputs@.last().kernel_nonce.is_managed(
                    CoreKeyManagerBranch::Nonce.spec_branch_key(),
                    (i + 1) as u64,
                )
            },
            r is Ok ==> final(self).sender_custom_outputs@.len()
                == old(self).sender_custom_outputs@.len() + 1
                && final(self).sender_custom_outputs@.subrange(
                0,
                old(self).sender_custom_outputs@.len() as int,
            ) == old(self).sender_custom_outputs@
                && final(self).sender_custom_outputs@.last().output == output
                && final(self).sender_custom_outputs@.last().sender_offset_key_id == Some(
                sender_offset_key_id,
            ),
            final(self).lock_height == old(self).lock_height,
            final(self).fee_per_gram == old(self).fee_per_gram,
            final(self).inputs == old(self).inputs,
            final(self).change == old(self).change,
            final(self).recipient == old(self).recipient,
            final(self).recipient_text_message == old(self).recipient_text_message,
            final(self).prevent_fee_gt_amount == old(self).prevent_fee_gt_amount,
            final(self).tx_id == old(self).tx_id,
            final(self).kernel_features == old(self).kernel_features,
            final(self).burn_commitment == old(self).burn_commitment,
    {
        let branch: String = CoreKeyManagerBranch::Nonce.get_branch_key();
        let (nonce_id, _pk) = match km.get_next_key_id(branch.as_str()) {
            Ok(p) => p,
            Err(e) => {
                return Err(e);
            },
        };
        let pair = OutputPair {
            output,
            kernel_nonce: nonce_id,
            sender_offset_key_id: Some(sender_offset_key_id),
        };
        self.sender_custom_outputs.push(pair);
        proof {
            assert(self.sender_custom_outputs@.subrange(
                0,
                old(self).sender_custom_outputs@.len() as int,
            ) =~= old(self).sender_custom_outputs@);
        }
        Ok(())
    }

    /// Set the recipient's script, keys, features, covenant, minimum
    /// value promise and amount; a fresh ephemeral-nonce handle is
    /// issued for the recipient at the same time.
    pub fn with_recipient_data(
        &mut self,
        recipient_script: TariScript,
        recipient_sender_offset_key_id: KeyId,
        recipient_output_features: OutputFeatures,
        recipient_covenant: Covenant,
        recipient_minimum_value_promise: MicroTari,
        amount: MicroTari,
        km: &mut KeyManagerCore,
    ) -> (r: Result<(), KeyManagerError>)
        requires
            old(km).wf(),
        ensures
            final(km).wf(),
            final(km).seed_view() == old(km).seed_view(),
            final(km).imported_view() == old(km).imported_view(),
            forall|b2: Seq<char>|
                b2 != CoreKeyManagerBranch::Nonce.spec_branch_key() ==> final(km).branch_index(b2)
                    == old(km).branch_index(b2),
            r is Err ==> *final(self) == *old(self),
            old(km).branch_index(CoreKeyManagerBranch::Nonce.spec_branch_key()) is None ==> r
                == Err::<(), KeyManagerError>(KeyManagerError::UnknownKeyBranch) && *final(km)
                == *old(km),
            old(km).branch_index(CoreKeyManagerBranch::Nonce.spec_branch_key()) matches Some(i)
                ==> {
                &&& i == u64::MAX ==> r == Err::<(), KeyManagerError>(
                    KeyManagerError::IndexExhausted,
                ) && *final(km) == *old(km)
                &&& i < u64::MAX ==> r is Ok && final(km).branch_index(
                    CoreKeyManagerBranch::Nonce.spec_branch_key(),
                ) == Some((i + 1) as u64) && (final(self).recipient matches Some(d)
                    && d.recipient_ephemeral_public_key_nonce.is_managed(
                    CoreKeyManagerBranch::Nonce.spec_branch_key(),
                    (i + 1) as u64,
                ))
            },
            r is Ok ==> (final(self).recipient matches Some(d) && d.amount == amount
                && d.recipient_script == recipient_script && d.recipient_sender_offset_key_id
                == recipient_sender_offset_key_id && d.recipient_output_features
                == recipient_output_features && d.recipient_covenant == recipient_covenant
                && d.recipient_minimum_value_promise == recipient_minimum_value_promise),
            final(self).lock_height == old(self).lock_height,
            final(self).fee_per_gram == old(self).fee_per_gram,
            final(self).inputs == old(self).inputs,
            final(self).sender_custom_outputs == old(self).sender_custom_outputs,
            final(self).change == old(self).change,
            final(self).recipient_text_message == old(self).recipient_text_message,
            final(self).prevent_fee_gt_amount == old(self).prevent_fee_gt_amount,
            final(self).tx_id == old(self).tx_id,
            final(self).kernel_features == old(self).kernel_features,
            final(self).burn_commitment == old(self).burn_commitment,
    {
        let branch: String = CoreKeyManagerBranch::Nonce.get_branch_key();
        let (nonce_id, _pk) = match km.get_next_key_id(branch.as_str()) {
            Ok(p) => p,
            Err(e) => {
                return Err(e);
            },
        };
        self.recipient = Some(
            RecipientDetails {
                recipient_output_features,
                recipient_script,
                recipient_sender_offset_key_id,
                recipient_covenant,
                recipient_minimum_value_promise,
                recipient_ephemeral_public_key_nonce: nonce_id,
                amount,
            },
        );
        Ok(())
    }

    /// The fee model this builder uses.
    pub fn fee(&self) -> (r: &Fee)
        ensures
            r == self.fee,
    {
        &self.fee
    }
}

/// Round a byte size up to a whole number of grams worth of bytes.
fn round_up_u128(size: u128) -> (r: u128)
    requires
        size <= 0x40000000000000000,
    ensures
        r == spec_round_up_size(size as int),
        r <= usize::MAX,
{
    let gram: u128 = FEATURES_AND_SCRIPTS_BYTES_PER_GRAM as u128;
    let rounded: u128 = ((size + (gram - 1)) / gram) * gram;
    if rounded > usize::MAX as u128 {
        usize::MAX as u128
    } else {
        rounded
    }
}

/// The fee for a transaction shape, computed without intermediate
/// overflow and saturating at `u64::MAX`.
fn fee_u128(fpg: u64, num_kernels: u64, num_inputs: u64, num_outputs: u128, size: u128) -> (r: u128)
    requires
        num_outputs <= 0x20000000000000000,
    ensures
        r == spec_fee(
            fpg as int,
            num_kernels as int,
            num_inputs as int,
            num_outputs as int,
            size as int,
        ),
        r <= u64::MAX,
{
    proof {
        assert((num_kernels as u128) * (KERNEL_WEIGHT as u128) <= 0xffffffffffffffff * 53
            && (num_inputs as u128) * (INPUT_WEIGHT as u128) <= 0xffffffffffffffff * 53
            && num_outputs * (OUTPUT_WEIGHT as u128) <= 0x20000000000000000 * 53)
            by (nonlinear_arith)
            requires
                num_kernels <= 0xffffffffffffffffu64,
                num_inputs <= 0xffffffffffffffffu64,
                num_outputs <= 0x20000000000000000u128,
                KERNEL_WEIGHT <= 53u64,
                INPUT_WEIGHT <= 53u64,
                OUTPUT_WEIGHT <= 53u64,
        ;
        assert(size / (FEATURES_AND_SCRIPTS_BYTES_PER_GRAM as u128) <= size / 16) by {
            assert(FEATURES_AND_SCRIPTS_BYTES_PER_GRAM == 16);
        }
    }
    let w128: u128 = (num_kernels as u128) * (KERNEL_WEIGHT as u128) + (num_inputs as u128) * (
    INPUT_WEIGHT as u128) + num_outputs * (OUTPUT_WEIGHT as u128) + size / (
    FEATURES_AND_SCRIPTS_BYTES_PER_GRAM as u128);
    let w: u128 = if w128 > u64::MAX as u128 {
        u64::MAX as u128
    } else {
        w128
    };
    proof {
        assert((fpg as u128) * w <= u128::MAX) by (nonlinear_arith)
            requires
                fpg <= u64::MAX,
                w <= u64::MAX,
        ;
    }
    let f: u128 = (fpg as u128) * w;
    if f > u64::MAX as u128 {
        u64::MAX as u128
    } else {
        f
    }
}

/// The total value of a list of attached outputs.
fn sum_pair_values(pairs: &Vec<OutputPair>) -> (r: u128)
    ensures
        r == sum_values(pairs@),
        r <= pairs@.len() * 0xffffffffffffffff,
{
    let mut acc: u128 = 0;
    let n: usize = pairs.len();
    let mut i: usize = 0;
    proof {
        assert(pairs@.take(0) =~= Seq::<OutputPair>::empty());
    }
    while i < n
        invariant
            i <= n,
            n == pairs@.len(),
            acc == sum_values(pairs@.take(i as int)),
            acc <= (i as int) * (u64::MAX as int),
        decreases n - i,
    {
        proof {
            assert(pairs@.take(i as int + 1).drop_last() =~= pairs@.take(i as int));
            assert(pairs@.take(i as int + 1).last() == pairs@[i as int]);
            assert((i as int + 1) * (u64::MAX as int) <= 0xffffffffffffffff
                * (u64::MAX as int)) by (nonlinear_arith)
                requires
                    i + 1 <= 0xffffffffffffffff,
            ;
            assert(0xffffffffffffffff * (u64::MAX as int) < 0x100000000000000000000000000000000)
                by (nonlinear_arith);
        }
        acc = acc + (pairs[i].output.value.0 as u128);
        i = i + 1;
    }
    proof {
        assert(pairs@.take(n as int) =~= pairs@);
    }
    acc
}

/// The total weight-rounded features-and-scripts size of a list of
/// attached outputs.
fn sum_pair_rounded_sizes(pairs: &Vec<OutputPair>) -> (r: u128)
    ensures
        r == sum_rounded_sizes(pairs@),
        r <= pairs@.len() * 0x10000000000000000,
{
    let mut acc: u128 = 0;
    let n: usize = pairs.len();
    let mut i: usize = 0;
    proof {
        assert(pairs@.take(0) =~= Seq::<OutputPair>::empty());
    }
    while i < n
        invariant
            i <= n,
            n == pairs@.len(),
            acc == sum_rounded_sizes(pairs@.take(i as int)),
            acc <= (i as int) * 0x10000000000000000,
        decreases n - i,
    {
        proof {
            assert(pairs@.take(i as int + 1).drop_last() =~= pairs@.take(i as int));
            assert(pairs@.take(i as int + 1).last() == pairs@[i as int]);
            assert((i as int + 1) * 0x10000000000000000 <= 0xffffffffffffffff
                * 0x10000000000000000) by (nonlinear_arith)
                requires
                    i + 1 <= 0xffffffffffffffff,
            ;
            assert((i as int + 1) * 0x10000000000000000 == (i as int) * 0x10000000000000000
                + 0x10000000000000000) by (nonlinear_arith);
        }
        let o = &pairs[i].output;
        let sz: u128 = 12 + (o.features.coinbase_extra.len() as u128) + (
        o.script.bytes.len() as u128);
        let rounded: u128 = round_up_u128(sz);
        acc = acc + rounded;
        i = i + 1;
    }
    proof {
        assert(pairs@.take(n as int) =~= pairs@);
    }
    acc
}

/// The metadata signature a change output carries: the receiver half
/// (signed with the change spend key and amount) plus the sender half
/// (signed with the change sender-offset key), over the change
/// output's metadata message, with the ephemeral nonces sub-derived
/// from the two nonce handles issued at indices `nonce_index + 1` and
/// `nonce_index + 2`.
pub open spec fn change_metadata_sig_of(
    seed: Seq<u8>,
    mask: Seq<u8>,
    offset_secret: Seq<u8>,
    nonce_index: u64,
    amount: u64,
    script: Seq<u8>,
    covenant: Seq<u8>,
    recovery_secret: Seq<u8>,
) -> SigView {
    let n_pub = managed_secret_of(
        seed,
        CoreKeyManagerBranch::Nonce.spec_branch_key(),
        (nonce_index + 1) as u64,
    );
    let n_com = managed_secret_of(
        seed,
        CoreKeyManagerBranch::Nonce.spec_branch_key(),
        (nonce_index + 2) as u64,
    );
    let msg = spec_metadata_message(
        TransactionOutputVersion::V0,
        script,
        spec_default_features_encoding(),
        covenant,
        encrypted_data_of(recovery_secret, mask, amount),
        0,
    );
    sig_add_spec(
        receiver_metadata_sig_of(
            mask,
            spec_u64_le_32(amount),
            n_com,
            pub_key_of(offset_secret),
            pub_key_of(n_pub),
            0,
            msg,
            false,
        ),
        sender_metadata_sig_of(
            n_pub,
            offset_secret,
            commit_of(mask, spec_u64_le_32(amount)),
            ephemeral_commitment_of(n_com, false),
            0,
            msg,
        ),
    )
}

/// Build the change output: commit to the change amount under the
/// change key, seal its recovery data, and produce the receiver and
/// sender halves of the metadata signature (the sender plays both
/// roles for its own change), summed into the full signature.  Three
/// fresh nonce handles are issued: the ephemeral public-key nonce, the
/// ephemeral commitment nonce and the change output's kernel nonce.
fn make_change_output(km: &mut KeyManagerCore, change: &ChangeDetails, amount: u64) -> (r: Result<
    OutputPair,
    TransactionError,
>)
    requires
        old(km).wf(),
    ensures
        final(km).wf(),
        final(km).seed_view() == old(km).seed_view(),
        final(km).imported_view() == old(km).imported_view(),
        forall|b2: Seq<char>|
            b2 != CoreKeyManagerBranch::Nonce.spec_branch_key() ==> final(km).branch_index(b2)
                == old(km).branch_index(b2),
        forall|b2: Seq<char>| #[trigger] final(km).has_branch(b2) == old(km).has_branch(b2),
        (old(km).branch_index(CoreKeyManagerBranch::Nonce.spec_branch_key()) matches Some(c) && c
            + 3 <= u64::MAX && old(km).spec_secret_of(change.change_secret_key_id) is Some && old(
            km,
        ).spec_secret_of(change.change_sender_offset_key_id) is Some && old(
            km,
        ).spec_recovery_secret(None) is Some) ==> r is Ok,
        r matches Ok(pair) ==> {
            &&& pair.output.value.0 == amount
            &&& spec_key_id_matches(pair.output.spending_key_id, change.change_secret_key_id)
            &&& pair.output.script.bytes@ == change.change_script.bytes@
            &&& pair.output.input_data.bytes@ == change.change_input_data.bytes@
            &&& spec_key_id_matches(pair.output.script_key_id, change.change_script_key_id)
            &&& pair.output.covenant.bytes@ == change.change_covenant.bytes@
            &&& pair.output.minimum_value_promise.0 == 0
            &&& pair.output.features.output_type == OutputType::Payment
            &&& pair.output.features.maturity == 0
            &&& pair.output.features.range_proof_type == RangeProofType::BulletProofPlus
            &&& (pair.sender_offset_key_id matches Some(k) && spec_key_id_matches(
                k,
                change.change_sender_offset_key_id,
            ))
            &&& (old(km).spec_secret_of(change.change_secret_key_id) matches Some(mask)
                && pair.output.encrypted_data.bytes@ == encrypted_data_of(
                old(km).spec_recovery_secret(None).unwrap(),
                mask,
                amount,
            ))
            &&& pair.output.sender_offset_public_key.bytes@ == pub_key_of(
                old(km).spec_secret_of(change.change_sender_offset_key_id).unwrap(),
            )
            &&& pair.output.metadata_signature.wf()
            &&& pair.output.version == TransactionOutputVersion::V0
            &&& pair.output.features.version == 0
            &&& pair.output.features.coinbase_extra@.len() == 0
            &&& (old(km).branch_index(CoreKeyManagerBranch::Nonce.spec_branch_key())
                matches Some(c) && final(km).branch_index(
                CoreKeyManagerBranch::Nonce.spec_branch_key(),
            ) == Some((c + 3) as u64) && (old(km).spec_secret_of(change.change_secret_key_id)
                matches Some(mask2) && (old(km).spec_secret_of(
                change.change_sender_offset_key_id,
            ) matches Some(y) && pair.output.metadata_signature@ == change_metadata_sig_of(
                old(km).seed_view(),
                mask2,
                y,
                c,
                amount,
                change.change_script.bytes@,
                change.change_covenant.bytes@,
                old(km).spec_recovery_secret(None).unwrap(),
            ) && recovery_of(
                old(km).spec_recovery_secret(None).unwrap(),
                commit_of(mask2, spec_u64_le_32(amount)),
                pair.output.encrypted_data.bytes@,
            ) == Some((amount, mask2)))))
        },
{
    let nonce_branch: String = CoreKeyManagerBranch::Nonce.get_branch_key();
    let (eph_pub_nonce_id, _p1) = match km.get_next_key_id(nonce_branch.as_str()) {
        Ok(p) => p,
        Err(e) => {
            return Err(TransactionError::KeyManager(e));
        },
    };
    let (eph_com_nonce_id, _p2) = match km.get_next_key_id(nonce_branch.as_str()) {
        Ok(p) => p,
        Err(e) => {
            return Err(TransactionError::KeyManager(e));
        },
    };
    let (kernel_nonce_id, _p3) = match km.get_next_key_id(nonce_branch.as_str()) {
        Ok(p) => p,
        Err(e) => {
            return Err(TransactionError::KeyManager(e));
        },
    };
    proof {
        lemma_secret_of_depends(*old(km), *km, change.change_secret_key_id);
        lemma_secret_of_depends(*old(km), *km, change.change_sender_offset_key_id);
    }
    let value_key = PrivateKey::from_value(amount);
    let commitment = match km.get_commitment(&change.change_secret_key_id, &value_key) {
        Ok(c) => c,
        Err(e) => {
            return Err(e);
        },
    };
    let encrypted_data = match km.encrypt_data_for_recovery(&change.change_secret_key_id, None, amount) {
        Ok(d) => d,
        Err(e) => {
            return Err(e);
        },
    };
    let sender_offset_pk = match km.get_public_key_at_key_id(&change.change_sender_offset_key_id) {
        Ok(p) => p,
        Err(e) => {
            return Err(TransactionError::KeyManager(e));
        },
    };
    let eph_pub = match km.get_public_key_at_key_id(&eph_pub_nonce_id) {
        Ok(p) => p,
        Err(e) => {
            return Err(TransactionError::KeyManager(e));
        },
    };
    let version = TransactionOutputVersion::get_current_version();
    let features = OutputFeatures::default();
    let change_script = TariScript { bytes: clone_bytes(&change.change_script.bytes) };
    let change_covenant = Covenant { bytes: clone_bytes(&change.change_covenant.bytes) };
    let change_input_data = ExecutionStack { bytes: clone_bytes(&change.change_input_data.bytes) };
    let msg = build_metadata_signature_message(
        &version,
        &change_script,
        &features,
        &change_covenant,
        &encrypted_data,
        MicroTari(0),
    );
    let receiver = match km.get_receiver_partial_metadata_signature(
        &change.change_secret_key_id,
        &value_key,
        &eph_com_nonce_id,
        &sender_offset_pk,
        &eph_pub,
        &version,
        &msg,
        features.range_proof_type,
    ) {
        Ok(s) => s,
        Err(e) => {
            return Err(e);
        },
    };
    let eph_com = match km.get_metadata_signature_ephemeral_commitment(
        &eph_com_nonce_id,
        features.range_proof_type,
    ) {
        Ok(c) => c,
        Err(e) => {
            return Err(e);
        },
    };
    let sender = match km.get_sender_partial_metadata_signature(
        &eph_pub_nonce_id,
        &change.change_sender_offset_key_id,
        &commitment,
        &eph_com,
        &version,
        &msg,
    ) {
        Ok(s) => s,
        Err(e) => {
            return Err(e);
        },
    };
    let metadata_signature = receiver.add(&sender);
    proof {
        assert(spec_features_encoding(features) =~= spec_default_features_encoding());
    }
    let output = KeyManagerOutput {
        version,
        value: MicroTari(amount),
        spending_key_id: change.change_secret_key_id.clone_id(),
        features,
        script: change_script,
        covenant: change_covenant,
        input_data: change_input_data,
        script_key_id: change.change_script_key_id.clone_id(),
        sender_offset_public_key: sender_offset_pk,
        metadata_signature,
        script_lock_height: 0,
        encrypted_data,
        minimum_value_promise: MicroTari(0),
    };
    Ok(
        OutputPair {
            output,
            kernel_nonce: kernel_nonce_id,
            sender_offset_key_id: Some(change.change_sender_offset_key_id.clone_id()),
        },
    )
}

/// What the raw transaction snapshot must hold after a successful
/// build, relative to the builder and the key-manager state before the
/// build.
pub open spec fn spec_build_info_ok(
    b: SenderTransactionInitializer,
    km_old: KeyManagerCore,
    info: RawTransactionInfo,
) -> bool {
    &&& info.metadata.fee.0 == b.spec_total_fee()
    &&& info.metadata.lock_height == b.lock_height.unwrap()
    &&& info.metadata.kernel_features == b.kernel_features
    &&& info.metadata.burn_commitment == b.burn_commitment
    &&& info.inputs == b.inputs
    &&& info.outputs == b.sender_custom_outputs
    &&& info.recipient_data == b.recipient
    &&& (info.change_output is Some <==> b.spec_creates_change())
    &&& (info.change_output matches Some(pair) ==> {
        &&& pair.output.value.0 == b.spec_change_amount()
        &&& spec_key_id_matches(
            pair.output.spending_key_id,
            b.change.unwrap().change_secret_key_id,
        )
        &&& pair.output.script.bytes@ == b.change.unwrap().change_script.bytes@
        &&& spec_key_id_matches(pair.output.script_key_id, b.change.unwrap().change_script_key_id)
        &&& pair.output.input_data.bytes@ == b.change.unwrap().change_input_data.bytes@
        &&& pair.output.covenant.bytes@ == b.change.unwrap().change_covenant.bytes@
        &&& pair.output.minimum_value_promise.0 == 0
        &&& (pair.sender_offset_key_id matches Some(k) && spec_key_id_matches(
            k,
            b.change.unwrap().change_sender_offset_key_id,
        ))
        &&& (km_old.spec_secret_of(b.change.unwrap().change_secret_key_id) matches Some(mask)
            && pair.output.encrypted_data.bytes@ == encrypted_data_of(
            km_old.spec_recovery_secret(None).unwrap(),
            mask,
            b.spec_change_amount() as u64,
        ))
        &&& pair.output.features.version == 0
        &&& pair.output.features.output_type == OutputType::Payment
        &&& pair.output.features.maturity == 0
        &&& pair.output.features.coinbase_extra@.len() == 0
        &&& pair.output.features.range_proof_type == RangeProofType::BulletProofPlus
        &&& pair.output.sender_offset_public_key.bytes@ == pub_key_of(
            km_old.spec_secret_of(b.change.unwrap().change_sender_offset_key_id).unwrap(),
        )
        &&& (km_old.branch_index(CoreKeyManagerBranch::Nonce.spec_branch_key()) matches Some(c)
            && (km_old.spec_secret_of(b.change.unwrap().change_secret_key_id) matches Some(mask2)
            && (km_old.spec_secret_of(b.change.unwrap().change_sender_offset_key_id)
            matches Some(y) && pair.output.metadata_signature@ == change_metadata_sig_of(
            km_old.seed_view(),
            mask2,
            y,
            c,
            b.spec_change_amount() as u64,
            b.change.unwrap().change_script.bytes@,
            b.change.unwrap().change_covenant.bytes@,
            km_old.spec_recovery_secret(None).unwrap(),
        ) && recovery_of(
            km_old.spec_recovery_secret(None).unwrap(),
            commit_of(mask2, spec_u64_le_32(b.spec_change_amount() as u64)),
            pair.output.encrypted_data.bytes@,
        ) == Some((b.spec_change_amount() as u64, mask2)))))
        &&& pair.output.metadata_signature.wf()
    })
    &&& (b.tx_id matches Some(t) ==> info.tx_id == t)
    &&& (b.tx_id is None ==> info.tx_id.0 == spec_tx_id_of(
        pub_key_of(km_old.spec_secret_of(b.inputs@[0].output.spending_key_id).unwrap()),
        0,
    ))
    &&& info.text_message@ == (match b.recipient_text_message {
        Some(m) => m@,
        None => Seq::<char>::empty(),
    })
}

impl SenderTransactionInitializer {
    /// Construct the initial sender protocol state.  The builder's data
    /// is moved into the result; if anything is missing or invalid, the
    /// builder itself is returned inside the error so accumulation can
    /// resume.  The fee and change follow the consensus fee model: the
    /// leftover of the inputs over the required spend becomes a change
    /// output only when it exceeds the marginal fee of that output;
    /// a smaller leftover is folded into the fee.
    pub fn build(self, km: &mut KeyManagerCore) -> (r: Result<
        SenderTransactionProtocol,
        BuildError,
    >)
        requires
            old(km).wf(),
        ensures
            final(km).wf(),
            final(km).seed_view() == old(km).seed_view(),
            final(km).imported_view() == old(km).imported_view(),
            forall|b2: Seq<char>|
                b2 != CoreKeyManagerBranch::Nonce.spec_branch_key() ==> final(km).branch_index(b2)
                    == old(km).branch_index(b2),
            r matches Err(be) ==> be.builder == self,
            (self.lock_height is None || self.fee_per_gram is None) ==> (r matches Err(be)
                && be.reason == (BuildErrorReason::ConfigurationIncomplete {
                missing_lock_height: self.lock_height is None,
                missing_fee_per_gram: self.fee_per_gram is None,
            })),
            (self.lock_height is Some && self.fee_per_gram is Some) ==> {
                &&& self.inputs@.len() == 0 ==> (r matches Err(be) && be.reason
                    == BuildErrorReason::NoInputs)
                &&& self.inputs@.len() > MAX_TRANSACTION_INPUTS ==> (r matches Err(be) && be.reason
                    == BuildErrorReason::TooManyInputs)
                &&& (1 <= self.inputs@.len() <= MAX_TRANSACTION_INPUTS) ==> {
                    &&& self.spec_leftover() < 0 ==> (r matches Err(be) && be.reason matches
                        BuildErrorReason::InsufficientFunds { required, provided } && required
                        == self.spec_required() && provided == self.spec_total_in())
                    &&& self.spec_leftover() >= 0 ==> {
                        &&& (self.spec_creates_change() && self.change is None) ==> (r matches Err(
                            be,
                        ) && be.reason == BuildErrorReason::ChangeDataMissing)
                        &&& (self.spec_creates_change() ==> self.change is Some) ==> {
                            &&& (self.spec_creates_change() && self.spec_change_amount()
                                > u64::MAX) ==> (r matches Err(be) && be.reason
                                == BuildErrorReason::AmountOverflow)
                            &&& (self.spec_creates_change() ==> self.spec_change_amount()
                                <= u64::MAX) ==> {
                                &&& self.spec_total_fee() > u64::MAX ==> (r matches Err(be)
                                    && be.reason == BuildErrorReason::AmountOverflow)
                                &&& self.spec_total_fee() <= u64::MAX ==> {
                                    &&& self.spec_total_fee() < MINIMUM_TRANSACTION_FEE ==> (r
                                        matches Err(be) && be.reason
                                        == BuildErrorReason::FeeTooLow)
                                    &&& self.spec_total_fee() >= MINIMUM_TRANSACTION_FEE ==> {
                                        &&& self.spec_total_outputs() > MAX_TRANSACTION_OUTPUTS
                                            ==> (r matches Err(be) && be.reason
                                            == BuildErrorReason::TooManyOutputs)
                                        &&& self.spec_total_outputs() <= MAX_TRANSACTION_OUTPUTS
                                            ==> {
                                            &&& (self.recipient is Some && self.spec_total_fee()
                                                > self.spec_recipient_amount()
                                                && self.prevent_fee_gt_amount) ==> (r matches Err(
                                                be,
                                            ) && be.reason
                                                == BuildErrorReason::FeeGreaterThanAmount)
                                            &&& !(self.recipient is Some && self.spec_total_fee()
                                                > self.spec_recipient_amount()
                                                && self.prevent_fee_gt_amount) ==> {
                                                &&& (r matches Err(be) ==> be.reason matches
                                                    BuildErrorReason::Crypto(_))
                                                &&& ((self.spec_creates_change() ==> (old(
                                                    km,
                                                ).branch_index(
                                                    CoreKeyManagerBranch::Nonce.spec_branch_key(),
                                                ) matches Some(c) && c + 3 <= u64::MAX && old(
                                                    km,
                                                ).spec_secret_of(
                                                    self.change.unwrap().change_secret_key_id,
                                                ) is Some && old(km).spec_secret_of(
                                                    self.change.unwrap().change_sender_offset_key_id,
                                                ) is Some && old(km).spec_recovery_secret(None)
                                                    is Some)) && (self.tx_id is Some || old(
                                                    km,
                                                ).spec_secret_of(
                                                    self.inputs@[0].output.spending_key_id,
                                                ) is Some)) ==> r is Ok
                                            }
                                        }
                                    }
                                }
                            }
                        }
                    }
                }
            },
            r matches Ok(p) ==> {
                &&& self.lock_height is Some && self.fee_per_gram is Some
                &&& 1 <= self.inputs@.len() <= MAX_TRANSACTION_INPUTS
                &&& self.spec_leftover() >= 0
                &&& MINIMUM_TRANSACTION_FEE <= self.spec_total_fee() <= u64::MAX
                &&& (self.recipient is None ==> (p.state matches SenderState::Finalizing(info)
                    && spec_build_info_ok(self, *old(km), *info)))
                &&& (self.recipient is Some ==> (p.state matches
                    SenderState::SingleRoundMessageReady(info) && spec_build_info_ok(
                    self,
                    *old(km),
                    *info,
                )))
            },
    {
        let missing_lh: bool = self.lock_height.is_none();
        let missing_fpg: bool = self.fee_per_gram.is_none();
        if missing_lh || missing_fpg {
            let reason = BuildErrorReason::ConfigurationIncomplete {
                missing_lock_height: missing_lh,
                missing_fee_per_gram: missing_fpg,
            };
            return Err(BuildError { builder: self, reason });
        }
        let num_inputs: usize = self.inputs.len();
        if num_inputs == 0 {
            return Err(BuildError { builder: self, reason: BuildErrorReason::NoInputs });
        }
        if num_inputs > MAX_TRANSACTION_INPUTS {
            return Err(BuildError { builder: self, reason: BuildErrorReason::TooManyInputs });
        }
        let fee_per_gram: MicroTari = match self.fee_per_gram {
            Some(f) => f,
            None => MicroTari(0),
        };
        let lock_height: u64 = match self.lock_height {
            Some(l) => l,
            None => 0,
        };
        let n_out: usize = self.sender_custom_outputs.len();
        let custom_sizes: u128 = sum_pair_rounded_sizes(&self.sender_custom_outputs);
        let recipient_size: u128 = match &self.recipient {
            Some(rd) => round_up_u128(12 + (rd.recipient_script.bytes.len() as u128)),
            None => 0,
        };
        proof {
            assert((n_out as int) * 0x10000000000000000 <= 0xffffffffffffffff
                * 0x10000000000000000) by (nonlinear_arith)
                requires
                    (n_out as int) <= 0xffffffffffffffff,
            ;
        }
        let size_without_change: u128 = custom_sizes + recipient_size;
        let num_outputs: u128 = (self.sender_custom_outputs.len() as u128) + (
        if self.recipient.is_some() {
            1u128
        } else {
            0u128
        });
        let fee_without_change: u128 = fee_u128(
            fee_per_gram.0,
            1,
            num_inputs as u64,
            num_outputs,
            size_without_change,
        );
        let change_size: u128 = match &self.recipient {
            Some(rd) => round_up_u128(
                (rd.recipient_script.bytes.len() as u128) + 12 + (
                rd.recipient_output_features.coinbase_extra.len() as u128),
            ),
            None => round_up_u128(12),
        };
        let change_fee: u128 = fee_u128(fee_per_gram.0, 0, 0, 1, change_size);
        let total_in: u128 = sum_pair_values(&self.inputs);
        let total_to_self: u128 = sum_pair_values(&self.sender_custom_outputs);
        let recipient_amount: u128 = match &self.recipient {
            Some(rd) => rd.amount.0 as u128,
            None => 0,
        };
        proof {
            assert((n_out as int) * 0xffffffffffffffff <= 0xffffffffffffffff
                * 0xffffffffffffffff) by (nonlinear_arith)
                requires
                    (n_out as int) <= 0xffffffffffffffff,
            ;
            assert(0xffffffffffffffff * 0xffffffffffffffff + 0xffffffffffffffff
                + 0xffffffffffffffff <= 0xffffffffffffffffffffffffffffffff) by (nonlinear_arith);
        }
        let required: u128 = total_to_self + recipient_amount + fee_without_change;
        if total_in < required {
            return Err(
                BuildError {
                    builder: self,
                    reason: BuildErrorReason::InsufficientFunds { required, provided: total_in },
                },
            );
        }
        let leftover: u128 = total_in - required;
        let creates_change: bool = leftover > change_fee;
        if creates_change && self.change.is_none() {
            return Err(BuildError { builder: self, reason: BuildErrorReason::ChangeDataMissing });
        }
        let change_amount128: u128 = if creates_change {
            leftover - change_fee
        } else {
            0
        };
        if creates_change && change_amount128 > u64::MAX as u128 {
            return Err(BuildError { builder: self, reason: BuildErrorReason::AmountOverflow });
        }
        let total_fee128: u128 = fee_without_change + (
        if leftover <= change_fee {
            leftover
        } else {
            change_fee
        });
        if total_fee128 > u64::MAX as u128 {
            return Err(BuildError { builder: self, reason: BuildErrorReason::AmountOverflow });
        }
        let total_fee: u64 = total_fee128 as u64;
        if total_fee < MINIMUM_TRANSACTION_FEE {
            return Err(BuildError { builder: self, reason: BuildErrorReason::FeeTooLow });
        }
        // The output bound counts the change output.
        if n_out > MAX_TRANSACTION_OUTPUTS || (creates_change && n_out >= MAX_TRANSACTION_OUTPUTS) {
            return Err(BuildError { builder: self, reason: BuildErrorReason::TooManyOutputs });
        }
        let veto: bool = match &self.recipient {
            Some(rd) => self.prevent_fee_gt_amount && total_fee > rd.amount.0,
            None => false,
        };
        if veto {
            return Err(
                BuildError { builder: self, reason: BuildErrorReason::FeeGreaterThanAmount },
            );
        }
        let change_output_pair: Option<OutputPair> = if creates_change {
            let made = match &self.change {
                Some(cd) => make_change_output(km, cd, change_amount128 as u64),
                None => Err(TransactionError::CryptoVerificationFailure),
            };
            match made {
                Ok(pair) => Some(pair),
                Err(e) => {
                    return Err(
                        BuildError { builder: self, reason: BuildErrorReason::Crypto(e) },
                    );
                },
            }
        } else {
            None
        };
        proof {
            lemma_secret_of_depends(*old(km), *km, self.inputs@[0].output.spending_key_id);
        }
        let tx_id: TxId = match self.tx_id {
            Some(t) => t,
            None => {
                let spend_pub = match km.get_public_key_at_key_id(
                    &self.inputs[0].output.spending_key_id,
                ) {
                    Ok(p) => p,
                    Err(e) => {
                        return Err(
                            BuildError {
                                builder: self,
                                reason: BuildErrorReason::Crypto(TransactionError::KeyManager(e)),
                            },
                        );
                    },
                };
                calculate_tx_id(&spend_pub, 0)
            },
        };
        let metadata = TransactionMetadata {
            fee: MicroTari(total_fee),
            lock_height,
            kernel_features: self.kernel_features,
            burn_commitment: self.burn_commitment,
        };
        let text_message: String = match self.recipient_text_message {
            Some(m) => m,
            None => String::new(),
        };
        let info = RawTransactionInfo {
            tx_id,
            recipient_data: self.recipient,
            recipient_output: None,
            recipient_partial_kernel_excess: PublicKey { bytes: pk_identity() },
            recipient_partial_kernel_signature: Signature {
                public_nonce: pk_identity(),
                signature: scalar_from_u64(0),
            },
            recipient_partial_kernel_offset: PrivateKey { bytes: scalar_from_u64(0) },
            change_output: change_output_pair,
            total_sender_nonce: PublicKey { bytes: pk_identity() },
            total_sender_excess: PublicKey { bytes: pk_identity() },
            metadata,
            inputs: self.inputs,
            outputs: self.sender_custom_outputs,
            text_message,
        };
        let state = SenderState::Initializing(Box::new(info));
        let state = state.initialize();
        Ok(SenderTransactionProtocol::from_state(state))
    }
}

} // verus!
