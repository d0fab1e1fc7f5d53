//! Transaction components: versions, output features, scripts,
//! covenants, encrypted recovery data and outputs under key-manager
//! custody.

use vstd::prelude::*;

use crate::amount::MicroTari;
use crate::byte_codec::push_bytes;
use crate::byte_codec::push_u64_le;
use crate::byte_codec::spec_u64_le;
use crate::byte_codec::sub_bytes;
use crate::crypto_ops::blake2b_hash;
use crate::crypto_ops::hash64_of;
use crate::key_id::KeyId;
use crate::key_manager::KeyManagerError;
use crate::signature::ComAndPubSignature;
use crate::types::Commitment;
use crate::types::PublicKey;

verus! {

/// The errors of the transaction-level cryptographic operations: a
/// key-resolution failure carries the key manager's reason; a
/// cryptographic verification failure (commitment mismatch, failed
/// decryption or authentication) is reported distinctly and never
/// silently ignored.
#[derive(Clone, Copy, Debug, PartialEq, Eq, Structural)]
pub enum TransactionError {
    /// A key id could not be resolved.
    KeyManager(KeyManagerError),
    /// A commitment did not match or authenticated decryption failed.
    CryptoVerificationFailure,
    /// The range-proof backend rejected the proof construction.
    RangeProofConstructionFailure,
    /// The value lies outside the provable range.
    ValueOutsideRange,
}

/// The serialization version of a transaction output.
#[derive(Clone, Copy, Debug, PartialEq, Eq, Structural)]
pub enum TransactionOutputVersion {
    V0,
}

impl TransactionOutputVersion {
    /// The version new outputs are built with.
    pub fn get_current_version() -> (r: TransactionOutputVersion)
        ensures
            r == TransactionOutputVersion::V0,
    {
        TransactionOutputVersion::V0
    }

    /// The version byte mixed into challenges.
    pub fn as_u8(&self) -> (r: u8)
        ensures
            r == self.spec_as_u8(),
    {
        match self {
            TransactionOutputVersion::V0 => 0,
        }
    }

    /// The version byte mixed into challenges.
    pub open spec fn spec_as_u8(self) -> u8 {
        match self {
            TransactionOutputVersion::V0 => 0,
        }
    }
}

/// The serialization version of a transaction input.
#[derive(Clone, Copy, Debug, PartialEq, Eq, Structural)]
pub enum TransactionInputVersion {
    V0,
}

impl TransactionInputVersion {
    /// The version new inputs are built with.
    pub fn get_current_version() -> (r: TransactionInputVersion)
        ensures
            r == TransactionInputVersion::V0,
    {
        TransactionInputVersion::V0
    }

    /// The version byte mixed into challenges.
    pub fn as_u8(&self) -> (r: u8)
        ensures
            r == self.spec_as_u8(),
    {
        match self {
            TransactionInputVersion::V0 => 0,
        }
    }

    /// The version byte mixed into challenges.
    pub open spec fn spec_as_u8(self) -> u8 {
        match self {
            TransactionInputVersion::V0 => 0,
        }
    }
}

/// The serialization version of a transaction kernel.
#[derive(Clone, Copy, Debug, PartialEq, Eq, Structural)]
pub enum TransactionKernelVersion {
    V0,
}

impl TransactionKernelVersion {
    /// The version new kernels are built with.
    pub fn get_current_version() -> (r: TransactionKernelVersion)
        ensures
            r == TransactionKernelVersion::V0,
    {
        TransactionKernelVersion::V0
    }

    /// The version byte mixed into challenges.
    pub fn as_u8(&self) -> (r: u8)
        ensures
            r == self.spec_as_u8(),
    {
        match self {
            TransactionKernelVersion::V0 => 0,
        }
    }

    /// The version byte mixed into challenges.
    pub open spec fn spec_as_u8(self) -> u8 {
        match self {
            TransactionKernelVersion::V0 => 0,
        }
    }
}

/// The kind of kernel a transaction carries, as a bit set.
#[derive(Clone, Copy, Debug, PartialEq, Eq, Structural)]
pub struct KernelFeatures {
    pub bits: u8,
}

impl KernelFeatures {
    /// No feature bits set: a plain transaction kernel.
    pub fn empty() -> (r: KernelFeatures)
        ensures
            r.bits == 0,
    {
        KernelFeatures { bits: 0 }
    }

    /// The coinbase kernel bit.
    pub fn create_coinbase() -> (r: KernelFeatures)
        ensures
            r.bits == 1,
    {
        KernelFeatures { bits: 1 }
    }

    /// The burn kernel bit.
    pub fn create_burn() -> (r: KernelFeatures)
        ensures
            r.bits == 2,
    {
        KernelFeatures { bits: 2 }
    }
}

/// Which kind of range proof an output carries.
#[derive(Clone, Copy, Debug, PartialEq, Eq, Structural)]
pub enum RangeProofType {
    /// A zero-knowledge bulletproof over the committed value.
    BulletProofPlus,
    /// No proof: the minimum value promise reveals the value.
    RevealedValue,
}

/// The role an output plays on the ledger.
#[derive(Clone, Copy, Debug, PartialEq, Eq, Structural)]
pub enum OutputType {
    Payment,
    Coinbase,
    Burn,
}

/// The immutable features of a transaction output.
#[derive(Clone, Debug, PartialEq, Eq)]
pub struct OutputFeatures {
    pub version: u8,
    pub output_type: OutputType,
    pub maturity: u64,
    pub coinbase_extra: Vec<u8>,
    pub range_proof_type: RangeProofType,
}

impl OutputFeatures {
    /// The serialized size: one byte each for version, output type and
    /// range-proof type, eight for maturity, and the length-prefixed
    /// extra field.
    pub open spec fn spec_serialized_size(self) -> int {
        12 + self.coinbase_extra@.len() as int
    }

    /// The serialized size of these features.
    pub fn get_serialized_size(&self) -> (r: usize)
        requires
            self.coinbase_extra@.len() <= usize::MAX - 12,
        ensures
            r == self.spec_serialized_size(),
    {
        12 + self.coinbase_extra.len()
    }

    /// Features for a coinbase output maturing at the given height.
    pub fn create_coinbase(maturity_height: u64, extra: Option<Vec<u8>>) -> (r: OutputFeatures)
        ensures
            r.output_type == OutputType::Coinbase,
            r.maturity == maturity_height,
            r.range_proof_type == RangeProofType::RevealedValue,
    {
        let coinbase_extra: Vec<u8> = match extra {
            Some(e) => e,
            None => Vec::new(),
        };
        OutputFeatures {
            version: 0,
            output_type: OutputType::Coinbase,
            maturity: maturity_height,
            coinbase_extra,
            range_proof_type: RangeProofType::RevealedValue,
        }
    }
}

impl Default for OutputFeatures {
    /// Plain payment features: no maturity, no extra data, a
    /// bulletproof range proof.
    fn default() -> (r: OutputFeatures)
        ensures
            r.version == 0,
            r.output_type == OutputType::Payment,
            r.maturity == 0,
            r.coinbase_extra@.len() == 0,
            r.range_proof_type == RangeProofType::BulletProofPlus,
    {
        OutputFeatures {
            version: 0,
            output_type: OutputType::Payment,
            maturity: 0,
            coinbase_extra: Vec::new(),
            range_proof_type: RangeProofType::BulletProofPlus,
        }
    }
}

/// A spending script, carried as its serialized bytes; script execution
/// is outside this crate's scope.
#[derive(Clone, Debug, PartialEq, Eq)]
pub struct TariScript {
    pub bytes: Vec<u8>,
}

impl TariScript {
    /// The default one-opcode script.
    pub fn script_nop() -> (r: TariScript)
        ensures
            r.bytes@.len() == 1,
    {
        let mut bytes: Vec<u8> = Vec::new();
        bytes.push(0x73);
        TariScript { bytes }
    }

    /// The serialized size of this script.
    pub fn get_serialized_size(&self) -> (r: usize)
        ensures
            r == self.bytes@.len(),
    {
        self.bytes.len()
    }
}

impl Default for TariScript {
    /// The default script is the one-opcode script.
    fn default() -> (r: TariScript)
        ensures
            r.bytes@.len() == 1,
    {
        TariScript::script_nop()
    }
}

/// The execution-stack input data of a script, as serialized bytes.
#[derive(Clone, Debug, PartialEq, Eq)]
pub struct ExecutionStack {
    pub bytes: Vec<u8>,
}

impl Default for ExecutionStack {
    /// An empty execution stack.
    fn default() -> (r: ExecutionStack)
        ensures
            r.bytes@.len() == 0,
    {
        ExecutionStack { bytes: Vec::new() }
    }
}

/// A covenant restricting future spends, as serialized bytes; covenant
/// semantics are outside this crate's scope.
#[derive(Clone, Debug, PartialEq, Eq)]
pub struct Covenant {
    pub bytes: Vec<u8>,
}

impl Default for Covenant {
    /// The empty covenant.
    fn default() -> (r: Covenant)
        ensures
            r.bytes@.len() == 0,
    {
        Covenant { bytes: Vec::new() }
    }
}

/// Authenticated-encrypted recovery data: the value and commitment mask
/// of an output, sealed to the recovery key and bound to the
/// commitment.
#[derive(Clone, Debug, PartialEq, Eq)]
pub struct EncryptedData {
    pub bytes: Vec<u8>,
}

impl Default for EncryptedData {
    /// No recovery data.
    fn default() -> (r: EncryptedData)
        ensures
            r.bytes@.len() == 0,
    {
        EncryptedData { bytes: Vec::new() }
    }
}

/// An output under key-manager custody: all the data needed to spend it
/// or to hand it to a counterparty, with every key present only as an
/// opaque key id.
#[derive(Clone, Debug)]
pub struct KeyManagerOutput {
    pub version: TransactionOutputVersion,
    pub value: MicroTari,
    pub spending_key_id: KeyId,
    pub features: OutputFeatures,
    pub script: TariScript,
    pub covenant: Covenant,
    pub input_data: ExecutionStack,
    pub script_key_id: KeyId,
    pub sender_offset_public_key: PublicKey,
    pub metadata_signature: ComAndPubSignature,
    pub script_lock_height: u64,
    pub encrypted_data: EncryptedData,
    pub minimum_value_promise: MicroTari,
}

impl KeyManagerOutput {
    /// The serialized byte size of the output's features and script,
    /// before weight rounding.
    pub open spec fn spec_features_and_scripts_size(self) -> int {
        self.features.spec_serialized_size() + self.script.bytes@.len()
    }

    /// The serialized byte size of the output's features and script,
    /// before weight rounding.
    pub fn features_and_scripts_byte_size(&self) -> (r: usize)
        requires
            self.spec_features_and_scripts_size() <= usize::MAX,
        ensures
            r == self.spec_features_and_scripts_size(),
    {
        self.features.get_serialized_size() + self.script.get_serialized_size()
    }
}

/// The kernel-level metadata of a transaction being built.
#[derive(Clone, Debug, PartialEq, Eq)]
pub struct TransactionMetadata {
    pub fee: MicroTari,
    pub lock_height: u64,
    pub kernel_features: KernelFeatures,
    pub burn_commitment: Option<Commitment>,
}

impl TransactionMetadata {
    /// Metadata for a plain kernel with the given fee and lock height.
    pub fn new_with_features(fee: MicroTari, lock_height: u64, kernel_features: KernelFeatures)
        -> (r: TransactionMetadata)
        ensures
            r.fee == fee,
            r.lock_height == lock_height,
            r.kernel_features == kernel_features,
            r.burn_commitment is None,
    {
        TransactionMetadata { fee, lock_height, kernel_features, burn_commitment: None }
    }
}

/// Domain tag for metadata-signature messages.
pub const TAG_METADATA_MESSAGE: u8 = 14;

/// The byte encoding an output's role.
pub open spec fn spec_output_type_byte(t: OutputType) -> u8 {
    match t {
        OutputType::Payment => 0,
        OutputType::Coinbase => 1,
        OutputType::Burn => 2,
    }
}

/// The byte encoding an output's range-proof kind.
pub open spec fn spec_range_proof_type_byte(t: RangeProofType) -> u8 {
    match t {
        RangeProofType::BulletProofPlus => 0,
        RangeProofType::RevealedValue => 1,
    }
}

/// The byte encoding of output features as mixed into the metadata
/// message: version, type, maturity, range-proof kind, and the
/// length-prefixed extra field.
pub open spec fn spec_features_encoding(f: OutputFeatures) -> Seq<u8> {
    seq![f.version, spec_output_type_byte(f.output_type)] + spec_u64_le(f.maturity) + seq![
        spec_range_proof_type_byte(f.range_proof_type),
        f.coinbase_extra@.len() as u8,
    ] + f.coinbase_extra@
}

/// The byte encoding of the default output features: version 0, a
/// payment output, no maturity, a bulletproof range proof, no extra
/// data.
pub open spec fn spec_default_features_encoding() -> Seq<u8> {
    seq![0u8, 0u8] + spec_u64_le(0) + seq![0u8, 0u8]
}

/// The 32-byte message a metadata signature commits to: a hash binding
/// the output's version, script, encoded features, covenant, encrypted
/// recovery data and minimum value promise.
pub open spec fn spec_metadata_message(
    version: TransactionOutputVersion,
    script: Seq<u8>,
    features_encoding: Seq<u8>,
    covenant: Seq<u8>,
    encrypted_data: Seq<u8>,
    minimum_value_promise: u64,
) -> Seq<u8> {
    hash64_of(
        seq![TAG_METADATA_MESSAGE, version.spec_as_u8()] + spec_u64_le(script.len() as u64) + script
            + features_encoding + spec_u64_le(covenant.len() as u64) + covenant + spec_u64_le(
            encrypted_data.len() as u64,
        ) + encrypted_data + spec_u64_le(minimum_value_promise),
    ).subrange(0, 32)
}

/// Build the 32-byte message an output's metadata signature commits to.
pub fn build_metadata_signature_message(
    version: &TransactionOutputVersion,
    script: &TariScript,
    features: &OutputFeatures,
    covenant: &Covenant,
    encrypted_data: &EncryptedData,
    minimum_value_promise: MicroTari,
) -> (r: Vec<u8>)
    ensures
        r@ == spec_metadata_message(
            *version,
            script.bytes@,
            spec_features_encoding(*features),
            covenant.bytes@,
            encrypted_data.bytes@,
            minimum_value_promise.0,
        ),
        r@.len() == 32,
{
    let mut pre: Vec<u8> = Vec::new();
    pre.push(TAG_METADATA_MESSAGE);
    pre.push(version.as_u8());
    push_u64_le(&mut pre, script.bytes.len() as u64);
    push_bytes(&mut pre, script.bytes.as_slice());
    let ftype: u8 = match features.output_type {
        OutputType::Payment => 0,
        OutputType::Coinbase => 1,
        OutputType::Burn => 2,
    };
    let frpt: u8 = match features.range_proof_type {
        RangeProofType::BulletProofPlus => 0,
        RangeProofType::RevealedValue => 1,
    };
    pre.push(features.version);
    pre.push(ftype);
    push_u64_le(&mut pre, features.maturity);
    pre.push(frpt);
    pre.push(features.coinbase_extra.len() as u8);
    push_bytes(&mut pre, features.coinbase_extra.as_slice());
    push_u64_le(&mut pre, covenant.bytes.len() as u64);
    push_bytes(&mut pre, covenant.bytes.as_slice());
    push_u64_le(&mut pre, encrypted_data.bytes.len() as u64);
    push_bytes(&mut pre, encrypted_data.bytes.as_slice());
    push_u64_le(&mut pre, minimum_value_promise.0);
    proof {
        assert(pre@ =~= seq![TAG_METADATA_MESSAGE, version.spec_as_u8()] + spec_u64_le(
            script.bytes@.len() as u64,
        ) + script.bytes@ + spec_features_encoding(*features) + spec_u64_le(
            covenant.bytes@.len() as u64,
        ) + covenant.bytes@ + spec_u64_le(encrypted_data.bytes@.len() as u64)
            + encrypted_data.bytes@ + spec_u64_le(minimum_value_promise.0));
    }
    let h = blake2b_hash(&pre);
    sub_bytes(&h, 0, 32)
}

} // verus!
