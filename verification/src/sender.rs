//! The sender-side transaction protocol state machine and the raw
//! transaction snapshot the builder emits.

use vstd::prelude::*;

use crate::byte_codec::spec_le_u64;
use crate::byte_codec::spec_u64_le;
use crate::byte_codec::push_bytes;
use crate::byte_codec::push_u64_le;
use crate::byte_codec::read_u64_le;
use crate::components::KeyManagerOutput;
use crate::components::TransactionMetadata;
use crate::crypto_ops::blake2b_hash;
use crate::crypto_ops::hash64_of;
use crate::key_id::KeyId;
use crate::signature::Signature;
use crate::types::PrivateKey;
use crate::types::PublicKey;

verus! {

/// Domain tag for deriving transaction ids.
pub const TAG_TX_ID: u8 = 13;

/// A transaction identifier.
#[derive(Clone, Copy, Debug, PartialEq, Eq, Structural)]
pub struct TxId(pub u64);

/// The deterministic transaction id derived from a public key and an
/// index: the first eight little-endian bytes of their tagged hash.
pub open spec fn spec_tx_id_of(pk: Seq<u8>, index: u64) -> u64 {
    spec_le_u64(hash64_of(seq![TAG_TX_ID] + pk + spec_u64_le(index)).subrange(0, 8))
}

/// Derive a transaction id from a public key and an index.
pub fn calculate_tx_id(pk: &PublicKey, index: u64) -> (r: TxId)
    ensures
        r.0 == spec_tx_id_of(pk.bytes@, index),
{
    let mut pre: Vec<u8> = Vec::new();
    pre.push(TAG_TX_ID);
    push_bytes(&mut pre, pk.bytes.as_slice());
    push_u64_le(&mut pre, index);
    proof {
        assert(pre@ =~= seq![TAG_TX_ID] + pk.bytes@ + spec_u64_le(index));
    }
    let h = blake2b_hash(&pre);
    TxId(read_u64_le(&h, 0))
}

/// One input or output attached to an in-progress transaction, with the
/// nonce identity needed for kernel-signature aggregation and, for
/// outputs, the sender-offset key.
#[derive(Clone, Debug)]
pub struct OutputPair {
    pub output: KeyManagerOutput,
    pub kernel_nonce: KeyId,
    pub sender_offset_key_id: Option<KeyId>,
}

/// The complete, as-yet-unsigned-or-partially-signed transaction
/// snapshot: built once by the builder, consumed by the state machine,
/// progressively filled in as partial signatures arrive.
#[derive(Clone, Debug)]
pub struct RawTransactionInfo {
    pub tx_id: TxId,
    pub recipient_data: Option<crate::transaction_initializer::RecipientDetails>,
    pub recipient_output: Option<KeyManagerOutput>,
    pub recipient_partial_kernel_excess: PublicKey,
    pub recipient_partial_kernel_signature: Signature,
    pub recipient_partial_kernel_offset: PrivateKey,
    pub change_output: Option<OutputPair>,
    pub total_sender_nonce: PublicKey,
    pub total_sender_excess: PublicKey,
    pub metadata: TransactionMetadata,
    pub inputs: Vec<OutputPair>,
    pub outputs: Vec<OutputPair>,
    pub text_message: String,
}

/// The states a sender-side transaction passes through from
/// construction to finalization.
#[derive(Debug)]
pub enum SenderState {
    /// The raw snapshot has been assembled but not yet classified.
    Initializing(Box<RawTransactionInfo>),
    /// A recipient is required: ready to send the single round message.
    SingleRoundMessageReady(Box<RawTransactionInfo>),
    /// No recipient is required: ready to finalize.
    Finalizing(Box<RawTransactionInfo>),
    /// The protocol failed and cannot proceed.
    Failed,
}

impl SenderState {
    /// Advance from `Initializing`: to awaiting the receiver when a
    /// recipient is present, else straight to finalizing.  This
    /// transition is total for a structurally valid snapshot; any other
    /// state is left unchanged.
    pub fn initialize(self) -> (r: SenderState)
        ensures
            self matches SenderState::Initializing(info) ==> ((info.recipient_data is Some ==> (r
                matches SenderState::SingleRoundMessageReady(i2) && i2 == info)) && (
            info.recipient_data is None ==> (r matches SenderState::Finalizing(i3) && i3 == info))),
            !(self matches SenderState::Initializing(_)) ==> r == self,
    {
        match self {
            SenderState::Initializing(info) => {
                if info.recipient_data.is_some() {
                    SenderState::SingleRoundMessageReady(info)
                } else {
                    SenderState::Finalizing(info)
                }
            },
            other => other,
        }
    }
}

/// The sender side of the transaction protocol, holding its current
/// state.
#[derive(Debug)]
pub struct SenderTransactionProtocol {
    pub state: SenderState,
}

impl SenderTransactionProtocol {
    /// Wrap a state.
    pub fn from_state(state: SenderState) -> (r: SenderTransactionProtocol)
        ensures
            r.state == state,
    {
        SenderTransactionProtocol { state }
    }

    /// Consume the protocol and expose its state.
    pub fn into_state(self) -> (r: SenderState)
        ensures
            r == self.state,
    {
        self.state
    }
}

} // verus!
