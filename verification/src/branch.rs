//! The fixed key-derivation branches and the transaction-output role
//! marker.

use vstd::prelude::*;

verus! {

/// Whether a transaction output takes part in a kernel signature as an
/// input being spent or as an output being created.
#[derive(Clone, Copy, Debug, PartialEq, Eq, Structural)]
pub enum TxoType {
    Input,
    Output,
}

/// The named domains of the key hierarchy.  Each branch owns a
/// monotonically increasing current index.
#[derive(Clone, Copy, Debug, PartialEq, Eq, Structural)]
pub enum CoreKeyManagerBranch {
    DataEncryption,
    Coinbase,
    CommitmentMask,
    Nonce,
    ScriptKey,
}

impl CoreKeyManagerBranch {
    /// The persisted identifier of this branch.
    pub open spec fn spec_branch_key(self) -> Seq<char> {
        match self {
            CoreKeyManagerBranch::DataEncryption => "core: data encryption"@,
            CoreKeyManagerBranch::Coinbase => "core: coinbase"@,
            CoreKeyManagerBranch::CommitmentMask => "core: commitment mask"@,
            CoreKeyManagerBranch::Nonce => "core: nonce"@,
            CoreKeyManagerBranch::ScriptKey => "core: script key"@,
        }
    }

    /// The persisted identifier of this branch.  These strings are mixed
    /// into key derivation and stored externally: changing any of them
    /// breaks compatibility with previously recovered wallets.
    pub fn get_branch_key(self) -> (r: String)
        ensures
            r@ == self.spec_branch_key(),
    {
        match self {
            CoreKeyManagerBranch::DataEncryption => "core: data encryption".to_owned(),
            CoreKeyManagerBranch::Coinbase => "core: coinbase".to_owned(),
            CoreKeyManagerBranch::CommitmentMask => "core: commitment mask".to_owned(),
            CoreKeyManagerBranch::Nonce => "core: nonce".to_owned(),
            CoreKeyManagerBranch::ScriptKey => "core: script key".to_owned(),
        }
    }
}

} // verus!
