//! The consensus fee and weight model.
//!
//! A transaction's weight is a linear function of its kernel, input and
//! output counts plus one gram for every sixteen bytes of output features
//! and scripts; the fee is the weight times the fee-per-gram rate.  All
//! arithmetic saturates at `u64::MAX` instead of wrapping or panicking,
//! and the contracts state the saturation exactly.

use vstd::prelude::*;

use crate::amount::MicroTari;

verus! {

/// Weight of one kernel, in grams.
pub const KERNEL_WEIGHT: u64 = 10;
/// Weight of one input, in grams.
pub const INPUT_WEIGHT: u64 = 8;
/// Weight of one output, in grams.
pub const OUTPUT_WEIGHT: u64 = 53;
/// Bytes of output features and scripts per gram of weight.
pub const FEATURES_AND_SCRIPTS_BYTES_PER_GRAM: u64 = 16;
/// The smallest total fee a transaction may carry.
pub const MINIMUM_TRANSACTION_FEE: u64 = 101;

/// A features-and-scripts byte size rounded up to a whole number of grams
/// worth of bytes, saturating at `usize::MAX`.
pub open spec fn spec_round_up_size(size: int) -> int {
    let rounded = ((size + FEATURES_AND_SCRIPTS_BYTES_PER_GRAM - 1)
        / (FEATURES_AND_SCRIPTS_BYTES_PER_GRAM as int)) * (FEATURES_AND_SCRIPTS_BYTES_PER_GRAM as int);
    if rounded > usize::MAX {
        usize::MAX as int
    } else {
        rounded
    }
}

/// The weight, in grams, of a transaction shape, saturating at `u64::MAX`.
pub open spec fn spec_weight(
    num_kernels: int,
    num_inputs: int,
    num_outputs: int,
    rounded_features_and_scripts_size: int,
) -> int {
    let w = num_kernels * KERNEL_WEIGHT + num_inputs * INPUT_WEIGHT + num_outputs * OUTPUT_WEIGHT
        + rounded_features_and_scripts_size / (FEATURES_AND_SCRIPTS_BYTES_PER_GRAM as int);
    if w > u64::MAX {
        u64::MAX as int
    } else {
        w
    }
}

/// The absolute fee for a transaction shape at the given fee-per-gram
/// rate, saturating at `u64::MAX`.
pub open spec fn spec_fee(
    fee_per_gram: int,
    num_kernels: int,
    num_inputs: int,
    num_outputs: int,
    rounded_features_and_scripts_size: int,
) -> int {
    let f = fee_per_gram
        * spec_weight(num_kernels, num_inputs, num_outputs, rounded_features_and_scripts_size);
    if f > u64::MAX {
        u64::MAX as int
    } else {
        f
    }
}

/// The consensus weighting parameters.
#[derive(Clone, Copy, Debug, PartialEq, Eq, Structural)]
pub struct WeightParams {
    pub kernel_weight: u64,
    pub input_weight: u64,
    pub output_weight: u64,
    pub features_and_scripts_bytes_per_gram: u64,
}

impl WeightParams {
    /// The first (and only) version of the weighting parameters.
    pub fn v1() -> (r: WeightParams)
        ensures
            r.kernel_weight == KERNEL_WEIGHT,
            r.input_weight == INPUT_WEIGHT,
            r.output_weight == OUTPUT_WEIGHT,
            r.features_and_scripts_bytes_per_gram == FEATURES_AND_SCRIPTS_BYTES_PER_GRAM,
    {
        WeightParams {
            kernel_weight: KERNEL_WEIGHT,
            input_weight: INPUT_WEIGHT,
            output_weight: OUTPUT_WEIGHT,
            features_and_scripts_bytes_per_gram: FEATURES_AND_SCRIPTS_BYTES_PER_GRAM,
        }
    }
}

/// The consensus transaction-weight model.
#[derive(Clone, Copy, Debug, PartialEq, Eq, Structural)]
pub struct TransactionWeight {
    version: u8,
}

/// The first version of the weight model, as a specification value.
pub closed spec fn spec_weight_v1() -> TransactionWeight {
    TransactionWeight { version: 1 }
}

impl TransactionWeight {
    /// The first version of the weight model.
    pub fn v1() -> (r: TransactionWeight)
        ensures
            r == spec_weight_v1(),
    {
        TransactionWeight { version: 1 }
    }

    /// The newest version of the weight model.
    pub fn latest() -> (r: TransactionWeight)
        ensures
            r == spec_weight_v1(),
    {
        TransactionWeight { version: 1 }
    }

    /// The parameters this weight model uses.
    pub fn params(&self) -> (r: WeightParams)
        ensures
            r.kernel_weight == KERNEL_WEIGHT,
            r.input_weight == INPUT_WEIGHT,
            r.output_weight == OUTPUT_WEIGHT,
            r.features_and_scripts_bytes_per_gram == FEATURES_AND_SCRIPTS_BYTES_PER_GRAM,
    {
        WeightParams::v1()
    }

    /// Round a features-and-scripts byte size up to a whole number of
    /// grams worth of bytes.
    pub fn round_up_features_and_scripts_size(&self, size: usize) -> (r: usize)
        ensures
            r == spec_round_up_size(size as int),
    {
        let gram: u64 = FEATURES_AND_SCRIPTS_BYTES_PER_GRAM;
        let size128: u128 = size as u128;
        let rounded: u128 = ((size128 + (gram - 1) as u128) / (gram as u128)) * (gram as u128);
        if rounded > usize::MAX as u128 {
            usize::MAX
        } else {
            rounded as usize
        }
    }

    /// The weight, in grams, of a transaction with the given number of
    /// kernels, inputs and outputs and the given rounded
    /// features-and-scripts byte size.
    pub fn calculate(
        &self,
        num_kernels: usize,
        num_inputs: usize,
        num_outputs: usize,
        rounded_features_and_scripts_size: usize,
    ) -> (r: u64)
        ensures
            r == spec_weight(
                num_kernels as int,
                num_inputs as int,
                num_outputs as int,
                rounded_features_and_scripts_size as int,
            ),
    {
        let w: u128 = (num_kernels as u128) * (KERNEL_WEIGHT as u128)
            + (num_inputs as u128) * (INPUT_WEIGHT as u128)
            + (num_outputs as u128) * (OUTPUT_WEIGHT as u128)
            + (rounded_features_and_scripts_size as u128) / (FEATURES_AND_SCRIPTS_BYTES_PER_GRAM as u128);
        if w > u64::MAX as u128 {
            u64::MAX
        } else {
            w as u64
        }
    }
}

/// The fee model: a fee-per-gram rate applied to the weight model.
#[derive(Clone, Copy, Debug, PartialEq, Eq, Structural)]
pub struct Fee {
    weighting: TransactionWeight,
}

impl Fee {
    /// The weight model this fee model carries.
    pub closed spec fn spec_weighting(self) -> TransactionWeight {
        self.weighting
    }

    /// Build a fee model over the given weight model.
    pub fn new(weighting: TransactionWeight) -> (r: Fee)
        ensures
            r.spec_weighting() == weighting,
    {
        Fee { weighting }
    }

    /// The weight model this fee model uses.
    pub fn weighting(&self) -> (r: TransactionWeight)
        ensures
            r == self.spec_weighting(),
    {
        self.weighting
    }

    /// The absolute fee for a transaction with the given shape, at the
    /// given fee-per-gram rate, saturating at `u64::MAX`.
    pub fn calculate(
        &self,
        fee_per_gram: MicroTari,
        num_kernels: usize,
        num_inputs: usize,
        num_outputs: usize,
        rounded_features_and_scripts_size: usize,
    ) -> (r: MicroTari)
        ensures
            r.0 == spec_fee(
                fee_per_gram.0 as int,
                num_kernels as int,
                num_inputs as int,
                num_outputs as int,
                rounded_features_and_scripts_size as int,
            ),
    {
        let weight: u64 = self.weighting.calculate(
            num_kernels,
            num_inputs,
            num_outputs,
            rounded_features_and_scripts_size,
        );
        proof {
            assert((fee_per_gram.0 as u128) * (weight as u128) <= u128::MAX) by (nonlinear_arith)
                requires
                    fee_per_gram.0 <= u64::MAX,
                    weight <= u64::MAX,
            ;
        }
        let f: u128 = (fee_per_gram.0 as u128) * (weight as u128);
        if f > u64::MAX as u128 {
            MicroTari(u64::MAX)
        } else {
            MicroTari(f as u64)
        }
    }
}

/// The consensus parameters this crate consumes: the transaction
/// weight model.
#[derive(Clone, Copy, Debug, PartialEq, Eq, Structural)]
pub struct ConsensusConstants {
    weight: TransactionWeight,
}

impl ConsensusConstants {
    /// The weight model these constants fix.
    pub closed spec fn spec_transaction_weight(self) -> TransactionWeight {
        self.weight
    }

    /// Constants using the current weight model.
    pub fn new() -> (r: ConsensusConstants)
        ensures
            r.spec_transaction_weight() == spec_weight_v1(),
    {
        ConsensusConstants { weight: TransactionWeight::v1() }
    }

    /// The transaction weight model.
    pub fn transaction_weight(&self) -> (r: TransactionWeight)
        ensures
            r == self.spec_transaction_weight(),
    {
        self.weight
    }
}

} // verus!
