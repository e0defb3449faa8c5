//! The closed error taxonomy of the validator.
//!
//! Every rule failure is returned immediately to the caller as one of these
//! typed errors; there are no retries and no panics on malformed input.

use vstd::prelude::*;
use crate::types::Hash256;

verus! {

/// Which structural withdrawals invariant a block broke, one per hardfork
/// row of the rule set.
#[derive(Debug, Clone, Copy, PartialEq, Eq, Structural)]
pub enum WithdrawalsRule {
    /// Before the withdrawals hardfork the body must carry no withdrawals
    /// list at all.
    ListBeforeActivation,
    /// While the withdrawals hardfork is active the list must be present.
    ListMissing,
    /// While the withdrawals hardfork is active the list must be empty.
    ListNotEmpty,
    /// Between the next-withdrawals and storage-root hardforks the header's
    /// withdrawals root must equal the canonical empty root.
    RootNotEmpty,
    /// Once the storage-root hardfork is active the header must carry a
    /// withdrawals root.
    RootMissing,
}

/// A failed consensus check.
#[derive(Debug, Clone, Copy, PartialEq, Eq, Structural)]
#[allow(inconsistent_fields)]
pub enum ConsensusError {
    /// The header's gas bounds are inconsistent: gas used exceeds the limit.
    GasLimitInvalid { gas_used: u64, gas_limit: u64 },
    /// The fee-market hardfork is active but the header carries no base fee,
    /// or the parent's base-fee-parameter block could not be decoded.
    BaseFeeMissing,
    /// The header's parent hash does not match the parent's sealed hash.
    ParentHashMismatch { got: Hash256, expected: Hash256 },
    /// The header's number is not the parent's number plus one.
    ParentNumberMismatch { parent_number: u64, number: u64 },
    /// The header's timestamp is not strictly greater than the parent's.
    TimestampIsInPast { parent_timestamp: u64, timestamp: u64 },
    /// The header's base fee differs from the expected next base fee.
    BaseFeeDiff { got: u64, expected: u64 },
    /// The blob hardfork is active but the header carries no blob-gas-used.
    BlobGasUsedMissing,
    /// The blob hardfork is active but the header carries no excess blob gas.
    ExcessBlobGasMissing,
    /// The header's excess blob gas differs from the value the parent's blob
    /// fields require.
    BlobGasDiff { got: u64, expected: u64 },
    /// The header declares more blob gas than a block may carry.
    BlobGasUsedExceedsLimit { blob_gas_used: u64, max_blob_gas_per_block: u64 },
    /// The header's blob-gas-used differs from the sum declared by the
    /// body's transactions.
    BlobGasUsedDiff { got: u64, expected: u64 },
    /// The recomputed ommers commitment differs from the header's.
    BodyOmmersHashDiff { got: Hash256, expected: Hash256 },
    /// The recomputed transactions commitment differs from the header's.
    BodyTransactionRootDiff { got: Hash256, expected: Hash256 },
    /// The recomputed withdrawals commitment differs from the header's.
    BodyWithdrawalsRootDiff { got: Hash256, expected: Hash256 },
    /// The header carries a withdrawals root but the body has no list.
    BodyWithdrawalsMissing,
    /// The body carries a withdrawals list but the header has no root.
    WithdrawalsRootMissing,
    /// A structural withdrawals invariant of the active hardfork failed.
    WithdrawalsInvariantViolation { rule: WithdrawalsRule },
    /// After the merge-equivalent hardfork the nonce must be the all-zero
    /// sentinel.
    TheMergeNonceIsNotZero,
    /// After the merge-equivalent hardfork the ommers hash must commit to
    /// the empty list.
    TheMergeOmmerRootIsNotEmpty,
    /// The extension-data field exceeds the post-merge length bound.
    ExtraDataExceedsMax { len: usize },
    /// The recomputed receipts commitment differs from the header's.
    ReceiptRootDiff { got: Hash256, expected: Hash256 },
}

} // verus!
