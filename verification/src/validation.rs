//! The per-rule validators: gas bounds, base fee, parent linkage, blob-gas
//! transition arithmetic, extension-data bounds and the hardfork-gated
//! structural withdrawals rules.

use vstd::prelude::*;
use crate::types::{BlobParams, BlockHeader, Body, ChainSpec, Hash256, Transaction, empty_trie_root};
use crate::error::{ConsensusError, WithdrawalsRule};
use crate::base_fee::{holocene_expected_base_fee, holocene_expected_base_fee_spec,
    compute_expected_base_fee, next_base_fee_spec};

verus! {

/// Longest extension-data field a post-merge header may carry, in bytes.
pub const MAXIMUM_EXTRA_DATA_SIZE: usize = 32;

/// Base fee of the first block of the fee-market hardfork.
pub const INITIAL_BASE_FEE: u64 = 1000000000;

/// Gas-bound consistency: a header may not use more gas than its limit.
pub open spec fn validate_header_gas_spec(h: BlockHeader) -> Result<(), ConsensusError> {
    if h.gas_used > h.gas_limit {
        Err(ConsensusError::GasLimitInvalid { gas_used: h.gas_used, gas_limit: h.gas_limit })
    } else {
        Ok(())
    }
}

/// Check the header's internal gas bounds.
pub fn validate_header_gas(header: &BlockHeader) -> (r: Result<(), ConsensusError>)
    ensures
        r == validate_header_gas_spec(*header),
{
    if header.gas_used > header.gas_limit {
        Err(ConsensusError::GasLimitInvalid {
            gas_used: header.gas_used,
            gas_limit: header.gas_limit,
        })
    } else {
        Ok(())
    }
}

/// Once the fee-market hardfork is active the header must carry a base fee.
pub open spec fn validate_header_base_fee_spec(cs: ChainSpec, h: BlockHeader) -> Result<
    (),
    ConsensusError,
> {
    if cs.bedrock_active_at_block(h.number) && h.base_fee_per_gas is None {
        Err(ConsensusError::BaseFeeMissing)
    } else {
        Ok(())
    }
}

/// Check that the base fee is present where the fee market requires one.
pub fn validate_header_base_fee(header: &BlockHeader, chain_spec: &ChainSpec) -> (r: Result<
    (),
    ConsensusError,
>)
    ensures
        r == validate_header_base_fee_spec(*chain_spec, *header),
{
    if chain_spec.is_bedrock_active_at_block(header.number) && header.base_fee_per_gas.is_none() {
        Err(ConsensusError::BaseFeeMissing)
    } else {
        Ok(())
    }
}

/// Parent linkage: the header must name the parent's sealed hash and sit at
/// the next height.
pub open spec fn validate_parent_hash_number_spec(
    h: BlockHeader,
    parent_header: BlockHeader,
    parent_hash: Hash256,
) -> Result<(), ConsensusError> {
    if h.parent_hash != parent_hash {
        Err(ConsensusError::ParentHashMismatch { got: h.parent_hash, expected: parent_hash })
    } else if h.number != parent_header.number + 1 {
        Err(ConsensusError::ParentNumberMismatch {
            parent_number: parent_header.number,
            number: h.number,
        })
    } else {
        Ok(())
    }
}

/// Check hash and number linkage against the parent.
pub fn validate_against_parent_hash_number(
    header: &BlockHeader,
    parent_header: &BlockHeader,
    parent_hash: &Hash256,
) -> (r: Result<(), ConsensusError>)
    ensures
        r == validate_parent_hash_number_spec(*header, *parent_header, *parent_hash),
{
    if header.parent_hash != *parent_hash {
        Err(ConsensusError::ParentHashMismatch {
            got: header.parent_hash,
            expected: *parent_hash,
        })
    } else if parent_header.number == u64::MAX || header.number != parent_header.number + 1 {
        Err(ConsensusError::ParentNumberMismatch {
            parent_number: parent_header.number,
            number: header.number,
        })
    } else {
        Ok(())
    }
}

/// After the merge-equivalent hardfork a block's timestamp must strictly
/// exceed its parent's.
pub open spec fn validate_timestamp_spec(h: BlockHeader, p: BlockHeader) -> Result<
    (),
    ConsensusError,
> {
    if h.timestamp <= p.timestamp {
        Err(ConsensusError::TimestampIsInPast {
            parent_timestamp: p.timestamp,
            timestamp: h.timestamp,
        })
    } else {
        Ok(())
    }
}

/// Check that the timestamp strictly increased from the parent.
pub fn validate_against_parent_timestamp(header: &BlockHeader, parent: &BlockHeader) -> (r: Result<
    (),
    ConsensusError,
>)
    ensures
        r == validate_timestamp_spec(*header, *parent),
{
    if header.timestamp <= parent.timestamp {
        Err(ConsensusError::TimestampIsInPast {
            parent_timestamp: parent.timestamp,
            timestamp: header.timestamp,
        })
    } else {
        Ok(())
    }
}

/// The legacy fee-market parent rule, with the chain's static constants:
/// inactive fee market accepts anything; the activation block owes the
/// protocol's initial base fee; later blocks owe the fee derived from the
/// parent, which must itself carry one.
pub open spec fn legacy_base_fee_spec(cs: ChainSpec, h: BlockHeader, p: BlockHeader) -> Result<
    (),
    ConsensusError,
> {
    if !cs.bedrock_active_at_block(h.number) {
        Ok(())
    } else {
        match h.base_fee_per_gas {
            None => Err(ConsensusError::BaseFeeMissing),
            Some(got) => {
                if cs.bedrock_block == Some(h.number) {
                    if got != INITIAL_BASE_FEE {
                        Err(ConsensusError::BaseFeeDiff { got, expected: INITIAL_BASE_FEE })
                    } else {
                        Ok(())
                    }
                } else {
                    match p.base_fee_per_gas {
                        None => Err(ConsensusError::BaseFeeMissing),
                        Some(parent_fee) => {
                            let expected = next_base_fee_spec(
                                parent_fee,
                                p.gas_used,
                                p.gas_limit,
                                cs.base_fee_denominator,
                                cs.base_fee_elasticity,
                            );
                            if got != expected {
                                Err(ConsensusError::BaseFeeDiff { got, expected })
                            } else {
                                Ok(())
                            }
                        },
                    }
                }
            },
        }
    }
}

/// Check the header's base fee against the parent under the legacy rule.
pub fn validate_against_parent_eip1559_base_fee(
    header: &BlockHeader,
    parent: &BlockHeader,
    chain_spec: &ChainSpec,
) -> (r: Result<(), ConsensusError>)
    ensures
        r == legacy_base_fee_spec(*chain_spec, *header, *parent),
{
    if !chain_spec.is_bedrock_active_at_block(header.number) {
        return Ok(());
    }
    let got = match header.base_fee_per_gas {
        None => {
            return Err(ConsensusError::BaseFeeMissing);
        },
        Some(g) => g,
    };
    let transition = match chain_spec.bedrock_block {
        Some(b) => b == header.number,
        None => false,
    };
    if transition {
        if got != INITIAL_BASE_FEE {
            Err(ConsensusError::BaseFeeDiff { got, expected: INITIAL_BASE_FEE })
        } else {
            Ok(())
        }
    } else {
        match parent.base_fee_per_gas {
            None => Err(ConsensusError::BaseFeeMissing),
            Some(parent_fee) => {
                let expected = compute_expected_base_fee(
                    parent_fee,
                    parent.gas_used,
                    parent.gas_limit,
                    chain_spec.base_fee_denominator,
                    chain_spec.base_fee_elasticity,
                );
                if got != expected {
                    Err(ConsensusError::BaseFeeDiff { got, expected })
                } else {
                    Ok(())
                }
            },
        }
    }
}

/// The excess blob gas owed by a block: the parent's excess plus the
/// parent's use, less the target, floored at zero (all saturating).
pub open spec fn expected_excess_blob_gas_spec(p: BlockHeader, params: BlobParams) -> u64 {
    let parent_excess: u64 = match p.excess_blob_gas {
        Some(e) => e,
        None => 0,
    };
    let parent_used: u64 = match p.blob_gas_used {
        Some(u) => u,
        None => 0,
    };
    let sum: int = if parent_excess + parent_used > u64::MAX {
        u64::MAX as int
    } else {
        parent_excess + parent_used
    };
    if sum <= params.target_blob_gas_per_block {
        0u64
    } else {
        (sum - params.target_blob_gas_per_block) as u64
    }
}

/// Blob-gas transition arithmetic against the parent: both blob fields must
/// be present and the declared excess must equal the value the parent's
/// fields require.
pub open spec fn validate_against_parent_4844_spec(
    h: BlockHeader,
    p: BlockHeader,
    params: BlobParams,
) -> Result<(), ConsensusError> {
    if h.blob_gas_used is None {
        Err(ConsensusError::BlobGasUsedMissing)
    } else if h.excess_blob_gas is None {
        Err(ConsensusError::ExcessBlobGasMissing)
    } else {
        let got = h.excess_blob_gas->Some_0;
        let expected = expected_excess_blob_gas_spec(p, params);
        if got != expected {
            Err(ConsensusError::BlobGasDiff { got, expected })
        } else {
            Ok(())
        }
    }
}

/// Check the header's blob-gas fields against the parent.
pub fn validate_against_parent_4844(
    header: &BlockHeader,
    parent: &BlockHeader,
    params: BlobParams,
) -> (r: Result<(), ConsensusError>)
    ensures
        r == validate_against_parent_4844_spec(*header, *parent, params),
{
    if header.blob_gas_used.is_none() {
        return Err(ConsensusError::BlobGasUsedMissing);
    }
    let got = match header.excess_blob_gas {
        None => {
            return Err(ConsensusError::ExcessBlobGasMissing);
        },
        Some(e) => e,
    };
    let parent_excess: u64 = match parent.excess_blob_gas {
        Some(e) => e,
        None => 0,
    };
    let parent_used: u64 = match parent.blob_gas_used {
        Some(u) => u,
        None => 0,
    };
    let sum128: u128 = (parent_excess as u128) + (parent_used as u128);
    let sum: u64 = if sum128 > u64::MAX as u128 {
        u64::MAX
    } else {
        sum128 as u64
    };
    let expected: u64 = if sum <= params.target_blob_gas_per_block {
        0
    } else {
        sum - params.target_blob_gas_per_block
    };
    if got != expected {
        Err(ConsensusError::BlobGasDiff { got, expected })
    } else {
        Ok(())
    }
}

/// Total blob gas declared by a transaction list.
pub open spec fn sum_blob_gas(txs: Seq<Transaction>) -> int
    decreases txs.len(),
{
    if txs.len() == 0 {
        0
    } else {
        sum_blob_gas(txs.drop_last()) + txs.last().blob_gas
    }
}

/// The blob-gas accounting rule of the blob hardfork: the header must
/// declare its blob gas, the declaration may not exceed the per-block cap,
/// and it must equal the sum the transactions declare. A sum beyond the
/// largest representable value is reported saturated.
pub open spec fn validate_cancun_gas_spec(
    h: BlockHeader,
    txs: Seq<Transaction>,
    params: BlobParams,
) -> Result<(), ConsensusError> {
    match h.blob_gas_used {
        None => Err(ConsensusError::BlobGasUsedMissing),
        Some(got) => {
            if got > params.max_blob_gas_per_block {
                Err(ConsensusError::BlobGasUsedExceedsLimit {
                    blob_gas_used: got,
                    max_blob_gas_per_block: params.max_blob_gas_per_block,
                })
            } else if got != sum_blob_gas(txs) {
                let reported: u64 = if sum_blob_gas(txs) > u64::MAX {
                    u64::MAX
                } else {
                    sum_blob_gas(txs) as u64
                };
                Err(ConsensusError::BlobGasUsedDiff { got, expected: reported })
            } else {
                Ok(())
            }
        },
    }
}

/// Check the block's declared blob gas against its transactions.
pub fn validate_cancun_gas(
    header: &BlockHeader,
    transactions: &Vec<Transaction>,
    params: BlobParams,
) -> (r: Result<(), ConsensusError>)
    ensures
        r == validate_cancun_gas_spec(*header, transactions@, params),
{
    let got = match header.blob_gas_used {
        None => {
            return Err(ConsensusError::BlobGasUsedMissing);
        },
        Some(g) => g,
    };
    if got > params.max_blob_gas_per_block {
        return Err(ConsensusError::BlobGasUsedExceedsLimit {
            blob_gas_used: got,
            max_blob_gas_per_block: params.max_blob_gas_per_block,
        });
    }
    let n = transactions.len();
    let mut total: u128 = 0;
    let mut i: usize = 0;
    while i < n
        invariant
            n == transactions@.len(),
            i <= n,
            total == sum_blob_gas(transactions@.subrange(0, i as int)),
            total <= (i as int) * (u64::MAX as int),
        decreases n - i,
    {
        proof {
            assert(transactions@.subrange(0, i + 1).drop_last() =~= transactions@.subrange(
                0,
                i as int,
            ));
            assert((i as int) * (u64::MAX as int) + u64::MAX <= (n as int) * (u64::MAX as int))
                by (nonlinear_arith)
                requires
                    i < n,
            ;
            assert((n as int) * (u64::MAX as int) < u128::MAX) by (nonlinear_arith)
                requires
                    n <= usize::MAX,
            ;
        }
        total = total + (transactions[i].blob_gas as u128);
        i += 1;
    }
    proof {
        assert(transactions@.subrange(0, n as int) =~= transactions@);
    }
    let reported: u64 = if total > u64::MAX as u128 {
        u64::MAX
    } else {
        total as u64
    };
    if (total > u64::MAX as u128) || got != (total as u64) {
        Err(ConsensusError::BlobGasUsedDiff { got, expected: reported })
    } else {
        Ok(())
    }
}

/// Post-merge extension-data bound: at most thirty-two bytes.
pub open spec fn validate_extra_data_spec(h: BlockHeader) -> Result<(), ConsensusError> {
    if h.extra_data@.len() > MAXIMUM_EXTRA_DATA_SIZE {
        Err(ConsensusError::ExtraDataExceedsMax { len: h.extra_data@.len() as usize })
    } else {
        Ok(())
    }
}

/// Check the post-merge extension-data length bound.
pub fn validate_header_extra_data(header: &BlockHeader) -> (r: Result<(), ConsensusError>)
    ensures
        r == validate_extra_data_spec(*header),
{
    let len = header.extra_data.len();
    if len > MAXIMUM_EXTRA_DATA_SIZE {
        Err(ConsensusError::ExtraDataExceedsMax { len })
    } else {
        Ok(())
    }
}

/// Withdrawals rule while the withdrawals hardfork is active and the next
/// one is not: the list must be present and empty.
pub open spec fn shanghai_withdrawals_rule_spec(body: Body) -> Result<(), ConsensusError> {
    match body.withdrawals {
        None => Err(ConsensusError::WithdrawalsInvariantViolation {
            rule: WithdrawalsRule::ListMissing,
        }),
        Some(ws) => {
            if ws@.len() != 0 {
                Err(ConsensusError::WithdrawalsInvariantViolation {
                    rule: WithdrawalsRule::ListNotEmpty,
                })
            } else {
                Ok(())
            }
        },
    }
}

/// Require an empty withdrawals list, as the withdrawals hardfork demands.
pub fn ensure_empty_shanghai_withdrawals(body: &Body) -> (r: Result<(), ConsensusError>)
    ensures
        r == shanghai_withdrawals_rule_spec(*body),
{
    match &body.withdrawals {
        None => Err(ConsensusError::WithdrawalsInvariantViolation {
            rule: WithdrawalsRule::ListMissing,
        }),
        Some(ws) => {
            if ws.len() != 0 {
                Err(ConsensusError::WithdrawalsInvariantViolation {
                    rule: WithdrawalsRule::ListNotEmpty,
                })
            } else {
                Ok(())
            }
        },
    }
}

/// Withdrawals rule before the withdrawals hardfork: no list at all.
pub open spec fn pre_shanghai_withdrawals_rule_spec(body: Body) -> Result<(), ConsensusError> {
    match body.withdrawals {
        Some(_) => Err(ConsensusError::WithdrawalsInvariantViolation {
            rule: WithdrawalsRule::ListBeforeActivation,
        }),
        None => Ok(()),
    }
}

/// Require that no withdrawals list is carried before the hardfork.
pub fn ensure_no_withdrawals_before_activation(body: &Body) -> (r: Result<(), ConsensusError>)
    ensures
        r == pre_shanghai_withdrawals_rule_spec(*body),
{
    match &body.withdrawals {
        Some(_) => Err(ConsensusError::WithdrawalsInvariantViolation {
            rule: WithdrawalsRule::ListBeforeActivation,
        }),
        None => Ok(()),
    }
}

/// Withdrawals rule between the next-withdrawals and storage-root hardforks:
/// the header's withdrawals root must equal the canonical empty root.
pub open spec fn canyon_withdrawals_root_rule_spec(h: BlockHeader) -> Result<(), ConsensusError> {
    match h.withdrawals_root {
        None => Err(ConsensusError::WithdrawalsInvariantViolation {
            rule: WithdrawalsRule::RootMissing,
        }),
        Some(root) => {
            if root != empty_trie_root() {
                Err(ConsensusError::WithdrawalsInvariantViolation {
                    rule: WithdrawalsRule::RootNotEmpty,
                })
            } else {
                Ok(())
            }
        },
    }
}

/// Require the canonical empty withdrawals root in the header.
pub fn ensure_empty_withdrawals_root(header: &BlockHeader) -> (r: Result<(), ConsensusError>)
    ensures
        r == canyon_withdrawals_root_rule_spec(*header),
{
    match header.withdrawals_root {
        None => Err(ConsensusError::WithdrawalsInvariantViolation {
            rule: WithdrawalsRule::RootMissing,
        }),
        Some(root) => {
            let empty = crate::types::empty_trie_root_hash();
            if root != empty {
                Err(ConsensusError::WithdrawalsInvariantViolation {
                    rule: WithdrawalsRule::RootNotEmpty,
                })
            } else {
                Ok(())
            }
        },
    }
}

/// Withdrawals rule once the storage-root hardfork is active: the header
/// must carry a withdrawals root (its value is verified post-execution).
pub open spec fn isthmus_withdrawals_root_rule_spec(h: BlockHeader) -> Result<
    (),
    ConsensusError,
> {
    match h.withdrawals_root {
        None => Err(ConsensusError::WithdrawalsInvariantViolation {
            rule: WithdrawalsRule::RootMissing,
        }),
        Some(_) => Ok(()),
    }
}

/// Require that the header carries a withdrawals root.
pub fn ensure_withdrawals_storage_root_is_some(header: &BlockHeader) -> (r: Result<
    (),
    ConsensusError,
>)
    ensures
        r == isthmus_withdrawals_root_rule_spec(*header),
{
    match header.withdrawals_root {
        None => Err(ConsensusError::WithdrawalsInvariantViolation {
            rule: WithdrawalsRule::RootMissing,
        }),
        Some(_) => Ok(()),
    }
}

} // verus!
