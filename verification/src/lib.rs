//! Consensus-rule validation for an Optimism-style execution client.
//!
//! Decides whether a candidate block is structurally and protocol-legal
//! before and after execution: a deterministic, hardfork-gated pipeline of
//! structural, commitment-root and economic-parameter checks over a shared
//! read-only chain specification.

pub mod types;
pub mod error;
pub mod base_fee;
pub mod roots;
pub mod validation;

use vstd::prelude::*;
use crate::types::{Block, BlockExecutionResult, BlockHeader, Body, ChainSpec, Receipt,
    SealedHeader, empty_ommer_root};
use crate::error::ConsensusError;
use crate::base_fee::{holocene_expected_base_fee, holocene_expected_base_fee_spec,
    ParamBlockError};
use crate::roots::{calculate_ommers_root, calculate_receipts_root, calculate_transactions_root,
    calculate_withdrawals_root, ommers_root_of, receipts_root_spec, trie_root_of,
    withdrawals_root_of};
use crate::validation::{ensure_empty_shanghai_withdrawals, ensure_empty_withdrawals_root,
    ensure_no_withdrawals_before_activation, ensure_withdrawals_storage_root_is_some,
    validate_against_parent_4844, validate_against_parent_eip1559_base_fee,
    validate_against_parent_hash_number, validate_against_parent_timestamp, validate_cancun_gas,
    validate_header_base_fee, validate_header_extra_data, validate_header_gas,
    canyon_withdrawals_root_rule_spec, isthmus_withdrawals_root_rule_spec, legacy_base_fee_spec,
    pre_shanghai_withdrawals_rule_spec, shanghai_withdrawals_rule_spec,
    validate_against_parent_4844_spec, validate_cancun_gas_spec, validate_extra_data_spec,
    validate_header_base_fee_spec, validate_header_gas_spec, validate_parent_hash_number_spec,
    validate_timestamp_spec};

verus! {

/// What standalone header validation decides: gas-bound consistency, then
/// base-fee presence under the fee-market hardfork.
pub open spec fn validate_header_decision(cs: ChainSpec, h: BlockHeader) -> Result<
    (),
    ConsensusError,
> {
    match validate_header_gas_spec(h) {
        Err(e) => Err(e),
        Ok(()) => validate_header_base_fee_spec(cs, h),
    }
}

/// What parent-relative validation decides, stopping at the first failing
/// rule: linkage, post-merge timestamp ordering, the base-fee rule (explicit
/// parameter block once the fee-parameter hardfork is active on the parent,
/// the legacy static rule otherwise), and blob-gas transition arithmetic
/// wherever blob parameters are defined.
pub open spec fn validate_header_against_parent_decision(
    cs: ChainSpec,
    header: SealedHeader,
    parent: SealedHeader,
) -> Result<(), ConsensusError> {
    let h = header.header;
    let p = parent.header;
    match validate_parent_hash_number_spec(h, p, parent.hash) {
        Err(e) => Err(e),
        Ok(()) => {
            let timestamp_ok: Result<(), ConsensusError> = if cs.bedrock_active_at_block(
                h.number,
            ) {
                validate_timestamp_spec(h, p)
            } else {
                Ok(())
            };
            match timestamp_ok {
                Err(e) => Err(e),
                Ok(()) => {
                    let fee_ok: Result<(), ConsensusError> = if cs.holocene_active(p.timestamp) {
                        match h.base_fee_per_gas {
                            None => Err(ConsensusError::BaseFeeMissing),
                            Some(got) => match holocene_expected_base_fee_spec(cs, p@) {
                                Err(_) => Err(ConsensusError::BaseFeeMissing),
                                Ok(expected) => {
                                    if got != expected {
                                        Err(ConsensusError::BaseFeeDiff { got, expected })
                                    } else {
                                        Ok(())
                                    }
                                },
                            },
                        }
                    } else {
                        legacy_base_fee_spec(cs, h, p)
                    };
                    match fee_ok {
                        Err(e) => Err(e),
                        Ok(()) => match cs.blob_params_at(h.timestamp) {
                            Some(params) => validate_against_parent_4844_spec(h, p, params),
                            None => Ok(()),
                        },
                    }
                },
            }
        },
    }
}

/// What pre-execution validation decides: recomputed ommers and transaction
/// commitments must match the header, then the structural withdrawals rule
/// of the active hardfork tier, then — only for blocks on the blob tier —
/// blob-gas accounting. A tier boundary that is not yet active ends the
/// check successfully: rules of later tiers are never evaluated for blocks
/// on an earlier one.
pub open spec fn validate_block_pre_execution_decision(cs: ChainSpec, block: Block) -> Result<
    (),
    ConsensusError,
> {
    let h = block.header.header;
    let body = block.body;
    let ommers_root = ommers_root_of(body.ommers@.map_values(|o: BlockHeader| o@));
    if ommers_root != h.ommers_hash {
        Err(ConsensusError::BodyOmmersHashDiff { got: ommers_root, expected: h.ommers_hash })
    } else {
        let tx_root = trie_root_of(
            body.transactions@.map_values(|t: crate::types::Transaction| t.encoded@),
        );
        if tx_root != h.transactions_root {
            Err(ConsensusError::BodyTransactionRootDiff {
                got: tx_root,
                expected: h.transactions_root,
            })
        } else if !cs.shanghai_active(h.timestamp) {
            pre_shanghai_withdrawals_rule_spec(body)
        } else {
            match shanghai_withdrawals_rule_spec(body) {
                Err(e) => Err(e),
                Ok(()) => {
                    if !cs.cancun_active(h.timestamp) {
                        Ok(())
                    } else {
                        let root_rule: Result<(), ConsensusError> = if cs.isthmus_active(
                            h.timestamp,
                        ) {
                            isthmus_withdrawals_root_rule_spec(h)
                        } else {
                            canyon_withdrawals_root_rule_spec(h)
                        };
                        match root_rule {
                            Err(e) => Err(e),
                            Ok(()) => validate_cancun_gas_spec(
                                h,
                                body.transactions@,
                                cs.blob_params,
                            ),
                        }
                    }
                },
            }
        }
    }
}

/// What body-versus-header validation decides: the body's recomputed ommers,
/// transactions and withdrawals commitments must agree with the header, and
/// a withdrawals list and a withdrawals root may only appear together.
pub open spec fn validate_body_against_header_decision(body: Body, h: BlockHeader) -> Result<
    (),
    ConsensusError,
> {
    let ommers_root = ommers_root_of(body.ommers@.map_values(|o: BlockHeader| o@));
    if ommers_root != h.ommers_hash {
        Err(ConsensusError::BodyOmmersHashDiff { got: ommers_root, expected: h.ommers_hash })
    } else {
        let tx_root = trie_root_of(
            body.transactions@.map_values(|t: crate::types::Transaction| t.encoded@),
        );
        if tx_root != h.transactions_root {
            Err(ConsensusError::BodyTransactionRootDiff {
                got: tx_root,
                expected: h.transactions_root,
            })
        } else {
            match (h.withdrawals_root, body.withdrawals) {
                (Some(header_root), Some(ws)) => {
                    let body_root = withdrawals_root_of(
                        ws@.map_values(|w: crate::types::Withdrawal| w@),
                    );
                    if body_root != header_root {
                        Err(ConsensusError::BodyWithdrawalsRootDiff {
                            got: body_root,
                            expected: header_root,
                        })
                    } else {
                        Ok(())
                    }
                },
                (Some(_), None) => Err(ConsensusError::BodyWithdrawalsMissing),
                (None, Some(_)) => Err(ConsensusError::WithdrawalsRootMissing),
                (None, None) => Ok(()),
            }
        }
    }
}

/// What post-merge invariant checking decides: the zero nonce, the empty
/// ommers commitment, and the extension-data bound.
pub open spec fn validate_header_td_decision(h: BlockHeader) -> Result<(), ConsensusError> {
    if h.nonce != 0 {
        Err(ConsensusError::TheMergeNonceIsNotZero)
    } else if h.ommers_hash != empty_ommer_root() {
        Err(ConsensusError::TheMergeOmmerRootIsNotEmpty)
    } else {
        validate_extra_data_spec(h)
    }
}

/// What post-execution validation decides: the commitment recomputed from
/// the produced receipts must equal the header's declared receipts root.
pub open spec fn validate_block_post_execution_decision(
    cs: ChainSpec,
    block: Block,
    receipts: Seq<Receipt>,
) -> Result<(), ConsensusError> {
    let h = block.header.header;
    let got = receipts_root_spec(
        receipts.map_values(|r: Receipt| r@),
        cs.canyon_active(h.timestamp),
    );
    if got != h.receipts_root {
        Err(ConsensusError::ReceiptRootDiff { got, expected: h.receipts_root })
    } else {
        Ok(())
    }
}

/// The block consensus validator: sequences the codec, commitment and
/// structural rule sets over a shared read-only chain specification.
#[derive(Debug, Clone, PartialEq, Eq, Structural)]
pub struct OpBeaconConsensus {
    /// Configuration
    pub chain_spec: ChainSpec,
}

impl OpBeaconConsensus {
    /// Create a new instance of [`OpBeaconConsensus`].
    pub fn new(chain_spec: ChainSpec) -> (r: Self)
        ensures
            r.chain_spec == chain_spec,
    {
        OpBeaconConsensus { chain_spec }
    }

    /// Validate a header on its own: gas bounds, then base-fee presence
    /// under the fee-market hardfork.
    pub fn validate_header(&self, header: &SealedHeader) -> (r: Result<(), ConsensusError>)
        ensures
            r == validate_header_decision(self.chain_spec, header.header),
    {
        match validate_header_gas(&header.header) {
            Err(e) => Err(e),
            Ok(()) => validate_header_base_fee(&header.header, &self.chain_spec),
        }
    }

    /// Validate a header against its already-sealed parent, stopping at the
    /// first failing rule.
    pub fn validate_header_against_parent(
        &self,
        header: &SealedHeader,
        parent: &SealedHeader,
    ) -> (r: Result<(), ConsensusError>)
        ensures
            r == validate_header_against_parent_decision(self.chain_spec, *header, *parent),
    {
        match validate_against_parent_hash_number(&header.header, &parent.header, &parent.hash) {
            Err(e) => {
                return Err(e);
            },
            Ok(()) => {},
        }
        if self.chain_spec.is_bedrock_active_at_block(header.header.number) {
            match validate_against_parent_timestamp(&header.header, &parent.header) {
                Err(e) => {
                    return Err(e);
                },
                Ok(()) => {},
            }
        }
        if self.chain_spec.is_holocene_active_at_timestamp(parent.header.timestamp) {
            let got = match header.header.base_fee_per_gas {
                None => {
                    return Err(ConsensusError::BaseFeeMissing);
                },
                Some(g) => g,
            };
            match holocene_expected_base_fee(&self.chain_spec, &parent.header) {
                Err(_) => {
                    return Err(ConsensusError::BaseFeeMissing);
                },
                Ok(expected) => {
                    if got != expected {
                        return Err(ConsensusError::BaseFeeDiff { got, expected });
                    }
                },
            }
        } else {
            match validate_against_parent_eip1559_base_fee(
                &header.header,
                &parent.header,
                &self.chain_spec,
            ) {
                Err(e) => {
                    return Err(e);
                },
                Ok(()) => {},
            }
        }
        match self.chain_spec.blob_params_at_timestamp(header.header.timestamp) {
            Some(params) => validate_against_parent_4844(&header.header, &parent.header, params),
            None => Ok(()),
        }
    }

    /// Validate a body against the header sealed over it.
    pub fn validate_body_against_header(&self, body: &Body, header: &SealedHeader) -> (r: Result<
        (),
        ConsensusError,
    >)
        ensures
            r == validate_body_against_header_decision(*body, header.header),
    {
        let ommers_root = calculate_ommers_root(&body.ommers);
        if ommers_root != header.header.ommers_hash {
            return Err(ConsensusError::BodyOmmersHashDiff {
                got: ommers_root,
                expected: header.header.ommers_hash,
            });
        }
        let tx_root = calculate_transactions_root(&body.transactions);
        if tx_root != header.header.transactions_root {
            return Err(ConsensusError::BodyTransactionRootDiff {
                got: tx_root,
                expected: header.header.transactions_root,
            });
        }
        match (&header.header.withdrawals_root, &body.withdrawals) {
            (Some(header_root), Some(ws)) => {
                let body_root = calculate_withdrawals_root(ws);
                if body_root != *header_root {
                    Err(ConsensusError::BodyWithdrawalsRootDiff {
                        got: body_root,
                        expected: *header_root,
                    })
                } else {
                    Ok(())
                }
            },
            (Some(_), None) => Err(ConsensusError::BodyWithdrawalsMissing),
            (None, Some(_)) => Err(ConsensusError::WithdrawalsRootMissing),
            (None, None) => Ok(()),
        }
    }

    /// Validate a block before execution: commitments, the structural
    /// withdrawals rule of the active hardfork tier, and blob-gas accounting
    /// on the blob tier. Once the rule for the currently active tier is
    /// satisfied, checks belonging to a later tier are skipped entirely.
    ///
    /// A body without ommers commits to the canonical empty-ommers constant,
    /// so against a header declaring that constant the ommers check cannot
    /// be the failure.
    pub fn validate_block_pre_execution(&self, block: &Block) -> (r: Result<(), ConsensusError>)
        ensures
            r == validate_block_pre_execution_decision(self.chain_spec, *block),
            block.body.ommers@.len() == 0 ==> ((r matches Err(
                ConsensusError::BodyOmmersHashDiff { .. })) <==> block.header.header.ommers_hash
                != empty_ommer_root()),
    {
        let header = &block.header.header;
        let ommers_root = calculate_ommers_root(&block.body.ommers);
        if ommers_root != header.ommers_hash {
            return Err(ConsensusError::BodyOmmersHashDiff {
                got: ommers_root,
                expected: header.ommers_hash,
            });
        }
        let tx_root = calculate_transactions_root(&block.body.transactions);
        if tx_root != header.transactions_root {
            return Err(ConsensusError::BodyTransactionRootDiff {
                got: tx_root,
                expected: header.transactions_root,
            });
        }
        if !self.chain_spec.is_shanghai_active_at_timestamp(header.timestamp) {
            return ensure_no_withdrawals_before_activation(&block.body);
        }
        match ensure_empty_shanghai_withdrawals(&block.body) {
            Err(e) => {
                return Err(e);
            },
            Ok(()) => {},
        }
        if !self.chain_spec.is_cancun_active_at_timestamp(header.timestamp) {
            return Ok(());
        }
        let root_rule = if self.chain_spec.is_isthmus_active_at_timestamp(header.timestamp) {
            ensure_withdrawals_storage_root_is_some(header)
        } else {
            ensure_empty_withdrawals_root(header)
        };
        match root_rule {
            Err(e) => {
                return Err(e);
            },
            Ok(()) => {},
        }
        validate_cancun_gas(header, &block.body.transactions, self.chain_spec.blob_params)
    }

    /// Post-merge invariant checks. The caller must only invoke this once
    /// the merge-equivalent hardfork is active at the header's height;
    /// anything earlier is a caller contract violation, not a recoverable
    /// error.
    pub fn validate_header_with_total_difficulty(&self, header: &BlockHeader) -> (r: Result<
        (),
        ConsensusError,
    >)
        requires
            self.chain_spec.bedrock_active_at_block(header.number),
        ensures
            r == validate_header_td_decision(*header),
    {
        if header.nonce != 0 {
            return Err(ConsensusError::TheMergeNonceIsNotZero);
        }
        let empty = crate::types::empty_ommer_root_hash();
        if header.ommers_hash != empty {
            return Err(ConsensusError::TheMergeOmmerRootIsNotEmpty);
        }
        validate_header_extra_data(header)
    }

    /// Validate a block after execution: recompute the receipts commitment
    /// from the produced receipts and compare it with the header's.
    pub fn validate_block_post_execution(
        &self,
        block: &Block,
        result: &BlockExecutionResult,
    ) -> (r: Result<(), ConsensusError>)
        ensures
            r == validate_block_post_execution_decision(
                self.chain_spec,
                *block,
                result.receipts@,
            ),
    {
        let header = &block.header.header;
        let got = calculate_receipts_root(&result.receipts, &self.chain_spec, header.timestamp);
        if got != header.receipts_root {
            Err(ConsensusError::ReceiptRootDiff { got, expected: header.receipts_root })
        } else {
            Ok(())
        }
    }
}

/// With the fee-parameter hardfork active on the parent, its parameter
/// block decoding to an expected fee, and every parent rule before and
/// after the fee rule satisfied, parent-relative validation succeeds
/// exactly when the header's base fee equals that expected fee.
pub proof fn lemma_holocene_base_fee_iff(
    cs: ChainSpec,
    header: SealedHeader,
    parent: SealedHeader,
    expected: u64,
)
    requires
        header.header.parent_hash == parent.hash,
        header.header.number == parent.header.number + 1,
        cs.bedrock_active_at_block(header.header.number) ==> header.header.timestamp
            > parent.header.timestamp,
        cs.holocene_active(parent.header.timestamp),
        holocene_expected_base_fee_spec(cs, parent.header@) == Ok::<u64, ParamBlockError>(
            expected,
        ),
        cs.blob_params_at(header.header.timestamp) is None,
    ensures
        validate_header_against_parent_decision(cs, header, parent) == Ok::<(), ConsensusError>(())
            <==> header.header.base_fee_per_gas == Some(expected),
{
}

} // verus!
