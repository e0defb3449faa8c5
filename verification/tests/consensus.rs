//! End-to-end tests of the consensus validator on concrete blocks.

use op_consensus::base_fee::{decode_base_fee_params, encode_base_fee_params, ParamBlockError};
use op_consensus::error::{ConsensusError, WithdrawalsRule};
use op_consensus::roots::{
    calculate_ommers_root, calculate_receipts_root, calculate_transactions_root,
    calculate_withdrawals_root, DEPOSIT_TX_TYPE,
};
use op_consensus::types::{
    empty_ommer_root_hash, empty_trie_root_hash, BlobParams, Block, BlockExecutionResult,
    BlockHeader, Body, ChainSpec, Hash256, Log, Receipt, SealedHeader, Transaction, Withdrawal,
};
use op_consensus::OpBeaconConsensus;

fn test_chain_spec() -> ChainSpec {
    ChainSpec {
        bedrock_block: Some(0),
        shanghai_time: Some(1000),
        canyon_time: Some(1000),
        cancun_time: Some(2000),
        holocene_time: Some(3000),
        isthmus_time: Some(4000),
        base_fee_denominator: 50,
        base_fee_elasticity: 6,
        blob_params: BlobParams { target_blob_gas_per_block: 3, max_blob_gas_per_block: 6 },
    }
}

fn base_header() -> BlockHeader {
    BlockHeader {
        parent_hash: Hash256 { w0: 0, w1: 0, w2: 0, w3: 0 },
        ommers_hash: empty_ommer_root_hash(),
        number: 10,
        timestamp: 500,
        gas_limit: 6_000_000,
        gas_used: 1_000_000,
        extra_data: Vec::new(),
        base_fee_per_gas: Some(100),
        nonce: 0,
        transactions_root: empty_trie_root_hash(),
        receipts_root: empty_trie_root_hash(),
        withdrawals_root: None,
        blob_gas_used: None,
        excess_blob_gas: None,
    }
}

fn seal(header: BlockHeader, hash: Hash256) -> SealedHeader {
    SealedHeader { header, hash }
}

fn empty_body() -> Body {
    Body { transactions: Vec::new(), ommers: Vec::new(), withdrawals: None }
}

#[test]
fn params_round_trip() {
    let enc = encode_base_fee_params(80, 60);
    assert_eq!(enc.len(), 9);
    assert_eq!(enc, vec![0, 0, 0, 0, 80, 0, 0, 0, 60]);
    assert_eq!(decode_base_fee_params(&enc), Ok((80, 60)));

    let enc2 = encode_base_fee_params(0x01020304, 0xa0b0c0d0);
    assert_eq!(decode_base_fee_params(&enc2), Ok((0x01020304, 0xa0b0c0d0)));
}

#[test]
fn params_decode_errors() {
    assert_eq!(
        decode_base_fee_params(&vec![0, 1, 2]),
        Err(ParamBlockError::InvalidLength)
    );
    assert_eq!(
        decode_base_fee_params(&vec![1, 0, 0, 0, 80, 0, 0, 0, 60]),
        Err(ParamBlockError::InvalidVersion)
    );
}

#[test]
fn pre_holocene_base_fee_at_target_passes() {
    let consensus = OpBeaconConsensus::new(test_chain_spec());
    let parent_hash = Hash256 { w0: 7, w1: 7, w2: 7, w3: 7 };
    let mut parent = base_header();
    parent.number = 9;
    parent.timestamp = 1000;
    parent.base_fee_per_gas = Some(100);
    parent.gas_limit = 6_000_000;
    parent.gas_used = 1_000_000; // equals gas target: 6_000_000 / 6
    let parent = seal(parent, parent_hash);

    let mut header = base_header();
    header.parent_hash = parent_hash;
    header.number = 10;
    header.timestamp = 1002;
    header.base_fee_per_gas = Some(100);
    let header = seal(header, Hash256 { w0: 8, w1: 8, w2: 8, w3: 8 });

    assert_eq!(consensus.validate_header_against_parent(&header, &parent), Ok(()));
}

#[test]
fn pre_holocene_base_fee_diff_fails() {
    let consensus = OpBeaconConsensus::new(test_chain_spec());
    let parent_hash = Hash256 { w0: 7, w1: 7, w2: 7, w3: 7 };
    let mut parent = base_header();
    parent.number = 9;
    parent.timestamp = 1000;
    parent.base_fee_per_gas = Some(100);
    parent.gas_limit = 6_000_000;
    parent.gas_used = 1_000_000;
    let parent = seal(parent, parent_hash);

    let mut header = base_header();
    header.parent_hash = parent_hash;
    header.number = 10;
    header.timestamp = 1002;
    header.base_fee_per_gas = Some(101);
    let header = seal(header, Hash256 { w0: 8, w1: 8, w2: 8, w3: 8 });

    assert_eq!(
        consensus.validate_header_against_parent(&header, &parent),
        Err(ConsensusError::BaseFeeDiff { got: 101, expected: 100 })
    );
}

#[test]
fn holocene_base_fee_uses_parent_parameter_block() {
    let mut cs = test_chain_spec();
    cs.holocene_time = Some(0);
    let consensus = OpBeaconConsensus::new(cs);
    let parent_hash = Hash256 { w0: 1, w1: 2, w2: 3, w3: 4 };
    let mut parent = base_header();
    parent.number = 9;
    parent.timestamp = 1000;
    parent.base_fee_per_gas = Some(1000);
    parent.gas_limit = 2000;
    parent.gas_used = 1500;
    parent.extra_data = encode_base_fee_params(8, 2);
    let parent = seal(parent, parent_hash);

    // target = 2000 / 2 = 1000; delta = 500;
    // increase = max(1, 1000 * 500 / (1000 * 8)) = 62; expected = 1062.
    let mut header = base_header();
    header.parent_hash = parent_hash;
    header.number = 10;
    header.timestamp = 1002;
    header.base_fee_per_gas = Some(1062);
    let header = seal(header, Hash256 { w0: 8, w1: 8, w2: 8, w3: 8 });
    assert_eq!(consensus.validate_header_against_parent(&header, &parent), Ok(()));

    let mut wrong = header.clone();
    wrong.header.base_fee_per_gas = Some(1063);
    assert_eq!(
        consensus.validate_header_against_parent(&wrong, &parent),
        Err(ConsensusError::BaseFeeDiff { got: 1063, expected: 1062 })
    );
}

#[test]
fn holocene_malformed_parameter_block_is_base_fee_missing() {
    let mut cs = test_chain_spec();
    cs.holocene_time = Some(0);
    let consensus = OpBeaconConsensus::new(cs);
    let parent_hash = Hash256 { w0: 1, w1: 2, w2: 3, w3: 4 };
    let mut parent = base_header();
    parent.number = 9;
    parent.timestamp = 1000;
    parent.extra_data = vec![0, 1, 2]; // wrong length
    let parent = seal(parent, parent_hash);

    let mut header = base_header();
    header.parent_hash = parent_hash;
    header.number = 10;
    header.timestamp = 1002;
    let header = seal(header, Hash256 { w0: 8, w1: 8, w2: 8, w3: 8 });
    assert_eq!(
        consensus.validate_header_against_parent(&header, &parent),
        Err(ConsensusError::BaseFeeMissing)
    );
}

#[test]
fn parent_linkage_mismatches() {
    let consensus = OpBeaconConsensus::new(test_chain_spec());
    let parent_hash = Hash256 { w0: 7, w1: 7, w2: 7, w3: 7 };
    let mut parent = base_header();
    parent.number = 9;
    parent.timestamp = 1000;
    let parent = seal(parent, parent_hash);

    let mut header = base_header();
    header.parent_hash = Hash256 { w0: 9, w1: 9, w2: 9, w3: 9 };
    header.number = 10;
    header.timestamp = 1002;
    let bad_hash = seal(header, Hash256 { w0: 8, w1: 8, w2: 8, w3: 8 });
    assert_eq!(
        consensus.validate_header_against_parent(&bad_hash, &parent),
        Err(ConsensusError::ParentHashMismatch {
            got: Hash256 { w0: 9, w1: 9, w2: 9, w3: 9 },
            expected: parent_hash,
        })
    );

    let mut header = base_header();
    header.parent_hash = parent_hash;
    header.number = 12;
    header.timestamp = 1002;
    let bad_number = seal(header, Hash256 { w0: 8, w1: 8, w2: 8, w3: 8 });
    assert_eq!(
        consensus.validate_header_against_parent(&bad_number, &parent),
        Err(ConsensusError::ParentNumberMismatch { parent_number: 9, number: 12 })
    );

    let mut header = base_header();
    header.parent_hash = parent_hash;
    header.number = 10;
    header.timestamp = 1000;
    let stale = seal(header, Hash256 { w0: 8, w1: 8, w2: 8, w3: 8 });
    assert_eq!(
        consensus.validate_header_against_parent(&stale, &parent),
        Err(ConsensusError::TimestampIsInPast { parent_timestamp: 1000, timestamp: 1000 })
    );
}

#[test]
fn blob_gas_transition_against_parent() {
    let consensus = OpBeaconConsensus::new(test_chain_spec());
    let parent_hash = Hash256 { w0: 7, w1: 7, w2: 7, w3: 7 };
    let mut parent = base_header();
    parent.number = 9;
    parent.timestamp = 2000;
    parent.base_fee_per_gas = Some(100);
    parent.gas_used = 1_000_000;
    parent.blob_gas_used = Some(5);
    parent.excess_blob_gas = Some(10);
    let parent = seal(parent, parent_hash);

    // expected excess: 10 + 5 - 3 = 12
    let mut header = base_header();
    header.parent_hash = parent_hash;
    header.number = 10;
    header.timestamp = 2002;
    header.base_fee_per_gas = Some(100);
    header.blob_gas_used = Some(0);
    header.excess_blob_gas = Some(12);
    let good = seal(header, Hash256 { w0: 8, w1: 8, w2: 8, w3: 8 });
    assert_eq!(consensus.validate_header_against_parent(&good, &parent), Ok(()));

    let mut wrong = good.clone();
    wrong.header.excess_blob_gas = Some(13);
    assert_eq!(
        consensus.validate_header_against_parent(&wrong, &parent),
        Err(ConsensusError::BlobGasDiff { got: 13, expected: 12 })
    );

    let mut missing = good.clone();
    missing.header.excess_blob_gas = None;
    assert_eq!(
        consensus.validate_header_against_parent(&missing, &parent),
        Err(ConsensusError::ExcessBlobGasMissing)
    );
}

#[test]
fn header_gas_and_base_fee_presence() {
    let consensus = OpBeaconConsensus::new(test_chain_spec());
    let mut header = base_header();
    header.gas_used = 7_000_000; // above the 6_000_000 limit
    let sealed = seal(header, Hash256 { w0: 1, w1: 1, w2: 1, w3: 1 });
    assert_eq!(
        consensus.validate_header(&sealed),
        Err(ConsensusError::GasLimitInvalid { gas_used: 7_000_000, gas_limit: 6_000_000 })
    );

    let mut header = base_header();
    header.base_fee_per_gas = None;
    let sealed = seal(header, Hash256 { w0: 1, w1: 1, w2: 1, w3: 1 });
    assert_eq!(consensus.validate_header(&sealed), Err(ConsensusError::BaseFeeMissing));

    let sealed = seal(base_header(), Hash256 { w0: 1, w1: 1, w2: 1, w3: 1 });
    assert_eq!(consensus.validate_header(&sealed), Ok(()));
}

#[test]
fn merge_nonce_must_be_zero() {
    let consensus = OpBeaconConsensus::new(test_chain_spec());
    let mut header = base_header();
    header.nonce = 0x0000000000000001;
    assert_eq!(
        consensus.validate_header_with_total_difficulty(&header),
        Err(ConsensusError::TheMergeNonceIsNotZero)
    );

    let ok_header = base_header();
    assert_eq!(consensus.validate_header_with_total_difficulty(&ok_header), Ok(()));

    let mut bad_ommers = base_header();
    bad_ommers.ommers_hash = Hash256 { w0: 5, w1: 5, w2: 5, w3: 5 };
    assert_eq!(
        consensus.validate_header_with_total_difficulty(&bad_ommers),
        Err(ConsensusError::TheMergeOmmerRootIsNotEmpty)
    );

    let mut long_extra = base_header();
    long_extra.extra_data = vec![0u8; 33];
    assert_eq!(
        consensus.validate_header_with_total_difficulty(&long_extra),
        Err(ConsensusError::ExtraDataExceedsMax { len: 33 })
    );
}

#[test]
fn pre_shanghai_withdrawals_list_is_rejected() {
    let consensus = OpBeaconConsensus::new(test_chain_spec());
    let mut header = base_header();
    header.timestamp = 500; // before the withdrawals hardfork
    let sealed = seal(header, Hash256 { w0: 1, w1: 1, w2: 1, w3: 1 });
    let withdrawal = Withdrawal { index: 0, validator_index: 0, address: [1u8; 20], amount: 5 };
    let mut body = empty_body();
    body.withdrawals = Some(vec![withdrawal]);
    let block = Block { header: sealed, body };
    assert_eq!(
        consensus.validate_block_pre_execution(&block),
        Err(ConsensusError::WithdrawalsInvariantViolation {
            rule: WithdrawalsRule::ListBeforeActivation,
        })
    );
}

#[test]
fn empty_ommers_commit_to_canonical_constant() {
    let consensus = OpBeaconConsensus::new(test_chain_spec());
    let mut header = base_header();
    header.timestamp = 500;
    let sealed = seal(header, Hash256 { w0: 1, w1: 1, w2: 1, w3: 1 });
    let block = Block { header: sealed, body: empty_body() };
    // Header declares the canonical empty-ommers constant: passes.
    assert_eq!(consensus.validate_block_pre_execution(&block), Ok(()));

    let mut wrong = base_header();
    wrong.timestamp = 500;
    wrong.ommers_hash = Hash256 { w0: 9, w1: 9, w2: 9, w3: 9 };
    let sealed = seal(wrong, Hash256 { w0: 1, w1: 1, w2: 1, w3: 1 });
    let block = Block { header: sealed, body: empty_body() };
    assert_eq!(
        consensus.validate_block_pre_execution(&block),
        Err(ConsensusError::BodyOmmersHashDiff {
            got: empty_ommer_root_hash(),
            expected: Hash256 { w0: 9, w1: 9, w2: 9, w3: 9 },
        })
    );
}

#[test]
fn activation_boundary_uses_new_rules() {
    let consensus = OpBeaconConsensus::new(test_chain_spec());
    // At exactly the activation timestamp the withdrawals-hardfork rules
    // apply: the list must be present and empty.
    let mut header = base_header();
    header.timestamp = 1000;
    let sealed = seal(header, Hash256 { w0: 1, w1: 1, w2: 1, w3: 1 });
    let mut body = empty_body();
    body.withdrawals = Some(Vec::new());
    let block = Block { header: sealed.clone(), body };
    assert_eq!(consensus.validate_block_pre_execution(&block), Ok(()));

    let block_missing = Block { header: sealed, body: empty_body() };
    assert_eq!(
        consensus.validate_block_pre_execution(&block_missing),
        Err(ConsensusError::WithdrawalsInvariantViolation { rule: WithdrawalsRule::ListMissing })
    );
}

#[test]
fn shanghai_withdrawals_must_be_empty() {
    let consensus = OpBeaconConsensus::new(test_chain_spec());
    let mut header = base_header();
    header.timestamp = 1500;
    let sealed = seal(header, Hash256 { w0: 1, w1: 1, w2: 1, w3: 1 });
    let withdrawal = Withdrawal { index: 0, validator_index: 0, address: [1u8; 20], amount: 5 };
    let mut body = empty_body();
    body.withdrawals = Some(vec![withdrawal]);
    let block = Block { header: sealed, body };
    assert_eq!(
        consensus.validate_block_pre_execution(&block),
        Err(ConsensusError::WithdrawalsInvariantViolation { rule: WithdrawalsRule::ListNotEmpty })
    );
}

#[test]
fn cancun_block_requires_empty_withdrawals_root_and_blob_accounting() {
    let consensus = OpBeaconConsensus::new(test_chain_spec());
    let tx = |blob_gas: u64| Transaction { encoded: vec![0x02, 0x01], blob_gas };

    let mut header = base_header();
    header.timestamp = 2500;
    header.withdrawals_root = Some(empty_trie_root_hash());
    header.blob_gas_used = Some(5);
    header.transactions_root = {
        let txs = vec![tx(2), tx(3)];
        calculate_transactions_root(&txs)
    };
    let sealed = seal(header.clone(), Hash256 { w0: 1, w1: 1, w2: 1, w3: 1 });
    let mut body = empty_body();
    body.transactions = vec![tx(2), tx(3)];
    body.withdrawals = Some(Vec::new());
    let block = Block { header: sealed, body: body.clone() };
    assert_eq!(consensus.validate_block_pre_execution(&block), Ok(()));

    // Declared blob gas differs from the transactions' sum.
    let mut wrong = header.clone();
    wrong.blob_gas_used = Some(6);
    let block = Block {
        header: seal(wrong, Hash256 { w0: 1, w1: 1, w2: 1, w3: 1 }),
        body: body.clone(),
    };
    assert_eq!(
        consensus.validate_block_pre_execution(&block),
        Err(ConsensusError::BlobGasUsedDiff { got: 6, expected: 5 })
    );

    // Declared blob gas above the per-block maximum.
    let mut over = header.clone();
    over.blob_gas_used = Some(7);
    let block = Block {
        header: seal(over, Hash256 { w0: 1, w1: 1, w2: 1, w3: 1 }),
        body: body.clone(),
    };
    assert_eq!(
        consensus.validate_block_pre_execution(&block),
        Err(ConsensusError::BlobGasUsedExceedsLimit {
            blob_gas_used: 7,
            max_blob_gas_per_block: 6,
        })
    );

    // A withdrawals root that is not the canonical empty root.
    let mut bad_root = header.clone();
    bad_root.withdrawals_root = Some(Hash256 { w0: 3, w1: 3, w2: 3, w3: 3 });
    let block = Block { header: seal(bad_root, Hash256 { w0: 1, w1: 1, w2: 1, w3: 1 }), body };
    assert_eq!(
        consensus.validate_block_pre_execution(&block),
        Err(ConsensusError::WithdrawalsInvariantViolation { rule: WithdrawalsRule::RootNotEmpty })
    );
}

#[test]
fn isthmus_block_requires_withdrawals_root_presence() {
    let consensus = OpBeaconConsensus::new(test_chain_spec());
    let mut header = base_header();
    header.timestamp = 4500;
    header.blob_gas_used = Some(0);
    header.withdrawals_root = None;
    let sealed = seal(header, Hash256 { w0: 1, w1: 1, w2: 1, w3: 1 });
    let mut body = empty_body();
    body.withdrawals = Some(Vec::new());
    let block = Block { header: sealed, body };
    assert_eq!(
        consensus.validate_block_pre_execution(&block),
        Err(ConsensusError::WithdrawalsInvariantViolation { rule: WithdrawalsRule::RootMissing })
    );
}

#[test]
fn body_against_header_checks_withdrawals_root() {
    let consensus = OpBeaconConsensus::new(test_chain_spec());
    let withdrawal = Withdrawal { index: 1, validator_index: 2, address: [9u8; 20], amount: 3 };
    let ws = vec![withdrawal];
    let root = calculate_withdrawals_root(&ws);
    assert_ne!(root, empty_trie_root_hash());

    let mut header = base_header();
    header.withdrawals_root = Some(root);
    let sealed = seal(header, Hash256 { w0: 1, w1: 1, w2: 1, w3: 1 });
    let mut body = empty_body();
    body.withdrawals = Some(ws);
    assert_eq!(consensus.validate_body_against_header(&body, &sealed), Ok(()));

    let mut mismatched = sealed.clone();
    mismatched.header.withdrawals_root = Some(empty_trie_root_hash());
    assert_eq!(
        consensus.validate_body_against_header(&body, &mismatched),
        Err(ConsensusError::BodyWithdrawalsRootDiff { got: root, expected: empty_trie_root_hash() })
    );

    let mut no_list = empty_body();
    no_list.withdrawals = None;
    assert_eq!(
        consensus.validate_body_against_header(&no_list, &sealed),
        Err(ConsensusError::BodyWithdrawalsMissing)
    );
}

#[test]
fn transactions_root_differs_from_raw_bytes() {
    // The trie commitment is not the identity on its input.
    let txs = vec![Transaction { encoded: vec![0xaa, 0xbb], blob_gas: 0 }];
    let root = calculate_transactions_root(&txs);
    assert_ne!(root, empty_trie_root_hash());
    let empty: Vec<Transaction> = Vec::new();
    assert_eq!(calculate_transactions_root(&empty), empty_trie_root_hash());
}

#[test]
fn receipts_root_is_pure_and_gated_by_canyon() {
    let cs = test_chain_spec();
    let log = Log {
        address: [2u8; 20],
        topics: vec![Hash256 { w0: 1, w1: 2, w2: 3, w3: 4 }],
        data: vec![1, 2, 3],
    };
    let deposit = Receipt {
        tx_type: DEPOSIT_TX_TYPE,
        status: true,
        cumulative_gas_used: 21000,
        logs: vec![log],
        deposit_nonce: Some(7),
        deposit_receipt_version: Some(1),
    };
    let receipts = vec![deposit];

    // Pure: the same inputs give the identical root.
    let before = calculate_receipts_root(&receipts, &cs, 500);
    let before_again = calculate_receipts_root(&receipts, &cs, 500);
    assert_eq!(before, before_again);

    // Before the deposit-receipt-version hardfork the deposit fields are
    // stripped, so the root equals that of a receipt without them.
    let mut stripped = receipts.clone();
    stripped[0].deposit_nonce = None;
    stripped[0].deposit_receipt_version = None;
    assert_eq!(calculate_receipts_root(&stripped, &cs, 500), before);

    // After activation the fields enter the encoding and change the root.
    let after = calculate_receipts_root(&receipts, &cs, 1500);
    assert_ne!(after, before);

    // The empty list commits to the canonical empty trie root.
    let none: Vec<Receipt> = Vec::new();
    assert_eq!(calculate_receipts_root(&none, &cs, 500), empty_trie_root_hash());
}

#[test]
fn post_execution_receipt_root_mismatch_is_reported() {
    let cs = test_chain_spec();
    let consensus = OpBeaconConsensus::new(cs);
    let receipt = Receipt {
        tx_type: 0,
        status: true,
        cumulative_gas_used: 21000,
        logs: Vec::new(),
        deposit_nonce: None,
        deposit_receipt_version: None,
    };
    let receipts = vec![receipt];
    let root = calculate_receipts_root(&receipts, &consensus.chain_spec, 500);

    let mut header = base_header();
    header.receipts_root = root;
    let block = Block {
        header: seal(header.clone(), Hash256 { w0: 1, w1: 1, w2: 1, w3: 1 }),
        body: empty_body(),
    };
    let result = BlockExecutionResult { receipts };
    assert_eq!(consensus.validate_block_post_execution(&block, &result), Ok(()));

    let mut wrong = header;
    wrong.receipts_root = empty_trie_root_hash();
    let block = Block {
        header: seal(wrong, Hash256 { w0: 1, w1: 1, w2: 1, w3: 1 }),
        body: empty_body(),
    };
    assert_eq!(
        consensus.validate_block_post_execution(&block, &result),
        Err(ConsensusError::ReceiptRootDiff { got: root, expected: empty_trie_root_hash() })
    );
}

#[test]
fn fee_market_transition_block_owes_initial_base_fee() {
    let mut cs = test_chain_spec();
    cs.bedrock_block = Some(10);
    let consensus = OpBeaconConsensus::new(cs);
    let parent_hash = Hash256 { w0: 7, w1: 7, w2: 7, w3: 7 };
    let mut parent = base_header();
    parent.number = 9;
    parent.timestamp = 1000;
    parent.base_fee_per_gas = None; // pre-fee-market parent
    let parent = seal(parent, parent_hash);

    let mut header = base_header();
    header.parent_hash = parent_hash;
    header.number = 10;
    header.timestamp = 1002;
    header.base_fee_per_gas = Some(1_000_000_000);
    let good = seal(header.clone(), Hash256 { w0: 8, w1: 8, w2: 8, w3: 8 });
    assert_eq!(consensus.validate_header_against_parent(&good, &parent), Ok(()));

    let mut wrong = header;
    wrong.base_fee_per_gas = Some(5);
    let wrong = seal(wrong, Hash256 { w0: 8, w1: 8, w2: 8, w3: 8 });
    assert_eq!(
        consensus.validate_header_against_parent(&wrong, &parent),
        Err(ConsensusError::BaseFeeDiff { got: 5, expected: 1_000_000_000 })
    );
}

#[test]
fn holocene_zero_sentinel_falls_back_to_defaults() {
    let mut cs = test_chain_spec();
    cs.holocene_time = Some(0);
    cs.base_fee_denominator = 8;
    cs.base_fee_elasticity = 2;
    let consensus = OpBeaconConsensus::new(cs);
    let parent_hash = Hash256 { w0: 1, w1: 2, w2: 3, w3: 4 };
    let mut parent = base_header();
    parent.number = 9;
    parent.timestamp = 1000;
    parent.base_fee_per_gas = Some(1000);
    parent.gas_limit = 2000;
    parent.gas_used = 1500;
    parent.extra_data = encode_base_fee_params(0, 0); // all-zero sentinel
    let parent = seal(parent, parent_hash);

    // The chain defaults (denominator 8, elasticity 2) give the same
    // arithmetic as the explicit (8, 2) block: expected = 1062.
    let mut header = base_header();
    header.parent_hash = parent_hash;
    header.number = 10;
    header.timestamp = 1002;
    header.base_fee_per_gas = Some(1062);
    let header = seal(header, Hash256 { w0: 8, w1: 8, w2: 8, w3: 8 });
    assert_eq!(consensus.validate_header_against_parent(&header, &parent), Ok(()));
}

#[test]
fn base_fee_decreases_below_target() {
    let consensus = OpBeaconConsensus::new(test_chain_spec());
    let parent_hash = Hash256 { w0: 7, w1: 7, w2: 7, w3: 7 };
    let mut parent = base_header();
    parent.number = 9;
    parent.timestamp = 1000;
    parent.base_fee_per_gas = Some(100);
    parent.gas_limit = 6_000_000;
    parent.gas_used = 500_000; // half the 1_000_000 target
    let parent = seal(parent, parent_hash);

    // decrease = 100 * 500_000 / (1_000_000 * 50) = 1 -> expected 99.
    let mut header = base_header();
    header.parent_hash = parent_hash;
    header.number = 10;
    header.timestamp = 1002;
    header.base_fee_per_gas = Some(99);
    let header = seal(header, Hash256 { w0: 8, w1: 8, w2: 8, w3: 8 });
    assert_eq!(consensus.validate_header_against_parent(&header, &parent), Ok(()));
}

#[test]
fn blob_gas_used_must_be_declared() {
    let consensus = OpBeaconConsensus::new(test_chain_spec());
    let parent_hash = Hash256 { w0: 7, w1: 7, w2: 7, w3: 7 };
    let mut parent = base_header();
    parent.number = 9;
    parent.timestamp = 2000;
    let parent = seal(parent, parent_hash);

    let mut header = base_header();
    header.parent_hash = parent_hash;
    header.number = 10;
    header.timestamp = 2002; // blob hardfork active, but no blob fields
    header.blob_gas_used = None;
    let header = seal(header, Hash256 { w0: 8, w1: 8, w2: 8, w3: 8 });
    assert_eq!(
        consensus.validate_header_against_parent(&header, &parent),
        Err(ConsensusError::BlobGasUsedMissing)
    );

    // The same omission in pre-execution validation of a blob-era block.
    let mut header = base_header();
    header.timestamp = 2500;
    header.withdrawals_root = Some(empty_trie_root_hash());
    header.blob_gas_used = None;
    let sealed = seal(header, Hash256 { w0: 1, w1: 1, w2: 1, w3: 1 });
    let mut body = empty_body();
    body.withdrawals = Some(Vec::new());
    let block = Block { header: sealed, body };
    assert_eq!(
        consensus.validate_block_pre_execution(&block),
        Err(ConsensusError::BlobGasUsedMissing)
    );
}

#[test]
fn body_transaction_root_mismatch_is_reported() {
    let consensus = OpBeaconConsensus::new(test_chain_spec());
    let txs = vec![Transaction { encoded: vec![0x02, 0xaa], blob_gas: 0 }];
    let root = calculate_transactions_root(&txs);

    let mut header = base_header(); // declares the empty transactions root
    header.timestamp = 500;
    let sealed = seal(header, Hash256 { w0: 1, w1: 1, w2: 1, w3: 1 });
    let mut body = empty_body();
    body.transactions = txs;
    let block = Block { header: sealed, body };
    assert_eq!(
        consensus.validate_block_pre_execution(&block),
        Err(ConsensusError::BodyTransactionRootDiff {
            got: root,
            expected: empty_trie_root_hash(),
        })
    );
}

#[test]
fn withdrawals_list_without_header_root_is_rejected() {
    let consensus = OpBeaconConsensus::new(test_chain_spec());
    let header = base_header(); // no withdrawals root
    let sealed = seal(header, Hash256 { w0: 1, w1: 1, w2: 1, w3: 1 });
    let mut body = empty_body();
    body.withdrawals = Some(Vec::new());
    assert_eq!(
        consensus.validate_body_against_header(&body, &sealed),
        Err(ConsensusError::WithdrawalsRootMissing)
    );
}

#[test]
fn nonempty_ommers_commitment_matches_header_declaration() {
    let consensus = OpBeaconConsensus::new(test_chain_spec());
    let ommer = base_header();
    let ommers = vec![ommer.clone()];
    let root = calculate_ommers_root(&ommers);
    assert_ne!(root, empty_ommer_root_hash());

    let mut header = base_header();
    header.timestamp = 500;
    header.ommers_hash = root;
    let sealed = seal(header, Hash256 { w0: 1, w1: 1, w2: 1, w3: 1 });
    let mut body = empty_body();
    body.ommers = vec![ommer];
    let block = Block { header: sealed, body };
    // The ommers commitment matches, so validation proceeds past it.
    assert_eq!(consensus.validate_block_pre_execution(&block), Ok(()));
}
