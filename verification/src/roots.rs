//! Commitment-root calculators.
//!
//! The ordered-trie and hashing primitives come from outside crates and are
//! trusted through the small wrappers below; everything that chooses what is
//! committed — in particular the hardfork-gated encoding of deposit
//! receipts — is verified here.

use vstd::prelude::*;
use crate::types::{
    empty_ommer_root, empty_trie_root, ChainSpec, Hash256, BlockHeader, HeaderModel, Log, LogModel,
    Receipt, ReceiptModel, Transaction, Withdrawal, WithdrawalModel,
};

verus! {

/// Transaction type tag of the deposit variant.
pub const DEPOSIT_TX_TYPE: u8 = 0x7e;

#[verifier::external_type_specification]
#[verifier::external_body]
pub struct ExFixedBytes<const N: usize>(alloy_primitives::FixedBytes<N>);

#[verifier::external_type_specification]
#[verifier::external_body]
pub struct ExAlloyHeader(alloy_consensus::Header);

/// Root of the index-keyed commitment trie over a list of already-encoded
/// items.
pub uninterp spec fn trie_root_of(items: Seq<Seq<u8>>) -> Hash256;

/// Commitment root over a list of ommer headers.
pub uninterp spec fn ommers_root_of(ommers: Seq<HeaderModel>) -> Hash256;

/// Commitment root over a withdrawals list.
pub uninterp spec fn withdrawals_root_of(withdrawals: Seq<WithdrawalModel>) -> Hash256;

/// Serialized receipt payload: the canonical list of status, cumulative gas,
/// the bloom filter over the logs and the logs themselves, with the deposit
/// nonce and version appended exactly when set.
pub uninterp spec fn receipt_payload_rlp(
    status: bool,
    cumulative_gas_used: u64,
    logs: Seq<LogModel>,
    deposit_nonce: Option<u64>,
    deposit_receipt_version: Option<u64>,
) -> Seq<u8>;

/// Conversion of a commitment value to the outside 32-byte form.
#[verifier::external_body]
fn to_b256(h: Hash256) -> alloy_primitives::B256 {
    let mut b = [0u8; 32];
    b[0..8].copy_from_slice(&h.w0.to_be_bytes());
    b[8..16].copy_from_slice(&h.w1.to_be_bytes());
    b[16..24].copy_from_slice(&h.w2.to_be_bytes());
    b[24..32].copy_from_slice(&h.w3.to_be_bytes());
    alloy_primitives::B256::new(b)
}

/// Conversion of the outside 32-byte form to a commitment value.
#[verifier::external_body]
fn from_b256(b: alloy_primitives::B256) -> Hash256 {
    let s = b.as_slice();
    Hash256 {
        w0: u64::from_be_bytes(s[0..8].try_into().unwrap()),
        w1: u64::from_be_bytes(s[8..16].try_into().unwrap()),
        w2: u64::from_be_bytes(s[16..24].try_into().unwrap()),
        w3: u64::from_be_bytes(s[24..32].try_into().unwrap()),
    }
}

/// Conversion to the outside header type; fields the rules never read stay
/// at their defaults.
#[verifier::external_body]
fn to_alloy_header(h: &BlockHeader) -> alloy_consensus::Header {
    alloy_consensus::Header {
        parent_hash: to_b256(h.parent_hash),
        ommers_hash: to_b256(h.ommers_hash),
        number: h.number, timestamp: h.timestamp,
        gas_limit: h.gas_limit, gas_used: h.gas_used,
        extra_data: alloy_primitives::Bytes::copy_from_slice(&h.extra_data),
        base_fee_per_gas: h.base_fee_per_gas,
        nonce: alloy_primitives::B64::new(h.nonce.to_be_bytes()),
        transactions_root: to_b256(h.transactions_root),
        receipts_root: to_b256(h.receipts_root),
        withdrawals_root: h.withdrawals_root.map(to_b256),
        blob_gas_used: h.blob_gas_used, excess_blob_gas: h.excess_blob_gas,
        ..Default::default()
    }
}

/// Relies on alloy-trie's `ordered_trie_root_encoded`: the root of the
/// index-keyed trie over pre-encoded items; an empty list yields the
/// canonical empty trie root.
#[verifier::external_body]
fn trie_root_encoded(items: &Vec<Vec<u8>>) -> (r: Hash256)
    ensures
        r == trie_root_of(items@.map_values(|v: Vec<u8>| v@)),
        items@.len() == 0 ==> r == empty_trie_root(),
{
    from_b256(alloy_trie::root::ordered_trie_root_encoded(items))
}

/// Relies on alloy-consensus's `calculate_ommers_root`: the hash of the
/// canonical list encoding of the headers; an empty list yields the
/// canonical empty-ommers root.
#[verifier::external_body]
fn ommers_commitment(ommers: &Vec<BlockHeader>) -> (r: Hash256)
    ensures
        r == ommers_root_of(ommers@.map_values(|h: BlockHeader| h@)),
        ommers@.len() == 0 ==> r == empty_ommer_root(),
{
    let v: std::vec::Vec<alloy_consensus::Header> = ommers.iter().map(to_alloy_header).collect();
    from_b256(alloy_consensus::proofs::calculate_ommers_root(&v))
}

/// Relies on alloy-consensus's `calculate_withdrawals_root`: the ordered
/// trie over the withdrawals' canonical encodings; an empty list yields the
/// canonical empty trie root.
#[verifier::external_body]
fn withdrawals_commitment(withdrawals: &Vec<Withdrawal>) -> (r: Hash256)
    ensures
        r == withdrawals_root_of(withdrawals@.map_values(|w: Withdrawal| w@)),
        withdrawals@.len() == 0 ==> r == empty_trie_root(),
{
    let v: std::vec::Vec<alloy_eips::eip4895::Withdrawal> = withdrawals.iter().map(|w|
        alloy_eips::eip4895::Withdrawal {
            index: w.index,
            validator_index: w.validator_index,
            address: alloy_primitives::Address::from(w.address),
            amount: w.amount,
        }).collect();
    from_b256(alloy_consensus::proofs::calculate_withdrawals_root(&v))
}

/// Relies on op-alloy-consensus's deposit receipt encoding with bloom: the
/// canonical receipt list encoding, computing the bloom from the logs, with
/// the deposit nonce and version appended exactly when set.
#[verifier::external_body]
fn receipt_payload(
    status: bool,
    cumulative_gas_used: u64,
    logs: &Vec<Log>,
    deposit_nonce: Option<u64>,
    deposit_receipt_version: Option<u64>,
) -> (b: Vec<u8>)
    ensures
        b@ == receipt_payload_rlp(
            status,
            cumulative_gas_used,
            logs@.map_values(|l: Log| l@),
            deposit_nonce,
            deposit_receipt_version,
        ),
{
    let ls: std::vec::Vec<alloy_primitives::Log> = logs.iter().map(|l|
        alloy_primitives::Log::new_unchecked(
            alloy_primitives::Address::from(l.address),
            l.topics.iter().map(|t| to_b256(*t)).collect(),
            alloy_primitives::Bytes::copy_from_slice(&l.data),
        )).collect();
    let receipt = op_alloy_consensus::OpDepositReceipt {
        inner: alloy_consensus::Receipt { status: status.into(), cumulative_gas_used, logs: ls },
        deposit_nonce,
        deposit_receipt_version,
    };
    let with_bloom = receipt.with_bloom();
    let mut out: std::vec::Vec<u8> = std::vec::Vec::new();
    alloy_rlp::Encodable::encode(&with_bloom, &mut out);
    out
}

/// The receipt as it enters the commitment encoding: before
/// the deposit-receipt-version hardfork a deposit receipt's nonce and
/// version are omitted even if populated; after it they are included exactly
/// when the receipt's version flag is set. Non-deposit receipts pass through
/// unchanged.
pub open spec fn receipt_for_encoding_spec(r: ReceiptModel, version_active: bool) -> ReceiptModel {
    if r.tx_type == DEPOSIT_TX_TYPE {
        if version_active && r.deposit_receipt_version is Some {
            r
        } else {
            ReceiptModel { deposit_nonce: None, deposit_receipt_version: None, ..r }
        }
    } else {
        r
    }
}

/// Canonical envelope encoding of a receipt: the serialized payload,
/// prefixed by the transaction type tag for non-legacy variants.
pub open spec fn receipt_envelope_spec(r: ReceiptModel) -> Seq<u8> {
    let payload = receipt_payload_rlp(
        r.status,
        r.cumulative_gas_used,
        r.logs,
        r.deposit_nonce,
        r.deposit_receipt_version,
    );
    if r.tx_type == 0 {
        payload
    } else {
        seq![r.tx_type] + payload
    }
}

/// The receipts commitment: the ordered trie over every receipt's envelope
/// encoding, after the hardfork-gated field selection.
pub open spec fn receipts_root_spec(receipts: Seq<ReceiptModel>, version_active: bool) -> Hash256 {
    trie_root_of(
        receipts.map_values(|r: ReceiptModel| receipt_envelope_spec(receipt_for_encoding_spec(r, version_active))),
    )
}

/// Envelope-encode one receipt under the hardfork rule.
fn encode_receipt(r: &Receipt, version_active: bool) -> (b: Vec<u8>)
    ensures
        b@ == receipt_envelope_spec(receipt_for_encoding_spec(r@, version_active)),
{
    let is_deposit = r.tx_type == DEPOSIT_TX_TYPE;
    let keep_fields = !is_deposit || (version_active && r.deposit_receipt_version.is_some());
    let nonce: Option<u64> = if keep_fields {
        r.deposit_nonce
    } else {
        None
    };
    let version: Option<u64> = if keep_fields {
        r.deposit_receipt_version
    } else {
        None
    };
    let mut payload = receipt_payload(r.status, r.cumulative_gas_used, &r.logs, nonce, version);
    if r.tx_type == 0 {
        payload
    } else {
        let mut out: Vec<u8> = Vec::new();
        out.push(r.tx_type);
        out.append(&mut payload);
        proof {
            assert(out@ =~= receipt_envelope_spec(receipt_for_encoding_spec(r@, version_active)));
        }
        out
    }
}

/// Compute the root committing to the ordered receipt list, deriving it
/// directly from receipt contents; never fails.
///
/// Deposit receipts are special-cased: before the deposit-receipt-version
/// hardfork their deposit nonce and version are omitted from the encoding
/// even if populated in memory; after activation they are included exactly
/// when the receipt's version flag is set.
pub fn calculate_receipts_root(
    receipts: &Vec<Receipt>,
    chain_spec: &ChainSpec,
    timestamp: u64,
) -> (r: Hash256)
    ensures
        r == receipts_root_spec(
            receipts@.map_values(|x: Receipt| x@),
            chain_spec.canyon_active(timestamp),
        ),
        receipts@.len() == 0 ==> r == empty_trie_root(),
{
    let version_active = chain_spec.is_canyon_active_at_timestamp(timestamp);
    let ghost models = receipts@.map_values(|x: Receipt| x@);
    let mut encoded: Vec<Vec<u8>> = Vec::new();
    let n = receipts.len();
    let mut i: usize = 0;
    while i < n
        invariant
            n == receipts@.len(),
            i <= n,
            models == receipts@.map_values(|x: Receipt| x@),
            encoded@.len() == i,
            forall|j: int|
                0 <= j < i ==> #[trigger] encoded@[j]@ == receipt_envelope_spec(
                    receipt_for_encoding_spec(models[j], version_active),
                ),
        decreases n - i,
    {
        let e = encode_receipt(&receipts[i], version_active);
        encoded.push(e);
        i += 1;
    }
    let root = trie_root_encoded(&encoded);
    proof {
        assert(encoded@.map_values(|v: Vec<u8>| v@) =~= models.map_values(
            |r: ReceiptModel| receipt_envelope_spec(receipt_for_encoding_spec(r, version_active)),
        ));
    }
    root
}

/// Idempotence: the receipts commitment is a pure function of the receipt
/// list and the hardfork flag — two roots computed from the same inputs,
/// each meeting [`calculate_receipts_root`]'s contract, are identical.
pub proof fn lemma_receipts_root_idempotent(
    receipts: Seq<ReceiptModel>,
    version_active: bool,
    r1: Hash256,
    r2: Hash256,
)
    requires
        r1 == receipts_root_spec(receipts, version_active),
        r2 == receipts_root_spec(receipts, version_active),
    ensures
        r1 == r2,
{
}

/// Commitment over the body's ommer headers; the empty list commits to the
/// canonical empty-ommers constant.
pub fn calculate_ommers_root(ommers: &Vec<BlockHeader>) -> (r: Hash256)
    ensures
        r == ommers_root_of(ommers@.map_values(|h: BlockHeader| h@)),
        ommers@.len() == 0 ==> r == empty_ommer_root(),
{
    ommers_commitment(ommers)
}

/// Commitment over the body's transactions: the ordered trie over each
/// transaction's envelope encoding.
pub fn calculate_transactions_root(transactions: &Vec<Transaction>) -> (r: Hash256)
    ensures
        r == trie_root_of(transactions@.map_values(|t: Transaction| t.encoded@)),
        transactions@.len() == 0 ==> r == empty_trie_root(),
{
    let mut encoded: Vec<Vec<u8>> = Vec::new();
    let n = transactions.len();
    let mut i: usize = 0;
    while i < n
        invariant
            n == transactions@.len(),
            i <= n,
            encoded@.len() == i,
            forall|j: int|
                0 <= j < i ==> #[trigger] encoded@[j]@ == transactions@[j].encoded@,
        decreases n - i,
    {
        let mut bytes: Vec<u8> = Vec::new();
        let src = &transactions[i].encoded;
        let m = src.len();
        let mut k: usize = 0;
        while k < m
            invariant
                m == src@.len(),
                k <= m,
                bytes@ =~= src@.subrange(0, k as int),
            decreases m - k,
        {
            bytes.push(src[k]);
            k += 1;
        }
        proof {
            assert(bytes@ =~= src@);
        }
        encoded.push(bytes);
        i += 1;
    }
    let root = trie_root_encoded(&encoded);
    proof {
        assert(encoded@.map_values(|v: Vec<u8>| v@) =~= transactions@.map_values(
            |t: Transaction| t.encoded@,
        ));
    }
    root
}

/// Commitment over a withdrawals list; the empty list commits to the
/// canonical empty trie root.
pub fn calculate_withdrawals_root(withdrawals: &Vec<Withdrawal>) -> (r: Hash256)
    ensures
        r == withdrawals_root_of(withdrawals@.map_values(|w: Withdrawal| w@)),
        withdrawals@.len() == 0 ==> r == empty_trie_root(),
{
    withdrawals_commitment(withdrawals)
}

} // verus!
