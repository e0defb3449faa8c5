//! Plain data model of headers, bodies, receipts and the chain specification.
//!
//! Every value the validation rules read is held here as a plain integer,
//! byte vector or option, so that each rule can be stated and proved exactly.

use vstd::prelude::*;

verus! {

/// A 256-bit commitment value (a trie root or a block hash), held as four
/// big-endian 64-bit words: `w0` holds the most significant bytes.
#[derive(Debug, Clone, Copy, PartialEq, Eq, Structural)]
pub struct Hash256 {
    pub w0: u64,
    pub w1: u64,
    pub w2: u64,
    pub w3: u64,
}

/// Root committing to the empty ommers list: the hash of the
/// canonical encoding of an empty list of headers.
pub open spec fn empty_ommer_root() -> Hash256 {
    Hash256 {
        w0: 0x1dcc4de8dec75d7a,
        w1: 0xab85b567b6ccd41a,
        w2: 0xd312451b948a7413,
        w3: 0xf0a142fd40d49347,
    }
}

/// Root of an empty commitment trie (empty transactions, receipts or
/// withdrawals list).
pub open spec fn empty_trie_root() -> Hash256 {
    Hash256 {
        w0: 0x56e81f171bcc55a6,
        w1: 0xff8345e692c0f86e,
        w2: 0x5b48e01b996cadc0,
        w3: 0x01622fb5e363b421,
    }
}

/// Exec counterpart of [`empty_ommer_root`].
pub fn empty_ommer_root_hash() -> (r: Hash256)
    ensures
        r == empty_ommer_root(),
{
    Hash256 {
        w0: 0x1dcc4de8dec75d7a,
        w1: 0xab85b567b6ccd41a,
        w2: 0xd312451b948a7413,
        w3: 0xf0a142fd40d49347,
    }
}

/// Exec counterpart of [`empty_trie_root`].
pub fn empty_trie_root_hash() -> (r: Hash256)
    ensures
        r == empty_trie_root(),
{
    Hash256 {
        w0: 0x56e81f171bcc55a6,
        w1: 0xff8345e692c0f86e,
        w2: 0x5b48e01b996cadc0,
        w3: 0x01622fb5e363b421,
    }
}

/// Blob-gas market parameters supplied by the chain specification.
#[derive(Debug, Clone, Copy, PartialEq, Eq, Structural)]
pub struct BlobParams {
    /// Target blob gas per block; the excess-blob-gas update subtracts it.
    pub target_blob_gas_per_block: u64,
    /// Hard cap on blob gas declared by one block.
    pub max_blob_gas_per_block: u64,
}

/// Immutable chain specification: hardfork activation points and protocol
/// constants. Shared read-only by every validation call.
///
/// A hardfork with activation `None` is never active; one with `Some(a)` is
/// active at every timestamp (or block number) greater than or equal to `a`,
/// so a block at the exact activation instant is validated under the new
/// rules.
#[derive(Debug, Clone, Copy, PartialEq, Eq, Structural)]
pub struct ChainSpec {
    /// Merge-equivalent hardfork, keyed by block number.
    pub bedrock_block: Option<u64>,
    /// Withdrawals-list hardfork, keyed by timestamp.
    pub shanghai_time: Option<u64>,
    /// Deposit-receipt-version hardfork, keyed by timestamp.
    pub canyon_time: Option<u64>,
    /// Blob-gas hardfork, keyed by timestamp.
    pub cancun_time: Option<u64>,
    /// Fee-parameter hardfork, keyed by timestamp.
    pub holocene_time: Option<u64>,
    /// Withdrawals-storage-root hardfork, keyed by timestamp.
    pub isthmus_time: Option<u64>,
    /// Default base-fee change denominator, used while no explicit
    /// parameter block overrides it.
    pub base_fee_denominator: u64,
    /// Default elasticity multiplier.
    pub base_fee_elasticity: u64,
    /// Blob-gas parameters, in force once the blob hardfork is active.
    pub blob_params: BlobParams,
}

impl ChainSpec {
    /// The static protocol constants are meaningful: a zero denominator or
    /// elasticity would make the fee formula divide by zero.
    pub open spec fn wf(self) -> bool {
        &&& self.base_fee_denominator >= 1
        &&& self.base_fee_elasticity >= 1
    }

    pub open spec fn bedrock_active_at_block(self, number: u64) -> bool {
        match self.bedrock_block {
            Some(b) => number >= b,
            None => false,
        }
    }

    pub open spec fn shanghai_active(self, timestamp: u64) -> bool {
        match self.shanghai_time {
            Some(t) => timestamp >= t,
            None => false,
        }
    }

    pub open spec fn canyon_active(self, timestamp: u64) -> bool {
        match self.canyon_time {
            Some(t) => timestamp >= t,
            None => false,
        }
    }

    pub open spec fn cancun_active(self, timestamp: u64) -> bool {
        match self.cancun_time {
            Some(t) => timestamp >= t,
            None => false,
        }
    }

    pub open spec fn holocene_active(self, timestamp: u64) -> bool {
        match self.holocene_time {
            Some(t) => timestamp >= t,
            None => false,
        }
    }

    pub open spec fn isthmus_active(self, timestamp: u64) -> bool {
        match self.isthmus_time {
            Some(t) => timestamp >= t,
            None => false,
        }
    }

    /// Blob parameters are defined exactly while the blob hardfork is active.
    pub open spec fn blob_params_at(self, timestamp: u64) -> Option<BlobParams> {
        if self.cancun_active(timestamp) {
            Some(self.blob_params)
        } else {
            None
        }
    }

    /// Exec query: is the merge-equivalent hardfork active at this number?
    pub fn is_bedrock_active_at_block(&self, number: u64) -> (r: bool)
        ensures
            r == self.bedrock_active_at_block(number),
    {
        match self.bedrock_block {
            Some(b) => number >= b,
            None => false,
        }
    }

    /// Exec query: is the withdrawals-list hardfork active?
    pub fn is_shanghai_active_at_timestamp(&self, timestamp: u64) -> (r: bool)
        ensures
            r == self.shanghai_active(timestamp),
    {
        match self.shanghai_time {
            Some(t) => timestamp >= t,
            None => false,
        }
    }

    /// Exec query: is the deposit-receipt-version hardfork active?
    pub fn is_canyon_active_at_timestamp(&self, timestamp: u64) -> (r: bool)
        ensures
            r == self.canyon_active(timestamp),
    {
        match self.canyon_time {
            Some(t) => timestamp >= t,
            None => false,
        }
    }

    /// Exec query: is the blob hardfork active?
    pub fn is_cancun_active_at_timestamp(&self, timestamp: u64) -> (r: bool)
        ensures
            r == self.cancun_active(timestamp),
    {
        match self.cancun_time {
            Some(t) => timestamp >= t,
            None => false,
        }
    }

    /// Exec query: is the fee-parameter hardfork active?
    pub fn is_holocene_active_at_timestamp(&self, timestamp: u64) -> (r: bool)
        ensures
            r == self.holocene_active(timestamp),
    {
        match self.holocene_time {
            Some(t) => timestamp >= t,
            None => false,
        }
    }

    /// Exec query: is the withdrawals-storage-root hardfork active?
    pub fn is_isthmus_active_at_timestamp(&self, timestamp: u64) -> (r: bool)
        ensures
            r == self.isthmus_active(timestamp),
    {
        match self.isthmus_time {
            Some(t) => timestamp >= t,
            None => false,
        }
    }

    /// Exec query: the blob parameters in force at `timestamp`, if any.
    pub fn blob_params_at_timestamp(&self, timestamp: u64) -> (r: Option<BlobParams>)
        ensures
            r == self.blob_params_at(timestamp),
    {
        if self.is_cancun_active_at_timestamp(timestamp) {
            Some(self.blob_params)
        } else {
            None
        }
    }
}

/// Activation is inclusive of the boundary instant: a hardfork keyed by a
/// timestamp (or block number) is active at exactly its activation point,
/// so a block there is validated under the new rule set.
pub proof fn lemma_activation_inclusive(cs: ChainSpec, t: u64, n: u64)
    ensures
        cs.shanghai_time == Some(t) ==> cs.shanghai_active(t),
        cs.canyon_time == Some(t) ==> cs.canyon_active(t),
        cs.cancun_time == Some(t) ==> cs.cancun_active(t),
        cs.holocene_time == Some(t) ==> cs.holocene_active(t),
        cs.isthmus_time == Some(t) ==> cs.isthmus_active(t),
        cs.bedrock_block == Some(n) ==> cs.bedrock_active_at_block(n),
{
}

/// A block header: the fields the consensus rules read, as plain values.
#[derive(Debug, Clone)]
pub struct BlockHeader {
    /// Hash of the parent block's sealed header.
    pub parent_hash: Hash256,
    /// Commitment to the ommers list of the body.
    pub ommers_hash: Hash256,
    /// Block height.
    pub number: u64,
    /// Block timestamp in seconds.
    pub timestamp: u64,
    /// Gas limit of the block.
    pub gas_limit: u64,
    /// Total gas used by the block.
    pub gas_used: u64,
    /// Extension-data bytes; once the fee-parameter hardfork is active they
    /// carry the packed base-fee-parameter block.
    pub extra_data: Vec<u8>,
    /// Base fee per unit gas; required once the fee-market hardfork is active.
    pub base_fee_per_gas: Option<u64>,
    /// BlockHeader nonce; fixed zero after the merge-equivalent hardfork.
    pub nonce: u64,
    /// Commitment to the transactions list of the body.
    pub transactions_root: Hash256,
    /// Commitment to the receipts produced by executing the block.
    pub receipts_root: Hash256,
    /// Withdrawals commitment; presence is hardfork-dependent.
    pub withdrawals_root: Option<Hash256>,
    /// Blob gas used by the block; present once the blob hardfork is active.
    pub blob_gas_used: Option<u64>,
    /// Running excess blob gas; present once the blob hardfork is active.
    pub excess_blob_gas: Option<u64>,
}

/// Ghost model of a header: the same fields with byte vectors abstracted
/// to sequences.
pub ghost struct HeaderModel {
    pub parent_hash: Hash256,
    pub ommers_hash: Hash256,
    pub number: u64,
    pub timestamp: u64,
    pub gas_limit: u64,
    pub gas_used: u64,
    pub extra_data: Seq<u8>,
    pub base_fee_per_gas: Option<u64>,
    pub nonce: u64,
    pub transactions_root: Hash256,
    pub receipts_root: Hash256,
    pub withdrawals_root: Option<Hash256>,
    pub blob_gas_used: Option<u64>,
    pub excess_blob_gas: Option<u64>,
}

impl View for BlockHeader {
    type V = HeaderModel;

    open spec fn view(&self) -> HeaderModel {
        HeaderModel {
            parent_hash: self.parent_hash,
            ommers_hash: self.ommers_hash,
            number: self.number,
            timestamp: self.timestamp,
            gas_limit: self.gas_limit,
            gas_used: self.gas_used,
            extra_data: self.extra_data@,
            base_fee_per_gas: self.base_fee_per_gas,
            nonce: self.nonce,
            transactions_root: self.transactions_root,
            receipts_root: self.receipts_root,
            withdrawals_root: self.withdrawals_root,
            blob_gas_used: self.blob_gas_used,
            excess_blob_gas: self.excess_blob_gas,
        }
    }
}

/// A header together with the hash it was sealed with. The hash is computed
/// by the sealing collaborator; parent-linkage checks compare against it.
#[derive(Debug, Clone)]
pub struct SealedHeader {
    /// The sealed header.
    pub header: BlockHeader,
    /// Hash of the sealed header's canonical encoding.
    pub hash: Hash256,
}

/// A transaction as the consensus rules see it: its canonical envelope
/// encoding and its declared blob gas.
#[derive(Debug, Clone)]
pub struct Transaction {
    /// The transaction's canonical typed-envelope encoding.
    pub encoded: Vec<u8>,
    /// Blob gas this transaction declares; zero for non-blob transactions.
    pub blob_gas: u64,
}

/// A withdrawal record.
#[derive(Debug, Clone)]
pub struct Withdrawal {
    /// Monotonic withdrawal index.
    pub index: u64,
    /// Index of the validator withdrawn from.
    pub validator_index: u64,
    /// Target address, twenty bytes.
    pub address: [u8; 20],
    /// Amount withdrawn.
    pub amount: u64,
}

/// Ghost model of a withdrawal.
pub ghost struct WithdrawalModel {
    pub index: u64,
    pub validator_index: u64,
    pub address: Seq<u8>,
    pub amount: u64,
}

impl View for Withdrawal {
    type V = WithdrawalModel;

    open spec fn view(&self) -> WithdrawalModel {
        WithdrawalModel {
            index: self.index,
            validator_index: self.validator_index,
            address: self.address@,
            amount: self.amount,
        }
    }
}

/// One log entry of a receipt.
#[derive(Debug, Clone)]
pub struct Log {
    /// Address that emitted the log, twenty bytes.
    pub address: [u8; 20],
    /// Log topics.
    pub topics: Vec<Hash256>,
    /// Log payload bytes.
    pub data: Vec<u8>,
}

/// Ghost model of a log entry.
pub ghost struct LogModel {
    pub address: Seq<u8>,
    pub topics: Seq<Hash256>,
    pub data: Seq<u8>,
}

impl View for Log {
    type V = LogModel;

    open spec fn view(&self) -> LogModel {
        LogModel {
            address: self.address@,
            topics: self.topics@,
            data: self.data@,
        }
    }
}

/// The outcome of executing one transaction.
#[derive(Debug, Clone)]
pub struct Receipt {
    /// Transaction type of the typed envelope; zero for legacy.
    pub tx_type: u8,
    /// Execution status flag.
    pub status: bool,
    /// Gas used by the block up to and including this transaction.
    pub cumulative_gas_used: u64,
    /// Logs emitted by the transaction.
    pub logs: Vec<Log>,
    /// Deposit nonce, populated only on deposit receipts.
    pub deposit_nonce: Option<u64>,
    /// Deposit receipt version; `Some` acts as the version-set flag that
    /// admits the deposit fields into the commitment encoding.
    pub deposit_receipt_version: Option<u64>,
}

/// Ghost model of a receipt.
pub ghost struct ReceiptModel {
    pub tx_type: u8,
    pub status: bool,
    pub cumulative_gas_used: u64,
    pub logs: Seq<LogModel>,
    pub deposit_nonce: Option<u64>,
    pub deposit_receipt_version: Option<u64>,
}

impl View for Receipt {
    type V = ReceiptModel;

    open spec fn view(&self) -> ReceiptModel {
        ReceiptModel {
            tx_type: self.tx_type,
            status: self.status,
            cumulative_gas_used: self.cumulative_gas_used,
            logs: self.logs@.map_values(|l: Log| l@),
            deposit_nonce: self.deposit_nonce,
            deposit_receipt_version: self.deposit_receipt_version,
        }
    }
}

/// A block body: transactions, ommer headers and the optional withdrawals
/// list.
#[derive(Debug, Clone)]
pub struct Body {
    /// Ordered transactions.
    pub transactions: Vec<Transaction>,
    /// Ordered ommer headers; must be empty after the merge-equivalent
    /// hardfork.
    pub ommers: Vec<BlockHeader>,
    /// Withdrawals list; its presence and contents are hardfork-dependent.
    pub withdrawals: Option<Vec<Withdrawal>>,
}

/// A sealed block: a sealed header and the body it commits to.
#[derive(Debug, Clone)]
pub struct Block {
    /// The sealed header.
    pub header: SealedHeader,
    /// The block body.
    pub body: Body,
}

/// The receipt list produced by the execution collaborator.
#[derive(Debug, Clone)]
pub struct BlockExecutionResult {
    /// Receipts of the block's transactions, in order.
    pub receipts: Vec<Receipt>,
}

} // verus!
