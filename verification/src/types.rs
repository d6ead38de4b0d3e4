//! The plain values that the verification reads: block headers, signed
//! transactions, Merkle proofs, preconfirmation requests, and the outcome.

use vstd::prelude::*;

verus! {

/// A 32-byte hash or word.
pub type B256 = [u8; 32];

/// A 20-byte account address.
pub type Address = [u8; 20];

/// A 256-bit unsigned integer as four 64-bit limbs, the least significant first.
#[derive(Clone, Copy, Debug, PartialEq, Eq)]
pub struct U256 {
    pub limbs: [u64; 4],
}

impl View for U256 {
    type V = nat;

    open spec fn view(&self) -> nat {
        (self.limbs[0] + self.limbs[1] * 0x1_0000_0000_0000_0000
            + self.limbs[2] * 0x1_0000_0000_0000_0000_0000_0000_0000_0000
            + self.limbs[3]
            * 0x1_0000_0000_0000_0000_0000_0000_0000_0000_0000_0000_0000_0000) as nat
    }
}

impl U256 {
    /// Whether this amount is at least `amount`.
    pub fn covers(&self, amount: u128) -> (covered: bool)
        ensures
            covered == (self@ >= amount),
    {
        if self.limbs[3] > 0 || self.limbs[2] > 0 {
            true
        } else {
            let low: u128 = self.limbs[1] as u128 * 0x1_0000_0000_0000_0000
                + self.limbs[0] as u128;
            low >= amount
        }
    }
}

/// An ECDSA signature over secp256k1 with the parity of its curve point.
#[derive(Clone, Copy, Debug, PartialEq, Eq)]
pub struct Signature {
    pub r: B256,
    pub s: B256,
    pub y_parity: bool,
}

/// An execution-layer block header, with its extra data held as `D`.
#[derive(Clone, Debug, PartialEq, Eq)]
pub struct Header<D> {
    pub parent_hash: B256,
    pub ommers_hash: B256,
    pub beneficiary: Address,
    pub state_root: B256,
    pub transactions_root: B256,
    pub receipts_root: B256,
    pub logs_bloom: [u8; 256],
    pub difficulty: U256,
    pub number: u64,
    pub gas_limit: u64,
    pub gas_used: u64,
    pub timestamp: u64,
    pub extra_data: D,
    pub mix_hash: B256,
    pub nonce: [u8; 8],
    pub base_fee_per_gas: Option<u64>,
    pub withdrawals_root: Option<B256>,
    pub blob_gas_used: Option<u64>,
    pub excess_blob_gas: Option<u64>,
    pub parent_beacon_block_root: Option<B256>,
    pub requests_hash: Option<B256>,
}

/// A block header as the program holds it.
pub type BlockHeader = Header<Vec<u8>>;

/// A block header as the contracts speak of it.
pub type HeaderView = Header<Seq<u8>>;

impl View for Header<Vec<u8>> {
    type V = HeaderView;

    open spec fn view(&self) -> HeaderView {
        Header {
            parent_hash: self.parent_hash,
            ommers_hash: self.ommers_hash,
            beneficiary: self.beneficiary,
            state_root: self.state_root,
            transactions_root: self.transactions_root,
            receipts_root: self.receipts_root,
            logs_bloom: self.logs_bloom,
            difficulty: self.difficulty,
            number: self.number,
            gas_limit: self.gas_limit,
            gas_used: self.gas_used,
            timestamp: self.timestamp,
            extra_data: self.extra_data@,
            mix_hash: self.mix_hash,
            nonce: self.nonce,
            base_fee_per_gas: self.base_fee_per_gas,
            withdrawals_root: self.withdrawals_root,
            blob_gas_used: self.blob_gas_used,
            excess_blob_gas: self.excess_blob_gas,
            parent_beacon_block_root: self.parent_beacon_block_root,
            requests_hash: self.requests_hash,
        }
    }
}

/// A signed transaction as a request holds it.
#[derive(Clone, Debug, PartialEq, Eq)]
pub struct EncodedTx {
    /// The hash that the transaction is claimed to have.
    pub hash: B256,
    /// The transaction in its EIP-2718 encoding.
    pub bytes: Vec<u8>,
}

/// What an encoded transaction says, with lists of words held as `H` and byte strings
/// held as `D`.
#[derive(Clone, Debug, PartialEq, Eq)]
pub struct Envelope<H, D> {
    /// The hash that identifies the transaction.
    pub hash: B256,
    /// Whether the transaction is of the type that carries blobs.
    pub is_eip4844: bool,
    pub chain_id: Option<u64>,
    pub nonce: u64,
    pub gas_limit: u64,
    /// `None` for the types without a priority fee.
    pub max_priority_fee_per_gas: Option<u128>,
    /// The hashes of the blobs that the transaction carries.
    pub blob_versioned_hashes: Option<H>,
    /// `None` for a contract creation.
    pub to: Option<Address>,
    pub input: D,
    /// The hash that the sender signed.
    pub signature_hash: B256,
    pub signature: Signature,
}

/// A decoded transaction as the program holds it.
pub type Transaction = Envelope<Vec<B256>, Vec<u8>>;

/// A decoded transaction as the contracts speak of it.
pub type TransactionView = Envelope<Seq<B256>, Seq<u8>>;

impl View for Envelope<Vec<B256>, Vec<u8>> {
    type V = TransactionView;

    open spec fn view(&self) -> TransactionView {
        Envelope {
            hash: self.hash,
            is_eip4844: self.is_eip4844,
            chain_id: self.chain_id,
            nonce: self.nonce,
            gas_limit: self.gas_limit,
            max_priority_fee_per_gas: self.max_priority_fee_per_gas,
            blob_versioned_hashes: match self.blob_versioned_hashes {
                Some(hashes) => Some(hashes@),
                None => None,
            },
            to: self.to,
            input: self.input@,
            signature_hash: self.signature_hash,
            signature: self.signature,
        }
    }
}

/// Transactions as the contracts speak of them.
pub open spec fn views(transactions: Seq<Transaction>) -> Seq<TransactionView> {
    transactions.map_values(|tx: Transaction| tx@)
}

/// The state of an account with the trie nodes that prove it.
#[derive(Clone, Debug, PartialEq, Eq)]
pub struct AccountMerkleProof {
    pub address: Address,
    pub nonce: u64,
    pub balance: U256,
    pub storage_hash: B256,
    pub code_hash: B256,
    pub account_proof: Vec<Vec<u8>>,
}

/// The trie nodes that prove the value under `key` in the trie with root `root`.
#[derive(Clone, Debug, PartialEq, Eq)]
pub struct TxMerkleProof {
    pub root: B256,
    pub key: Vec<u8>,
    pub proof: Vec<Vec<u8>>,
}

/// A preconfirmation of several transactions behind one anchor transaction.
#[derive(Clone, Debug, PartialEq, Eq)]
pub struct PreconfTypeA {
    pub transactions: Vec<EncodedTx>,
    pub target_slot: u64,
    /// What the underwriter signed, for the chain of the first transaction.
    /// It is not read where there is no such chain.
    pub digest: B256,
    pub account_merkle_proof: Vec<AccountMerkleProof>,
    /// The proof of the anchor transaction, then one for each transaction.
    pub tx_merkle_proof: Vec<TxMerkleProof>,
    pub anchor_tx: EncodedTx,
}

/// A preconfirmation of one transaction for an earlier allocation of blockspace.
#[derive(Clone, Debug, PartialEq, Eq)]
pub struct PreconfTypeB {
    pub transaction: Option<EncodedTx>,
    pub target_slot: u64,
    /// What the underwriter signed, for the chain of the transaction.
    /// It is not read where there is no such chain.
    pub digest: B256,
    pub account_merkle_proof: AccountMerkleProof,
    /// The proof of the user's transaction, then that of the sponsorship.
    pub tx_merkle_proof: Vec<TxMerkleProof>,
    pub sponsorship_tx: EncodedTx,
}

/// A preconfirmation request of either type.
#[derive(Clone, Debug, PartialEq, Eq)]
pub enum PreconfRequest {
    TypeA(PreconfTypeA),
    TypeB(PreconfTypeB),
}

/// What a completed verification commits to.
#[derive(Clone, Debug, PartialEq, Eq)]
pub struct PublicValues {
    pub proof_block_timestamp: u64,
    pub proof_block_hash: B256,
    pub proof_block_number: u64,
    pub underwriter_address: Address,
    pub proof_signature: Vec<u8>,
    pub genesis_timestamp: u64,
    pub taiyi_core: Address,
}

/// What a completed verification finds.
#[derive(Clone, Copy, Debug, PartialEq, Eq, Structural)]
pub enum VerificationResult {
    /// Every preconfirmed transaction is in the block.
    Success,
    /// A sender could not have paid for a transaction: a valid outcome, in which
    /// the underwriter owes no inclusion.
    Failed,
}

/// Why a verification cannot be completed.
#[derive(Clone, Copy, Debug, PartialEq, Eq)]
pub enum PoiError {
    /// The inclusion block header is no JSON header.
    InclusionHeaderFormat,
    /// The previous block header is no JSON header.
    PreviousHeaderFormat,
    /// The inclusion block header does not have the expected hash.
    InclusionHashMismatch { computed: B256, expected: B256 },
    /// The previous block header does not have the expected hash.
    PreviousHashMismatch { computed: B256, expected: B256 },
    /// The inclusion block is no child of the previous block.
    BrokenChain { parent: B256, previous: B256 },
    /// The preconfirmation signature is no hex-encoded signature.
    SignatureFormat,
    /// The preconfirmation request is no request of its type, or holds bytes that are
    /// no transaction.
    RequestFormat,
    /// A request of type A without transactions.
    NoTransactions,
    /// A request of type B without its transaction.
    MissingTransaction,
    /// The transaction is bound to no chain.
    MissingChainId,
    /// No address can be recovered from the preconfirmation signature.
    UnrecoverableUnderwriter,
    /// Someone else signed the preconfirmation.
    UnderwriterMismatch { expected: Address, recovered: Address },
    /// The inclusion block is older than the chain.
    TimestampBeforeGenesis { timestamp: u64, genesis_timestamp: u64 },
    /// The inclusion block is not that of the target slot.
    SlotMismatch { expected: u64, got: u64 },
    /// There is no account proof for a transaction.
    MissingAccountProof { index: usize },
    /// No address can be recovered from the signature of a transaction.
    UnrecoverableSigner { index: usize },
    /// The account proof of a transaction is that of another account.
    AccountKeyMismatch { index: usize, account: Address, signer: Address },
    /// The account state of a transaction is not that of the previous block.
    AccountProof { index: usize },
    /// A blob transaction in a block without a blob fee.
    MissingBlobFee { index: usize },
    /// A transaction in a block without a base fee.
    MissingBaseFee { index: usize },
    /// A transaction of a type without a priority fee.
    MissingPriorityFee { index: usize },
    /// The fees of a transaction exceed the range of their computation.
    FeeOverflow { index: usize },
    /// The number of inclusion proofs does not fit the number of transactions.
    ProofCount { transactions: usize, proofs: usize },
    /// An inclusion proof speaks of another transactions trie.
    ProofRootMismatch { index: usize, expected: B256, got: B256 },
    /// An inclusion proof shows that there is no transaction under its key.
    ProofWithoutValue { index: usize },
    /// An inclusion proof does not hold.
    InvalidProof { index: usize },
    /// An inclusion proof leads to bytes that are no transaction.
    UndecodableTransaction { index: usize },
    /// An inclusion proof leads to another transaction.
    TransactionHashMismatch { index: usize, expected: B256, got: B256 },
    /// The sponsoring transaction creates a contract.
    MissingRecipient,
    /// The sponsoring transaction does not call the core contract.
    RecipientMismatch { expected: Address, got: Address },
    /// The sponsoring transaction calls no batch sponsorship.
    SponsorCallFormat,
    /// Some senders of a request of type A are not sponsored.
    UnsponsoredSenders { found: usize, expected: usize },
    /// The sender of a request of type B is not sponsored.
    UnsponsoredSender,
}

} // verus!
