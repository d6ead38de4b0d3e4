//! What the Ethereum crates compute for this library: hashes, signatures, the
//! encodings of headers, accounts, transactions and calls, and trie proofs.
//!
//! Nothing here is proved. Each function makes the outside calls that its comment
//! names, and states what the callers may rely on.

use alloy_consensus::{Transaction as _, TxEnvelope};
use alloy_eips::eip2718::Decodable2718;
use alloy_primitives::{Bytes, FixedBytes, PrimitiveSignature};
use alloy_sol_types::{sol_data, SolType, SolValue};
use core::str::FromStr;
use eth_trie::Trie;
use vstd::prelude::*;

use crate::bytes::{address_word, be_bytes, be_value, byte_strings, nibbles, word, zeros};
use crate::trie::{decodable_node, proof_walks};
use crate::types::{
    AccountMerkleProof, Address, BlockHeader, Envelope, Header, HeaderView, PublicValues,
    Signature, Transaction, TransactionView, B256, U256,
};

verus! {

#[verifier::external_type_specification]
#[verifier::external_body]
pub struct ExJsonError(serde_json::Error);

#[verifier::external_type_specification]
#[verifier::external_body]
pub struct ExSignatureError(alloy_primitives::SignatureError);

#[verifier::external_type_specification]
#[verifier::external_body]
pub struct ExRlpError(alloy_rlp::Error);

#[verifier::external_type_specification]
#[verifier::external_body]
pub struct ExProofVerificationError(alloy_trie::proof::ProofVerificationError);

#[verifier::external_type_specification]
#[verifier::external_body]
pub struct ExTrieError(eth_trie::TrieError);

#[verifier::external_type_specification]
#[verifier::external_body]
pub struct ExEip2718Error(alloy_eips::eip2718::Eip2718Error);

#[verifier::external_type_specification]
#[verifier::external_body]
pub struct ExAbiError(alloy_sol_types::Error);

/// The header that `serde_json` reads from a text, if it is a JSON header.
pub uninterp spec fn parsed_header(json: Seq<char>) -> Option<HeaderView>;

/// `serde_json::from_str` at the type `alloy_consensus::Header`: the result
/// depends on the text alone.
#[verifier::external_body]
pub(crate) fn parse_header(json: &str) -> (r: Result<BlockHeader, serde_json::Error>)
    ensures
        match r {
            Ok(header) => parsed_header(json@) == Some(header@),
            Err(_) => parsed_header(json@) is None,
        },
{
    let h: alloy_consensus::Header = serde_json::from_str(json)?;
    Ok(Header {
        parent_hash: *h.parent_hash, ommers_hash: *h.ommers_hash, beneficiary: **h.beneficiary,
        state_root: *h.state_root, transactions_root: *h.transactions_root,
        receipts_root: *h.receipts_root, logs_bloom: **h.logs_bloom,
        difficulty: U256 { limbs: h.difficulty.into_limbs() }, number: h.number,
        gas_limit: h.gas_limit, gas_used: h.gas_used, timestamp: h.timestamp,
        extra_data: h.extra_data.to_vec(), mix_hash: *h.mix_hash, nonce: *h.nonce,
        base_fee_per_gas: h.base_fee_per_gas, withdrawals_root: h.withdrawals_root.map(|x| *x),
        blob_gas_used: h.blob_gas_used, excess_blob_gas: h.excess_blob_gas,
        parent_beacon_block_root: h.parent_beacon_block_root.map(|x| *x),
        requests_hash: h.requests_hash.map(|x| *x),
    })
}

/// The hash that identifies a block with this header.
pub uninterp spec fn header_hash(header: HeaderView) -> B256;

/// `alloy_consensus::Header::hash_slow`: the result depends on the fields of the
/// header alone.
#[verifier::external_body]
pub(crate) fn hash_header(h: &BlockHeader) -> (hash: B256)
    ensures
        hash == header_hash(h@),
{
    *alloy_consensus::Header {
        parent_hash: FixedBytes(h.parent_hash), ommers_hash: FixedBytes(h.ommers_hash),
        beneficiary: h.beneficiary.into(), state_root: FixedBytes(h.state_root),
        transactions_root: FixedBytes(h.transactions_root), number: h.number,
        receipts_root: FixedBytes(h.receipts_root), logs_bloom: h.logs_bloom.into(),
        difficulty: alloy_primitives::U256::from_limbs(h.difficulty.limbs),
        gas_limit: h.gas_limit, gas_used: h.gas_used, timestamp: h.timestamp,
        extra_data: h.extra_data.clone().into(), mix_hash: FixedBytes(h.mix_hash),
        nonce: FixedBytes(h.nonce), base_fee_per_gas: h.base_fee_per_gas,
        withdrawals_root: h.withdrawals_root.map(FixedBytes), blob_gas_used: h.blob_gas_used,
        excess_blob_gas: h.excess_blob_gas, requests_hash: h.requests_hash.map(FixedBytes),
        parent_beacon_block_root: h.parent_beacon_block_root.map(FixedBytes),
    }.hash_slow()
}

/// The largest excess blob gas whose blob fee is within 128 bits all through its
/// computation.
pub const MAX_EXCESS_BLOB_GAS: u64 = 284_284_038;

/// The sum of a series from its `i`-th term on, which is `term`: each term is the one
/// before it times the excess, divided by 5_007_716 times its own index, and rounded
/// down. The series ends where a term is zero.
pub open spec fn blob_fee_series(excess: nat, term: nat, i: nat) -> nat
    decreases
            (if excess >= 5_007_716 * (i + 1) {
                excess - 5_007_716 * i
            } else {
                0
            }),
            term,
{
    if term == 0 {
        0
    } else {
        let next = term * excess / (5_007_716 * (i + 1));
        proof {
            let divisor = 5_007_716 * (i + 1);
            assert(excess < divisor ==> term * excess / divisor < term) by (nonlinear_arith)
                requires
                    term > 0,
                    divisor > 0,
            ;
        }
        term + blob_fee_series(excess, next, i + 1)
    }
}

/// The blob fee of a Prague block with this excess blob gas: about the exponential of
/// the excess over 5_007_716.
pub open spec fn prague_blob_fee(excess_blob_gas: u64) -> nat {
    blob_fee_series(excess_blob_gas as nat, 5_007_716, 0) / 5_007_716
}

/// `BlobParams::prague().calc_blob_fee(..)` of `alloy_eips`, which is what
/// `Header::blob_fee` computes from the excess blob gas. Beyond the bound its
/// 128-bit arithmetic overflows.
#[verifier::external_body]
pub(crate) fn blob_fee(excess_blob_gas: u64) -> (fee: u128)
    requires
        excess_blob_gas <= MAX_EXCESS_BLOB_GAS,
    ensures
        fee == prague_blob_fee(excess_blob_gas),
{
    alloy_eips::eip7840::BlobParams::prague().calc_blob_fee(excess_blob_gas)
}

/// The constant `alloy_eips::eip4844::DATA_GAS_PER_BLOB`.
#[verifier::external_body]
pub(crate) fn data_gas_per_blob() -> (gas: u64)
    ensures
        gas == 131_072,
{
    alloy_eips::eip4844::DATA_GAS_PER_BLOB
}

/// The constant `alloy_eips::merge::SLOT_DURATION_SECS`.
#[verifier::external_body]
pub(crate) fn slot_duration_secs() -> (seconds: u64)
    ensures
        seconds == 12,
{
    alloy_eips::merge::SLOT_DURATION_SECS
}

/// The Keccak-256 hash of a byte string.
pub uninterp spec fn keccak(data: Seq<u8>) -> B256;

/// `alloy_primitives::keccak256`: the result depends on the bytes alone.
#[verifier::external_body]
pub(crate) fn keccak256(data: &[u8]) -> (hash: B256)
    ensures
        hash == keccak(data@),
{
    *alloy_primitives::keccak256(data)
}

/// The value of a hexadecimal digit in either case.
pub open spec fn hex_digit(c: char) -> Option<int> {
    if '0' <= c <= '9' {
        Some(c as int - '0' as int)
    } else if 'a' <= c <= 'f' {
        Some(c as int - 'a' as int + 10)
    } else if 'A' <= c <= 'F' {
        Some(c as int - 'A' as int + 10)
    } else {
        None
    }
}

/// A text without its prefix `0x`, if it has one.
pub open spec fn without_hex_prefix(text: Seq<char>) -> Seq<char> {
    if text.len() >= 2 && text[0] == '0' && text[1] == 'x' {
        text.skip(2)
    } else {
        text
    }
}

/// The byte that the `i`-th pair of digits of a text stands for.
pub open spec fn hex_byte(digits: Seq<char>, i: int) -> int {
    hex_digit(digits[2 * i]).unwrap() * 16 + hex_digit(digits[2 * i + 1]).unwrap()
}

/// Whether `text` is the hex form of the 65 bytes `r`, `s` and `v` of `signature`,
/// where `v` is a bare parity, 27 or 28, or at least 35.
pub open spec fn signature_text(text: Seq<char>, signature: Signature) -> bool {
    let digits = without_hex_prefix(text);
    let v = hex_byte(digits, 64);
    &&& digits.len() == 130
    &&& forall|i: int| 0 <= i < 130 ==> (#[trigger] hex_digit(digits[i])) is Some
    &&& forall|i: int| 0 <= i < 32 ==> (#[trigger] signature.r[i]) == hex_byte(digits, i)
    &&& forall|i: int| 0 <= i < 32 ==> (#[trigger] signature.s[i]) == hex_byte(digits, 32 + i)
    &&& v <= 1 || v == 27 || v == 28 || v >= 35
    &&& signature.y_parity == (if v <= 1 { v == 1 } else { v % 2 == 0 })
}

/// `PrimitiveSignature::from_str` of `alloy_primitives`: it reads a signature where
/// the text is the hex form of one, and fails elsewhere.
#[verifier::external_body]
pub(crate) fn parse_signature(text: &str) -> (r: Result<
    Signature,
    alloy_primitives::SignatureError,
>)
    ensures
        match r {
            Ok(signature) => signature_text(text@, signature),
            Err(_) => forall|signature: Signature| !signature_text(text@, signature),
        },
{
    let signature = PrimitiveSignature::from_str(text)?;
    Ok(Signature {
        r: signature.r().to_be_bytes(),
        s: signature.s().to_be_bytes(),
        y_parity: signature.v(),
    })
}

/// The address whose key made a signature of a hash, if there is one.
pub uninterp spec fn recovered_address(signature: Signature, prehash: B256) -> Option<Address>;

/// `PrimitiveSignature::recover_address_from_prehash` of `alloy_primitives`: the
/// result depends on the signature and the hash alone.
#[verifier::external_body]
pub(crate) fn recover_address(signature: &Signature, prehash: &B256) -> (r: Result<
    Address,
    alloy_primitives::SignatureError,
>)
    ensures
        match r {
            Ok(address) => recovered_address(*signature, *prehash) == Some(address),
            Err(_) => recovered_address(*signature, *prehash) is None,
        },
{
    PrimitiveSignature::from_scalars_and_parity(
        FixedBytes(signature.r),
        FixedBytes(signature.s),
        signature.y_parity,
    ).recover_address_from_prehash(&FixedBytes(*prehash)).map(|address| **address)
}

/// The RLP encoding of a number.
pub open spec fn rlp_number(n: nat) -> Seq<u8> {
    if 0 < n < 128 {
        seq![n as u8]
    } else {
        seq![(0x80 + be_bytes(n).len()) as u8] + be_bytes(n)
    }
}

/// The four fields of an account in the state trie, each in its RLP encoding.
pub open spec fn account_fields(account: AccountMerkleProof) -> Seq<u8> {
    rlp_number(account.nonce as nat) + rlp_number(account.balance@) + seq![0xa0u8]
        + account.storage_hash@ + seq![0xa0u8] + account.code_hash@
}

/// The RLP encoding of an account in the state trie. Its fields take from 68 to
/// 108 bytes, so that the length of the list takes one byte.
pub open spec fn account_rlp(account: AccountMerkleProof) -> Seq<u8> {
    seq![0xf8u8, account_fields(account).len() as u8] + account_fields(account)
}

/// `alloy_rlp::encode` of an `alloy_trie::TrieAccount`.
#[verifier::external_body]
pub(crate) fn encode_account(account: &AccountMerkleProof) -> (rlp: Vec<u8>)
    ensures
        rlp@ == account_rlp(*account),
{
    alloy_rlp::encode(
        alloy_trie::TrieAccount {
            nonce: account.nonce,
            balance: alloy_primitives::U256::from_limbs(account.balance.limbs),
            storage_root: FixedBytes(account.storage_hash),
            code_hash: FixedBytes(account.code_hash),
        },
    )
}

/// The header of the RLP item that a byte string starts with: whether it is a list,
/// the length of its payload, and the number of bytes from the payload on. A byte
/// below `0x80` is its own payload. Otherwise the first byte tells strings from lists,
/// and holds the length, or the number of bytes that hold it if it is 56 or more. No
/// other form of a length or of a single byte is a header.
pub open spec fn rlp_header(bytes: Seq<u8>) -> Option<(bool, nat, nat)> {
    if bytes.len() == 0 {
        None
    } else if bytes[0] < 0x80 {
        Some((false, 1, bytes.len()))
    } else {
        let list = bytes[0] >= 0xc0;
        let code = if list {
            bytes[0] - 0xc0
        } else {
            bytes[0] - 0x80
        };
        if code < 56 {
            let rest = bytes.len() - 1;
            if code > rest || (!list && code == 1 && bytes[1] < 0x80) {
                None
            } else {
                Some((list, code as nat, rest as nat))
            }
        } else {
            let length = be_value(bytes.subrange(1, code - 54));
            let rest = bytes.len() - (code - 54);
            if length > rest || length < 56 || bytes[1] == 0 {
                None
            } else {
                Some((list, length, rest as nat))
            }
        }
    }
}

/// `alloy_rlp::Header::decode`: it reads the header where there is one with its whole
/// payload behind it, and fails elsewhere.
#[verifier::external_body]
pub(crate) fn decode_rlp_header(bytes: &[u8]) -> (r: Result<
    (bool, usize, usize),
    alloy_rlp::Error,
>)
    ensures
        match r {
            Ok((list, length, rest)) => rlp_header(bytes@) == Some(
                (list, length as nat, rest as nat),
            ),
            Err(_) => rlp_header(bytes@) is None,
        },
{
    let mut rest = bytes;
    let header = alloy_rlp::Header::decode(&mut rest)?;
    Ok((header.list, header.payload_length, rest.len()))
}

/// Whether trie nodes prove `value` under `key` in the trie with root `root`.
pub uninterp spec fn account_proof_holds(
    root: B256,
    key: B256,
    value: Seq<u8>,
    proof: Seq<Seq<u8>>,
) -> bool;

/// `alloy_trie::proof::verify_proof` for the presence of a value, under the nibbles
/// of a key. It panics where the child of a branch that the key leads to is an embedded
/// extension of anything but a branch.
#[verifier::external_body]
pub(crate) fn verify_account_proof(
    root: &B256,
    key: &B256,
    value: Vec<u8>,
    proof: &Vec<Vec<u8>>,
) -> (r: Result<(), alloy_trie::proof::ProofVerificationError>)
    requires
        proof_walks(byte_strings(proof@), nibbles(key@)),
    ensures
        r is Ok == account_proof_holds(*root, *key, value@, byte_strings(proof@)),
{
    let nodes: Vec<Bytes> = proof.iter().map(|node| Bytes::copy_from_slice(node)).collect();
    let nibbles = alloy_trie::Nibbles::unpack(key);
    alloy_trie::proof::verify_proof(FixedBytes(*root), nibbles, Some(value), &nodes)
}

/// What trie nodes show of the value under `key` in the trie with root `root`:
/// nothing where they prove neither its presence nor its absence.
pub uninterp spec fn trie_value(
    root: B256,
    key: Seq<u8>,
    proof: Seq<Seq<u8>>,
) -> Option<Option<Seq<u8>>>;

/// `EthTrie::verify_proof` of `eth_trie`, which does not read the trie that it is
/// called on, here an empty one over a new `MemoryDB`. It panics on the way through a
/// node that it cannot decode.
#[verifier::external_body]
pub(crate) fn look_up(root: &B256, key: &Vec<u8>, proof: Vec<Vec<u8>>) -> (r: Result<
    Option<Vec<u8>>,
    eth_trie::TrieError,
>)
    requires
        forall|i: int| 0 <= i < proof.len() ==> decodable_node(#[trigger] proof[i]@),
    ensures
        match r {
            Ok(Some(value)) => trie_value(*root, key@, byte_strings(proof@)) == Some(
                Some(value@),
            ),
            Ok(None) => trie_value(*root, key@, byte_strings(proof@)) == Some(None::<Seq<u8>>),
            Err(_) => trie_value(*root, key@, byte_strings(proof@)) is None,
        },
{
    let trie = eth_trie::EthTrie::new(std::sync::Arc::new(eth_trie::MemoryDB::new(true)));
    trie.verify_proof(FixedBytes(*root), key, proof)
}

/// The transaction that a byte string starts with in its EIP-2718 encoding, if it
/// starts with one.
pub uninterp spec fn decoded_tx(bytes: Seq<u8>) -> Option<TransactionView>;

/// `TxEnvelope::decode_2718` of `alloy_consensus`, with the fields of the result, its
/// `tx_hash`, and the `signature_hash` that its signature is for: all of them depend on
/// the bytes alone.
#[verifier::external_body]
pub(crate) fn decode_transaction(bytes: &Vec<u8>) -> (r: Result<
    Transaction,
    alloy_eips::eip2718::Eip2718Error,
>)
    ensures
        match r {
            Ok(tx) => decoded_tx(bytes@) == Some(tx@),
            Err(_) => decoded_tx(bytes@) is None,
        },
{
    let tx = TxEnvelope::decode_2718(&mut bytes.as_slice())?;
    let sig = tx.signature();
    Ok(Envelope {
        hash: **tx.tx_hash(), is_eip4844: tx.is_eip4844(), chain_id: tx.chain_id(),
        nonce: tx.nonce(), gas_limit: tx.gas_limit(),
        max_priority_fee_per_gas: tx.max_priority_fee_per_gas(),
        blob_versioned_hashes: tx.blob_versioned_hashes().map(
            |hashes| hashes.iter().map(|hash| **hash).collect()),
        to: tx.to().map(|to| **to), input: tx.input().to_vec(),
        signature_hash: *tx.signature_hash(),
        signature: Signature {
            r: sig.r().to_be_bytes(), s: sig.s().to_be_bytes(), y_parity: sig.v() },
    })
}

/// The concatenation of `parts`.
pub open spec fn concat(parts: Seq<Seq<u8>>) -> Seq<u8>
    decreases parts.len(),
{
    if parts.len() == 0 {
        Seq::empty()
    } else {
        concat(parts.drop_last()) + parts.last()
    }
}

/// The contract ABI encoding of a list of addresses and a list of words as
/// parameters: the offsets of both lists, then each list after its length.
pub open spec fn batch_params(recipients: Seq<Address>, amounts: Seq<B256>) -> Seq<u8> {
    word(64) + word(96 + 32 * recipients.len()) + word(recipients.len()) + concat(
        recipients.map_values(|recipient: Address| address_word(recipient)),
    ) + word(amounts.len()) + concat(amounts.map_values(|amount: B256| amount@))
}

/// `abi_decode_sequence` of `alloy_sol_types`, with validation, at the type
/// `(address[], uint256[])`: it reads the two lists where the bytes are exactly
/// their encoding, and fails elsewhere.
#[verifier::external_body]
pub(crate) fn decode_batch_params(data: &[u8]) -> (r: Result<
    (Vec<Address>, Vec<B256>),
    alloy_sol_types::Error,
>)
    ensures
        match r {
            Ok((recipients, amounts)) => data@ == batch_params(recipients@, amounts@),
            Err(_) => forall|recipients: Seq<Address>, amounts: Seq<B256>|
                data@ != #[trigger] batch_params(recipients, amounts),
        },
{
    <(sol_data::Array<sol_data::Address>, sol_data::Array<sol_data::Uint<256>>)>::abi_decode_sequence(
        data,
        true,
    ).map(
        |(to, amounts)|
            (
                to.into_iter().map(|address| **address).collect(),
                amounts.into_iter().map(|amount| amount.to_be_bytes()).collect(),
            ),
    )
}

/// The contract ABI encoding of the public values: seven words, the fifth of them
/// the offset of the signature, then the signature after its length, padded with
/// zeros to whole words.
pub open spec fn public_values_layout(
    timestamp: u64,
    block_hash: B256,
    number: u64,
    underwriter_address: Address,
    signature: Seq<u8>,
    genesis_timestamp: u64,
    taiyi_core: Address,
) -> Seq<u8> {
    word(timestamp as nat) + block_hash@ + word(number as nat) + address_word(underwriter_address)
        + word(224) + word(genesis_timestamp as nat) + address_word(taiyi_core) + word(
        signature.len(),
    ) + signature + zeros((-signature.len()) % 32)
}

/// `abi_encode_sequence` of `alloy_sol_types` at the type `(uint64, bytes32,
/// uint64, address, bytes, uint64, address)`.
#[verifier::external_body]
pub(crate) fn encode_public_values(values: &PublicValues) -> (encoded: Vec<u8>)
    ensures
        encoded@ == public_values_layout(
            values.proof_block_timestamp,
            values.proof_block_hash,
            values.proof_block_number,
            values.underwriter_address,
            values.proof_signature@,
            values.genesis_timestamp,
            values.taiyi_core,
        ),
{
    (
        values.proof_block_timestamp,
        FixedBytes(values.proof_block_hash),
        values.proof_block_number,
        alloy_primitives::Address::from(values.underwriter_address),
        Bytes::copy_from_slice(&values.proof_signature),
        values.genesis_timestamp,
        alloy_primitives::Address::from(values.taiyi_core),
    ).abi_encode_sequence()
}

} // verus!
