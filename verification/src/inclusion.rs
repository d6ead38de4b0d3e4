//! Whether transactions are in a block: Merkle proofs against its transactions root.

use vstd::prelude::*;

use crate::bytes::{array_eq, byte_strings};
use crate::ethereum::{decode_transaction, decoded_tx, look_up, trie_value};
use crate::trie::{decodable_node, is_decodable_node};
use crate::types::{EncodedTx, PoiError, TxMerkleProof, B256};

verus! {

/// What an inclusion proof leads to.
#[derive(Clone, Copy, Debug, PartialEq, Eq)]
pub enum ProvenTx {
    /// The nodes prove nothing of the key.
    InvalidProof,
    /// The nodes prove that there is nothing under the key.
    NoValue,
    /// The value under the key is no transaction.
    Undecodable,
    /// The value under the key is the transaction with this hash.
    Hash(B256),
}

/// The byte strings of a proof that are trie nodes. Where a walk down from the root
/// reaches any other, the proof is invalid, as it is where that byte string is missing.
pub open spec fn decodable_nodes(proof: Seq<Seq<u8>>) -> Seq<Seq<u8>> {
    proof.filter(|node: Seq<u8>| decodable_node(node))
}

/// What an inclusion proof leads to.
pub open spec fn proven_tx(proof: TxMerkleProof) -> ProvenTx {
    match trie_value(proof.root, proof.key@, decodable_nodes(byte_strings(proof.proof@))) {
        None => ProvenTx::InvalidProof,
        Some(None) => ProvenTx::NoValue,
        Some(Some(value)) => match decoded_tx(value) {
            None => ProvenTx::Undecodable,
            Some(tx) => ProvenTx::Hash(tx.hash),
        },
    }
}

/// Copies the byte strings that are trie nodes.
fn keep_decodable_nodes(proof: &Vec<Vec<u8>>) -> (nodes: Vec<Vec<u8>>)
    ensures
        byte_strings(nodes@) == decodable_nodes(byte_strings(proof@)),
        forall|i: int|
            0 <= i < nodes.len() ==> decodable_node(#[trigger] nodes[i]@),
{
    let ghost keep = |node: Seq<u8>| decodable_node(node);
    let mut nodes: Vec<Vec<u8>> = Vec::new();
    proof {
        reveal(Seq::filter);
        assert(byte_strings(proof@).take(0) =~= Seq::empty());
    }
    for i in 0..proof.len()
        invariant
            keep == (|node: Seq<u8>| decodable_node(node)),
            byte_strings(nodes@) =~= byte_strings(proof@).take(i as int).filter(keep),
            forall|j: int|
                0 <= j < nodes.len() ==> decodable_node(#[trigger] nodes[j]@),
    {
        proof {
            reveal(Seq::filter);
            assert(byte_strings(proof@).take(i + 1).drop_last() =~= byte_strings(proof@).take(
                i as int,
            ));
        }
        if is_decodable_node(&proof[i]) {
            let node: Vec<u8> = proof[i].clone();
            assert(node@ =~= proof[i as int]@);
            nodes.push(node);
        }
    }
    assert(byte_strings(proof@).take(proof.len() as int) =~= byte_strings(proof@));
    nodes
}

/// Follows an inclusion proof to its transaction.
pub fn follow_proof(proof: &TxMerkleProof) -> (proven: ProvenTx)
    ensures
        proven == proven_tx(*proof),
        proven == match trie_value(
            proof.root,
            proof.key@,
            decodable_nodes(byte_strings(proof.proof@)),
        ) {
            None => ProvenTx::InvalidProof,
            Some(None) => ProvenTx::NoValue,
            Some(Some(value)) => match decoded_tx(value) {
                None => ProvenTx::Undecodable,
                Some(tx) => ProvenTx::Hash(tx.hash),
            },
        },
{
    match look_up(&proof.root, &proof.key, keep_decodable_nodes(&proof.proof)) {
        Ok(Some(value)) => match decode_transaction(&value) {
            Ok(tx) => ProvenTx::Hash(tx.hash),
            Err(_) => ProvenTx::Undecodable,
        },
        Ok(None) => ProvenTx::NoValue,
        Err(_) => ProvenTx::InvalidProof,
    }
}

/// What is wrong with the `index`-th proof as one of the transaction with hash
/// `expected`, given its root and what it leads to.
pub open spec fn inclusion_objection_given(
    index: usize,
    root: B256,
    transactions_root: B256,
    proven: ProvenTx,
    expected: B256,
) -> Option<PoiError> {
    if root != transactions_root {
        Some(PoiError::ProofRootMismatch { index, expected: transactions_root, got: root })
    } else {
        match proven {
            ProvenTx::InvalidProof => Some(PoiError::InvalidProof { index }),
            ProvenTx::NoValue => Some(PoiError::ProofWithoutValue { index }),
            ProvenTx::Undecodable => Some(PoiError::UndecodableTransaction { index }),
            ProvenTx::Hash(got) => if got != expected {
                Some(PoiError::TransactionHashMismatch { index, expected, got })
            } else {
                None
            },
        }
    }
}

/// What is wrong with the `index`-th proof as one of the transaction with hash
/// `expected`.
pub open spec fn inclusion_objection(
    index: usize,
    proof: TxMerkleProof,
    transactions_root: B256,
    expected: B256,
) -> Option<PoiError> {
    inclusion_objection_given(index, proof.root, transactions_root, proven_tx(proof), expected)
}

/// Judges the `index`-th inclusion proof, given its root and what it leads to.
pub fn judge_inclusion(
    index: usize,
    root: &B256,
    transactions_root: &B256,
    proven: ProvenTx,
    expected: &B256,
) -> (objection: Option<PoiError>)
    ensures
        objection == inclusion_objection_given(
            index,
            *root,
            *transactions_root,
            proven,
            *expected,
        ),
{
    if !array_eq(root, transactions_root) {
        return Some(
            PoiError::ProofRootMismatch { index, expected: *transactions_root, got: *root },
        );
    }
    match proven {
        ProvenTx::InvalidProof => Some(PoiError::InvalidProof { index }),
        ProvenTx::NoValue => Some(PoiError::ProofWithoutValue { index }),
        ProvenTx::Undecodable => Some(PoiError::UndecodableTransaction { index }),
        ProvenTx::Hash(got) => {
            if !array_eq(&got, expected) {
                Some(PoiError::TransactionHashMismatch { index, expected: *expected, got })
            } else {
                None
            }
        },
    }
}

/// What is wrong with the proofs from `from` on as those of the transactions with
/// the hashes `expected`: the first objection in order.
pub open spec fn inclusions_objection(
    proofs: Seq<TxMerkleProof>,
    transactions_root: B256,
    expected: Seq<B256>,
    from: int,
) -> Option<PoiError>
    decreases proofs.len() - from,
{
    if from >= proofs.len() {
        None
    } else {
        match inclusion_objection(from as usize, proofs[from], transactions_root, expected[from]) {
            Some(error) => Some(error),
            None => inclusions_objection(proofs, transactions_root, expected, from + 1),
        }
    }
}

/// Judges one inclusion proof for each of the hashes `expected`, up to the first
/// objection.
pub fn check_inclusions(
    proofs: &Vec<TxMerkleProof>,
    transactions_root: &B256,
    expected: &Vec<B256>,
) -> (objection: Option<PoiError>)
    requires
        proofs.len() == expected.len(),
    ensures
        objection == inclusions_objection(proofs@, *transactions_root, expected@, 0),
{
    for i in 0..proofs.len()
        invariant
            proofs.len() == expected.len(),
            inclusions_objection(proofs@, *transactions_root, expected@, 0)
                == inclusions_objection(proofs@, *transactions_root, expected@, i as int),
    {
        let proof = &proofs[i];
        let proven = follow_proof(proof);
        let objection = judge_inclusion(i, &proof.root, transactions_root, proven, &expected[i]);
        if objection.is_some() {
            return objection;
        }
    }
    None
}

/// The claimed hashes of a transaction and of those behind it.
pub open spec fn hashes(first: EncodedTx, others: Seq<EncodedTx>) -> Seq<B256> {
    seq![first.hash] + others.map_values(|tx: EncodedTx| tx.hash)
}

/// Lists the claimed hashes of a transaction and of those behind it.
pub fn list_hashes(first: &EncodedTx, others: &Vec<EncodedTx>) -> (list: Vec<B256>)
    ensures
        list@ == hashes(*first, others@),
{
    let mut list: Vec<B256> = Vec::new();
    list.push(first.hash);
    for i in 0..others.len()
        invariant
            list@ =~= hashes(*first, others@).take(i + 1),
    {
        list.push(others[i].hash);
    }
    assert(hashes(*first, others@).take(others.len() + 1) =~= hashes(*first, others@));
    list
}

} // verus!
