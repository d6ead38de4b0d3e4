//! What each step of the verification answers, case by case, in terms of what it is
//! given and of what the Ethereum crates compute.

use vstd::prelude::*;

use crate::accounts::{
    account_proven, account_stop, account_verdict, account_verdict_given, accounts_stop, signer,
    signers, verdict_stop, AccountVerdict,
};
use crate::bytes::{byte_strings, nibbles};
use crate::ethereum::{
    account_proof_holds, account_rlp, batch_params, decoded_tx, header_hash, keccak,
    parsed_header, prague_blob_fee, public_values_layout, recovered_address, signature_text,
    trie_value,
};
use crate::fees::{balance_needed, blob_count, block_blob_fee, fee_fits, total_fee, widened};
use crate::headers::{headers_objection_given, linked_headers};
use crate::inclusion::{
    decodable_nodes, hashes, inclusion_objection, inclusion_objection_given,
    inclusions_objection, proven_tx, ProvenTx,
};
use crate::public_values::{commitment, commitment_outcome};
use crate::signing::{
    signature_bytes, signature_in, signature_text_unique, underwriter_objection,
};
use crate::slot::{slot_objection, slot_of};
use crate::sponsorship::{
    sponsor_call, sponsor_call_reads_back, sponsor_calldata, sponsored_by,
    sponsorship_objection, with_amount, SPONSOR_ETH_BATCH_SELECTOR,
};
use crate::transactions::{optional_transaction_in, transaction_in, transactions_in, view_of};
use crate::trie::{decodable_node, proof_walks};
use crate::types::{
    views, AccountMerkleProof, Address, BlockHeader, EncodedTx, HeaderView, PoiError,
    PreconfRequest, Signature, Transaction, TransactionView, TxMerkleProof, VerificationResult,
    B256, U256,
};
use crate::verification::{poi_outcome, terms_objection, type_a_chain, type_b_chain};

verus! {

/// The value of an amount is that of its limbs to the base of two to the power 64.
pub proof fn amount_is_that_of_its_limbs(amount: U256)
    ensures
        amount@ == amount.limbs[0] + 0x1_0000_0000_0000_0000 * (amount.limbs[1]
            + 0x1_0000_0000_0000_0000 * (amount.limbs[2] + 0x1_0000_0000_0000_0000
            * amount.limbs[3])),
{
}

/// Headers and transactions are spoken of with every field as it is held.
pub proof fn views_keep_every_field(header: BlockHeader, tx: Transaction)
    ensures
        header@.parent_hash == header.parent_hash,
        header@.ommers_hash == header.ommers_hash,
        header@.beneficiary == header.beneficiary,
        header@.state_root == header.state_root,
        header@.transactions_root == header.transactions_root,
        header@.receipts_root == header.receipts_root,
        header@.logs_bloom == header.logs_bloom,
        header@.difficulty == header.difficulty,
        header@.number == header.number,
        header@.gas_limit == header.gas_limit,
        header@.gas_used == header.gas_used,
        header@.timestamp == header.timestamp,
        header@.extra_data == header.extra_data@,
        header@.mix_hash == header.mix_hash,
        header@.nonce == header.nonce,
        header@.base_fee_per_gas == header.base_fee_per_gas,
        header@.withdrawals_root == header.withdrawals_root,
        header@.blob_gas_used == header.blob_gas_used,
        header@.excess_blob_gas == header.excess_blob_gas,
        header@.parent_beacon_block_root == header.parent_beacon_block_root,
        header@.requests_hash == header.requests_hash,
        tx@.hash == tx.hash,
        tx@.is_eip4844 == tx.is_eip4844,
        tx@.chain_id == tx.chain_id,
        tx@.nonce == tx.nonce,
        tx@.gas_limit == tx.gas_limit,
        tx@.max_priority_fee_per_gas == tx.max_priority_fee_per_gas,
        tx.blob_versioned_hashes matches Some(blobs) ==> tx@.blob_versioned_hashes == Some(blobs@),
        tx.blob_versioned_hashes is None ==> tx@.blob_versioned_hashes is None,
        tx@.to == tx.to,
        tx@.input == tx.input@,
        tx@.signature_hash == tx.signature_hash,
        tx@.signature == tx.signature,
{
}

/// Lists are spoken of item by item, in their order and whole.
pub proof fn lists_keep_every_item(transactions: Seq<Transaction>, list: Seq<Vec<u8>>, i: int)
    ensures
        views(transactions).len() == transactions.len(),
        0 <= i < transactions.len() ==> views(transactions)[i] == transactions[i]@,
        byte_strings(list).len() == list.len(),
        0 <= i < list.len() ==> byte_strings(list)[i] == list[i]@,
{
}

/// Every byte is split into two nibbles, from which it can be put together again.
pub proof fn nibbles_are_half_bytes(bytes: Seq<u8>, i: int)
    requires
        0 <= i < bytes.len(),
    ensures
        nibbles(bytes).len() == 2 * bytes.len(),
        nibbles(bytes)[2 * i] < 16,
        nibbles(bytes)[2 * i + 1] < 16,
        bytes[i] == nibbles(bytes)[2 * i] * 16 + nibbles(bytes)[2 * i + 1],
{
}

/// A timestamp lies in the twelve seconds of its slot, and in those of no other.
pub proof fn slot_contains_its_timestamps(timestamp: u64, genesis_timestamp: u64, slot: int)
    ensures
        slot == slot_of(timestamp, genesis_timestamp) <==> genesis_timestamp + 12 * slot
            <= timestamp && timestamp < genesis_timestamp + 12 * slot + 12,
{
}

/// A block is that of the target slot exactly where it lies in the twelve seconds of that
/// slot. Elsewhere the objection names the slot that it lies in, or that it lies before
/// genesis.
pub proof fn slot_answers(timestamp: u64, genesis_timestamp: u64, target_slot: u64, got: u64)
    ensures
        slot_objection(timestamp, genesis_timestamp, target_slot) is None <==> genesis_timestamp
            + 12 * target_slot <= timestamp && timestamp < genesis_timestamp + 12 * target_slot
            + 12,
        timestamp < genesis_timestamp ==> slot_objection(timestamp, genesis_timestamp, target_slot)
            == Some(PoiError::TimestampBeforeGenesis { timestamp, genesis_timestamp }),
        genesis_timestamp + 12 * got <= timestamp && timestamp < genesis_timestamp + 12 * got + 12
            && got != target_slot ==> slot_objection(timestamp, genesis_timestamp, target_slot)
            == Some(PoiError::SlotMismatch { expected: target_slot, got }),
{
}

/// The fee is that for every blob and for every unit of gas: one unit of gas more costs the
/// base fee and the priority fee, and one blob more costs the blob fee for its data gas.
/// Nothing costs nothing.
pub proof fn fee_grows_with_gas_and_blobs(
    blob_fee: nat,
    blobs: nat,
    base_fee: u64,
    priority_fee: u128,
    gas_limit: u64,
)
    ensures
        total_fee(blob_fee, blobs, base_fee, priority_fee, gas_limit) == blob_fee * 131_072 * blobs
            + (base_fee + priority_fee) * gas_limit,
        gas_limit < u64::MAX ==> total_fee(
            blob_fee,
            blobs,
            base_fee,
            priority_fee,
            (gas_limit + 1) as u64,
        ) - total_fee(blob_fee, blobs, base_fee, priority_fee, gas_limit) == base_fee
            + priority_fee,
        total_fee(blob_fee, blobs + 1, base_fee, priority_fee, gas_limit) - total_fee(
            blob_fee,
            blobs,
            base_fee,
            priority_fee,
            gas_limit,
        ) == blob_fee * 131_072,
        total_fee(blob_fee, 0, base_fee, priority_fee, 0) == 0,
{
    assert((base_fee + priority_fee) * gas_limit == base_fee * gas_limit + priority_fee
        * gas_limit) by (nonlinear_arith);
    assert(base_fee * (gas_limit + 1) == base_fee * gas_limit + base_fee) by (nonlinear_arith);
    assert(priority_fee * (gas_limit + 1) == priority_fee * gas_limit + priority_fee)
        by (nonlinear_arith);
    assert(blob_fee * 131_072 * (blobs + 1) == blob_fee * 131_072 * blobs + blob_fee * 131_072)
        by (nonlinear_arith);
    assert(blob_fee * 131_072 * 0 == 0) by (nonlinear_arith);
}

/// The fee is within range exactly where the base fee for all gas takes 64 bits, and the
/// fee for one blob and the sum of all fees take 128.
pub proof fn fee_range(
    blob_fee: nat,
    blobs: nat,
    base_fee: u64,
    priority_fee: u128,
    gas_limit: u64,
)
    ensures
        fee_fits(blob_fee, blobs, base_fee, priority_fee, gas_limit) <==> {
            &&& base_fee * gas_limit < 0x1_0000_0000_0000_0000
            &&& blob_fee * 131_072 < 0x1_0000_0000_0000_0000_0000_0000_0000_0000
            &&& blob_fee * 131_072 * blobs + (base_fee + priority_fee) * gas_limit
                < 0x1_0000_0000_0000_0000_0000_0000_0000_0000
        },
{
    fee_grows_with_gas_and_blobs(blob_fee, blobs, base_fee, priority_fee, gas_limit);
}

/// A block has a blob fee where it has an excess of blob gas that the fee can be computed
/// of, and the fee is that of its excess.
pub proof fn blob_fee_answers(block: HeaderView, fee: Option<u128>, tx: TransactionView)
    ensures
        block.excess_blob_gas is None ==> block_blob_fee(block) is None,
        block.excess_blob_gas matches Some(excess) ==> (if excess <= 284_284_038 {
            block_blob_fee(block) == Some(prague_blob_fee(excess))
        } else {
            block_blob_fee(block) is None
        }),
        fee matches Some(known) ==> widened(fee) == Some(known as nat),
        fee is None ==> widened(fee) is None,
        tx.blob_versioned_hashes matches Some(blobs) ==> blob_count(tx) == blobs.len(),
        tx.blob_versioned_hashes is None ==> blob_count(tx) == 0,
{
}

/// What the sender of a transaction needs: for a blob transaction the blob fee is missing
/// first, or out of range, then for any transaction the base fee, then the priority fee.
/// With all of them it is the fee for all blobs of a blob transaction and for all gas.
pub proof fn balance_answers(
    index: usize,
    tx: TransactionView,
    block: HeaderView,
    blob_fee: Option<nat>,
)
    ensures
        ({
            let needed = balance_needed(index, tx, block, blob_fee);
            let fee = if tx.is_eip4844 {
                blob_fee.unwrap()
            } else {
                0
            };
            let blobs = if tx.is_eip4844 && tx.blob_versioned_hashes is Some {
                tx.blob_versioned_hashes.unwrap().len()
            } else {
                0
            };
            let known = !tx.is_eip4844 || (block.excess_blob_gas is Some && blob_fee is Some);
            &&& tx.is_eip4844 && block.excess_blob_gas is None ==> needed == Err::<int, PoiError>(
                PoiError::MissingBlobFee { index },
            )
            &&& tx.is_eip4844 && block.excess_blob_gas is Some && blob_fee is None ==> needed
                == Err::<int, PoiError>(PoiError::FeeOverflow { index })
            &&& known && block.base_fee_per_gas is None ==> needed == Err::<int, PoiError>(
                PoiError::MissingBaseFee { index },
            )
            &&& known && block.base_fee_per_gas is Some && tx.max_priority_fee_per_gas is None
                ==> needed == Err::<int, PoiError>(PoiError::MissingPriorityFee { index })
            &&& known && block.base_fee_per_gas is Some && tx.max_priority_fee_per_gas is Some ==> {
                let base = block.base_fee_per_gas.unwrap();
                let priority = tx.max_priority_fee_per_gas.unwrap();
                let total = fee * 131_072 * blobs + (base + priority) * tx.gas_limit;
                needed == if base * tx.gas_limit <= u64::MAX && fee * 131_072 <= u128::MAX && total
                    <= u128::MAX {
                    Ok::<int, PoiError>(total)
                } else {
                    Err::<int, PoiError>(PoiError::FeeOverflow { index })
                }
            }
        }),
{
    if block.base_fee_per_gas is Some && tx.max_priority_fee_per_gas is Some {
        let fee = if tx.is_eip4844 {
            blob_fee.unwrap()
        } else {
            0
        };
        let blobs = if tx.is_eip4844 && tx.blob_versioned_hashes is Some {
            tx.blob_versioned_hashes.unwrap().len()
        } else {
            0
        };
        fee_grows_with_gas_and_blobs(
            fee,
            blobs,
            block.base_fee_per_gas.unwrap(),
            tx.max_priority_fee_per_gas.unwrap(),
            tx.gas_limit,
        );
    }
}

/// The signer of a transaction is the address recovered from its whole signature, with its
/// parity, of the hash that was signed. The signers of transactions are listed in order.
pub proof fn signers_are_recovered(tx: TransactionView, transactions: Seq<TransactionView>, i: int)
    ensures
        signer(tx) == recovered_address(tx.signature, tx.signature_hash),
        signers(transactions).len() == transactions.len(),
        0 <= i < transactions.len() ==> signers(transactions)[i] == recovered_address(
            transactions[i].signature,
            transactions[i].signature_hash,
        ).unwrap(),
{
}

/// The state of an account is proven exactly where the proof with all its nodes, however
/// many, holds under the hash of the address for the encoded state. Only where the proof
/// cannot be walked along that hash is it not.
pub proof fn account_proof_answers(account: AccountMerkleProof, state_root: B256)
    ensures
        ({
            let nodes = account.account_proof@.map_values(|node: Vec<u8>| node@);
            let key = keccak(account.address@);
            &&& proof_walks(nodes, nibbles(key@)) ==> account_proven(account, state_root)
                == account_proof_holds(state_root, key, account_rlp(account), nodes)
            &&& !proof_walks(nodes, nibbles(key@)) ==> !account_proven(account, state_root)
        }),
{
    assert(account.account_proof@.map_values(|node: Vec<u8>| node@) =~= byte_strings(
        account.account_proof@,
    ));
}

/// The verdict on an account, given who signed, whether the state is proven and the blob
/// fee: the signer is looked at first, then the account, its proof, its nonce, the fees and
/// the balance.
pub proof fn verdict_answers(
    index: usize,
    tx: TransactionView,
    account: AccountMerkleProof,
    block: HeaderView,
    signer: Option<Address>,
    proven: bool,
    blob_fee: Option<nat>,
)
    ensures
        ({
            let verdict = account_verdict_given(
                index,
                tx,
                account,
                block,
                signer,
                proven,
                blob_fee,
            );
            let ours = signer == Some(account.address) && proven;
            let needed = balance_needed(index, tx, block, blob_fee);
            &&& signer is None ==> verdict == AccountVerdict::Rejected(
                PoiError::UnrecoverableSigner { index },
            )
            &&& signer is Some && signer.unwrap() != account.address ==> verdict
                == AccountVerdict::Rejected(
                PoiError::AccountKeyMismatch {
                    index,
                    account: account.address,
                    signer: signer.unwrap(),
                },
            )
            &&& signer == Some(account.address) && !proven ==> verdict == AccountVerdict::Rejected(
                PoiError::AccountProof { index },
            )
            &&& ours && tx.nonce < account.nonce ==> verdict == AccountVerdict::Unpayable
            &&& ours && account.nonce <= tx.nonce && needed is Err ==> verdict
                == AccountVerdict::Rejected(needed->Err_0)
            &&& ours && account.nonce <= tx.nonce && needed is Ok && account.balance@
                < needed->Ok_0 ==> verdict == AccountVerdict::Unpayable
            &&& ours && account.nonce <= tx.nonce && needed is Ok && needed->Ok_0
                <= account.balance@ ==> verdict == AccountVerdict::Payable(account.address)
        }),
{
}

/// The account of a transaction is judged by the address recovered from its signature, by
/// its proof with all nodes, and by the blob fee of the block. It ends the verification
/// unless the sender could have paid.
pub proof fn account_answers(
    transactions: Seq<TransactionView>,
    accounts: Seq<AccountMerkleProof>,
    block: HeaderView,
    state_root: B256,
    index: int,
)
    requires
        0 <= index < transactions.len(),
    ensures
        ({
            let stop = account_stop(transactions, accounts, block, state_root, index);
            let tx = transactions[index];
            let account = accounts[index];
            let nodes = account.account_proof@.map_values(|node: Vec<u8>| node@);
            let verdict = account_verdict_given(
                index as usize,
                tx,
                account,
                block,
                recovered_address(tx.signature, tx.signature_hash),
                proof_walks(nodes, nibbles(keccak(account.address@)@)) && account_proof_holds(
                    state_root,
                    keccak(account.address@),
                    account_rlp(account),
                    nodes,
                ),
                match block.excess_blob_gas {
                    Some(excess) => if excess <= 284_284_038 {
                        Some(prague_blob_fee(excess))
                    } else {
                        None
                    },
                    None => None,
                },
            );
            &&& accounts.len() <= index ==> stop == Some(
                Err::<VerificationResult, PoiError>(
                    PoiError::MissingAccountProof { index: index as usize },
                ),
            )
            &&& index < accounts.len() ==> {
                &&& verdict == account_verdict(index as usize, tx, account, block, state_root)
                &&& verdict is Payable ==> stop is None
                &&& verdict is Unpayable ==> stop == Some(
                    Ok::<VerificationResult, PoiError>(VerificationResult::Failed),
                )
                &&& verdict matches AccountVerdict::Rejected(error) ==> stop == Some(
                    Err::<VerificationResult, PoiError>(error),
                )
            }
        }),
{
    if index < accounts.len() {
        account_proof_answers(accounts[index], state_root);
    }
}

/// How a verdict ends the verification.
pub proof fn stop_answers(address: Address, error: PoiError)
    ensures
        verdict_stop(AccountVerdict::Payable(address)) is None,
        verdict_stop(AccountVerdict::Unpayable) == Some(
            Ok::<VerificationResult, PoiError>(VerificationResult::Failed),
        ),
        verdict_stop(AccountVerdict::Rejected(error)) == Some(
            Err::<VerificationResult, PoiError>(error),
        ),
{
}

/// The accounts end the verification as the first of them does that does.
pub proof fn first_account_decides(
    transactions: Seq<TransactionView>,
    accounts: Seq<AccountMerkleProof>,
    block: HeaderView,
    state_root: B256,
    from: int,
    index: int,
)
    requires
        0 <= from <= index,
        forall|j: int|
            from <= j < index && j < transactions.len() ==> (#[trigger] account_stop(
                transactions,
                accounts,
                block,
                state_root,
                j,
            )) is None,
    ensures
        index < transactions.len() && account_stop(
            transactions,
            accounts,
            block,
            state_root,
            index,
        ) is Some ==> accounts_stop(transactions, accounts, block, state_root, from)
            == account_stop(transactions, accounts, block, state_root, index),
        index >= transactions.len() ==> accounts_stop(
            transactions,
            accounts,
            block,
            state_root,
            from,
        ) is None,
    decreases index - from,
{
    if from < index && from < transactions.len() {
        assert(account_stop(transactions, accounts, block, state_root, from) is None);
        first_account_decides(transactions, accounts, block, state_root, from + 1, index);
    }
}

/// An inclusion proof leads to the transaction that the trie holds under the whole key:
/// nothing is proven, or that there is nothing, or no transaction, or the transaction with
/// its hash.
pub proof fn proof_answers(proof: TxMerkleProof, hash: B256)
    ensures
        ({
            let nodes = proof.proof@.map_values(|node: Vec<u8>| node@).filter(
                |node: Seq<u8>| decodable_node(node),
            );
            let value = trie_value(proof.root, proof.key@, nodes);
            &&& proven_tx(proof) == ProvenTx::InvalidProof <==> value is None
            &&& proven_tx(proof) == ProvenTx::NoValue <==> value == Some(None::<Seq<u8>>)
            &&& proven_tx(proof) == ProvenTx::Undecodable <==> {
                &&& value matches Some(Some(bytes))
                &&& decoded_tx(bytes) is None
            }
            &&& proven_tx(proof) == ProvenTx::Hash(hash) <==> {
                &&& value matches Some(Some(bytes))
                &&& decoded_tx(bytes) matches Some(tx)
                &&& tx.hash == hash
            }
        }),
{
    let keep = |node: Seq<u8>| decodable_node(node);
    assert(proof.proof@.map_values(|node: Vec<u8>| node@) =~= byte_strings(proof.proof@));
    assert(byte_strings(proof.proof@).filter(keep) == decodable_nodes(byte_strings(proof.proof@)));
}

/// A proof all of whose byte strings are trie nodes is followed with all of them, however
/// many.
pub proof fn trie_nodes_are_all_kept(proof: Seq<Seq<u8>>)
    requires
        forall|i: int| 0 <= i < proof.len() ==> decodable_node(#[trigger] proof[i]),
    ensures
        decodable_nodes(proof) == proof,
    decreases proof.len(),
{
    reveal(Seq::filter);
    if proof.len() > 0 {
        trie_nodes_are_all_kept(proof.drop_last());
        assert(proof.drop_last().push(proof.last()) =~= proof);
    }
}

/// One more byte string is kept behind the others exactly where it is a trie node.
pub proof fn trie_nodes_are_kept_one_by_one(proof: Seq<Seq<u8>>, node: Seq<u8>)
    ensures
        decodable_nodes(Seq::empty()) == Seq::<Seq<u8>>::empty(),
        decodable_node(node) ==> decodable_nodes(proof.push(node)) == decodable_nodes(proof).push(
            node,
        ),
        !decodable_node(node) ==> decodable_nodes(proof.push(node)) == decodable_nodes(proof),
{
    reveal(Seq::filter);
    assert(proof.push(node).drop_last() =~= proof);
}

/// The objection to an inclusion proof: another root, a proof of nothing, of absence or of
/// no transaction, or another hash. There is none exactly where the proof is one of the
/// block and leads to the transaction with the expected hash.
pub proof fn inclusion_answers(
    index: usize,
    proof: TxMerkleProof,
    root: B256,
    transactions_root: B256,
    expected: B256,
    got: B256,
)
    ensures
        root != transactions_root ==> forall|proven: ProvenTx| #[trigger]
            inclusion_objection_given(index, root, transactions_root, proven, expected) == Some(
                PoiError::ProofRootMismatch { index, expected: transactions_root, got: root },
            ),
        inclusion_objection_given(index, root, root, ProvenTx::InvalidProof, expected) == Some(
            PoiError::InvalidProof { index },
        ),
        inclusion_objection_given(index, root, root, ProvenTx::NoValue, expected) == Some(
            PoiError::ProofWithoutValue { index },
        ),
        inclusion_objection_given(index, root, root, ProvenTx::Undecodable, expected) == Some(
            PoiError::UndecodableTransaction { index },
        ),
        inclusion_objection_given(index, root, root, ProvenTx::Hash(expected), expected) is None,
        got != expected ==> inclusion_objection_given(
            index,
            root,
            root,
            ProvenTx::Hash(got),
            expected,
        ) == Some(PoiError::TransactionHashMismatch { index, expected, got }),
        inclusion_objection(index, proof, transactions_root, expected)
            == inclusion_objection_given(
            index,
            proof.root,
            transactions_root,
            proven_tx(proof),
            expected,
        ),
{
}

/// The objection to inclusion proofs is that to the first of them that there is one to,
/// each held against the hash in its place.
pub proof fn first_inclusion_decides(
    proofs: Seq<TxMerkleProof>,
    transactions_root: B256,
    expected: Seq<B256>,
    from: int,
    index: int,
)
    requires
        0 <= from <= index,
        forall|j: int|
            from <= j < index && j < proofs.len() ==> inclusion_objection(
                j as usize,
                #[trigger] proofs[j],
                transactions_root,
                expected[j],
            ) is None,
    ensures
        index < proofs.len() && inclusion_objection(
            index as usize,
            proofs[index],
            transactions_root,
            expected[index],
        ) is Some ==> inclusions_objection(proofs, transactions_root, expected, from)
            == inclusion_objection(
            index as usize,
            proofs[index],
            transactions_root,
            expected[index],
        ),
        index >= proofs.len() ==> inclusions_objection(proofs, transactions_root, expected, from)
            is None,
    decreases index - from,
{
    if from < index && from < proofs.len() {
        assert(inclusion_objection(
            from as usize,
            proofs[from],
            transactions_root,
            expected[from],
        ) is None);
        first_inclusion_decides(proofs, transactions_root, expected, from + 1, index);
    }
}

/// The claimed hashes are listed with that of the first transaction before the others.
pub proof fn hashes_are_listed(first: EncodedTx, others: Seq<EncodedTx>, i: int)
    ensures
        hashes(first, others).len() == others.len() + 1,
        hashes(first, others)[0] == first.hash,
        0 <= i < others.len() ==> hashes(first, others)[i + 1] == others[i].hash,
{
}

/// Calldata is read as a batch exactly where it is the selector and the encoding of the
/// batch.
pub proof fn sponsor_call_answers(calldata: Seq<u8>, recipients: Seq<Address>, amounts: Seq<B256>)
    requires
        calldata.len() <= u64::MAX,
    ensures
        sponsor_call(calldata) == Some((recipients, amounts)) <==> calldata == seq![
            0x28u8,
            0x11u8,
            0x24u8,
            0x8fu8,
        ] + batch_params(recipients, amounts),
{
    assert(SPONSOR_ETH_BATCH_SELECTOR@ =~= seq![0x28u8, 0x11u8, 0x24u8, 0x8fu8]);
    assert(sponsor_calldata(recipients, amounts) == seq![0x28u8, 0x11u8, 0x24u8, 0x8fu8]
        + batch_params(recipients, amounts));
    if calldata == sponsor_calldata(recipients, amounts) {
        sponsor_call_reads_back(recipients, amounts);
    }
}

/// The recipients with an amount are those before both lists end, in order.
pub proof fn amounts_are_paired(recipients: Seq<Address>, amounts: Seq<B256>, i: int)
    ensures
        with_amount(recipients, amounts).len() <= recipients.len(),
        with_amount(recipients, amounts).len() <= amounts.len(),
        with_amount(recipients, amounts).len() == recipients.len() || with_amount(
            recipients,
            amounts,
        ).len() == amounts.len(),
        0 <= i < recipients.len() && i < amounts.len() ==> with_amount(recipients, amounts)[i]
            == recipients[i],
{
}

/// A transaction sponsors whom its batch pays, if it calls the core contract.
pub proof fn sponsorship_answers(tx: TransactionView, taiyi_core: Address)
    ensures
        tx.to is None ==> sponsored_by(tx, taiyi_core) == Err::<Seq<Address>, PoiError>(
            PoiError::MissingRecipient,
        ),
        tx.to is Some && tx.to.unwrap() != taiyi_core ==> sponsored_by(tx, taiyi_core) == Err::<
            Seq<Address>,
            PoiError,
        >(PoiError::RecipientMismatch { expected: taiyi_core, got: tx.to.unwrap() }),
        tx.to == Some(taiyi_core) && sponsor_call(tx.input) is None ==> sponsored_by(tx, taiyi_core)
            == Err::<Seq<Address>, PoiError>(PoiError::SponsorCallFormat),
        tx.to == Some(taiyi_core) && sponsor_call(tx.input) is Some ==> sponsored_by(tx, taiyi_core)
            == Ok::<Seq<Address>, PoiError>(
            with_amount(sponsor_call(tx.input).unwrap().0, sponsor_call(tx.input).unwrap().1),
        ),
{
}

/// Senders that are not sponsored are reported with the number of sponsored senders and
/// that of all senders, each sender counted once.
pub proof fn unsponsored_senders_are_counted(sponsored: Seq<Address>, signers: Seq<Address>)
    ensures
        ({
            let found = signers.to_set().filter(|address: Address| sponsored.contains(address));
            sponsorship_objection(sponsored, signers) == if found.len() == signers.to_set().len() {
                None
            } else {
                Some(
                    PoiError::UnsponsoredSenders {
                        found: found.len() as usize,
                        expected: signers.to_set().len() as usize,
                    },
                )
            }
        }),
{
    assert(signers.to_set().filter(|address: Address| sponsored.contains(address))
        =~= signers.to_set().intersect(sponsored.to_set()));
}

/// A text is read as a signature exactly where it is the hex form of that signature, with
/// its parity.
pub proof fn signature_answers(text: Seq<char>, signature: Signature)
    ensures
        signature_in(text) == Some(signature) <==> signature_text(text, signature),
        signature_in(text) is None <==> forall|other: Signature| !signature_text(text, other),
{
    if signature_text(text, signature) {
        signature_text_unique(text, signature, signature_in(text).unwrap());
    }
}

/// A signature is written as its two numbers and then 27, or 28 for the odd parity.
pub proof fn signature_is_written_whole(signature: Signature, i: int)
    ensures
        signature_bytes(signature).len() == 65,
        0 <= i < 32 ==> signature_bytes(signature)[i] == signature.r[i],
        0 <= i < 32 ==> signature_bytes(signature)[32 + i] == signature.s[i],
        signature.y_parity ==> signature_bytes(signature)[64] == 28,
        !signature.y_parity ==> signature_bytes(signature)[64] == 27,
{
}

/// A preconfirmation is the underwriter's exactly where the recovered address is.
pub proof fn underwriter_answers(recovered: Address, expected: Address)
    ensures
        underwriter_objection(None, expected) == Some(PoiError::UnrecoverableUnderwriter),
        underwriter_objection(Some(expected), expected) is None,
        recovered != expected ==> underwriter_objection(Some(recovered), expected) == Some(
            PoiError::UnderwriterMismatch { expected, recovered },
        ),
{
}

/// The underwriter is looked at first, and then the slot.
pub proof fn terms_answer(
    digest: B256,
    target_slot: u64,
    inclusion: HeaderView,
    signature: Signature,
    underwriter_address: Address,
    genesis_timestamp: u64,
)
    ensures
        ({
            let objection = terms_objection(
                digest,
                target_slot,
                inclusion,
                signature,
                underwriter_address,
                genesis_timestamp,
            );
            let recovered = recovered_address(signature, digest);
            &&& recovered is None ==> objection == Some(PoiError::UnrecoverableUnderwriter)
            &&& recovered is Some && recovered.unwrap() != underwriter_address ==> objection
                == Some(
                PoiError::UnderwriterMismatch {
                    expected: underwriter_address,
                    recovered: recovered.unwrap(),
                },
            )
            &&& recovered == Some(underwriter_address) ==> objection == slot_objection(
                inclusion.timestamp,
                genesis_timestamp,
                target_slot,
            )
        }),
{
}

/// The two headers are held against their hashes, and the first against its parent.
pub proof fn header_answers(
    inclusion_json: Seq<char>,
    inclusion_hash: B256,
    previous_json: Seq<char>,
    previous_hash: B256,
)
    ensures
        ({
            let headers = linked_headers(
                inclusion_json,
                inclusion_hash,
                previous_json,
                previous_hash,
            );
            let inclusion = parsed_header(inclusion_json);
            let previous = parsed_header(previous_json);
            let computed = header_hash(inclusion.unwrap());
            let previous_computed = header_hash(previous.unwrap());
            let parent = inclusion.unwrap().parent_hash;
            &&& inclusion is None ==> headers == Err::<(HeaderView, HeaderView), PoiError>(
                PoiError::InclusionHeaderFormat,
            )
            &&& inclusion is Some && previous is None ==> headers == Err::<
                (HeaderView, HeaderView),
                PoiError,
            >(PoiError::PreviousHeaderFormat)
            &&& inclusion is Some && previous is Some ==> {
                &&& computed != inclusion_hash ==> headers == Err::<
                    (HeaderView, HeaderView),
                    PoiError,
                >(PoiError::InclusionHashMismatch { computed, expected: inclusion_hash })
                &&& computed == inclusion_hash && previous_computed != previous_hash ==> headers
                    == Err::<(HeaderView, HeaderView), PoiError>(
                    PoiError::PreviousHashMismatch {
                        computed: previous_computed,
                        expected: previous_hash,
                    },
                )
                &&& computed == inclusion_hash && previous_computed == previous_hash && parent
                    != previous_hash ==> headers == Err::<(HeaderView, HeaderView), PoiError>(
                    PoiError::BrokenChain { parent, previous: previous_hash },
                )
                &&& computed == inclusion_hash && previous_computed == previous_hash && parent
                    == previous_hash ==> headers == Ok::<(HeaderView, HeaderView), PoiError>(
                    (inclusion.unwrap(), previous.unwrap()),
                )
            }
        }),
{
}

/// Two headers are judged by their hashes: that of the first, that of the second, and then
/// the link between them.
pub proof fn header_hash_answers(parent: B256, first: B256, second: B256, other: B256, any: B256)
    ensures
        headers_objection_given(second, first, first, second, second) is None,
        first != other ==> headers_objection_given(parent, first, other, second, any) == Some(
            PoiError::InclusionHashMismatch { computed: first, expected: other },
        ),
        second != other ==> headers_objection_given(parent, first, first, second, other) == Some(
            PoiError::PreviousHashMismatch { computed: second, expected: other },
        ),
        parent != second ==> headers_objection_given(parent, first, first, second, second) == Some(
            PoiError::BrokenChain { parent, previous: second },
        ),
{
}

/// Transactions are read from their bytes, all of them, in order, or none.
pub proof fn transactions_are_decoded(
    encoded: EncodedTx,
    list: Seq<EncodedTx>,
    tx: Option<Transaction>,
)
    ensures
        transaction_in(encoded) == decoded_tx(encoded.bytes@),
        transactions_in(list) is Some <==> forall|i: int|
            0 <= i < list.len() ==> decoded_tx((#[trigger] list[i]).bytes@) is Some,
        transactions_in(list) matches Some(transactions) ==> {
            &&& transactions.len() == list.len()
            &&& forall|i: int|
                0 <= i < list.len() ==> Some(#[trigger] transactions[i]) == decoded_tx(
                    list[i].bytes@,
                )
        },
        optional_transaction_in(None) == Some(None::<TransactionView>),
        decoded_tx(encoded.bytes@) is None ==> optional_transaction_in(Some(encoded)) is None,
        decoded_tx(encoded.bytes@) is Some ==> optional_transaction_in(Some(encoded)) == Some(
            decoded_tx(encoded.bytes@),
        ),
        tx matches Some(held) ==> view_of(tx) == Some(held@),
        tx is None ==> view_of(tx) is None,
{
    if forall|i: int| 0 <= i < list.len() ==> decoded_tx((#[trigger] list[i]).bytes@) is Some {
        assert forall|i: int| 0 <= i < list.len() implies transaction_in(#[trigger] list[i])
            is Some by {}
    }
    if transactions_in(list) is Some {
        assert forall|i: int| 0 <= i < list.len() implies decoded_tx((#[trigger] list[i]).bytes@)
            is Some by {
            assert(transaction_in(list[i]) is Some);
        }
    }
}

/// The chain is that of the first transaction of a request of type A, and of the only one
/// of a request of type B.
pub proof fn chain_answers(transactions: Seq<TransactionView>, transaction: Option<TransactionView>)
    ensures
        transactions.len() == 0 ==> type_a_chain(transactions) == Err::<u64, PoiError>(
            PoiError::NoTransactions,
        ),
        transactions.len() > 0 ==> type_a_chain(transactions) == match transactions[0].chain_id {
            Some(chain_id) => Ok::<u64, PoiError>(chain_id),
            None => Err::<u64, PoiError>(PoiError::MissingChainId),
        },
        transaction is None ==> type_b_chain(transaction) == Err::<u64, PoiError>(
            PoiError::MissingTransaction,
        ),
        transaction is Some ==> type_b_chain(transaction) == match transaction.unwrap().chain_id {
            Some(chain_id) => Ok::<u64, PoiError>(chain_id),
            None => Err::<u64, PoiError>(PoiError::MissingChainId),
        },
{
}

/// The committed bytes are seven words, the fifth of them where the signature starts, and
/// then the length of the signature, its 65 bytes, and zeros to the end of the word.
pub proof fn commitment_is_laid_out(
    inclusion: HeaderView,
    inclusion_hash: B256,
    underwriter_address: Address,
    signature: Signature,
    genesis_timestamp: u64,
    taiyi_core: Address,
)
    ensures
        commitment(
            inclusion,
            inclusion_hash,
            underwriter_address,
            signature,
            genesis_timestamp,
            taiyi_core,
        ) == public_values_layout(
            inclusion.timestamp,
            inclusion_hash,
            inclusion.number,
            underwriter_address,
            signature.r@ + signature.s@ + seq![
                if signature.y_parity {
                    28u8
                } else {
                    27u8
                },
            ],
            genesis_timestamp,
            taiyi_core,
        ),
{
}

/// The program ends as the verification does, but for the signature, which it reads before
/// the previous header and the hashes of both.
pub proof fn commitment_answers(
    request: Option<PreconfRequest>,
    text: Seq<char>,
    inclusion_json: Seq<char>,
    inclusion_hash: B256,
    previous_json: Seq<char>,
    previous_hash: B256,
    underwriter_address: Address,
    genesis_timestamp: u64,
    taiyi_core: Address,
)
    ensures
        ({
            let outcome = commitment_outcome(
                request,
                text,
                inclusion_json,
                inclusion_hash,
                previous_json,
                previous_hash,
                underwriter_address,
                genesis_timestamp,
                taiyi_core,
            );
            let readable = exists|signature: Signature| signature_text(text, signature);
            &&& parsed_header(inclusion_json) is None ==> outcome == Err::<
                VerificationResult,
                PoiError,
            >(PoiError::InclusionHeaderFormat)
            &&& parsed_header(inclusion_json) is Some && !readable ==> outcome == Err::<
                VerificationResult,
                PoiError,
            >(PoiError::SignatureFormat)
            &&& parsed_header(inclusion_json) is Some && readable ==> outcome == poi_outcome(
                request,
                text,
                inclusion_json,
                inclusion_hash,
                previous_json,
                previous_hash,
                underwriter_address,
                genesis_timestamp,
                taiyi_core,
            )
        }),
{
}

} // verus!
