//! What the verification amounts to.

use vstd::prelude::*;

use crate::accounts::{account_stop, accounts_stop, signer, signers};
use crate::bytes::{be_value, nibbles, word, word_of_u64};
use crate::ethereum::{
    account_proof_holds, account_rlp, decoded_tx, header_hash, hex_byte, hex_digit, keccak,
    parsed_header, prague_blob_fee, public_values_layout, recovered_address, signature_text,
    trie_value, without_hex_prefix,
};
use crate::inclusion::{hashes, inclusions_objection};
use crate::public_values::{commitment, commitment_outcome};
use crate::signing::{signature_bytes, signature_in, signature_text_unique};
use crate::sponsorship::{sponsor_call, sponsored_by, sponsorship_objection};
use crate::trie::{decodable_node, proof_walks};
use crate::transactions::{optional_transaction_in, transaction_in, transactions_in};
use crate::types::{
    AccountMerkleProof, Address, HeaderView, PoiError, PreconfRequest, PreconfTypeA,
    PreconfTypeB, Signature, TransactionView, TxMerkleProof, VerificationResult, B256,
};
use crate::verification::{poi_outcome, type_a_outcome, type_b_outcome};

verus! {

/// The fee for one blob and the number of blobs that a transaction pays for, where
/// its block has a blob fee if it carries blobs.
pub open spec fn blob_terms(tx: TransactionView, block: HeaderView) -> Option<(nat, nat)> {
    if tx.is_eip4844 {
        match block.excess_blob_gas {
            Some(excess) => if excess <= 284_284_038 {
                Some(
                    (
                        prague_blob_fee(excess),
                        match tx.blob_versioned_hashes {
                            Some(hashes) => hashes.len(),
                            None => 0,
                        },
                    ),
                )
            } else {
                None
            },
            None => None,
        }
    } else {
        Some((0, 0))
    }
}

/// What a transaction costs in a block, where the cost is defined and within range: all
/// blobs at the blob fee, and all gas at the base fee and at the priority fee.
pub open spec fn cost(tx: TransactionView, block: HeaderView) -> Option<int> {
    match (blob_terms(tx, block), block.base_fee_per_gas, tx.max_priority_fee_per_gas) {
        (Some((fee, blobs)), Some(base), Some(priority)) => {
            let total = fee * 131_072 * blobs + base * tx.gas_limit + priority * tx.gas_limit;
            if base * tx.gas_limit <= u64::MAX && fee * 131_072 <= u128::MAX && total
                <= u128::MAX {
                Some(total)
            } else {
                None
            }
        },
        _ => None,
    }
}

/// Whether the account is that of the address whose key made the signature of the
/// transaction, and its proof holds under the hash of that address with all its nodes.
pub open spec fn is_senders_account(
    tx: TransactionView,
    account: AccountMerkleProof,
    state_root: B256,
) -> bool {
    let nodes = account.account_proof@.map_values(|node: Vec<u8>| node@);
    &&& recovered_address(tx.signature, tx.signature_hash) == Some(account.address)
    &&& proof_walks(nodes, nibbles(keccak(account.address@)@))
    &&& account_proof_holds(
        state_root,
        keccak(account.address@),
        account_rlp(account),
        nodes,
    )
}

/// Whether the sender of a transaction could have paid for it.
pub open spec fn could_pay(
    tx: TransactionView,
    account: AccountMerkleProof,
    block: HeaderView,
    state_root: B256,
) -> bool {
    &&& is_senders_account(tx, account, state_root)
    &&& account.nonce <= tx.nonce
    &&& cost(tx, block) matches Some(cost) && cost <= account.balance@
}

/// Whether the sender of a transaction is shown to be unable to pay for it.
pub open spec fn could_not_pay(
    tx: TransactionView,
    account: AccountMerkleProof,
    block: HeaderView,
    state_root: B256,
) -> bool {
    &&& is_senders_account(tx, account, state_root)
    &&& tx.nonce < account.nonce || (cost(tx, block) matches Some(cost) && account.balance@ < cost)
}

/// Whether the underwriter signed the request and the block is that of its slot: it lies
/// in the twelve seconds of the slot, counted from genesis.
pub open spec fn terms_hold(
    digest: B256,
    target_slot: u64,
    inclusion: HeaderView,
    signature: Signature,
    underwriter_address: Address,
    genesis_timestamp: u64,
) -> bool {
    &&& recovered_address(signature, digest) == Some(underwriter_address)
    &&& genesis_timestamp + 12 * target_slot <= inclusion.timestamp
    &&& inclusion.timestamp < genesis_timestamp + 12 * target_slot + 12
}

/// Whether a proof shows the transaction with this hash in the trie with this root: its
/// nodes lead from the root along the whole key to the transaction.
pub open spec fn shows(proof: TxMerkleProof, transactions_root: B256, hash: B256) -> bool {
    let nodes = proof.proof@.map_values(|node: Vec<u8>| node@).filter(
        |node: Seq<u8>| decodable_node(node),
    );
    &&& proof.root == transactions_root
    &&& trie_value(transactions_root, proof.key@, nodes) matches Some(Some(value))
    &&& decoded_tx(value) matches Some(tx)
    &&& tx.hash == hash
}

/// Whether a transaction sponsors an address through the core contract: it calls the
/// contract with a batch in which the address is a recipient that has an amount.
pub open spec fn sponsors(tx: TransactionView, taiyi_core: Address, address: Address) -> bool {
    &&& tx.to == Some(taiyi_core)
    &&& sponsor_call(tx.input) matches Some((recipients, amounts)) && exists|k: int|
        0 <= k < recipients.len() && k < amounts.len() && #[trigger] recipients[k] == address
}

/// Whether there is an account proof for the `index`-th transaction, which shows that
/// its sender could have paid for it.
pub open spec fn paid(
    transactions: Seq<TransactionView>,
    accounts: Seq<AccountMerkleProof>,
    block: HeaderView,
    state_root: B256,
    index: int,
) -> bool {
    index < accounts.len() && could_pay(transactions[index], accounts[index], block, state_root)
}

/// Whether there is an account proof for the `index`-th transaction, which shows that
/// its sender could not pay for it, while those from `from` up to it could.
pub open spec fn first_unpaid(
    transactions: Seq<TransactionView>,
    accounts: Seq<AccountMerkleProof>,
    block: HeaderView,
    state_root: B256,
    from: int,
    index: int,
) -> bool {
    &&& index < accounts.len()
    &&& could_not_pay(transactions[index], accounts[index], block, state_root)
    &&& forall|j: int|
        from <= j < index ==> #[trigger] paid(transactions, accounts, block, state_root, j)
}

/// The account of a transaction lets the verification go on exactly where the sender
/// could have paid, and ends it as failed exactly where the sender could not.
proof fn account_meaning(
    transactions: Seq<TransactionView>,
    accounts: Seq<AccountMerkleProof>,
    block: HeaderView,
    state_root: B256,
    index: int,
)
    ensures
        account_stop(transactions, accounts, block, state_root, index) is None <==> paid(
            transactions,
            accounts,
            block,
            state_root,
            index,
        ),
        account_stop(transactions, accounts, block, state_root, index) == Some(
            Ok::<VerificationResult, PoiError>(VerificationResult::Failed),
        ) <==> index < accounts.len() && could_not_pay(
            transactions[index],
            accounts[index],
            block,
            state_root,
        ),
{
}

/// The accounts of the transactions from `from` on let the verification go on exactly
/// where all senders could have paid, and end it as failed exactly where one sender
/// could not and those before could. They never end it as successful.
proof fn accounts_meaning(
    transactions: Seq<TransactionView>,
    accounts: Seq<AccountMerkleProof>,
    block: HeaderView,
    state_root: B256,
    from: int,
)
    requires
        0 <= from,
    ensures
        accounts_stop(transactions, accounts, block, state_root, from) is None <==> (forall|i: int|
            from <= i < transactions.len() ==> #[trigger] paid(
                transactions,
                accounts,
                block,
                state_root,
                i,
            )),
        accounts_stop(transactions, accounts, block, state_root, from) == Some(
            Ok::<VerificationResult, PoiError>(VerificationResult::Failed),
        ) <==> (exists|i: int|
            from <= i < transactions.len() && #[trigger] first_unpaid(
                transactions,
                accounts,
                block,
                state_root,
                from,
                i,
            )),
        accounts_stop(transactions, accounts, block, state_root, from) != Some(
            Ok::<VerificationResult, PoiError>(VerificationResult::Success),
        ),
    decreases transactions.len() - from,
{
    if from < transactions.len() {
        account_meaning(transactions, accounts, block, state_root, from);
        accounts_meaning(transactions, accounts, block, state_root, from + 1);
        let here = account_stop(transactions, accounts, block, state_root, from);
        let later = accounts_stop(transactions, accounts, block, state_root, from + 1);
        let paid_here = paid(transactions, accounts, block, state_root, from);
        if here is None {
            assert forall|i: int| from < i implies #[trigger] first_unpaid(
                transactions,
                accounts,
                block,
                state_root,
                from,
                i,
            ) == first_unpaid(transactions, accounts, block, state_root, from + 1, i) by {}
            if later == Some(Ok::<VerificationResult, PoiError>(VerificationResult::Failed)) {
                let i = choose|i: int|
                    from + 1 <= i < transactions.len() && #[trigger] first_unpaid(
                        transactions,
                        accounts,
                        block,
                        state_root,
                        from + 1,
                        i,
                    );
                assert(first_unpaid(transactions, accounts, block, state_root, from, i));
            }
            assert(!first_unpaid(transactions, accounts, block, state_root, from, from));
        } else {
            assert(!paid_here);
            assert forall|i: int| from < i implies !#[trigger] first_unpaid(
                transactions,
                accounts,
                block,
                state_root,
                from,
                i,
            ) by {}
            assert(first_unpaid(transactions, accounts, block, state_root, from, from) == (here
                == Some(Ok::<VerificationResult, PoiError>(VerificationResult::Failed))));
        }
    }
}

/// There is no objection to inclusion proofs exactly where each shows its
/// transaction.
proof fn inclusions_meaning(
    proofs: Seq<TxMerkleProof>,
    transactions_root: B256,
    expected: Seq<B256>,
    from: int,
)
    requires
        0 <= from,
    ensures
        inclusions_objection(proofs, transactions_root, expected, from) is None <==> (forall|
            i: int,
        |
            from <= i < proofs.len() ==> shows(
                #[trigger] proofs[i],
                transactions_root,
                expected[i],
            )),
    decreases proofs.len() - from,
{
    if from < proofs.len() {
        inclusions_meaning(proofs, transactions_root, expected, from + 1);
    }
}

/// An address is among those that a transaction sponsors exactly where the transaction
/// sponsors it.
proof fn sponsors_meaning(tx: TransactionView, taiyi_core: Address, address: Address)
    ensures
        sponsors(tx, taiyi_core, address) <==> {
            &&& sponsored_by(tx, taiyi_core) matches Ok(sponsored)
            &&& sponsored.contains(address)
        },
{
    if let Ok(sponsored) = sponsored_by(tx, taiyi_core) {
        let (recipients, amounts) = sponsor_call(tx.input).unwrap();
        if sponsors(tx, taiyi_core, address) {
            let k = choose|k: int|
                0 <= k < recipients.len() && k < amounts.len() && #[trigger] recipients[k]
                    == address;
            assert(sponsored[k] == address);
        }
        if sponsored.contains(address) {
            let k = choose|k: int| 0 <= k < sponsored.len() && sponsored[k] == address;
            assert(recipients[k] == address);
        }
    }
}

/// Counting tells whether all signers are sponsored: as many of them are sponsored as
/// there are exactly where each of them is.
pub proof fn sponsorship_means_all_sponsored(sponsored: Seq<Address>, signers: Seq<Address>)
    ensures
        sponsorship_objection(sponsored, signers) is None <==> (forall|i: int|
            0 <= i < signers.len() ==> sponsored.contains(#[trigger] signers[i])),
{
    let all = signers.to_set();
    let found = all.intersect(sponsored.to_set());
    vstd::seq_lib::seq_to_set_is_finite(signers);
    vstd::set_lib::lemma_len_intersect(all, sponsored.to_set());
    if sponsorship_objection(sponsored, signers) is None {
        vstd::set_lib::lemma_subset_equality(found, all);
        assert forall|i: int| 0 <= i < signers.len() implies sponsored.contains(
            #[trigger] signers[i],
        ) by {
            assert(all.contains(signers[i]));
            assert(found.contains(signers[i]));
        }
    }
    if forall|i: int| 0 <= i < signers.len() ==> sponsored.contains(#[trigger] signers[i]) {
        assert(found =~= all);
    }
}

/// A request of type A succeeds exactly where what it holds decodes, the underwriter signed
/// it, the block is that of its slot, every sender could have paid, the block holds the
/// anchor transaction and every transaction of the request in the proven places, and the
/// anchor transaction sponsors every sender.
pub proof fn type_a_succeeds_iff(
    request: PreconfTypeA,
    inclusion: HeaderView,
    previous: HeaderView,
    signature: Signature,
    underwriter_address: Address,
    genesis_timestamp: u64,
    taiyi_core: Address,
)
    ensures
        ({
            let encoded = request.transactions@;
            let accounts = request.account_merkle_proof@;
            let proofs = request.tx_merkle_proof@;
            type_a_outcome(
                request,
                inclusion,
                previous,
                signature,
                underwriter_address,
                genesis_timestamp,
                taiyi_core,
            ) == Ok::<VerificationResult, PoiError>(VerificationResult::Success) <==> {
                &&& transactions_in(encoded) matches Some(transactions)
                &&& transaction_in(request.anchor_tx) matches Some(anchor)
                &&& transactions.len() > 0 && transactions[0].chain_id is Some
                &&& terms_hold(
                    request.digest,
                    request.target_slot,
                    inclusion,
                    signature,
                    underwriter_address,
                    genesis_timestamp,
                )
                &&& forall|i: int|
                    0 <= i < transactions.len() ==> #[trigger] paid(
                        transactions,
                        accounts,
                        inclusion,
                        previous.state_root,
                        i,
                    )
                &&& proofs.len() == transactions.len() + 1
                &&& shows(proofs[0], inclusion.transactions_root, request.anchor_tx.hash)
                &&& forall|i: int|
                    0 <= i < transactions.len() ==> shows(
                        proofs[i + 1],
                        inclusion.transactions_root,
                        (#[trigger] encoded[i]).hash,
                    )
                &&& forall|i: int|
                    0 <= i < transactions.len() ==> sponsors(
                        anchor,
                        taiyi_core,
                        signer(#[trigger] transactions[i]).unwrap(),
                    )
            }
        }),
{
    let encoded = request.transactions@;
    if let (Some(transactions), Some(anchor)) = (
        transactions_in(encoded),
        transaction_in(request.anchor_tx),
    ) {
        let accounts = request.account_merkle_proof@;
        let proofs = request.tx_merkle_proof@;
        let expected = hashes(request.anchor_tx, encoded);
        accounts_meaning(transactions, accounts, inclusion, previous.state_root, 0);
        inclusions_meaning(proofs, inclusion.transactions_root, expected, 0);
        let included = {
            &&& shows(proofs[0], inclusion.transactions_root, request.anchor_tx.hash)
            &&& forall|i: int|
                0 <= i < transactions.len() ==> shows(
                    proofs[i + 1],
                    inclusion.transactions_root,
                    (#[trigger] encoded[i]).hash,
                )
        };
        if proofs.len() == transactions.len() + 1 {
            if inclusions_objection(proofs, inclusion.transactions_root, expected, 0) is None {
                assert(shows(proofs[0], inclusion.transactions_root, expected[0]));
                assert forall|i: int| 0 <= i < transactions.len() implies shows(
                    proofs[i + 1],
                    inclusion.transactions_root,
                    (#[trigger] encoded[i]).hash,
                ) by {
                    assert(expected[i + 1] == encoded[i].hash);
                }
            }
            if included {
                assert forall|i: int| 0 <= i < proofs.len() implies shows(
                    #[trigger] proofs[i],
                    inclusion.transactions_root,
                    expected[i],
                ) by {
                    if i > 0 {
                        assert(expected[i] == encoded[i - 1].hash);
                    }
                }
            }
        }
        let all = signers(transactions);
        let all_sponsored = forall|i: int|
            0 <= i < transactions.len() ==> sponsors(
                anchor,
                taiyi_core,
                signer(#[trigger] transactions[i]).unwrap(),
            );
        assert forall|i: int| 0 <= i < transactions.len() implies all[i] == signer(
            #[trigger] transactions[i],
        ).unwrap() by {}
        match sponsored_by(anchor, taiyi_core) {
            Ok(sponsored) => {
                sponsorship_means_all_sponsored(sponsored, all);
                if sponsorship_objection(sponsored, all) is None {
                    assert forall|i: int| 0 <= i < transactions.len() implies sponsors(
                        anchor,
                        taiyi_core,
                        signer(#[trigger] transactions[i]).unwrap(),
                    ) by {
                        assert(sponsored.contains(all[i]));
                        sponsors_meaning(anchor, taiyi_core, all[i]);
                    }
                }
                if all_sponsored {
                    assert forall|i: int| 0 <= i < all.len() implies sponsored.contains(
                        #[trigger] all[i],
                    ) by {
                        assert(sponsors(
                            anchor,
                            taiyi_core,
                            signer(transactions[i]).unwrap(),
                        ));
                        sponsors_meaning(anchor, taiyi_core, all[i]);
                    }
                }
            },
            Err(_) => {
                if transactions.len() > 0 {
                    assert(!sponsors(
                        anchor,
                        taiyi_core,
                        signer(transactions[0]).unwrap(),
                    ));
                }
            },
        }
    }
}

/// A request of type A fails exactly where what it holds decodes, the underwriter signed it,
/// the block is that of its slot, and some sender is shown to have been unable to pay, while
/// those of the transactions before could have paid.
pub proof fn type_a_fails_iff(
    request: PreconfTypeA,
    inclusion: HeaderView,
    previous: HeaderView,
    signature: Signature,
    underwriter_address: Address,
    genesis_timestamp: u64,
    taiyi_core: Address,
)
    ensures
        ({
            type_a_outcome(
                request,
                inclusion,
                previous,
                signature,
                underwriter_address,
                genesis_timestamp,
                taiyi_core,
            ) == Ok::<VerificationResult, PoiError>(VerificationResult::Failed) <==> {
                &&& transactions_in(request.transactions@) matches Some(transactions)
                &&& transaction_in(request.anchor_tx) is Some
                &&& transactions.len() > 0 && transactions[0].chain_id is Some
                &&& terms_hold(
                    request.digest,
                    request.target_slot,
                    inclusion,
                    signature,
                    underwriter_address,
                    genesis_timestamp,
                )
                &&& exists|i: int|
                    0 <= i < transactions.len() && #[trigger] first_unpaid(
                        transactions,
                        request.account_merkle_proof@,
                        inclusion,
                        previous.state_root,
                        0,
                        i,
                    )
            }
        }),
{
    if let Some(transactions) = transactions_in(request.transactions@) {
        accounts_meaning(
            transactions,
            request.account_merkle_proof@,
            inclusion,
            previous.state_root,
            0,
        );
    }
}

/// A request of type B succeeds exactly where what it holds decodes, the underwriter signed
/// it, the block is that of its slot, the sender could have paid, the block holds the
/// transaction and the sponsorship in the proven places, and the sponsorship is one of the
/// sender.
pub proof fn type_b_succeeds_iff(
    request: PreconfTypeB,
    inclusion: HeaderView,
    previous: HeaderView,
    signature: Signature,
    underwriter_address: Address,
    genesis_timestamp: u64,
    taiyi_core: Address,
)
    ensures
        ({
            let proofs = request.tx_merkle_proof@;
            type_b_outcome(
                request,
                inclusion,
                previous,
                signature,
                underwriter_address,
                genesis_timestamp,
                taiyi_core,
            ) == Ok::<VerificationResult, PoiError>(VerificationResult::Success) <==> {
                &&& request.transaction matches Some(encoded)
                &&& transaction_in(encoded) matches Some(tx)
                &&& transaction_in(request.sponsorship_tx) matches Some(sponsorship)
                &&& tx.chain_id is Some
                &&& terms_hold(
                    request.digest,
                    request.target_slot,
                    inclusion,
                    signature,
                    underwriter_address,
                    genesis_timestamp,
                )
                &&& could_pay(tx, request.account_merkle_proof, inclusion, previous.state_root)
                &&& proofs.len() == 2
                &&& shows(proofs[0], inclusion.transactions_root, encoded.hash)
                &&& shows(proofs[1], inclusion.transactions_root, request.sponsorship_tx.hash)
                &&& sponsors(sponsorship, taiyi_core, signer(tx).unwrap())
            }
        }),
{
    if let Some(Some(tx)) = optional_transaction_in(request.transaction) {
        let proofs = request.tx_merkle_proof@;
        let expected = seq![request.transaction.unwrap().hash, request.sponsorship_tx.hash];
        account_meaning(
            seq![tx],
            seq![request.account_merkle_proof],
            inclusion,
            previous.state_root,
            0,
        );
        inclusions_meaning(proofs, inclusion.transactions_root, expected, 0);
        if let Some(sponsorship) = transaction_in(request.sponsorship_tx) {
            sponsors_meaning(sponsorship, taiyi_core, signer(tx).unwrap());
        }
        if proofs.len() == 2 {
            if inclusions_objection(proofs, inclusion.transactions_root, expected, 0) is None {
                assert(shows(proofs[0], inclusion.transactions_root, expected[0]));
                assert(shows(proofs[1], inclusion.transactions_root, expected[1]));
            }
        }
    }
}

/// A request of type B fails exactly where what it holds decodes, the underwriter signed it,
/// the block is that of its slot, and the sender is shown to have been unable to pay.
pub proof fn type_b_fails_iff(
    request: PreconfTypeB,
    inclusion: HeaderView,
    previous: HeaderView,
    signature: Signature,
    underwriter_address: Address,
    genesis_timestamp: u64,
    taiyi_core: Address,
)
    ensures
        type_b_outcome(
            request,
            inclusion,
            previous,
            signature,
            underwriter_address,
            genesis_timestamp,
            taiyi_core,
        ) == Ok::<VerificationResult, PoiError>(VerificationResult::Failed) <==> {
            &&& request.transaction matches Some(encoded)
            &&& transaction_in(encoded) matches Some(tx)
            &&& transaction_in(request.sponsorship_tx) is Some
            &&& tx.chain_id is Some
            &&& terms_hold(
                request.digest,
                request.target_slot,
                inclusion,
                signature,
                underwriter_address,
                genesis_timestamp,
            )
            &&& could_not_pay(tx, request.account_merkle_proof, inclusion, previous.state_root)
        },
{
    if let Some(Some(tx)) = optional_transaction_in(request.transaction) {
        account_meaning(
            seq![tx],
            seq![request.account_merkle_proof],
            inclusion,
            previous.state_root,
            0,
        );
    }
}

/// Whatever a completed verification finds, it rests on a header with the hash of the
/// inclusion block, whose parent is the block with the previous hash and header.
pub proof fn findings_rest_on_linked_headers(
    request: Option<PreconfRequest>,
    signature_text: Seq<char>,
    inclusion_json: Seq<char>,
    inclusion_hash: B256,
    previous_json: Seq<char>,
    previous_hash: B256,
    underwriter_address: Address,
    genesis_timestamp: u64,
    taiyi_core: Address,
)
    ensures
        poi_outcome(
            request,
            signature_text,
            inclusion_json,
            inclusion_hash,
            previous_json,
            previous_hash,
            underwriter_address,
            genesis_timestamp,
            taiyi_core,
        ) is Ok ==> {
            &&& parsed_header(inclusion_json) matches Some(inclusion)
            &&& parsed_header(previous_json) matches Some(previous)
            &&& header_hash(inclusion) == inclusion_hash
            &&& header_hash(previous) == previous_hash
            &&& inclusion.parent_hash == header_hash(previous)
        },
{
}

/// What the underwriter signed.
pub open spec fn digest(request: PreconfRequest) -> B256 {
    match request {
        PreconfRequest::TypeA(request) => request.digest,
        PreconfRequest::TypeB(request) => request.digest,
    }
}

/// The slot that a request is for.
pub open spec fn target_slot(request: PreconfRequest) -> u64 {
    match request {
        PreconfRequest::TypeA(request) => request.target_slot,
        PreconfRequest::TypeB(request) => request.target_slot,
    }
}

/// Public values are committed exactly where the verification can be completed, with what
/// it finds. The committed hash is then that of the header with the committed timestamp and
/// number, whose slot, counted from the committed genesis, is that of the request, and the
/// committed signature is that of the committed underwriter on the request.
pub proof fn committed_values_are_verified(
    request: Option<PreconfRequest>,
    signature_text: Seq<char>,
    inclusion_json: Seq<char>,
    inclusion_hash: B256,
    previous_json: Seq<char>,
    previous_hash: B256,
    underwriter_address: Address,
    genesis_timestamp: u64,
    taiyi_core: Address,
)
    ensures
        ({
            let committed = commitment_outcome(
                request,
                signature_text,
                inclusion_json,
                inclusion_hash,
                previous_json,
                previous_hash,
                underwriter_address,
                genesis_timestamp,
                taiyi_core,
            );
            let found = poi_outcome(
                request,
                signature_text,
                inclusion_json,
                inclusion_hash,
                previous_json,
                previous_hash,
                underwriter_address,
                genesis_timestamp,
                taiyi_core,
            );
            &&& committed is Ok <==> found is Ok
            &&& committed is Ok ==> {
                &&& committed == found
                &&& parsed_header(inclusion_json) matches Some(inclusion)
                &&& header_hash(inclusion) == inclusion_hash
                &&& signature_in(signature_text) matches Some(signature)
                &&& request matches Some(request)
                &&& terms_hold(
                    digest(request),
                    target_slot(request),
                    inclusion,
                    signature,
                    underwriter_address,
                    genesis_timestamp,
                )
            }
        }),
{
    if let Some(PreconfRequest::TypeA(request)) = request {
        if let (Some(inclusion), Some(previous), Some(signature)) = (
            parsed_header(inclusion_json),
            parsed_header(previous_json),
            signature_in(signature_text),
        ) {
            type_a_succeeds_iff(
                request,
                inclusion,
                previous,
                signature,
                underwriter_address,
                genesis_timestamp,
                taiyi_core,
            );
            type_a_fails_iff(
                request,
                inclusion,
                previous,
                signature,
                underwriter_address,
                genesis_timestamp,
                taiyi_core,
            );
        }
    }
}

/// The committed bytes tell the public values: no two differ and are encoded alike, up to
/// the length of a byte string.
pub proof fn public_values_injective(
    timestamp: u64,
    block_hash: B256,
    number: u64,
    underwriter_address: Address,
    signature: Seq<u8>,
    genesis_timestamp: u64,
    taiyi_core: Address,
    timestamp2: u64,
    block_hash2: B256,
    number2: u64,
    underwriter_address2: Address,
    signature2: Seq<u8>,
    genesis_timestamp2: u64,
    taiyi_core2: Address,
)
    requires
        signature.len() <= u64::MAX,
        signature2.len() <= u64::MAX,
        public_values_layout(
            timestamp,
            block_hash,
            number,
            underwriter_address,
            signature,
            genesis_timestamp,
            taiyi_core,
        ) == public_values_layout(
            timestamp2,
            block_hash2,
            number2,
            underwriter_address2,
            signature2,
            genesis_timestamp2,
            taiyi_core2,
        ),
    ensures
        timestamp == timestamp2,
        block_hash == block_hash2,
        number == number2,
        underwriter_address == underwriter_address2,
        signature == signature2,
        genesis_timestamp == genesis_timestamp2,
        taiyi_core == taiyi_core2,
{
    public_values_parts(
        timestamp,
        block_hash,
        number,
        underwriter_address,
        signature,
        genesis_timestamp,
        taiyi_core,
    );
    public_values_parts(
        timestamp2,
        block_hash2,
        number2,
        underwriter_address2,
        signature2,
        genesis_timestamp2,
        taiyi_core2,
    );
    assert(block_hash =~= block_hash2);
    assert(underwriter_address =~= underwriter_address2) by {
        assert(underwriter_address@ == underwriter_address2@);
    }
    assert(taiyi_core =~= taiyi_core2) by {
        assert(taiyi_core@ == taiyi_core2@);
    }
}

/// Where the parts of the encoded public values lie.
proof fn public_values_parts(
    timestamp: u64,
    block_hash: B256,
    number: u64,
    underwriter_address: Address,
    signature: Seq<u8>,
    genesis_timestamp: u64,
    taiyi_core: Address,
)
    requires
        signature.len() <= u64::MAX,
    ensures
        ({
            let data = public_values_layout(
                timestamp,
                block_hash,
                number,
                underwriter_address,
                signature,
                genesis_timestamp,
                taiyi_core,
            );
            &&& be_value(data.subrange(0, 32)) == timestamp
            &&& data.subrange(32, 64) == block_hash@
            &&& be_value(data.subrange(64, 96)) == number
            &&& data.subrange(108, 128) == underwriter_address@
            &&& be_value(data.subrange(160, 192)) == genesis_timestamp
            &&& data.subrange(204, 224) == taiyi_core@
            &&& be_value(data.subrange(224, 256)) == signature.len()
            &&& data.subrange(256, (256 + signature.len()) as int) == signature
        }),
{
    let data = public_values_layout(
        timestamp,
        block_hash,
        number,
        underwriter_address,
        signature,
        genesis_timestamp,
        taiyi_core,
    );
    word_of_u64(timestamp);
    word_of_u64(number);
    word_of_u64(224);
    word_of_u64(genesis_timestamp);
    word_of_u64(signature.len() as u64);
    assert(data.subrange(0, 32) =~= word(timestamp as nat));
    assert(data.subrange(32, 64) =~= block_hash@);
    assert(data.subrange(64, 96) =~= word(number as nat));
    assert(data.subrange(108, 128) =~= underwriter_address@);
    assert(data.subrange(160, 192) =~= word(genesis_timestamp as nat));
    assert(data.subrange(204, 224) =~= taiyi_core@);
    assert(data.subrange(224, 256) =~= word(signature.len()));
    assert(data.subrange(256, (256 + signature.len()) as int) =~= signature);
}

/// The bytes of a signature tell the signature.
pub proof fn signature_bytes_injective(one: Signature, other: Signature)
    requires
        signature_bytes(one) == signature_bytes(other),
    ensures
        one == other,
{
    let bytes = signature_bytes(one);
    assert(one.r@ =~= bytes.subrange(0, 32));
    assert(other.r@ =~= bytes.subrange(0, 32));
    assert(one.s@ =~= bytes.subrange(32, 64));
    assert(other.s@ =~= bytes.subrange(32, 64));
    assert(one.r =~= other.r);
    assert(one.s =~= other.s);
    assert(one.y_parity == (bytes[64] == 28));
    assert(other.y_parity == (bytes[64] == 28));
}

/// The bytes that a verification commits tell the block, the underwriter, the signature,
/// the genesis and the core contract.
pub proof fn commitment_injective(
    inclusion: HeaderView,
    inclusion_hash: B256,
    underwriter_address: Address,
    signature: Signature,
    genesis_timestamp: u64,
    taiyi_core: Address,
    inclusion2: HeaderView,
    inclusion_hash2: B256,
    underwriter_address2: Address,
    signature2: Signature,
    genesis_timestamp2: u64,
    taiyi_core2: Address,
)
    requires
        commitment(
            inclusion,
            inclusion_hash,
            underwriter_address,
            signature,
            genesis_timestamp,
            taiyi_core,
        ) == commitment(
            inclusion2,
            inclusion_hash2,
            underwriter_address2,
            signature2,
            genesis_timestamp2,
            taiyi_core2,
        ),
    ensures
        inclusion.timestamp == inclusion2.timestamp,
        inclusion_hash == inclusion_hash2,
        inclusion.number == inclusion2.number,
        underwriter_address == underwriter_address2,
        signature == signature2,
        genesis_timestamp == genesis_timestamp2,
        taiyi_core == taiyi_core2,
{
    public_values_injective(
        inclusion.timestamp,
        inclusion_hash,
        inclusion.number,
        underwriter_address,
        signature_bytes(signature),
        genesis_timestamp,
        taiyi_core,
        inclusion2.timestamp,
        inclusion_hash2,
        inclusion2.number,
        underwriter_address2,
        signature_bytes(signature2),
        genesis_timestamp2,
        taiyi_core2,
    );
    signature_bytes_injective(signature, signature2);
}

/// The hex form of the bytes of a signature is read as that signature.
pub proof fn signature_reads_back(text: Seq<char>, signature: Signature)
    requires
        ({
            let digits = without_hex_prefix(text);
            &&& digits.len() == 130
            &&& forall|i: int| 0 <= i < 130 ==> (#[trigger] hex_digit(digits[i])) is Some
            &&& forall|i: int|
                0 <= i < 65 ==> hex_byte(digits, i) == #[trigger] signature_bytes(signature)[i]
        }),
    ensures
        signature_in(text) == Some(signature),
{
    let digits = without_hex_prefix(text);
    let bytes = signature_bytes(signature);
    assert forall|i: int| 0 <= i < 32 implies (#[trigger] signature.r[i]) == hex_byte(
        digits,
        i,
    ) by {
        assert(bytes[i] == signature.r[i]);
    }
    assert forall|i: int| 0 <= i < 32 implies (#[trigger] signature.s[i]) == hex_byte(
        digits,
        32 + i,
    ) by {
        assert(bytes[32 + i] == signature.s[i]);
    }
    assert(bytes[64] == if signature.y_parity {
        28u8
    } else {
        27u8
    });
    assert(signature_text(text, signature));
    signature_text_unique(text, signature, signature_in(text).unwrap());
}

} // verus!
