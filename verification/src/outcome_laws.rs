//! What the whole verification answers, from the request and the headers to the outcome.

use vstd::prelude::*;

use crate::accounts::{account_stop, accounts_stop, signer, signers};
use crate::ethereum::{
    decoded_tx, header_hash, parsed_header, recovered_address, signature_text,
};
use crate::inclusion::{hashes, inclusions_objection};
use crate::laws::{
    could_not_pay, could_pay, first_unpaid, paid, shows, sponsors, terms_hold, type_a_fails_iff,
    type_a_succeeds_iff, type_b_fails_iff, type_b_succeeds_iff,
};
use crate::signing::signature_in;
use crate::slot::slot_objection;
use crate::sponsorship::{sponsored_by, sponsorship_objection};
use crate::step_laws::{signature_answers, transactions_are_decoded};
use crate::transactions::{transaction_in, transactions_in};
use crate::types::{
    Address, EncodedTx, HeaderView, PoiError, PreconfRequest, PreconfTypeA, PreconfTypeB,
    Signature, TransactionView, VerificationResult, B256,
};
use crate::verification::{
    poi_outcome, type_a_outcome, type_a_outcome_given, type_b_outcome, type_b_outcome_given,
};

verus! {

/// Whether the promise was kept to the `index`-th transaction of a request of type A: its
/// sender could have paid for it, the block holds it, and the anchor transaction sponsors
/// the sender.
pub open spec fn kept_to(
    request: PreconfTypeA,
    inclusion: HeaderView,
    previous: HeaderView,
    taiyi_core: Address,
    index: int,
) -> bool {
    let account = request.account_merkle_proof@[index];
    &&& decoded_tx(request.transactions@[index].bytes@) matches Some(tx)
    &&& decoded_tx(request.anchor_tx.bytes@) matches Some(anchor)
    &&& index < request.account_merkle_proof@.len()
    &&& could_pay(tx, account, inclusion, previous.state_root)
    &&& shows(
        request.tx_merkle_proof@[index + 1],
        inclusion.transactions_root,
        request.transactions@[index].hash,
    )
    &&& sponsors(anchor, taiyi_core, account.address)
}

/// Whether the promise of a request of type A was kept: the underwriter signed it for the
/// chain of its first transaction, the block is that of its slot, there is one inclusion
/// proof for each transaction and one for the anchor transaction, the block holds the anchor
/// transaction, and the promise was kept to every transaction.
pub open spec fn kept_a(
    request: PreconfTypeA,
    inclusion: HeaderView,
    previous: HeaderView,
    signature: Signature,
    underwriter_address: Address,
    genesis_timestamp: u64,
    taiyi_core: Address,
) -> bool {
    &&& request.transactions@.len() > 0
    &&& decoded_tx(request.transactions@[0].bytes@).unwrap().chain_id is Some
    &&& terms_hold(
        request.digest,
        request.target_slot,
        inclusion,
        signature,
        underwriter_address,
        genesis_timestamp,
    )
    &&& request.tx_merkle_proof@.len() == request.transactions@.len() + 1
    &&& shows(
        request.tx_merkle_proof@[0],
        inclusion.transactions_root,
        request.anchor_tx.hash,
    )
    &&& forall|i: int|
        0 <= i < request.transactions@.len() ==> #[trigger] kept_to(
            request,
            inclusion,
            previous,
            taiyi_core,
            i,
        )
}

/// Whether the `index`-th transaction of a request of type A excuses the underwriter: its
/// sender could not pay for it, while those of the transactions before it could.
pub open spec fn excused_at(
    request: PreconfTypeA,
    inclusion: HeaderView,
    previous: HeaderView,
    index: int,
) -> bool {
    let accounts = request.account_merkle_proof@;
    &&& index < accounts.len()
    &&& could_not_pay(
        decoded_tx(request.transactions@[index].bytes@).unwrap(),
        accounts[index],
        inclusion,
        previous.state_root,
    )
    &&& forall|j: int|
        0 <= j < index ==> could_pay(
            decoded_tx((#[trigger] request.transactions@[j]).bytes@).unwrap(),
            accounts[j],
            inclusion,
            previous.state_root,
        )
}

/// Whether the underwriter of a request of type A is excused: the request holds
/// transactions, the underwriter signed it for the chain of its first transaction, the block
/// is that of its slot, and some transaction excuses the underwriter.
pub open spec fn excused_a(
    request: PreconfTypeA,
    inclusion: HeaderView,
    previous: HeaderView,
    signature: Signature,
    underwriter_address: Address,
    genesis_timestamp: u64,
) -> bool {
    &&& decoded_tx(request.anchor_tx.bytes@) is Some
    &&& forall|i: int|
        0 <= i < request.transactions@.len() ==> decoded_tx(
            (#[trigger] request.transactions@[i]).bytes@,
        ) is Some
    &&& request.transactions@.len() > 0
    &&& decoded_tx(request.transactions@[0].bytes@).unwrap().chain_id is Some
    &&& terms_hold(
        request.digest,
        request.target_slot,
        inclusion,
        signature,
        underwriter_address,
        genesis_timestamp,
    )
    &&& exists|i: int|
        0 <= i < request.transactions@.len() && #[trigger] excused_at(
            request,
            inclusion,
            previous,
            i,
        )
}

/// Whether the promise of a request of type B was kept: the underwriter signed it for the
/// chain of its transaction, the block is that of its slot, the sender could have paid, and
/// the block holds the transaction and a sponsorship of the sender.
pub open spec fn kept_b(
    request: PreconfTypeB,
    inclusion: HeaderView,
    previous: HeaderView,
    signature: Signature,
    underwriter_address: Address,
    genesis_timestamp: u64,
    taiyi_core: Address,
) -> bool {
    let proofs = request.tx_merkle_proof@;
    let account = request.account_merkle_proof;
    &&& request.transaction matches Some(encoded)
    &&& decoded_tx(encoded.bytes@) matches Some(tx)
    &&& decoded_tx(request.sponsorship_tx.bytes@) matches Some(sponsorship)
    &&& tx.chain_id is Some
    &&& terms_hold(
        request.digest,
        request.target_slot,
        inclusion,
        signature,
        underwriter_address,
        genesis_timestamp,
    )
    &&& could_pay(tx, account, inclusion, previous.state_root)
    &&& proofs.len() == 2
    &&& shows(proofs[0], inclusion.transactions_root, encoded.hash)
    &&& shows(proofs[1], inclusion.transactions_root, request.sponsorship_tx.hash)
    &&& sponsors(sponsorship, taiyi_core, account.address)
}

/// Whether the underwriter of a request of type B is excused: the request holds
/// transactions, the underwriter signed it for the chain of its transaction, the block is
/// that of its slot, and the sender could not pay.
pub open spec fn excused_b(
    request: PreconfTypeB,
    inclusion: HeaderView,
    previous: HeaderView,
    signature: Signature,
    underwriter_address: Address,
    genesis_timestamp: u64,
) -> bool {
    &&& request.transaction matches Some(encoded)
    &&& decoded_tx(encoded.bytes@) matches Some(tx)
    &&& decoded_tx(request.sponsorship_tx.bytes@) is Some
    &&& tx.chain_id is Some
    &&& terms_hold(
        request.digest,
        request.target_slot,
        inclusion,
        signature,
        underwriter_address,
        genesis_timestamp,
    )
    &&& could_not_pay(tx, request.account_merkle_proof, inclusion, previous.state_root)
}

/// Whether both texts are headers with the given hashes, the first a child of the second,
/// and the third is the hex form of a signature.
pub open spec fn inputs_hold(
    text: Seq<char>,
    inclusion_json: Seq<char>,
    inclusion_hash: B256,
    previous_json: Seq<char>,
    previous_hash: B256,
    inclusion: HeaderView,
    previous: HeaderView,
    signature: Signature,
) -> bool {
    &&& parsed_header(inclusion_json) == Some(inclusion)
    &&& parsed_header(previous_json) == Some(previous)
    &&& header_hash(inclusion) == inclusion_hash
    &&& header_hash(previous) == previous_hash
    &&& inclusion.parent_hash == previous_hash
    &&& signature_text(text, signature)
}

/// What was kept and what is excused for a request of type A are told apart by its outcome.
proof fn type_a_meaning(
    request: PreconfTypeA,
    inclusion: HeaderView,
    previous: HeaderView,
    signature: Signature,
    underwriter_address: Address,
    genesis_timestamp: u64,
    taiyi_core: Address,
)
    ensures
        ({
            let outcome = type_a_outcome(
                request,
                inclusion,
                previous,
                signature,
                underwriter_address,
                genesis_timestamp,
                taiyi_core,
            );
            &&& outcome == Ok::<VerificationResult, PoiError>(VerificationResult::Success)
                <==> kept_a(
                request,
                inclusion,
                previous,
                signature,
                underwriter_address,
                genesis_timestamp,
                taiyi_core,
            )
            &&& outcome == Ok::<VerificationResult, PoiError>(VerificationResult::Failed)
                <==> excused_a(
                request,
                inclusion,
                previous,
                signature,
                underwriter_address,
                genesis_timestamp,
            )
        }),
{
    let encoded = request.transactions@;
    let accounts = request.account_merkle_proof@;
    let root = previous.state_root;
    type_a_succeeds_iff(
        request,
        inclusion,
        previous,
        signature,
        underwriter_address,
        genesis_timestamp,
        taiyi_core,
    );
    type_a_fails_iff(
        request,
        inclusion,
        previous,
        signature,
        underwriter_address,
        genesis_timestamp,
        taiyi_core,
    );
    transactions_are_decoded(request.anchor_tx, encoded, None);
    let kept = kept_a(
        request,
        inclusion,
        previous,
        signature,
        underwriter_address,
        genesis_timestamp,
        taiyi_core,
    );
    if kept {
        assert forall|i: int| 0 <= i < encoded.len() implies decoded_tx(
            (#[trigger] encoded[i]).bytes@,
        ) is Some by {
            assert(kept_to(request, inclusion, previous, taiyi_core, i));
        }
        assert(kept_to(request, inclusion, previous, taiyi_core, 0));
    }
    if let (Some(transactions), Some(anchor)) = (
        transactions_in(encoded),
        transaction_in(request.anchor_tx),
    ) {
        assert forall|i: int| 0 <= i < encoded.len() implies #[trigger] transactions[i]
            == decoded_tx(encoded[i].bytes@).unwrap() by {}
        if kept {
            assert forall|i: int| 0 <= i < transactions.len() implies #[trigger] paid(
                transactions,
                accounts,
                inclusion,
                root,
                i,
            ) by {
                assert(kept_to(request, inclusion, previous, taiyi_core, i));
            }
            assert forall|i: int| 0 <= i < transactions.len() implies shows(
                request.tx_merkle_proof@[i + 1],
                inclusion.transactions_root,
                (#[trigger] encoded[i]).hash,
            ) by {
                assert(kept_to(request, inclusion, previous, taiyi_core, i));
            }
            assert forall|i: int| 0 <= i < transactions.len() implies sponsors(
                anchor,
                taiyi_core,
                signer(#[trigger] transactions[i]).unwrap(),
            ) by {
                assert(kept_to(request, inclusion, previous, taiyi_core, i));
            }
        }
        if type_a_outcome(
            request,
            inclusion,
            previous,
            signature,
            underwriter_address,
            genesis_timestamp,
            taiyi_core,
        ) == Ok::<VerificationResult, PoiError>(VerificationResult::Success) {
            assert(transactions[0].chain_id is Some);
            assert forall|i: int| 0 <= i < encoded.len() implies #[trigger] kept_to(
                request,
                inclusion,
                previous,
                taiyi_core,
                i,
            ) by {
                assert(paid(transactions, accounts, inclusion, root, i));
                assert(encoded[i].hash == request.transactions@[i].hash);
                assert(signer(transactions[i]).unwrap() == accounts[i].address);
            }
        }
        assert forall|i: int| 0 <= i < encoded.len() implies #[trigger] excused_at(
            request,
            inclusion,
            previous,
            i,
        ) == first_unpaid(transactions, accounts, inclusion, root, 0, i) by {
            if excused_at(request, inclusion, previous, i) {
                assert forall|j: int| 0 <= j < i implies #[trigger] paid(
                    transactions,
                    accounts,
                    inclusion,
                    root,
                    j,
                ) by {
                    assert(request.transactions@[j] == encoded[j]);
                }
            }
            if first_unpaid(transactions, accounts, inclusion, root, 0, i) {
                assert forall|j: int| 0 <= j < i implies could_pay(
                    decoded_tx((#[trigger] request.transactions@[j]).bytes@).unwrap(),
                    accounts[j],
                    inclusion,
                    root,
                ) by {
                    assert(paid(transactions, accounts, inclusion, root, j));
                }
            }
        }
        if exists|i: int|
            0 <= i < encoded.len() && #[trigger] excused_at(request, inclusion, previous, i) {
            let i = choose|i: int|
                0 <= i < encoded.len() && #[trigger] excused_at(request, inclusion, previous, i);
            assert(first_unpaid(transactions, accounts, inclusion, root, 0, i));
        }
        if exists|i: int|
            0 <= i < encoded.len() && #[trigger] first_unpaid(
                transactions,
                accounts,
                inclusion,
                root,
                0,
                i,
            ) {
            let i = choose|i: int|
                0 <= i < encoded.len() && #[trigger] first_unpaid(
                    transactions,
                    accounts,
                    inclusion,
                    root,
                    0,
                    i,
                );
            assert(excused_at(request, inclusion, previous, i));
        }
        if encoded.len() > 0 {
            assert(transactions[0] == decoded_tx(encoded[0].bytes@).unwrap());
        }
    }
}

/// The verification succeeds exactly where the headers are linked, the signature can be read
/// and the promise of the request was kept.
pub proof fn poi_succeeds_iff(
    request: Option<PreconfRequest>,
    text: Seq<char>,
    inclusion_json: Seq<char>,
    inclusion_hash: B256,
    previous_json: Seq<char>,
    previous_hash: B256,
    underwriter_address: Address,
    genesis_timestamp: u64,
    taiyi_core: Address,
    inclusion: HeaderView,
    previous: HeaderView,
    signature: Signature,
)
    ensures
        ({
            let succeeds = poi_outcome(
                request,
                text,
                inclusion_json,
                inclusion_hash,
                previous_json,
                previous_hash,
                underwriter_address,
                genesis_timestamp,
                taiyi_core,
            ) == Ok::<VerificationResult, PoiError>(VerificationResult::Success);
            let kept = match request {
                None => false,
                Some(PreconfRequest::TypeA(request)) => kept_a(
                    request,
                    inclusion,
                    previous,
                    signature,
                    underwriter_address,
                    genesis_timestamp,
                    taiyi_core,
                ),
                Some(PreconfRequest::TypeB(request)) => kept_b(
                    request,
                    inclusion,
                    previous,
                    signature,
                    underwriter_address,
                    genesis_timestamp,
                    taiyi_core,
                ),
            };
            &&& inputs_hold(
                text,
                inclusion_json,
                inclusion_hash,
                previous_json,
                previous_hash,
                inclusion,
                previous,
                signature,
            ) ==> (succeeds <==> kept)
            &&& succeeds ==> exists|inclusion: HeaderView, previous: HeaderView,
                signature: Signature|
                inputs_hold(
                    text,
                    inclusion_json,
                    inclusion_hash,
                    previous_json,
                    previous_hash,
                    inclusion,
                    previous,
                    signature,
                )
        }),
{
    poi_meaning(
        request,
        text,
        inclusion_json,
        inclusion_hash,
        previous_json,
        previous_hash,
        underwriter_address,
        genesis_timestamp,
        taiyi_core,
        inclusion,
        previous,
        signature,
    );
}

/// The verification fails, as a valid outcome, exactly where the headers are linked, the
/// signature can be read and the underwriter of the request is excused.
pub proof fn poi_fails_iff(
    request: Option<PreconfRequest>,
    text: Seq<char>,
    inclusion_json: Seq<char>,
    inclusion_hash: B256,
    previous_json: Seq<char>,
    previous_hash: B256,
    underwriter_address: Address,
    genesis_timestamp: u64,
    taiyi_core: Address,
    inclusion: HeaderView,
    previous: HeaderView,
    signature: Signature,
)
    ensures
        ({
            let fails = poi_outcome(
                request,
                text,
                inclusion_json,
                inclusion_hash,
                previous_json,
                previous_hash,
                underwriter_address,
                genesis_timestamp,
                taiyi_core,
            ) == Ok::<VerificationResult, PoiError>(VerificationResult::Failed);
            let excused = match request {
                None => false,
                Some(PreconfRequest::TypeA(request)) => excused_a(
                    request,
                    inclusion,
                    previous,
                    signature,
                    underwriter_address,
                    genesis_timestamp,
                ),
                Some(PreconfRequest::TypeB(request)) => excused_b(
                    request,
                    inclusion,
                    previous,
                    signature,
                    underwriter_address,
                    genesis_timestamp,
                ),
            };
            &&& inputs_hold(
                text,
                inclusion_json,
                inclusion_hash,
                previous_json,
                previous_hash,
                inclusion,
                previous,
                signature,
            ) ==> (fails <==> excused)
            &&& fails ==> exists|inclusion: HeaderView, previous: HeaderView, signature: Signature|
                inputs_hold(
                    text,
                    inclusion_json,
                    inclusion_hash,
                    previous_json,
                    previous_hash,
                    inclusion,
                    previous,
                    signature,
                )
        }),
{
    poi_meaning(
        request,
        text,
        inclusion_json,
        inclusion_hash,
        previous_json,
        previous_hash,
        underwriter_address,
        genesis_timestamp,
        taiyi_core,
        inclusion,
        previous,
        signature,
    );
}

/// What a completed verification finds, and that it rests on inputs that hold.
proof fn poi_meaning(
    request: Option<PreconfRequest>,
    text: Seq<char>,
    inclusion_json: Seq<char>,
    inclusion_hash: B256,
    previous_json: Seq<char>,
    previous_hash: B256,
    underwriter_address: Address,
    genesis_timestamp: u64,
    taiyi_core: Address,
    inclusion: HeaderView,
    previous: HeaderView,
    signature: Signature,
)
    ensures
        ({
            let outcome = poi_outcome(
                request,
                text,
                inclusion_json,
                inclusion_hash,
                previous_json,
                previous_hash,
                underwriter_address,
                genesis_timestamp,
                taiyi_core,
            );
            let holds = inputs_hold(
                text,
                inclusion_json,
                inclusion_hash,
                previous_json,
                previous_hash,
                inclusion,
                previous,
                signature,
            );
            let success = Ok::<VerificationResult, PoiError>(VerificationResult::Success);
            let failed = Ok::<VerificationResult, PoiError>(VerificationResult::Failed);
            &&& request is None ==> outcome is Err
            &&& holds ==> match request {
                None => true,
                Some(PreconfRequest::TypeA(request)) => {
                    &&& outcome == success <==> kept_a(
                        request,
                        inclusion,
                        previous,
                        signature,
                        underwriter_address,
                        genesis_timestamp,
                        taiyi_core,
                    )
                    &&& outcome == failed <==> excused_a(
                        request,
                        inclusion,
                        previous,
                        signature,
                        underwriter_address,
                        genesis_timestamp,
                    )
                },
                Some(PreconfRequest::TypeB(request)) => {
                    &&& outcome == success <==> kept_b(
                        request,
                        inclusion,
                        previous,
                        signature,
                        underwriter_address,
                        genesis_timestamp,
                        taiyi_core,
                    )
                    &&& outcome == failed <==> excused_b(
                        request,
                        inclusion,
                        previous,
                        signature,
                        underwriter_address,
                        genesis_timestamp,
                    )
                },
            }
            &&& outcome is Ok ==> exists|inclusion: HeaderView, previous: HeaderView,
                signature: Signature|
                inputs_hold(
                    text,
                    inclusion_json,
                    inclusion_hash,
                    previous_json,
                    previous_hash,
                    inclusion,
                    previous,
                    signature,
                )
        }),
{
    signature_answers(text, signature);
    if let Some(read) = signature_in(text) {
        signature_answers(text, read);
    }
    match request {
        None => {},
        Some(PreconfRequest::TypeA(request)) => {
            type_a_meaning(
                request,
                inclusion,
                previous,
                signature,
                underwriter_address,
                genesis_timestamp,
                taiyi_core,
            );
        },
        Some(PreconfRequest::TypeB(request)) => {
            type_b_succeeds_iff(
                request,
                inclusion,
                previous,
                signature,
                underwriter_address,
                genesis_timestamp,
                taiyi_core,
            );
            type_b_fails_iff(
                request,
                inclusion,
                previous,
                signature,
                underwriter_address,
                genesis_timestamp,
                taiyi_core,
            );
        },
    }
    if poi_outcome(
        request,
        text,
        inclusion_json,
        inclusion_hash,
        previous_json,
        previous_hash,
        underwriter_address,
        genesis_timestamp,
        taiyi_core,
    ) is Ok {
        assert(inputs_hold(
            text,
            inclusion_json,
            inclusion_hash,
            previous_json,
            previous_hash,
            parsed_header(inclusion_json).unwrap(),
            parsed_header(previous_json).unwrap(),
            signature_in(text).unwrap(),
        ));
    }
}

/// The outcome for a request of type A with decoded transactions is that of the first step
/// that ends it: the chain, the terms, the accounts, the number of inclusion proofs, the
/// proofs themselves, the anchor transaction, and the count of the sponsored senders.
pub proof fn type_a_steps_in_order(
    request: PreconfTypeA,
    transactions: Seq<TransactionView>,
    anchor: TransactionView,
    inclusion: HeaderView,
    previous: HeaderView,
    signature: Signature,
    underwriter_address: Address,
    genesis_timestamp: u64,
    taiyi_core: Address,
)
    ensures
        ({
            let outcome = type_a_outcome_given(
                request,
                transactions,
                anchor,
                inclusion,
                previous,
                signature,
                underwriter_address,
                genesis_timestamp,
                taiyi_core,
            );
            let proofs = request.tx_merkle_proof@;
            let recovered = recovered_address(signature, request.digest);
            let slot = slot_objection(inclusion.timestamp, genesis_timestamp, request.target_slot);
            let stop = accounts_stop(
                transactions,
                request.account_merkle_proof@,
                inclusion,
                previous.state_root,
                0,
            );
            let missing = inclusions_objection(
                proofs,
                inclusion.transactions_root,
                seq![request.anchor_tx.hash] + request.transactions@.map_values(
                    |tx: EncodedTx| tx.hash,
                ),
                0,
            );
            let sponsored = sponsored_by(anchor, taiyi_core);
            let senders = transactions.map_values(
                |tx: TransactionView|
                    recovered_address(tx.signature, tx.signature_hash).unwrap(),
            );
            let chained = transactions.len() > 0 && transactions[0].chain_id is Some;
            let agreed = chained && recovered == Some(underwriter_address) && slot is None;
            let payable = agreed && stop is None;
            let counted = payable && proofs.len() == request.transactions@.len() + 1;
            let included = counted && missing is None;
            &&& transactions.len() == 0 ==> outcome == Err::<VerificationResult, PoiError>(
                PoiError::NoTransactions,
            )
            &&& transactions.len() > 0 && transactions[0].chain_id is None ==> outcome == Err::<
                VerificationResult,
                PoiError,
            >(PoiError::MissingChainId)
            &&& chained && recovered is None ==> outcome == Err::<VerificationResult, PoiError>(
                PoiError::UnrecoverableUnderwriter,
            )
            &&& chained && recovered is Some && recovered.unwrap() != underwriter_address
                ==> outcome == Err::<VerificationResult, PoiError>(
                PoiError::UnderwriterMismatch {
                    expected: underwriter_address,
                    recovered: recovered.unwrap(),
                },
            )
            &&& chained && recovered == Some(underwriter_address) && slot is Some ==> outcome
                == Err::<VerificationResult, PoiError>(slot.unwrap())
            &&& agreed && stop is Some ==> outcome == stop.unwrap()
            &&& payable && proofs.len() != request.transactions@.len() + 1 ==> outcome == Err::<
                VerificationResult,
                PoiError,
            >(
                PoiError::ProofCount {
                    transactions: request.transactions@.len() as usize,
                    proofs: proofs.len() as usize,
                },
            )
            &&& counted && missing is Some ==> outcome == Err::<VerificationResult, PoiError>(
                missing.unwrap(),
            )
            &&& included && sponsored is Err ==> outcome == Err::<VerificationResult, PoiError>(
                sponsored->Err_0,
            )
            &&& included && sponsored is Ok ==> outcome == match sponsorship_objection(
                sponsored->Ok_0,
                senders,
            ) {
                Some(error) => Err::<VerificationResult, PoiError>(error),
                None => Ok::<VerificationResult, PoiError>(VerificationResult::Success),
            }
        }),
{
    assert(transactions.map_values(
        |tx: TransactionView| recovered_address(tx.signature, tx.signature_hash).unwrap(),
    ) =~= signers(transactions));
    assert(seq![request.anchor_tx.hash] + request.transactions@.map_values(
        |tx: EncodedTx| tx.hash,
    ) =~= hashes(request.anchor_tx, request.transactions@));
}

/// The outcome for a request of type B with decoded transactions is that of the first step
/// that ends it: the transaction, its chain, the terms, the account, the number of inclusion
/// proofs, the proofs themselves, the sponsoring transaction, and whether it sponsors the
/// sender.
pub proof fn type_b_steps_in_order(
    request: PreconfTypeB,
    tx: TransactionView,
    sponsorship: TransactionView,
    inclusion: HeaderView,
    previous: HeaderView,
    signature: Signature,
    underwriter_address: Address,
    genesis_timestamp: u64,
    taiyi_core: Address,
)
    ensures
        ({
            let outcome = type_b_outcome_given(
                request,
                Some(tx),
                sponsorship,
                inclusion,
                previous,
                signature,
                underwriter_address,
                genesis_timestamp,
                taiyi_core,
            );
            let proofs = request.tx_merkle_proof@;
            let recovered = recovered_address(signature, request.digest);
            let slot = slot_objection(inclusion.timestamp, genesis_timestamp, request.target_slot);
            let stop = account_stop(
                seq![tx],
                seq![request.account_merkle_proof],
                inclusion,
                previous.state_root,
                0,
            );
            let missing = inclusions_objection(
                proofs,
                inclusion.transactions_root,
                seq![request.transaction.unwrap().hash, request.sponsorship_tx.hash],
                0,
            );
            let sponsored = sponsored_by(sponsorship, taiyi_core);
            let sender = recovered_address(tx.signature, tx.signature_hash).unwrap();
            let chained = request.transaction is Some && tx.chain_id is Some;
            let agreed = chained && recovered == Some(underwriter_address) && slot is None;
            let payable = agreed && stop is None;
            let counted = payable && proofs.len() == 2;
            let included = counted && missing is None;
            &&& request.transaction is None ==> outcome == Err::<VerificationResult, PoiError>(
                PoiError::MissingTransaction,
            )
            &&& request.transaction is Some && tx.chain_id is None ==> outcome == Err::<
                VerificationResult,
                PoiError,
            >(PoiError::MissingChainId)
            &&& chained && recovered is None ==> outcome == Err::<VerificationResult, PoiError>(
                PoiError::UnrecoverableUnderwriter,
            )
            &&& chained && recovered is Some && recovered.unwrap() != underwriter_address
                ==> outcome == Err::<VerificationResult, PoiError>(
                PoiError::UnderwriterMismatch {
                    expected: underwriter_address,
                    recovered: recovered.unwrap(),
                },
            )
            &&& chained && recovered == Some(underwriter_address) && slot is Some ==> outcome
                == Err::<VerificationResult, PoiError>(slot.unwrap())
            &&& agreed && stop is Some ==> outcome == stop.unwrap()
            &&& payable && proofs.len() != 2 ==> outcome == Err::<VerificationResult, PoiError>(
                PoiError::ProofCount { transactions: 1, proofs: proofs.len() as usize },
            )
            &&& counted && missing is Some ==> outcome == Err::<VerificationResult, PoiError>(
                missing.unwrap(),
            )
            &&& included && sponsored is Err ==> outcome == Err::<VerificationResult, PoiError>(
                sponsored->Err_0,
            )
            &&& included && sponsored is Ok ==> outcome == if sponsored->Ok_0.contains(sender) {
                Ok::<VerificationResult, PoiError>(VerificationResult::Success)
            } else {
                Err::<VerificationResult, PoiError>(PoiError::UnsponsoredSender)
            }
            &&& type_b_outcome_given(
                request,
                None,
                sponsorship,
                inclusion,
                previous,
                signature,
                underwriter_address,
                genesis_timestamp,
                taiyi_core,
            ) == Err::<VerificationResult, PoiError>(PoiError::MissingTransaction)
        }),
{
}

/// A request is read before anything in it is judged: bytes in it that are no transaction
/// make it no request.
pub proof fn requests_are_decoded(
    a: PreconfTypeA,
    b: PreconfTypeB,
    inclusion: HeaderView,
    previous: HeaderView,
    signature: Signature,
    underwriter_address: Address,
    genesis_timestamp: u64,
    taiyi_core: Address,
)
    ensures
        ({
            let outcome = type_a_outcome(
                a,
                inclusion,
                previous,
                signature,
                underwriter_address,
                genesis_timestamp,
                taiyi_core,
            );
            let readable = decoded_tx(a.anchor_tx.bytes@) is Some && forall|i: int|
                0 <= i < a.transactions@.len() ==> decoded_tx(
                    (#[trigger] a.transactions@[i]).bytes@,
                ) is Some;
            &&& !readable ==> outcome == Err::<VerificationResult, PoiError>(
                PoiError::RequestFormat,
            )
            &&& readable ==> outcome == type_a_outcome_given(
                a,
                a.transactions@.map_values(|tx: EncodedTx| decoded_tx(tx.bytes@).unwrap()),
                decoded_tx(a.anchor_tx.bytes@).unwrap(),
                inclusion,
                previous,
                signature,
                underwriter_address,
                genesis_timestamp,
                taiyi_core,
            )
        }),
        ({
            let outcome = type_b_outcome(
                b,
                inclusion,
                previous,
                signature,
                underwriter_address,
                genesis_timestamp,
                taiyi_core,
            );
            let readable = decoded_tx(b.sponsorship_tx.bytes@) is Some && (b.transaction is Some
                ==> decoded_tx(b.transaction.unwrap().bytes@) is Some);
            &&& !readable ==> outcome == Err::<VerificationResult, PoiError>(
                PoiError::RequestFormat,
            )
            &&& readable ==> outcome == type_b_outcome_given(
                b,
                if b.transaction is Some {
                    decoded_tx(b.transaction.unwrap().bytes@)
                } else {
                    None
                },
                decoded_tx(b.sponsorship_tx.bytes@).unwrap(),
                inclusion,
                previous,
                signature,
                underwriter_address,
                genesis_timestamp,
                taiyi_core,
            )
        }),
{
    transactions_are_decoded(a.anchor_tx, a.transactions@, None);
    if let Some(transactions) = transactions_in(a.transactions@) {
        assert(transactions =~= a.transactions@.map_values(
            |tx: EncodedTx| decoded_tx(tx.bytes@).unwrap(),
        ));
    }
}

/// The headers are read and linked first, then the signature is read, then the request is
/// verified by its type, and nothing changes what that answers.
pub proof fn poi_steps_in_order(
    request: Option<PreconfRequest>,
    text: Seq<char>,
    inclusion_json: Seq<char>,
    inclusion_hash: B256,
    previous_json: Seq<char>,
    previous_hash: B256,
    underwriter_address: Address,
    genesis_timestamp: u64,
    taiyi_core: Address,
    inclusion: HeaderView,
    previous: HeaderView,
    signature: Signature,
)
    ensures
        ({
            let outcome = poi_outcome(
                request,
                text,
                inclusion_json,
                inclusion_hash,
                previous_json,
                previous_hash,
                underwriter_address,
                genesis_timestamp,
                taiyi_core,
            );
            let linked = parsed_header(inclusion_json) == Some(inclusion) && parsed_header(
                previous_json,
            ) == Some(previous) && header_hash(inclusion) == inclusion_hash && header_hash(previous)
                == previous_hash && inclusion.parent_hash == previous_hash;
            &&& parsed_header(inclusion_json) is None ==> outcome == Err::<
                VerificationResult,
                PoiError,
            >(PoiError::InclusionHeaderFormat)
            &&& parsed_header(inclusion_json) is Some && parsed_header(previous_json) is None
                ==> outcome == Err::<VerificationResult, PoiError>(PoiError::PreviousHeaderFormat)
            &&& parsed_header(inclusion_json) == Some(inclusion) && parsed_header(previous_json)
                == Some(previous) ==> {
                &&& header_hash(inclusion) != inclusion_hash ==> outcome == Err::<
                    VerificationResult,
                    PoiError,
                >(
                    PoiError::InclusionHashMismatch {
                        computed: header_hash(inclusion),
                        expected: inclusion_hash,
                    },
                )
                &&& header_hash(inclusion) == inclusion_hash && header_hash(previous)
                    != previous_hash ==> outcome == Err::<VerificationResult, PoiError>(
                    PoiError::PreviousHashMismatch {
                        computed: header_hash(previous),
                        expected: previous_hash,
                    },
                )
                &&& header_hash(inclusion) == inclusion_hash && header_hash(previous)
                    == previous_hash && inclusion.parent_hash != previous_hash ==> outcome == Err::<
                    VerificationResult,
                    PoiError,
                >(
                    PoiError::BrokenChain {
                        parent: inclusion.parent_hash,
                        previous: previous_hash,
                    },
                )
            }
            &&& linked && (forall|other: Signature| !signature_text(text, other)) ==> outcome
                == Err::<VerificationResult, PoiError>(PoiError::SignatureFormat)
            &&& linked && signature_text(text, signature) ==> outcome == match request {
                None => Err::<VerificationResult, PoiError>(PoiError::RequestFormat),
                Some(PreconfRequest::TypeA(request)) => type_a_outcome(
                    request,
                    inclusion,
                    previous,
                    signature,
                    underwriter_address,
                    genesis_timestamp,
                    taiyi_core,
                ),
                Some(PreconfRequest::TypeB(request)) => type_b_outcome(
                    request,
                    inclusion,
                    previous,
                    signature,
                    underwriter_address,
                    genesis_timestamp,
                    taiyi_core,
                ),
            }
        }),
{
    signature_answers(text, signature);
}

} // verus!
