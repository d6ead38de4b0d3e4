//! The verification of a preconfirmation request against the block of its slot.

use vstd::prelude::*;

use crate::accounts::{
    account_verdict, accounts_stop, check_account, check_accounts, signer, signers,
    AccountVerdict,
};
use crate::ethereum::recovered_address;
use crate::headers::{link_headers, linked_headers};
use crate::inclusion::{check_inclusions, hashes, inclusions_objection, list_hashes};
use crate::signing::{check_underwriter, read_signature, signature_in, underwriter_objection};
use crate::slot::{check_slot, slot_objection};
use crate::sponsorship::{
    check_sponsorship, find_sponsored, is_listed, sponsored_by, sponsorship_objection,
};
use crate::transactions::{
    optional_transaction_in, read_optional_transaction, read_transaction, read_transactions,
    transaction_in, transactions_in, view_of,
};
use crate::types::{
    views, Address, BlockHeader, HeaderView, PoiError, PreconfRequest, PreconfTypeA,
    PreconfTypeB, Signature, Transaction, TransactionView, VerificationResult, B256,
};

verus! {

/// The chain that a request of type A is for: that of its first transaction.
pub open spec fn type_a_chain(transactions: Seq<TransactionView>) -> Result<u64, PoiError> {
    if transactions.len() == 0 {
        Err(PoiError::NoTransactions)
    } else {
        match transactions[0].chain_id {
            Some(chain_id) => Ok(chain_id),
            None => Err(PoiError::MissingChainId),
        }
    }
}

/// Finds the chain that a request of type A is for.
pub fn find_type_a_chain(transactions: &Vec<Transaction>) -> (chain_id: Result<u64, PoiError>)
    ensures
        chain_id == type_a_chain(views(transactions@)),
{
    if transactions.len() == 0 {
        return Err(PoiError::NoTransactions);
    }
    match transactions[0].chain_id {
        Some(chain_id) => Ok(chain_id),
        None => Err(PoiError::MissingChainId),
    }
}

/// The chain that a request of type B is for: that of its transaction.
pub open spec fn type_b_chain(transaction: Option<TransactionView>) -> Result<u64, PoiError> {
    match transaction {
        None => Err(PoiError::MissingTransaction),
        Some(tx) => match tx.chain_id {
            Some(chain_id) => Ok(chain_id),
            None => Err(PoiError::MissingChainId),
        },
    }
}

/// Finds the chain that a request of type B is for.
pub fn find_type_b_chain(transaction: &Option<Transaction>) -> (chain_id: Result<u64, PoiError>)
    ensures
        chain_id == type_b_chain(view_of(*transaction)),
{
    match transaction {
        None => Err(PoiError::MissingTransaction),
        Some(tx) => match tx.chain_id {
            Some(chain_id) => Ok(chain_id),
            None => Err(PoiError::MissingChainId),
        },
    }
}

/// How the underwriter's signature or the slot of the block ends the verification of
/// a request, if they do.
pub open spec fn terms_objection(
    digest: B256,
    target_slot: u64,
    inclusion: HeaderView,
    signature: Signature,
    underwriter_address: Address,
    genesis_timestamp: u64,
) -> Option<PoiError> {
    match underwriter_objection(recovered_address(signature, digest), underwriter_address) {
        Some(error) => Some(error),
        None => slot_objection(inclusion.timestamp, genesis_timestamp, target_slot),
    }
}

/// Checks the underwriter's signature and the slot of the block.
pub fn check_terms(
    digest: &B256,
    target_slot: u64,
    inclusion: &BlockHeader,
    signature: &Signature,
    underwriter_address: &Address,
    genesis_timestamp: u64,
) -> (objection: Option<PoiError>)
    ensures
        objection == terms_objection(
            *digest,
            target_slot,
            inclusion@,
            *signature,
            *underwriter_address,
            genesis_timestamp,
        ),
{
    let objection = check_underwriter(signature, digest, underwriter_address);
    if objection.is_some() {
        return objection;
    }
    check_slot(inclusion.timestamp, genesis_timestamp, target_slot)
}

/// The outcome for a request of type A with the proofs for its transactions in the
/// block `inclusion` on top of the block `previous`, given the decoded transactions.
pub open spec fn type_a_outcome_given(
    request: PreconfTypeA,
    transactions: Seq<TransactionView>,
    anchor: TransactionView,
    inclusion: HeaderView,
    previous: HeaderView,
    signature: Signature,
    underwriter_address: Address,
    genesis_timestamp: u64,
    taiyi_core: Address,
) -> Result<VerificationResult, PoiError> {
    let proofs = request.tx_merkle_proof@;
    if let Err(error) = type_a_chain(transactions) {
        Err(error)
    } else if let Some(error) = terms_objection(
        request.digest,
        request.target_slot,
        inclusion,
        signature,
        underwriter_address,
        genesis_timestamp,
    ) {
        Err(error)
    } else if let Some(stop) = accounts_stop(
        transactions,
        request.account_merkle_proof@,
        inclusion,
        previous.state_root,
        0,
    ) {
        stop
    } else if proofs.len() != request.transactions@.len() + 1 {
        Err(
            PoiError::ProofCount {
                transactions: request.transactions@.len() as usize,
                proofs: proofs.len() as usize,
            },
        )
    } else if let Some(error) = inclusions_objection(
        proofs,
        inclusion.transactions_root,
        hashes(request.anchor_tx, request.transactions@),
        0,
    ) {
        Err(error)
    } else {
        match sponsored_by(anchor, taiyi_core) {
            Err(error) => Err(error),
            Ok(sponsored) => match sponsorship_objection(sponsored, signers(transactions)) {
                Some(error) => Err(error),
                None => Ok(VerificationResult::Success),
            },
        }
    }
}

/// The outcome for a request of type A with the proofs for its transactions in the
/// block `inclusion` on top of the block `previous`.
pub open spec fn type_a_outcome(
    request: PreconfTypeA,
    inclusion: HeaderView,
    previous: HeaderView,
    signature: Signature,
    underwriter_address: Address,
    genesis_timestamp: u64,
    taiyi_core: Address,
) -> Result<VerificationResult, PoiError> {
    match (transactions_in(request.transactions@), transaction_in(request.anchor_tx)) {
        (Some(transactions), Some(anchor)) => type_a_outcome_given(
            request,
            transactions,
            anchor,
            inclusion,
            previous,
            signature,
            underwriter_address,
            genesis_timestamp,
            taiyi_core,
        ),
        _ => Err(PoiError::RequestFormat),
    }
}

/// Judges a request of type A, given the decoded transactions.
pub fn judge_type_a(
    request: &PreconfTypeA,
    transactions: &Vec<Transaction>,
    anchor: &Transaction,
    inclusion: &BlockHeader,
    previous: &BlockHeader,
    signature: &Signature,
    underwriter_address: &Address,
    genesis_timestamp: u64,
    taiyi_core: &Address,
) -> (outcome: Result<VerificationResult, PoiError>)
    ensures
        outcome == type_a_outcome_given(
            *request,
            views(transactions@),
            anchor@,
            inclusion@,
            previous@,
            *signature,
            *underwriter_address,
            genesis_timestamp,
            *taiyi_core,
        ),
{
    if let Err(error) = find_type_a_chain(transactions) {
        return Err(error);
    }
    let objection = check_terms(
        &request.digest,
        request.target_slot,
        inclusion,
        signature,
        underwriter_address,
        genesis_timestamp,
    );
    if let Some(error) = objection {
        return Err(error);
    }
    let senders = match check_accounts(
        transactions,
        &request.account_merkle_proof,
        inclusion,
        &previous.state_root,
    ) {
        Ok(senders) => senders,
        Err(stop) => return stop,
    };
    let expected = list_hashes(&request.anchor_tx, &request.transactions);
    if request.tx_merkle_proof.len() != expected.len() {
        return Err(
            PoiError::ProofCount {
                transactions: request.transactions.len(),
                proofs: request.tx_merkle_proof.len(),
            },
        );
    }
    let objection = check_inclusions(
        &request.tx_merkle_proof,
        &inclusion.transactions_root,
        &expected,
    );
    if let Some(error) = objection {
        return Err(error);
    }
    match find_sponsored(anchor, taiyi_core) {
        Err(error) => Err(error),
        Ok(sponsored) => match check_sponsorship(&sponsored, &senders) {
            Some(error) => Err(error),
            None => Ok(VerificationResult::Success),
        },
    }
}

/// Verifies a request of type A.
pub fn verify_type_a(
    request: &PreconfTypeA,
    inclusion: &BlockHeader,
    previous: &BlockHeader,
    signature: &Signature,
    underwriter_address: &Address,
    genesis_timestamp: u64,
    taiyi_core: &Address,
) -> (outcome: Result<VerificationResult, PoiError>)
    ensures
        outcome == type_a_outcome(
            *request,
            inclusion@,
            previous@,
            *signature,
            *underwriter_address,
            genesis_timestamp,
            *taiyi_core,
        ),
{
    match (read_transactions(&request.transactions), read_transaction(&request.anchor_tx)) {
        (Some(transactions), Some(anchor)) => judge_type_a(
            request,
            &transactions,
            &anchor,
            inclusion,
            previous,
            signature,
            underwriter_address,
            genesis_timestamp,
            taiyi_core,
        ),
        _ => Err(PoiError::RequestFormat),
    }
}

/// The outcome for a request of type B with the proofs for its transaction in the
/// block `inclusion` on top of the block `previous`, given the decoded transactions.
pub open spec fn type_b_outcome_given(
    request: PreconfTypeB,
    transaction: Option<TransactionView>,
    sponsorship: TransactionView,
    inclusion: HeaderView,
    previous: HeaderView,
    signature: Signature,
    underwriter_address: Address,
    genesis_timestamp: u64,
    taiyi_core: Address,
) -> Result<VerificationResult, PoiError> {
    let tx = transaction.unwrap();
    let proofs = request.tx_merkle_proof@;
    let verdict = account_verdict(
        0,
        tx,
        request.account_merkle_proof,
        inclusion,
        previous.state_root,
    );
    if request.transaction is None {
        Err(PoiError::MissingTransaction)
    } else if let Err(error) = type_b_chain(transaction) {
        Err(error)
    } else if let Some(error) = terms_objection(
        request.digest,
        request.target_slot,
        inclusion,
        signature,
        underwriter_address,
        genesis_timestamp,
    ) {
        Err(error)
    } else if let AccountVerdict::Rejected(error) = verdict {
        Err(error)
    } else if verdict == AccountVerdict::Unpayable {
        Ok(VerificationResult::Failed)
    } else if proofs.len() != 2 {
        Err(PoiError::ProofCount { transactions: 1, proofs: proofs.len() as usize })
    } else if let Some(error) = inclusions_objection(
        proofs,
        inclusion.transactions_root,
        seq![request.transaction.unwrap().hash, request.sponsorship_tx.hash],
        0,
    ) {
        Err(error)
    } else {
        match sponsored_by(sponsorship, taiyi_core) {
            Err(error) => Err(error),
            Ok(sponsored) => if sponsored.contains(signer(tx).unwrap()) {
                Ok(VerificationResult::Success)
            } else {
                Err(PoiError::UnsponsoredSender)
            },
        }
    }
}

/// The outcome for a request of type B with the proofs for its transaction in the
/// block `inclusion` on top of the block `previous`.
pub open spec fn type_b_outcome(
    request: PreconfTypeB,
    inclusion: HeaderView,
    previous: HeaderView,
    signature: Signature,
    underwriter_address: Address,
    genesis_timestamp: u64,
    taiyi_core: Address,
) -> Result<VerificationResult, PoiError> {
    match (optional_transaction_in(request.transaction), transaction_in(request.sponsorship_tx)) {
        (Some(transaction), Some(sponsorship)) => type_b_outcome_given(
            request,
            transaction,
            sponsorship,
            inclusion,
            previous,
            signature,
            underwriter_address,
            genesis_timestamp,
            taiyi_core,
        ),
        _ => Err(PoiError::RequestFormat),
    }
}

/// Judges a request of type B, given the decoded transactions.
pub fn judge_type_b(
    request: &PreconfTypeB,
    transaction: &Option<Transaction>,
    sponsorship: &Transaction,
    inclusion: &BlockHeader,
    previous: &BlockHeader,
    signature: &Signature,
    underwriter_address: &Address,
    genesis_timestamp: u64,
    taiyi_core: &Address,
) -> (outcome: Result<VerificationResult, PoiError>)
    ensures
        outcome == type_b_outcome_given(
            *request,
            view_of(*transaction),
            sponsorship@,
            inclusion@,
            previous@,
            *signature,
            *underwriter_address,
            genesis_timestamp,
            *taiyi_core,
        ),
{
    let (encoded, tx) = match (&request.transaction, transaction) {
        (Some(encoded), Some(tx)) => (encoded, tx),
        _ => return Err(PoiError::MissingTransaction),
    };
    if let Err(error) = find_type_b_chain(transaction) {
        return Err(error);
    }
    let objection = check_terms(
        &request.digest,
        request.target_slot,
        inclusion,
        signature,
        underwriter_address,
        genesis_timestamp,
    );
    if let Some(error) = objection {
        return Err(error);
    }
    let sender: Address = match check_account(
        0,
        tx,
        &request.account_merkle_proof,
        inclusion,
        &previous.state_root,
    ) {
        AccountVerdict::Payable(sender) => sender,
        AccountVerdict::Unpayable => return Ok(VerificationResult::Failed),
        AccountVerdict::Rejected(error) => return Err(error),
    };
    if request.tx_merkle_proof.len() != 2 {
        return Err(
            PoiError::ProofCount { transactions: 1, proofs: request.tx_merkle_proof.len() },
        );
    }
    let mut expected: Vec<B256> = Vec::new();
    expected.push(encoded.hash);
    expected.push(request.sponsorship_tx.hash);
    assert(expected@ =~= seq![encoded.hash, request.sponsorship_tx.hash]);
    let objection = check_inclusions(
        &request.tx_merkle_proof,
        &inclusion.transactions_root,
        &expected,
    );
    if let Some(error) = objection {
        return Err(error);
    }
    match find_sponsored(sponsorship, taiyi_core) {
        Err(error) => Err(error),
        Ok(sponsored) => {
            if is_listed(&sponsored, &sender) {
                Ok(VerificationResult::Success)
            } else {
                Err(PoiError::UnsponsoredSender)
            }
        },
    }
}

/// Verifies a request of type B.
pub fn verify_type_b(
    request: &PreconfTypeB,
    inclusion: &BlockHeader,
    previous: &BlockHeader,
    signature: &Signature,
    underwriter_address: &Address,
    genesis_timestamp: u64,
    taiyi_core: &Address,
) -> (outcome: Result<VerificationResult, PoiError>)
    ensures
        outcome == type_b_outcome(
            *request,
            inclusion@,
            previous@,
            *signature,
            *underwriter_address,
            genesis_timestamp,
            *taiyi_core,
        ),
{
    match (
        read_optional_transaction(&request.transaction),
        read_transaction(&request.sponsorship_tx),
    ) {
        (Some(transaction), Some(sponsorship)) => judge_type_b(
            request,
            &transaction,
            &sponsorship,
            inclusion,
            previous,
            signature,
            underwriter_address,
            genesis_timestamp,
            taiyi_core,
        ),
        _ => Err(PoiError::RequestFormat),
    }
}

/// The outcome for a request, which is `None` where it could not be read.
pub open spec fn poi_outcome(
    request: Option<PreconfRequest>,
    signature_text: Seq<char>,
    inclusion_json: Seq<char>,
    inclusion_hash: B256,
    previous_json: Seq<char>,
    previous_hash: B256,
    underwriter_address: Address,
    genesis_timestamp: u64,
    taiyi_core: Address,
) -> Result<VerificationResult, PoiError> {
    match linked_headers(inclusion_json, inclusion_hash, previous_json, previous_hash) {
        Err(error) => Err(error),
        Ok((inclusion, previous)) => match signature_in(signature_text) {
            None => Err(PoiError::SignatureFormat),
            Some(signature) => match request {
                None => Err(PoiError::RequestFormat),
                Some(PreconfRequest::TypeA(request)) => type_a_outcome(
                    request,
                    inclusion,
                    previous,
                    signature,
                    underwriter_address,
                    genesis_timestamp,
                    taiyi_core,
                ),
                Some(PreconfRequest::TypeB(request)) => type_b_outcome(
                    request,
                    inclusion,
                    previous,
                    signature,
                    underwriter_address,
                    genesis_timestamp,
                    taiyi_core,
                ),
            },
        },
    }
}

/// Verifies that the transactions of a preconfirmation request are in the block of
/// the slot that they were promised for.
pub fn run_poi_verification(
    preconf: &Option<PreconfRequest>,
    preconf_signature_str: &str,
    inclusion_block_header_str: &str,
    inclusion_block_hash: &B256,
    previous_block_header_str: &str,
    previous_block_hash: &B256,
    underwriter_address: &Address,
    genesis_timestamp: u64,
    taiyi_core: &Address,
) -> (outcome: Result<VerificationResult, PoiError>)
    ensures
        outcome == poi_outcome(
            *preconf,
            preconf_signature_str@,
            inclusion_block_header_str@,
            *inclusion_block_hash,
            previous_block_header_str@,
            *previous_block_hash,
            *underwriter_address,
            genesis_timestamp,
            *taiyi_core,
        ),
{
    let (inclusion, previous) = match link_headers(
        inclusion_block_header_str,
        inclusion_block_hash,
        previous_block_header_str,
        previous_block_hash,
    ) {
        Ok(headers) => headers,
        Err(error) => return Err(error),
    };
    let signature = match read_signature(preconf_signature_str) {
        Some(signature) => signature,
        None => return Err(PoiError::SignatureFormat),
    };
    match preconf {
        None => Err(PoiError::RequestFormat),
        Some(PreconfRequest::TypeA(request)) => verify_type_a(
            request,
            &inclusion,
            &previous,
            &signature,
            underwriter_address,
            genesis_timestamp,
            taiyi_core,
        ),
        Some(PreconfRequest::TypeB(request)) => verify_type_b(
            request,
            &inclusion,
            &previous,
            &signature,
            underwriter_address,
            genesis_timestamp,
            taiyi_core,
        ),
    }
}

} // verus!
