//! Whether the sender of a transaction could pay for it: the state of the sender's
//! account before the block, proved from the state root of the previous block.

use vstd::prelude::*;

use crate::bytes::{array_eq, byte_strings, nibbles};
use crate::ethereum::{
    account_proof_holds, account_rlp, encode_account, keccak, keccak256, recover_address,
    recovered_address, verify_account_proof,
};
use crate::fees::{
    balance_needed, block_blob_fee, compute_balance_needed, compute_blob_fee, widened,
};
use crate::trie::{is_walkable, proof_walks};
use crate::types::{
    views, AccountMerkleProof, Address, BlockHeader, HeaderView, PoiError, Transaction,
    TransactionView, VerificationResult, B256,
};

verus! {

/// What an account proof says of the transaction it comes with.
#[derive(Clone, Copy, Debug, PartialEq, Eq)]
pub enum AccountVerdict {
    /// The account, which is the signer's, could pay for the transaction.
    Payable(Address),
    /// The nonce was used before, or the balance does not cover the fees.
    Unpayable,
    /// The proof is not one for this transaction.
    Rejected(PoiError),
}

/// The address that signed a transaction, if one can be recovered.
pub open spec fn signer(tx: TransactionView) -> Option<Address> {
    recovered_address(tx.signature, tx.signature_hash)
}

/// Recovers the address that signed a transaction.
pub fn recover_signer(tx: &Transaction) -> (address: Option<Address>)
    ensures
        address == signer(tx@),
        address == recovered_address(tx.signature, tx.signature_hash),
{
    match recover_address(&tx.signature, &tx.signature_hash) {
        Ok(address) => Some(address),
        Err(_) => None,
    }
}

/// Whether a proof shows the state of its account in the state with this root. It
/// shows nothing where it cannot be walked along the key.
pub open spec fn account_proven(account: AccountMerkleProof, state_root: B256) -> bool {
    let key = keccak(account.address@);
    let proof = byte_strings(account.account_proof@);
    proof_walks(proof, nibbles(key@)) && account_proof_holds(
        state_root,
        key,
        account_rlp(account),
        proof,
    )
}

/// Checks the proof of the state of an account.
pub fn check_account_proof(account: &AccountMerkleProof, state_root: &B256) -> (proven: bool)
    ensures
        proven == account_proven(*account, *state_root),
        proven == {
            let key = keccak(account.address@);
            let nodes = byte_strings(account.account_proof@);
            proof_walks(nodes, nibbles(key@)) && account_proof_holds(
                *state_root,
                key,
                account_rlp(*account),
                nodes,
            )
        },
{
    let key = keccak256(&account.address);
    is_walkable(&account.account_proof, &key) && verify_account_proof(
        state_root,
        &key,
        encode_account(account),
        &account.account_proof,
    ).is_ok()
}

/// The verdict on the `index`-th transaction, given who signed it, whether the state
/// of the account is proven, and the blob fee of the block.
pub open spec fn account_verdict_given(
    index: usize,
    tx: TransactionView,
    account: AccountMerkleProof,
    block: HeaderView,
    signer: Option<Address>,
    proven: bool,
    blob_fee: Option<nat>,
) -> AccountVerdict {
    match signer {
        None => AccountVerdict::Rejected(PoiError::UnrecoverableSigner { index }),
        Some(signer) => if account.address != signer {
            AccountVerdict::Rejected(
                PoiError::AccountKeyMismatch { index, account: account.address, signer },
            )
        } else if !proven {
            AccountVerdict::Rejected(PoiError::AccountProof { index })
        } else if account.nonce > tx.nonce {
            AccountVerdict::Unpayable
        } else {
            match balance_needed(index, tx, block, blob_fee) {
                Err(error) => AccountVerdict::Rejected(error),
                Ok(needed) => if account.balance@ < needed {
                    AccountVerdict::Unpayable
                } else {
                    AccountVerdict::Payable(signer)
                },
            }
        },
    }
}

/// The verdict on the `index`-th transaction of a block on top of a state.
pub open spec fn account_verdict(
    index: usize,
    tx: TransactionView,
    account: AccountMerkleProof,
    block: HeaderView,
    state_root: B256,
) -> AccountVerdict {
    account_verdict_given(
        index,
        tx,
        account,
        block,
        signer(tx),
        account_proven(account, state_root),
        block_blob_fee(block),
    )
}

/// Judges a transaction, given who signed it, whether the state of the account is
/// proven, and the blob fee of the block.
pub fn judge_account(
    index: usize,
    tx: &Transaction,
    account: &AccountMerkleProof,
    block: &BlockHeader,
    signer: Option<Address>,
    proven: bool,
    blob_fee: Option<u128>,
) -> (verdict: AccountVerdict)
    ensures
        verdict == account_verdict_given(
            index,
            tx@,
            *account,
            block@,
            signer,
            proven,
            widened(blob_fee),
        ),
{
    let signer: Address = match signer {
        Some(signer) => signer,
        None => return AccountVerdict::Rejected(PoiError::UnrecoverableSigner { index }),
    };
    if !array_eq(&account.address, &signer) {
        return AccountVerdict::Rejected(
            PoiError::AccountKeyMismatch { index, account: account.address, signer },
        );
    }
    if !proven {
        return AccountVerdict::Rejected(PoiError::AccountProof { index });
    }
    if account.nonce > tx.nonce {
        return AccountVerdict::Unpayable;
    }
    match compute_balance_needed(index, tx, block, blob_fee) {
        Ok(needed) => {
            if account.balance.covers(needed) {
                AccountVerdict::Payable(signer)
            } else {
                AccountVerdict::Unpayable
            }
        },
        Err(error) => AccountVerdict::Rejected(error),
    }
}

/// Judges the `index`-th transaction of a block on top of a state.
pub fn check_account(
    index: usize,
    tx: &Transaction,
    account: &AccountMerkleProof,
    block: &BlockHeader,
    state_root: &B256,
) -> (verdict: AccountVerdict)
    ensures
        verdict == account_verdict(index, tx@, *account, block@, *state_root),
{
    judge_account(
        index,
        tx,
        account,
        block,
        recover_signer(tx),
        check_account_proof(account, state_root),
        compute_blob_fee(block),
    )
}

/// How a verdict ends the verification, if it does.
pub open spec fn verdict_stop(verdict: AccountVerdict) -> Option<
    Result<VerificationResult, PoiError>,
> {
    match verdict {
        AccountVerdict::Payable(_) => None,
        AccountVerdict::Unpayable => Some(Ok(VerificationResult::Failed)),
        AccountVerdict::Rejected(error) => Some(Err(error)),
    }
}

/// How the account of the `index`-th transaction ends the verification, if it does.
pub open spec fn account_stop(
    transactions: Seq<TransactionView>,
    accounts: Seq<AccountMerkleProof>,
    block: HeaderView,
    state_root: B256,
    index: int,
) -> Option<Result<VerificationResult, PoiError>> {
    if index >= accounts.len() {
        Some(Err(PoiError::MissingAccountProof { index: index as usize }))
    } else {
        verdict_stop(
            account_verdict(
                index as usize,
                transactions[index],
                accounts[index],
                block,
                state_root,
            ),
        )
    }
}

/// How the accounts of the transactions from `from` on end the verification, if they
/// do: the first of them that does decides.
pub open spec fn accounts_stop(
    transactions: Seq<TransactionView>,
    accounts: Seq<AccountMerkleProof>,
    block: HeaderView,
    state_root: B256,
    from: int,
) -> Option<Result<VerificationResult, PoiError>>
    decreases transactions.len() - from,
{
    if from >= transactions.len() {
        None
    } else {
        match account_stop(transactions, accounts, block, state_root, from) {
            Some(stop) => Some(stop),
            None => accounts_stop(transactions, accounts, block, state_root, from + 1),
        }
    }
}

/// The signers of transactions whose signers can be recovered.
pub open spec fn signers(transactions: Seq<TransactionView>) -> Seq<Address> {
    transactions.map_values(|tx: TransactionView| signer(tx).unwrap())
}

/// Judges the accounts of all transactions in order, up to the first that ends the
/// verification. Returns the signers if there is none.
pub fn check_accounts(
    transactions: &Vec<Transaction>,
    accounts: &Vec<AccountMerkleProof>,
    block: &BlockHeader,
    state_root: &B256,
) -> (r: Result<Vec<Address>, Result<VerificationResult, PoiError>>)
    ensures
        match r {
            Ok(found) => {
                &&& accounts_stop(views(transactions@), accounts@, block@, *state_root, 0) is None
                &&& found@ == signers(views(transactions@))
            },
            Err(stop) => accounts_stop(
                views(transactions@),
                accounts@,
                block@,
                *state_root,
                0,
            ) == Some(stop),
        },
{
    let mut found: Vec<Address> = Vec::new();
    for i in 0..transactions.len()
        invariant
            accounts_stop(views(transactions@), accounts@, block@, *state_root, 0) == accounts_stop(
                views(transactions@),
                accounts@,
                block@,
                *state_root,
                i as int,
            ),
            found@ =~= signers(views(transactions@)).take(i as int),
    {
        if i >= accounts.len() {
            return Err(Err(PoiError::MissingAccountProof { index: i }));
        }
        assert(views(transactions@)[i as int] == transactions[i as int]@);
        match check_account(i, &transactions[i], &accounts[i], block, state_root) {
            AccountVerdict::Payable(address) => {
                found.push(address);
            },
            AccountVerdict::Unpayable => {
                return Err(Ok(VerificationResult::Failed));
            },
            AccountVerdict::Rejected(error) => {
                return Err(Err(error));
            },
        }
    }
    let ghost all = signers(views(transactions@));
    assert(all.take(transactions.len() as int) =~= all);
    Ok(found)
}

} // verus!
