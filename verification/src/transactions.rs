//! The transactions that a request holds in their encoding.

use vstd::prelude::*;

use crate::ethereum::{decode_transaction, decoded_tx};
use crate::types::{views, EncodedTx, Transaction, TransactionView};

verus! {

/// The transaction that is encoded, if it is one.
pub open spec fn transaction_in(encoded: EncodedTx) -> Option<TransactionView> {
    decoded_tx(encoded.bytes@)
}

/// Reads an encoded transaction.
pub fn read_transaction(encoded: &EncodedTx) -> (tx: Option<Transaction>)
    ensures
        match tx {
            Some(tx) => transaction_in(*encoded) == Some(tx@),
            None => transaction_in(*encoded) is None,
        },
{
    match decode_transaction(&encoded.bytes) {
        Ok(tx) => Some(tx),
        Err(_) => None,
    }
}

/// A transaction as the contracts speak of it, where there is one.
pub open spec fn view_of(tx: Option<Transaction>) -> Option<TransactionView> {
    match tx {
        Some(tx) => Some(tx@),
        None => None,
    }
}

/// The transaction that is encoded where there may be one, if it is one.
pub open spec fn optional_transaction_in(encoded: Option<EncodedTx>) -> Option<
    Option<TransactionView>,
> {
    match encoded {
        Some(encoded) => match transaction_in(encoded) {
            Some(tx) => Some(Some(tx)),
            None => None,
        },
        None => Some(None),
    }
}

/// Reads an encoded transaction where there may be one.
pub fn read_optional_transaction(encoded: &Option<EncodedTx>) -> (tx: Option<Option<Transaction>>)
    ensures
        match tx {
            Some(tx) => optional_transaction_in(*encoded) == Some(view_of(tx)),
            None => optional_transaction_in(*encoded) is None,
        },
{
    match encoded {
        Some(encoded) => match read_transaction(encoded) {
            Some(tx) => Some(Some(tx)),
            None => None,
        },
        None => Some(None),
    }
}

/// The transactions that are encoded, if all of them are transactions.
pub open spec fn transactions_in(encoded: Seq<EncodedTx>) -> Option<Seq<TransactionView>> {
    if forall|i: int| 0 <= i < encoded.len() ==> transaction_in(#[trigger] encoded[i]) is Some {
        Some(encoded.map_values(|encoded: EncodedTx| transaction_in(encoded).unwrap()))
    } else {
        None
    }
}

/// Reads encoded transactions.
pub fn read_transactions(encoded: &Vec<EncodedTx>) -> (transactions: Option<Vec<Transaction>>)
    ensures
        match transactions {
            Some(transactions) => transactions_in(encoded@) == Some(views(transactions@)),
            None => transactions_in(encoded@) is None,
        },
{
    let mut transactions: Vec<Transaction> = Vec::new();
    for i in 0..encoded.len()
        invariant
            transactions.len() == i,
            forall|j: int|
                0 <= j < i ==> transaction_in(#[trigger] encoded[j]) == Some(transactions[j]@),
    {
        match read_transaction(&encoded[i]) {
            Some(tx) => {
                transactions.push(tx);
            },
            None => {
                return None;
            },
        }
    }
    assert(transactions_in(encoded@).unwrap() =~= views(transactions@));
    Some(transactions)
}

} // verus!
