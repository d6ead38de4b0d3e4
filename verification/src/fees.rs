//! What a transaction costs its sender in a block.

use vstd::prelude::*;

use crate::ethereum::{blob_fee, data_gas_per_blob, prague_blob_fee, MAX_EXCESS_BLOB_GAS};
use crate::types::{BlockHeader, HeaderView, PoiError, Transaction, TransactionView};

verus! {

/// The fee for all blobs, the base fee and the priority fee for all gas.
pub open spec fn total_fee(
    blob_fee: nat,
    blobs: nat,
    base_fee: u64,
    priority_fee: u128,
    gas_limit: u64,
) -> int {
    blob_fee * 131_072 * blobs + base_fee * gas_limit + priority_fee * gas_limit
}

/// Whether the total fee can be computed: the base fee for all gas in 64 bits, the
/// fee for one blob and the total in 128.
pub open spec fn fee_fits(
    blob_fee: nat,
    blobs: nat,
    base_fee: u64,
    priority_fee: u128,
    gas_limit: u64,
) -> bool {
    &&& base_fee * gas_limit <= u64::MAX
    &&& blob_fee * 131_072 <= u128::MAX
    &&& total_fee(blob_fee, blobs, base_fee, priority_fee, gas_limit) <= u128::MAX
}

/// Computes the total fee, where that is within range.
pub fn compute_fee(
    blob_fee: u128,
    blobs: usize,
    base_fee: u64,
    priority_fee: u128,
    gas_limit: u64,
) -> (fee: Option<u128>)
    ensures
        match fee {
            Some(fee) => {
                &&& fee_fits(blob_fee as nat, blobs as nat, base_fee, priority_fee, gas_limit)
                &&& fee == total_fee(
                    blob_fee as nat,
                    blobs as nat,
                    base_fee,
                    priority_fee,
                    gas_limit,
                )
            },
            None => !fee_fits(blob_fee as nat, blobs as nat, base_fee, priority_fee, gas_limit),
        },
        fee matches Some(fee) ==> fee == blob_fee * 131_072 * blobs + (base_fee + priority_fee)
            * gas_limit,
{
    let ghost for_blobs: int = blob_fee * 131_072 * blobs;
    let ghost for_base: int = base_fee * gas_limit;
    let ghost for_priority: int = priority_fee * gas_limit;
    assert(for_blobs >= 0) by (nonlinear_arith)
        requires
            for_blobs == blob_fee * 131_072 * blobs,
    ;
    assert(for_base >= 0) by (nonlinear_arith)
        requires
            for_base == base_fee * gas_limit,
    ;
    assert(for_priority >= 0) by (nonlinear_arith)
        requires
            for_priority == priority_fee * gas_limit,
    ;
    assert((base_fee + priority_fee) * gas_limit == for_base + for_priority) by (nonlinear_arith)
        requires
            for_base == base_fee * gas_limit,
            for_priority == priority_fee * gas_limit,
    ;
    let per_blob: u128 = match blob_fee.checked_mul(data_gas_per_blob() as u128) {
        Some(fee) => fee,
        None => return None,
    };
    let blob_part: u128 = match per_blob.checked_mul(blobs as u128) {
        Some(fee) => fee,
        None => return None,
    };
    let base_part: u64 = match base_fee.checked_mul(gas_limit) {
        Some(fee) => fee,
        None => return None,
    };
    let priority_part: u128 = match priority_fee.checked_mul(gas_limit as u128) {
        Some(fee) => fee,
        None => return None,
    };
    match blob_part.checked_add(base_part as u128) {
        Some(fee) => fee.checked_add(priority_part),
        None => None,
    }
}

/// The blob fee of a block, where it has one that is within range.
pub open spec fn block_blob_fee(block: HeaderView) -> Option<nat> {
    match block.excess_blob_gas {
        Some(excess) => if excess <= MAX_EXCESS_BLOB_GAS {
            Some(prague_blob_fee(excess))
        } else {
            None
        },
        None => None,
    }
}

/// A fee without its range.
pub open spec fn widened(fee: Option<u128>) -> Option<nat> {
    match fee {
        Some(fee) => Some(fee as nat),
        None => None,
    }
}

/// The number of blobs that a transaction carries.
pub open spec fn blob_count(tx: TransactionView) -> nat {
    match tx.blob_versioned_hashes {
        Some(hashes) => hashes.len(),
        None => 0,
    }
}

/// The balance that the sender of a transaction needs in a block with this blob fee,
/// or what stands in the way of knowing it.
pub open spec fn balance_needed(
    index: usize,
    tx: TransactionView,
    block: HeaderView,
    blob_fee: Option<nat>,
) -> Result<int, PoiError> {
    let fee = if tx.is_eip4844 { blob_fee.unwrap() } else { 0 };
    let blobs = if tx.is_eip4844 { blob_count(tx) } else { 0 };
    if tx.is_eip4844 && block.excess_blob_gas is None {
        Err(PoiError::MissingBlobFee { index })
    } else if tx.is_eip4844 && blob_fee is None {
        Err(PoiError::FeeOverflow { index })
    } else {
        match (block.base_fee_per_gas, tx.max_priority_fee_per_gas) {
            (None, _) => Err(PoiError::MissingBaseFee { index }),
            (_, None) => Err(PoiError::MissingPriorityFee { index }),
            (Some(base), Some(priority)) => if fee_fits(
                fee,
                blobs,
                base,
                priority,
                tx.gas_limit,
            ) {
                Ok(total_fee(fee, blobs, base, priority, tx.gas_limit))
            } else {
                Err(PoiError::FeeOverflow { index })
            },
        }
    }
}

/// Computes the blob fee of a block, where it has one that is within range.
pub fn compute_blob_fee(block: &BlockHeader) -> (fee: Option<u128>)
    ensures
        widened(fee) == block_blob_fee(block@),
{
    match block.excess_blob_gas {
        Some(excess) => {
            if excess <= MAX_EXCESS_BLOB_GAS {
                Some(blob_fee(excess))
            } else {
                None
            }
        },
        None => None,
    }
}

/// Computes the balance that the sender of the `index`-th transaction needs in a
/// block with this blob fee.
pub fn compute_balance_needed(
    index: usize,
    tx: &Transaction,
    block: &BlockHeader,
    blob_fee: Option<u128>,
) -> (needed: Result<u128, PoiError>)
    ensures
        match needed {
            Ok(needed) => balance_needed(index, tx@, block@, widened(blob_fee)) == Ok::<
                int,
                PoiError,
            >(needed as int),
            Err(error) => balance_needed(index, tx@, block@, widened(blob_fee)) == Err::<
                int,
                PoiError,
            >(error),
        },
{
    let mut fee: u128 = 0;
    let mut blobs: usize = 0;
    if tx.is_eip4844 {
        if block.excess_blob_gas.is_none() {
            return Err(PoiError::MissingBlobFee { index });
        }
        match blob_fee {
            Some(known) => {
                fee = known;
                if let Some(hashes) = &tx.blob_versioned_hashes {
                    blobs = hashes.len();
                }
            },
            None => {
                return Err(PoiError::FeeOverflow { index });
            },
        }
    }
    let base: u64 = match block.base_fee_per_gas {
        Some(base) => base,
        None => return Err(PoiError::MissingBaseFee { index }),
    };
    let priority: u128 = match tx.max_priority_fee_per_gas {
        Some(priority) => priority,
        None => return Err(PoiError::MissingPriorityFee { index }),
    };
    match compute_fee(fee, blobs, base, priority, tx.gas_limit) {
        Some(total) => Ok(total),
        None => Err(PoiError::FeeOverflow { index }),
    }
}

} // verus!
