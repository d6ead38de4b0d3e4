//! Slots: the consensus layer proposes one block in each.

use vstd::prelude::*;

use crate::ethereum::slot_duration_secs;
use crate::types::PoiError;

verus! {

/// The slot that a timestamp lies in.
pub open spec fn slot_of(timestamp: u64, genesis_timestamp: u64) -> int {
    (timestamp - genesis_timestamp) / 12
}

/// The slot that a timestamp lies in: the number of whole slots since genesis.
pub fn get_slot_from_timestamp(timestamp: u64, genesis_timestamp: u64) -> (slot: u64)
    requires
        genesis_timestamp <= timestamp,
    ensures
        slot == slot_of(timestamp, genesis_timestamp),
        genesis_timestamp + 12 * slot <= timestamp < genesis_timestamp + 12 * (slot + 1),
{
    (timestamp - genesis_timestamp) / slot_duration_secs()
}

/// What is wrong with a block of this timestamp as the block of the target slot.
pub open spec fn slot_objection(
    timestamp: u64,
    genesis_timestamp: u64,
    target_slot: u64,
) -> Option<PoiError> {
    if timestamp < genesis_timestamp {
        Some(PoiError::TimestampBeforeGenesis { timestamp, genesis_timestamp })
    } else if slot_of(timestamp, genesis_timestamp) != target_slot {
        Some(
            PoiError::SlotMismatch {
                expected: target_slot,
                got: slot_of(timestamp, genesis_timestamp) as u64,
            },
        )
    } else {
        None
    }
}

/// Checks that a block of this timestamp is the block of the target slot.
pub fn check_slot(timestamp: u64, genesis_timestamp: u64, target_slot: u64) -> (objection: Option<
    PoiError,
>)
    ensures
        objection == slot_objection(timestamp, genesis_timestamp, target_slot),
{
    if timestamp < genesis_timestamp {
        return Some(PoiError::TimestampBeforeGenesis { timestamp, genesis_timestamp });
    }
    let got: u64 = get_slot_from_timestamp(timestamp, genesis_timestamp);
    if got != target_slot {
        Some(PoiError::SlotMismatch { expected: target_slot, got })
    } else {
        None
    }
}

} // verus!
