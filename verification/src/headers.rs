//! The two block headers that a verification rests on: that of the block with the
//! transactions, and that of its parent, whose state the senders start from.

use vstd::prelude::*;

use crate::bytes::array_eq;
use crate::ethereum::{hash_header, header_hash, parse_header, parsed_header};
use crate::types::{BlockHeader, HeaderView, PoiError, B256};

verus! {

/// What is wrong with two headers, given their hashes and those expected of them.
pub open spec fn headers_objection_given(
    parent_hash: B256,
    inclusion_computed: B256,
    inclusion_expected: B256,
    previous_computed: B256,
    previous_expected: B256,
) -> Option<PoiError> {
    if inclusion_computed != inclusion_expected {
        Some(
            PoiError::InclusionHashMismatch {
                computed: inclusion_computed,
                expected: inclusion_expected,
            },
        )
    } else if previous_computed != previous_expected {
        Some(
            PoiError::PreviousHashMismatch {
                computed: previous_computed,
                expected: previous_expected,
            },
        )
    } else if parent_hash != previous_expected {
        Some(PoiError::BrokenChain { parent: parent_hash, previous: previous_expected })
    } else {
        None
    }
}

/// Judges two headers, given their hashes and those expected of them.
pub fn judge_headers(
    parent_hash: &B256,
    inclusion_computed: &B256,
    inclusion_expected: &B256,
    previous_computed: &B256,
    previous_expected: &B256,
) -> (objection: Option<PoiError>)
    ensures
        objection == headers_objection_given(
            *parent_hash,
            *inclusion_computed,
            *inclusion_expected,
            *previous_computed,
            *previous_expected,
        ),
{
    if !array_eq(inclusion_computed, inclusion_expected) {
        Some(
            PoiError::InclusionHashMismatch {
                computed: *inclusion_computed,
                expected: *inclusion_expected,
            },
        )
    } else if !array_eq(previous_computed, previous_expected) {
        Some(
            PoiError::PreviousHashMismatch {
                computed: *previous_computed,
                expected: *previous_expected,
            },
        )
    } else if !array_eq(parent_hash, previous_expected) {
        Some(PoiError::BrokenChain { parent: *parent_hash, previous: *previous_expected })
    } else {
        None
    }
}

/// The inclusion block header and the previous one, if both are headers with the
/// expected hashes and the first is a child of the second.
pub open spec fn linked_headers(
    inclusion_json: Seq<char>,
    inclusion_expected: B256,
    previous_json: Seq<char>,
    previous_expected: B256,
) -> Result<(HeaderView, HeaderView), PoiError> {
    match (parsed_header(inclusion_json), parsed_header(previous_json)) {
        (None, _) => Err(PoiError::InclusionHeaderFormat),
        (_, None) => Err(PoiError::PreviousHeaderFormat),
        (Some(inclusion), Some(previous)) => match headers_objection_given(
            inclusion.parent_hash,
            header_hash(inclusion),
            inclusion_expected,
            header_hash(previous),
            previous_expected,
        ) {
            Some(error) => Err(error),
            None => Ok((inclusion, previous)),
        },
    }
}

/// Reads a block header from JSON.
pub fn read_header(json: &str) -> (header: Option<BlockHeader>)
    ensures
        match header {
            Some(header) => parsed_header(json@) == Some(header@),
            None => parsed_header(json@) is None,
        },
{
    match parse_header(json) {
        Ok(header) => Some(header),
        Err(_) => None,
    }
}

/// Reads and links the inclusion block header and the previous one.
pub fn link_headers(
    inclusion_json: &str,
    inclusion_expected: &B256,
    previous_json: &str,
    previous_expected: &B256,
) -> (headers: Result<(BlockHeader, BlockHeader), PoiError>)
    ensures
        match headers {
            Ok((inclusion, previous)) => linked_headers(
                inclusion_json@,
                *inclusion_expected,
                previous_json@,
                *previous_expected,
            ) == Ok::<(HeaderView, HeaderView), PoiError>((inclusion@, previous@)),
            Err(error) => linked_headers(
                inclusion_json@,
                *inclusion_expected,
                previous_json@,
                *previous_expected,
            ) == Err::<(HeaderView, HeaderView), PoiError>(error),
        },
{
    let inclusion = match read_header(inclusion_json) {
        Some(header) => header,
        None => return Err(PoiError::InclusionHeaderFormat),
    };
    let previous = match read_header(previous_json) {
        Some(header) => header,
        None => return Err(PoiError::PreviousHeaderFormat),
    };
    let objection = judge_headers(
        &inclusion.parent_hash,
        &hash_header(&inclusion),
        inclusion_expected,
        &hash_header(&previous),
        previous_expected,
    );
    match objection {
        Some(error) => Err(error),
        None => Ok((inclusion, previous)),
    }
}

} // verus!
