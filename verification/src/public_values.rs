//! What a verification commits to, and the program as a whole: from its inputs to
//! the bytes that it commits.

use vstd::prelude::*;

use crate::ethereum::{encode_public_values, parsed_header, public_values_layout};
use crate::headers::read_header;
use crate::signing::{read_signature, signature_bytes, signature_in, write_signature};
use crate::types::{
    Address, BlockHeader, HeaderView, PoiError, PreconfRequest, PublicValues, Signature,
    VerificationResult, B256,
};
use crate::verification::{poi_outcome, run_poi_verification};

verus! {

/// Collects what a verification commits to.
pub fn create_public_values(
    inclusion_block_header: &BlockHeader,
    inclusion_block_hash: &B256,
    underwriter_address: &Address,
    preconf_signature: &Signature,
    genesis_timestamp: u64,
    taiyi_core: &Address,
) -> (values: PublicValues)
    ensures
        values.proof_block_timestamp == inclusion_block_header@.timestamp,
        values.proof_block_hash == *inclusion_block_hash,
        values.proof_block_number == inclusion_block_header@.number,
        values.underwriter_address == *underwriter_address,
        values.proof_signature@ == signature_bytes(*preconf_signature),
        values.genesis_timestamp == genesis_timestamp,
        values.taiyi_core == *taiyi_core,
{
    PublicValues {
        proof_block_timestamp: inclusion_block_header.timestamp,
        proof_block_hash: *inclusion_block_hash,
        proof_block_number: inclusion_block_header.number,
        underwriter_address: *underwriter_address,
        proof_signature: write_signature(preconf_signature),
        genesis_timestamp,
        taiyi_core: *taiyi_core,
    }
}

/// Encodes what a verification commits to.
pub fn encode(values: &PublicValues) -> (encoded: Vec<u8>)
    ensures
        encoded@ == public_values_layout(
            values.proof_block_timestamp,
            values.proof_block_hash,
            values.proof_block_number,
            values.underwriter_address,
            values.proof_signature@,
            values.genesis_timestamp,
            values.taiyi_core,
        ),
{
    encode_public_values(values)
}

/// The bytes that a verification of this block, underwriter and signature commits.
pub open spec fn commitment(
    inclusion: HeaderView,
    inclusion_hash: B256,
    underwriter_address: Address,
    signature: Signature,
    genesis_timestamp: u64,
    taiyi_core: Address,
) -> Seq<u8> {
    public_values_layout(
        inclusion.timestamp,
        inclusion_hash,
        inclusion.number,
        underwriter_address,
        signature_bytes(signature),
        genesis_timestamp,
        taiyi_core,
    )
}

/// The outcome of the program with these inputs: the inclusion block header and the
/// signature are read first, as the public values need them.
pub open spec fn commitment_outcome(
    request: Option<PreconfRequest>,
    signature_text: Seq<char>,
    inclusion_json: Seq<char>,
    inclusion_hash: B256,
    previous_json: Seq<char>,
    previous_hash: B256,
    underwriter_address: Address,
    genesis_timestamp: u64,
    taiyi_core: Address,
) -> Result<VerificationResult, PoiError> {
    if parsed_header(inclusion_json) is None {
        Err(PoiError::InclusionHeaderFormat)
    } else if signature_in(signature_text) is None {
        Err(PoiError::SignatureFormat)
    } else {
        poi_outcome(
            request,
            signature_text,
            inclusion_json,
            inclusion_hash,
            previous_json,
            previous_hash,
            underwriter_address,
            genesis_timestamp,
            taiyi_core,
        )
    }
}

/// The program: verifies a request and, whatever the verification finds, encodes the
/// public values to commit. There is nothing to commit where the verification cannot
/// be completed.
pub fn verify_and_commit(
    preconf: &Option<PreconfRequest>,
    preconf_signature_str: &str,
    inclusion_block_header_str: &str,
    inclusion_block_hash: &B256,
    previous_block_header_str: &str,
    previous_block_hash: &B256,
    underwriter_address: &Address,
    genesis_timestamp: u64,
    taiyi_core: &Address,
) -> (r: Result<(VerificationResult, Vec<u8>), PoiError>)
    ensures
        ({
            let outcome = commitment_outcome(
                *preconf,
                preconf_signature_str@,
                inclusion_block_header_str@,
                *inclusion_block_hash,
                previous_block_header_str@,
                *previous_block_hash,
                *underwriter_address,
                genesis_timestamp,
                *taiyi_core,
            );
            match r {
                Ok((found, committed)) => {
                    &&& outcome == Ok::<VerificationResult, PoiError>(found)
                    &&& committed@ == commitment(
                        parsed_header(inclusion_block_header_str@).unwrap(),
                        *inclusion_block_hash,
                        *underwriter_address,
                        signature_in(preconf_signature_str@).unwrap(),
                        genesis_timestamp,
                        *taiyi_core,
                    )
                },
                Err(error) => outcome == Err::<VerificationResult, PoiError>(error),
            }
        }),
{
    let header = match read_header(inclusion_block_header_str) {
        Some(header) => header,
        None => return Err(PoiError::InclusionHeaderFormat),
    };
    let signature = match read_signature(preconf_signature_str) {
        Some(signature) => signature,
        None => return Err(PoiError::SignatureFormat),
    };
    let values = create_public_values(
        &header,
        inclusion_block_hash,
        underwriter_address,
        &signature,
        genesis_timestamp,
        taiyi_core,
    );
    match run_poi_verification(
        preconf,
        preconf_signature_str,
        inclusion_block_header_str,
        inclusion_block_hash,
        previous_block_header_str,
        previous_block_hash,
        underwriter_address,
        genesis_timestamp,
        taiyi_core,
    ) {
        Ok(found) => Ok((found, encode(&values))),
        Err(error) => Err(error),
    }
}

} // verus!
