//! The underwriter's signature of a preconfirmation.

use vstd::prelude::*;

use crate::bytes::array_eq;
use crate::ethereum::{parse_signature, recover_address, recovered_address, signature_text};
use crate::types::{Address, PoiError, Signature, B256};

verus! {

/// The signature whose hex form a text is, if it is one.
pub open spec fn signature_in(text: Seq<char>) -> Option<Signature> {
    if exists|signature: Signature| signature_text(text, signature) {
        Some(choose|signature: Signature| signature_text(text, signature))
    } else {
        None
    }
}

/// A text is the hex form of one signature at most.
pub proof fn signature_text_unique(text: Seq<char>, one: Signature, other: Signature)
    requires
        signature_text(text, one),
        signature_text(text, other),
    ensures
        one == other,
{
    assert forall|i: int| 0 <= i < 32 implies one.r[i] == other.r[i] && one.s[i]
        == other.s[i] by {}
    assert(one.r =~= other.r);
    assert(one.s =~= other.s);
}

/// Reads a signature from its hex form.
pub fn read_signature(text: &str) -> (signature: Option<Signature>)
    ensures
        signature == signature_in(text@),
{
    match parse_signature(text) {
        Ok(signature) => {
            proof {
                signature_text_unique(text@, signature, signature_in(text@).unwrap());
            }
            Some(signature)
        },
        Err(_) => None,
    }
}

/// The 65 bytes of a signature: `r`, `s`, and 27 or 28 for the parity.
pub open spec fn signature_bytes(signature: Signature) -> Seq<u8> {
    signature.r@ + signature.s@ + seq![if signature.y_parity { 28u8 } else { 27u8 }]
}

/// Writes the 65 bytes of a signature.
pub fn write_signature(signature: &Signature) -> (bytes: Vec<u8>)
    ensures
        bytes@ == signature_bytes(*signature),
{
    let mut bytes: Vec<u8> = Vec::new();
    bytes.extend_from_slice(&signature.r);
    bytes.extend_from_slice(&signature.s);
    bytes.push(if signature.y_parity { 28 } else { 27 });
    assert(bytes@ =~= signature_bytes(*signature));
    bytes
}

/// What is wrong with a preconfirmation, given the address recovered from its
/// signature.
pub open spec fn underwriter_objection(recovered: Option<Address>, expected: Address) -> Option<
    PoiError,
> {
    match recovered {
        None => Some(PoiError::UnrecoverableUnderwriter),
        Some(recovered) => if recovered != expected {
            Some(PoiError::UnderwriterMismatch { expected, recovered })
        } else {
            None
        },
    }
}

/// Judges a preconfirmation, given the address recovered from its signature.
pub fn judge_underwriter(recovered: Option<Address>, expected: &Address) -> (objection: Option<
    PoiError,
>)
    ensures
        objection == underwriter_objection(recovered, *expected),
{
    match recovered {
        Some(recovered) => {
            if !array_eq(&recovered, expected) {
                Some(PoiError::UnderwriterMismatch { expected: *expected, recovered })
            } else {
                None
            }
        },
        None => Some(PoiError::UnrecoverableUnderwriter),
    }
}

/// Checks that the underwriter signed the digest of a preconfirmation.
pub fn check_underwriter(signature: &Signature, digest: &B256, expected: &Address) -> (objection:
    Option<PoiError>)
    ensures
        objection == underwriter_objection(recovered_address(*signature, *digest), *expected),
{
    let recovered = match recover_address(signature, digest) {
        Ok(address) => Some(address),
        Err(_) => None,
    };
    judge_underwriter(recovered, expected)
}

} // verus!
