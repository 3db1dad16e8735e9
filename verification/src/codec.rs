//! The integer codec of the wire format: eight bytes, least significant
//! first.

use vstd::prelude::*;
use vstd::bytes::{spec_u64_from_le_bytes, spec_u64_to_le_bytes};

verus! {

/// Reads a `u64` with `BorshDeserialize::try_from_slice` of borsh.
///
/// Believed of it: the call succeeds exactly on slices of eight bytes, and
/// then gives the integer whose little-endian bytes they are.
#[verifier::external_body]
pub(crate) fn decode_u64(bytes: &[u8]) -> (r: Option<u64>)
    ensures
        r is Some <==> bytes@.len() == 8,
        r is Some ==> r->0 == spec_u64_from_le_bytes(bytes@),
{
    let decoded: Result<u64, _> = borsh::BorshDeserialize::try_from_slice(bytes);
    decoded.ok()
}

/// Writes a `u64` with `BorshSerialize::try_to_vec` of borsh.
///
/// Believed of it: the result is the eight little-endian bytes of `value`;
/// writing into a fresh vector does not fail.
#[verifier::external_body]
pub(crate) fn encode_u64(value: u64) -> (r: Vec<u8>)
    ensures
        r@ == spec_u64_to_le_bytes(value),
{
    match borsh::BorshSerialize::try_to_vec(&value) {
        Ok(bytes) => bytes,
        Err(_) => Vec::new(),
    }
}

} // verus!
