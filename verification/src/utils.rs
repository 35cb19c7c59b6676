//! Conversions from Base58 strings to raw keys and byte vectors.

use crate::base58::base58_decode;
use crate::base58::base58_decode_of;
use crate::errors::PoseidonError;
use crate::errors::PoseidonResult;
use crate::Base58Value;
use vstd::prelude::*;

verus! {

/// A scalar read out of a dynamically typed value.
#[derive(Debug, Clone, PartialEq, Eq, PartialOrd, Ord)]
pub enum PoseidonValue {
    Number(u8),
    String(String),
    InvalidValue(String),
}

/// Decodes a Base58 string into exactly 32 bytes.
pub fn base58_to_u32_array(value: Base58Value) -> (r: PoseidonResult<[u8; 32]>)
    ensures
        r is Ok <==> (base58_decode_of(value@) is Some && base58_decode_of(value@)->Some_0.len()
            == 32),
        base58_decode_of(value@) is None <==> r == Err::<[u8; 32], PoseidonError>(
            PoseidonError::InvalidBase58ForPublicKey,
        ),
        (base58_decode_of(value@) is Some && base58_decode_of(value@)->Some_0.len() != 32) <==> r
            == Err::<[u8; 32], PoseidonError>(PoseidonError::ErrorConvertingToU832),
        r is Ok ==> base58_decode_of(value@) == Some(r->Ok_0@),
{
    let decoded_value = match base58_decode(value) {
        Some(decoded) => decoded,
        None => {
            return Err(PoseidonError::InvalidBase58ForPublicKey);
        },
    };

    if decoded_value.len() != 32 {
        return Err(PoseidonError::ErrorConvertingToU832);
    }

    let mut converted_value: [u8; 32] = [0; 32];
    for i in 0..32
        invariant
            decoded_value@.len() == 32,
            forall|j: int| 0 <= j < i ==> converted_value@[j] == decoded_value@[j],
    {
        converted_value[i] = decoded_value[i];
    }

    assert(converted_value@ =~= decoded_value@);
    Ok(converted_value)
}

/// Decodes a Base58 string into its bytes.
pub fn base58_to_binary(value: Base58Value) -> (r: PoseidonResult<Vec<u8>>)
    ensures
        r is Ok <==> base58_decode_of(value@) is Some,
        r is Ok ==> base58_decode_of(value@) == Some(r->Ok_0@),
        r is Err ==> r == Err::<Vec<u8>, PoseidonError>(PoseidonError::InvalidBase58ToVec),
{
    match base58_decode(value) {
        Some(decoded) => Ok(decoded),
        None => Err(PoseidonError::InvalidBase58ToVec),
    }
}

} // verus!
