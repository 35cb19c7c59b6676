//! A namespace mirroring the free Base58 conversion functions.

use crate::base58::base58_decode_of;
use crate::errors::PoseidonError;
use crate::errors::PoseidonResult;
use crate::Base58Value;
use vstd::prelude::*;

verus! {

/// A namespace for stateless helper conversions.
pub struct Utilities;

impl Utilities {
    /// Decodes a Base58 string into exactly 32 bytes.
    pub fn base58_to_u32_array(value: Base58Value) -> (r: PoseidonResult<[u8; 32]>)
        ensures
            r is Ok <==> (base58_decode_of(value@) is Some && base58_decode_of(
                value@,
            )->Some_0.len() == 32),
            base58_decode_of(value@) is None <==> r == Err::<[u8; 32], PoseidonError>(
                PoseidonError::InvalidBase58ForPublicKey,
            ),
            (base58_decode_of(value@) is Some && base58_decode_of(value@)->Some_0.len() != 32)
                <==> r == Err::<[u8; 32], PoseidonError>(PoseidonError::ErrorConvertingToU832),
            r is Ok ==> base58_decode_of(value@) == Some(r->Ok_0@),
    {
        crate::utils::base58_to_u32_array(value)
    }

    /// Decodes a Base58 string into its bytes.
    pub fn base58_to_binary(value: Base58Value) -> (r: PoseidonResult<Vec<u8>>)
        ensures
            r is Ok <==> base58_decode_of(value@) is Some,
            r is Ok ==> base58_decode_of(value@) == Some(r->Ok_0@),
            r is Err ==> r == Err::<Vec<u8>, PoseidonError>(PoseidonError::InvalidBase58ForPublicKey),
    {
        match crate::base58::base58_decode(value) {
            Some(decoded) => Ok(decoded),
            None => Err(PoseidonError::InvalidBase58ForPublicKey),
        }
    }
}

} // verus!
