//! Base58 encoding and decoding, supplied by the `bs58` crate and trusted
//! under the contracts below.

use vstd::prelude::*;

verus! {

/// The bytes that Base58 decoding yields for a string, or `None` where the
/// string is not valid Base58.
pub uninterp spec fn base58_decode_of(s: Seq<char>) -> Option<Seq<u8>>;

/// The Base58 rendering of a byte sequence.
pub uninterp spec fn base58_encode_of(b: Seq<u8>) -> Seq<char>;

/// Relies on bs58::decode: whether decoding succeeds, and the bytes it
/// yields, depend on the input characters alone.
#[verifier::external_body]
pub(crate) fn base58_decode(value: &str) -> (r: Option<Vec<u8>>)
    ensures
        r is Some <==> base58_decode_of(value@) is Some,
        r is Some ==> r->Some_0@ == base58_decode_of(value@)->Some_0,
{
    match bs58::decode(value).into_vec() {
        Ok(decoded) => Some(decoded),
        Err(_) => None,
    }
}

/// Relies on bs58::encode: the rendering depends on the input bytes alone.
#[verifier::external_body]
pub(crate) fn base58_encode(bytes: &[u8]) -> (r: String)
    ensures
        r@ == base58_encode_of(bytes@),
{
    bs58::encode(bytes).into_string()
}

} // verus!
