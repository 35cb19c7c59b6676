//! One or more signatures paired with the compiled message they sign.

use crate::base58::base58_encode;
use crate::base58::base58_encode_of;
use crate::errors::PoseidonError;
use crate::errors::PoseidonResult;
use crate::message::Message;
use crate::shortvec::encode_length;
use crate::shortvec::shortvec_len_bytes;
use crate::wire::message_bytes;
use crate::wire::message_encodable;
use crate::wire::signatures_bytes;
use crate::Signature;
use vstd::prelude::*;

verus! {

/// A signed transaction, ready for canonical binary serialization.
#[derive(Debug, Clone)]
pub struct Transaction {
    /// The signatures, one per required signer, in signer order.
    pub signatures: Vec<Signature>,
    /// The message the signatures cover.
    pub message: Message,
}

/// A transaction: the signatures behind their compact count, then the
/// message in its canonical form.
pub open spec fn transaction_bytes(t: Transaction) -> Seq<u8> {
    shortvec_len_bytes(t.signatures@.len() as int) + signatures_bytes(t.signatures@)
        + message_bytes(t.message)
}

/// Whether every count of a transaction fits the compact length encoding.
pub open spec fn transaction_encodable(t: Transaction) -> bool {
    t.signatures@.len() <= 0xFFFF && message_encodable(t.message)
}

/// Appends the raw bytes of one 64-byte signature.
fn append_signature_bytes(out: &mut Vec<u8>, signature: &Signature)
    ensures
        final(out)@ == old(out)@ + signature@,
{
    let ghost prefix = out@;
    for i in 0..64
        invariant
            out@ == prefix + signature@.take(i as int),
    {
        proof {
            assert(prefix + signature@.take(i + 1) =~= (prefix + signature@.take(i as int)).push(
                signature@[i as int],
            ));
        }
        out.push(signature[i]);
    }
    proof {
        assert(prefix + signature@.take(64) =~= prefix + signature@);
    }
}

impl Transaction {
    /// A transaction over the given message, with no signatures yet.
    pub fn new(message: Message) -> (r: Self)
        ensures
            r.signatures@ == Seq::<Signature>::empty(),
            r.message == message,
    {
        Transaction { signatures: Vec::new(), message }
    }

    /// Appends one signature.
    pub fn add_signature(self, signature: Signature) -> (r: Self)
        ensures
            r.signatures@ == self.signatures@.push(signature),
            r.message == self.message,
    {
        let mut signatures = self.signatures;
        signatures.push(signature);
        Self { signatures, ..self }
    }

    /// The canonical binary form of the transaction. Fails only where a
    /// count does not fit the compact length encoding.
    pub fn to_bytes(&self) -> (r: PoseidonResult<Vec<u8>>)
        ensures
            r is Ok <==> transaction_encodable(*self),
            r is Ok ==> r->Ok_0@ == transaction_bytes(*self),
            r is Err ==> r == Err::<Vec<u8>, PoseidonError>(PoseidonError::BincodeError),
    {
        if self.signatures.len() > 0xFFFF {
            return Err(PoseidonError::BincodeError);
        }
        let message_bytes = match self.message.to_bytes() {
            Ok(bytes) => bytes,
            Err(error) => {
                return Err(error);
            },
        };
        let mut out = encode_length(self.signatures.len() as u16);
        let ghost sigs_prefix = out@;
        let count = self.signatures.len();
        for i in 0..count
            invariant
                count == self.signatures@.len(),
                out@ == sigs_prefix + signatures_bytes(self.signatures@.take(i as int)),
        {
            proof {
                assert(self.signatures@.take(i + 1).drop_last() =~= self.signatures@.take(
                    i as int,
                ));
            }
            append_signature_bytes(&mut out, &self.signatures[i]);
        }
        proof {
            assert(self.signatures@.take(count as int) =~= self.signatures@);
        }
        out.extend_from_slice(message_bytes.as_slice());
        proof {
            assert(out@ =~= transaction_bytes(*self));
        }
        Ok(out)
    }

    /// The canonical binary form of the transaction, rendered in Base58.
    pub fn to_base58(&self) -> (r: PoseidonResult<String>)
        ensures
            r is Ok <==> transaction_encodable(*self),
            r is Ok ==> r->Ok_0@ == base58_encode_of(transaction_bytes(*self)),
            r is Err ==> r == Err::<String, PoseidonError>(PoseidonError::BincodeError),
    {
        let serialized_tx = match self.to_bytes() {
            Ok(bytes) => bytes,
            Err(error) => {
                return Err(error);
            },
        };
        Ok(base58_encode(serialized_tx.as_slice()))
    }
}

} // verus!
