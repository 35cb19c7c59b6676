//! Accounts as instructions name them: a public key with signer and
//! writable attributes.

use crate::PublicKey;
use vstd::prelude::*;

verus! {

/// An account referenced by an instruction.
#[derive(Debug, Clone, Copy, Eq, Hash)]
pub struct AccountMeta {
    /// An account's public key.
    pub pubkey: PublicKey,
    /// True if an `Instruction` requires a `Transaction` signature matching `pubkey`.
    pub is_signer: bool,
    /// True if the account data or metadata may be mutated during program execution.
    pub is_writable: bool,
}

impl AccountMeta {
    /// A writable account with the given key and signer attribute.
    pub fn new(pubkey: PublicKey, is_signer: bool) -> (r: Self)
        ensures
            r == (AccountMeta { pubkey, is_signer, is_writable: true }),
    {
        Self { pubkey, is_signer, is_writable: true }
    }

    /// A read-only account with the given key and signer attribute.
    pub fn new_readonly(pubkey: PublicKey, is_signer: bool) -> (r: Self)
        ensures
            r == (AccountMeta { pubkey, is_signer, is_writable: false }),
    {
        Self { pubkey, is_signer, is_writable: false }
    }
}

impl PartialEq for AccountMeta {
    fn eq(&self, other: &Self) -> (r: bool)
    {
        keys_equal(&self.pubkey, &other.pubkey) && self.is_signer == other.is_signer
            && self.is_writable == other.is_writable
    }
}

impl vstd::std_specs::cmp::PartialEqSpecImpl for AccountMeta {
    open spec fn obeys_eq_spec() -> bool {
        true
    }

    open spec fn eq_spec(&self, other: &Self) -> bool {
        self == other
    }
}

/// Whether two 32-byte keys hold the same bytes.
pub fn keys_equal(a: &PublicKey, b: &PublicKey) -> (r: bool)
    ensures
        r == (a == b),
{
    for i in 0..32
        invariant
            forall|j: int| 0 <= j < i ==> a@[j] == b@[j],
    {
        if a[i] != b[i] {
            return false;
        }
    }
    proof {
        assert(a@ =~= b@);
        assert(a == b);
    }
    true
}

} // verus!
