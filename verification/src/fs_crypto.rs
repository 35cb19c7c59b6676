//! The client configuration: a key pair and a program id, each rendered
//! in Base58.

use crate::base58::base58_encode;
use crate::base58::base58_encode_of;
use crate::Base58PublicKey;
use crate::Base58SecretKey;
use crate::ProgramID;
use vstd::prelude::*;

verus! {

/// A client configuration.
#[derive(Debug, Clone, PartialEq)]
pub struct PoseidonConfig {
    pub secret_key: Base58SecretKey,
    pub public_key: Base58PublicKey,
    pub program_id: ProgramID,
}

impl PoseidonConfig {
    /// A configuration whose three entries all name the zero key.
    pub fn new() -> (r: Self)
        ensures
            r.secret_key@ == base58_encode_of(Seq::new(32, |i: int| 0u8)),
            r.public_key@ == base58_encode_of(Seq::new(32, |i: int| 0u8)),
            r.program_id@ == base58_encode_of(Seq::new(32, |i: int| 0u8)),
    {
        let default_key: [u8; 32] = [0; 32];
        proof {
            assert(default_key@ =~= Seq::new(32, |i: int| 0u8));
        }
        let default_base58key = base58_encode(default_key.as_slice());
        PoseidonConfig {
            secret_key: default_base58key.clone(),
            public_key: default_base58key.clone(),
            program_id: default_base58key,
        }
    }
}

} // verus!
