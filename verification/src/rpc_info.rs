//! Data carried by the common RPC requests and responses.

use crate::base58::base58_decode;
use crate::base58::base58_decode_of;
use crate::common::Commitment;
use crate::errors::PoseidonError;
use crate::errors::PoseidonResult;
use crate::PublicKey;
use vstd::prelude::*;

verus! {

/// Lamports in one whole token.
pub const LAMPORT: u64 = 1_000_000_000;

/// The value of a `getLatestBlockhash` response.
#[derive(Debug, Clone)]
pub struct GetLatestBlockhash {
    pub blockhash: String,
    pub last_valid_block_height: u64,
}

impl GetLatestBlockhash {
    /// The blockhash, decoded from Base58 into its 32 raw bytes.
    pub fn to_bytes(&self) -> (r: PoseidonResult<[u8; 32]>)
        ensures
            base58_decode_of(self.blockhash@) is None <==> r == Err::<[u8; 32], PoseidonError>(
                PoseidonError::Bs58Decode,
            ),
            (base58_decode_of(self.blockhash@) is Some && base58_decode_of(
                self.blockhash@,
            )->Some_0.len() != 32) <==> r == Err::<[u8; 32], PoseidonError>(
                PoseidonError::ErrorConvertingToU832,
            ),
            r is Ok <==> (base58_decode_of(self.blockhash@) is Some && base58_decode_of(
                self.blockhash@,
            )->Some_0.len() == 32),
            r is Ok ==> base58_decode_of(self.blockhash@) == Some(r->Ok_0@),
    {
        let decoded = match base58_decode(self.blockhash.as_str()) {
            Some(decoded) => decoded,
            None => {
                return Err(PoseidonError::Bs58Decode);
            },
        };
        if decoded.len() != 32 {
            return Err(PoseidonError::ErrorConvertingToU832);
        }
        let mut blockhash: [u8; 32] = [0; 32];
        for i in 0..32
            invariant
                decoded@.len() == 32,
                forall|j: int| 0 <= j < i ==> blockhash@[j] == decoded@[j],
        {
            blockhash[i] = decoded[i];
        }
        proof {
            assert(blockhash@ =~= decoded@);
        }
        Ok(blockhash)
    }
}

/// The value of a `getFees` response.
#[derive(Debug, Clone)]
pub struct GetFees {
    pub blockhash: String,
    pub fee_calculator: FeeCalculator,
    pub last_valid_block_height: u64,
    pub last_valid_slot: u64,
}

/// The fee schedule a cluster reports.
#[derive(Debug, Clone)]
pub struct FeeCalculator {
    pub lamports_per_signature: u64,
}

/// The request body of a `requestAirdrop` call.
#[derive(Debug, Clone, Copy)]
pub struct RequestAirdrop {
    pub public_key: PublicKey,
    pub lamports: u8,
    pub commitment: Commitment,
}

impl RequestAirdrop {
    /// A request of two whole tokens at finalized commitment.
    pub fn new(public_key: PublicKey) -> (r: Self)
        ensures
            r == (RequestAirdrop {
                public_key,
                lamports: 2u8,
                commitment: Commitment::Finalized,
            }),
    {
        RequestAirdrop { public_key, lamports: 2, commitment: Commitment::Finalized }
    }

    /// Sets the number of whole tokens to request.
    pub fn add_lamports(self, lamports: u8) -> (r: Self)
        ensures
            r == (RequestAirdrop { lamports, ..self }),
    {
        Self { lamports, ..self }
    }

    /// Sets the commitment level of the request.
    pub fn change_commitment(self, commitment: Commitment) -> (r: Self)
        ensures
            r == (RequestAirdrop { commitment, ..self }),
    {
        Self { commitment, ..self }
    }
}

/// A `getMinimumBalanceForRentExemption` request.
#[derive(Debug, Clone, Copy)]
pub struct GetMinimumBalanceForRentExemption;

/// The value of a `getAccountInfo` response.
#[derive(Debug)]
pub struct GetAccountInfo {
    pub data: (String, String),
    pub executable: bool,
    pub lamports: u64,
    pub owner: String,
    pub rent_epoch: u64,
}

} // verus!
