//! Account data as a `getAccountInfo` response carries it, and its
//! decoded binary form.

use crate::base58::base58_decode;
use crate::base58::base58_decode_of;
use crate::errors::PoseidonError;
use crate::errors::PoseidonResult;
use crate::utils::base58_to_u32_array;
use crate::PoseidonPublicKey;
use vstd::prelude::*;

verus! {

/// A raw `getAccountInfo` response.
#[derive(Debug, Clone)]
pub struct RpcAccountData {
    pub jsonrpc: String,
    pub result: RpcAccountDataResult,
    pub id: u8,
}

/// The result member of a raw response.
#[derive(Debug, Clone)]
pub struct RpcAccountDataResult {
    pub context: RpcAccountDataContext,
    pub value: RpcAccountDataValue,
}

/// The context member of a raw response.
#[derive(Debug, Clone)]
pub struct RpcAccountDataContext {
    pub slot: u64,
}

/// The value member of a raw response.
#[derive(Debug, Clone)]
pub struct RpcAccountDataValue {
    pub data: Vec<String>,
    pub executable: bool,
    pub lamports: u64,
    pub owner: String,
    pub rent_epoch: u64,
}

/// A flattened account-data response.
#[derive(Debug, Clone)]
pub struct AccountData {
    pub jsonrpc: String,
    pub id: u8,
    pub slot: u64,
    pub data: Vec<String>,
    pub owner: String,
    pub rent_epoch: u64,
    pub executable: bool,
    pub lamports: u64,
}

impl AccountData {
    /// The owner key, decoded from Base58 into its 32 raw bytes.
    pub fn owner_public_key(&self) -> (r: PoseidonResult<PoseidonPublicKey>)
        ensures
            r is Ok <==> (base58_decode_of(self.owner@) is Some && base58_decode_of(
                self.owner@,
            )->Some_0.len() == 32),
            r is Ok ==> base58_decode_of(self.owner@) == Some(r->Ok_0@),
            base58_decode_of(self.owner@) is None ==> r == Err::<
                PoseidonPublicKey,
                PoseidonError,
            >(PoseidonError::InvalidBase58ForPublicKey),
            (base58_decode_of(self.owner@) is Some && base58_decode_of(self.owner@)->Some_0.len()
                != 32) ==> r == Err::<PoseidonPublicKey, PoseidonError>(
                PoseidonError::ErrorConvertingToU832,
            ),
    {
        base58_to_u32_array(self.owner.as_str())
    }

    /// Every data entry decoded from Base58, or the position of the first
    /// entry that does not decode.
    pub fn all_binary_data(&self) -> (r: Result<Vec<Vec<u8>>, (usize, PoseidonError)>)
        ensures
            r is Ok <==> (forall|i: int|
                0 <= i < self.data@.len() ==> base58_decode_of(
                    (#[trigger] self.data@[i])@,
                ) is Some),
            r is Ok ==> r->Ok_0@.len() == self.data@.len() && forall|i: int|
                0 <= i < self.data@.len() ==> Some((#[trigger] r->Ok_0@[i])@) == base58_decode_of(
                    self.data@[i]@,
                ),
            r is Err ==> ({
                let (at, error) = r->Err_0;
                &&& 0 <= at < self.data@.len()
                &&& base58_decode_of(self.data@[at as int]@) is None
                &&& forall|i: int|
                    0 <= i < at ==> base58_decode_of((#[trigger] self.data@[i])@) is Some
                &&& error == PoseidonError::InvalidBase58ToVec
            }),
    {
        let mut binary_data_collection: Vec<Vec<u8>> = Vec::new();
        let count = self.data.len();
        for index in 0..count
            invariant
                count == self.data@.len(),
                binary_data_collection@.len() == index,
                forall|i: int|
                    0 <= i < index ==> base58_decode_of((#[trigger] self.data@[i])@) is Some,
                forall|i: int|
                    0 <= i < index ==> Some((#[trigger] binary_data_collection@[i])@)
                        == base58_decode_of(self.data@[i]@),
        {
            match base58_decode(self.data[index].as_str()) {
                Some(binary_data) => {
                    binary_data_collection.push(binary_data);
                },
                None => {
                    return Err((index, PoseidonError::InvalidBase58ToVec));
                },
            }
        }
        Ok(binary_data_collection)
    }

    /// One data entry decoded from Base58.
    pub fn indexed_binary_data(&self, index: usize) -> (r: PoseidonResult<Vec<u8>>)
        requires
            index < self.data@.len(),
        ensures
            r is Ok <==> base58_decode_of(self.data@[index as int]@) is Some,
            r is Ok ==> Some(r->Ok_0@) == base58_decode_of(self.data@[index as int]@),
            r is Err ==> r == Err::<Vec<u8>, PoseidonError>(PoseidonError::InvalidBase58ToVec),
    {
        match base58_decode(self.data[index].as_str()) {
            Some(binary_data) => Ok(binary_data),
            None => Err(PoseidonError::InvalidBase58ToVec),
        }
    }
}

impl From<RpcAccountData> for AccountData {
    /// Flattens a raw response.
    fn from(rpc_data: RpcAccountData) -> (r: Self) {
        AccountData {
            jsonrpc: rpc_data.jsonrpc,
            id: rpc_data.id,
            slot: rpc_data.result.context.slot,
            data: rpc_data.result.value.data,
            owner: rpc_data.result.value.owner,
            rent_epoch: rpc_data.result.value.rent_epoch,
            executable: rpc_data.result.value.executable,
            lamports: rpc_data.result.value.lamports,
        }
    }
}

impl vstd::std_specs::convert::FromSpecImpl<RpcAccountData> for AccountData {
    open spec fn obeys_from_spec() -> bool {
        true
    }

    open spec fn from_spec(rpc_data: RpcAccountData) -> Self {
        AccountData {
            jsonrpc: rpc_data.jsonrpc,
            id: rpc_data.id,
            slot: rpc_data.result.context.slot,
            data: rpc_data.result.value.data,
            owner: rpc_data.result.value.owner,
            rent_epoch: rpc_data.result.value.rent_epoch,
            executable: rpc_data.result.value.executable,
            lamports: rpc_data.result.value.lamports,
        }
    }
}

} // verus!
