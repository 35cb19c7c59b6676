//! The envelopes JSON-RPC responses arrive in, as plain data.

use crate::message::MessageHeader;
use crate::Base58PublicKey;
use vstd::prelude::*;

verus! {

/// The context member of a response: the slot it was produced at.
#[derive(Debug, Clone, Copy, PartialEq, Eq, Structural, PartialOrd, Ord)]
pub struct Context {
    pub slot: u64,
}

/// A response whose result stands alone.
#[derive(Debug, Clone)]
pub struct RpcResponse<T> {
    pub jsonrpc: String,
    pub id: u8,
    pub result: T,
}

/// A response whose result carries a context.
#[derive(Debug, Clone)]
pub struct RpcResponseWithResult<T> {
    pub jsonrpc: String,
    pub id: u8,
    pub result: RpcResult<T>,
}

/// A result member carrying a context.
#[derive(Debug, Clone)]
pub struct RpcResult<T> {
    pub context: Context,
    pub value: T,
}

/// A flattened `getRecentBlockhash` response.
#[derive(Debug, Clone)]
pub struct RecentBlockHashResponse {
    pub jsonrpc: String,
    pub id: u8,
    pub slot: u64,
    pub blockhash: String,
    pub lamports_per_signature: u32,
}

/// A `sendTransaction` response: the signature in Base58.
#[derive(Debug, Clone)]
pub struct TxSignResponse {
    pub jsonrpc: String,
    pub id: u8,
    pub result: crate::Base58TxSignature,
}

/// Why an account was rewarded.
#[derive(Debug, Clone, Copy, PartialEq, Eq, Structural, PartialOrd, Ord)]
pub enum RewardType {
    Fee,
    Rent,
    Staking,
    Voting,
}

/// A reward a transaction reports.
#[derive(Debug, Clone)]
pub struct Reward {
    pub pubkey: String,
    pub lamports: i64,
    pub post_balance: u64,
    pub reward_type: RewardType,
    pub commission: u8,
}

/// A compiled instruction as a transaction response renders it.
#[derive(Debug, Clone)]
pub struct RpcCompiledInstruction {
    pub program_id_index: u8,
    pub accounts: Vec<u8>,
    pub data: String,
}

/// A message as a transaction response renders it.
#[derive(Debug, Clone)]
pub struct RpcMessage {
    pub header: MessageHeader,
    pub account_keys: Vec<Base58PublicKey>,
    pub recent_blockhash: String,
    pub instructions: Vec<RpcCompiledInstruction>,
}

/// Inner instructions a transaction response reports.
#[derive(Debug, Clone)]
pub struct RpcInnerInstructions {
    pub index: u8,
    pub instructions: Vec<RpcCompiledInstruction>,
}

} // verus!
