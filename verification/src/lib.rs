//! Assembly of signable transactions for an account-based ledger:
//! account resolution and ordering, message compilation, program-derived
//! address computation, and fixed-offset binary instruction layouts.

mod accounts;
mod base58;
mod clusters;
mod common;
mod compiled_instruction;
mod ed25519_program;
mod errors;
mod fs_crypto;
mod get_account_data;
mod hashing;
mod instruction;
mod message;
mod message_builder;
mod pda;
pub mod pdas;
mod programs;
mod rpc_info;
mod rpc_responses;
mod sequences;
mod shortvec;
mod system_instruction;
mod transaction;
mod utilities;
mod utils;
mod wire;

pub use accounts::AccountMeta;
pub use accounts::keys_equal;
pub use base58::base58_decode_of;
pub use base58::base58_encode_of;
pub use clusters::Cluster;
pub use common::Commitment;
pub use common::lower_of;
pub use common::spec_commitment_from;
pub use compiled_instruction::bytes_equal;
pub use compiled_instruction::CompiledInstruction;
pub use ed25519_program::DATA_START;
pub use ed25519_program::ed25519_instruction_data;
pub use ed25519_program::Ed25519ProgramCPI;
pub use ed25519_program::Ed25519SignatureOffsets;
pub use ed25519_program::lemma_encode_deterministic;
pub use ed25519_program::PUBKEY_SERIALIZED_SIZE;
pub use ed25519_program::SIGNATURE_OFFSETS_SERIALIZED_SIZE;
pub use ed25519_program::SIGNATURE_OFFSETS_START;
pub use ed25519_program::SIGNATURE_SERIALIZED_SIZE;
pub use ed25519_program::u16_le_bytes;
pub use errors::JsonRpcError;
pub use errors::PoseidonError;
pub use errors::PoseidonResult;
pub use errors::RpcResponseJsonError;
pub use fs_crypto::PoseidonConfig;
pub use get_account_data::AccountData;
pub use get_account_data::RpcAccountData;
pub use get_account_data::RpcAccountDataContext;
pub use get_account_data::RpcAccountDataResult;
pub use get_account_data::RpcAccountDataValue;
pub use hashing::sha256_of;
pub use instruction::Instruction;
pub use message::all_resolvable;
pub use message::compilation_error;
pub use message::compiled_ok;
pub use message::first_unresolvable;
pub use message::index_of_pubkey;
pub use message::instr_resolvable;
pub use message::legacy_account_indices;
pub use message::legacy_program_index;
pub use message::lemma_compile_round_trip;
pub use message::Message;
pub use message::MessageHeader;
pub use message::meta_keys;
pub use message_builder::collected_metas;
pub use message_builder::has_meta_key;
pub use message_builder::has_writable_key;
pub use message_builder::index_of_key;
pub use message_builder::instruction_accounts;
pub use message_builder::lemma_dedup_writable_promotion;
pub use message_builder::lemma_merge_dedup_unique;
pub use message_builder::lemma_merge_dedup_writable;
pub use message_builder::lemma_partition_invariant;
pub use message_builder::merge_dedup;
pub use message_builder::merge_into;
pub use message_builder::MessageBuilder;
pub use message_builder::meta_rank;
pub use message_builder::nonsigner_keys;
pub use message_builder::payer_metas;
pub use message_builder::program_meta;
pub use message_builder::program_metas;
pub use message_builder::rank_ordered;
pub use message_builder::rank_sorted;
pub use message_builder::readonly_signed_count;
pub use message_builder::readonly_unsigned_count;
pub use message_builder::resolution_scan;
pub use message_builder::resolved_table;
pub use message_builder::signer_keys;
pub use message_builder::uniform_writable;
pub use pda::derivation_input;
pub use pda::lemma_derive_deterministic;
pub use pda::MAX_SEED_LEN;
pub use pda::owner_ends_in_marker;
pub use pda::pda_marker;
pub use pda::PdaBuilder;
pub use pda::spec_pda_marker;
pub use programs::ed25519_program_id;
pub use programs::spec_ed25519_program_id;
pub use programs::spec_system_program_id;
pub use programs::spec_sysvar_instructions;
pub use programs::system_program_id;
pub use programs::sysvar_instructions;
pub use rpc_info::FeeCalculator;
pub use rpc_info::GetAccountInfo;
pub use rpc_info::GetFees;
pub use rpc_info::GetLatestBlockhash;
pub use rpc_info::GetMinimumBalanceForRentExemption;
pub use rpc_info::LAMPORT;
pub use rpc_info::RequestAirdrop;
pub use rpc_responses::Context;
pub use rpc_responses::RecentBlockHashResponse;
pub use rpc_responses::Reward;
pub use rpc_responses::RewardType;
pub use rpc_responses::RpcCompiledInstruction;
pub use rpc_responses::RpcInnerInstructions;
pub use rpc_responses::RpcMessage;
pub use rpc_responses::RpcResponse;
pub use rpc_responses::RpcResponseWithResult;
pub use rpc_responses::RpcResult;
pub use rpc_responses::TxSignResponse;
pub use sequences::dedup_first;
pub use sequences::lemma_contains_push;
pub use sequences::lemma_dedup_first_contains;
pub use sequences::lemma_dedup_first_len;
pub use shortvec::encode_length;
pub use shortvec::shortvec_len_bytes;
pub use system_instruction::system_instruction_bytes;
pub use system_instruction::SystemInstruction;
pub use system_instruction::u32_le_bytes;
pub use system_instruction::u64_le_bytes;
pub use transaction::Transaction;
pub use transaction::transaction_bytes;
pub use transaction::transaction_encodable;
pub use utilities::Utilities;
pub use utils::base58_to_binary;
pub use utils::base58_to_u32_array;
pub use utils::PoseidonValue;
pub use wire::compiled_instruction_bytes;
pub use wire::header_bytes;
pub use wire::instructions_bytes;
pub use wire::keys_bytes;
pub use wire::message_bytes;
pub use wire::message_encodable;
pub use wire::signatures_bytes;

use vstd::prelude::*;

verus! {

/// A 32-byte public key in raw binary form.
pub type PublicKey = [u8; 32];

/// A 32-byte public key in raw binary form.
pub type PoseidonPublicKey = [u8; 32];

/// A 32-byte hash of a recent ledger entry.
pub type RecentBlockHash = [u8; 32];

/// The byte representation of an Ed25519 signature.
pub type Signature = [u8; 64];

/// A public key rendered in Base58.
pub type Base58PublicKey = String;

/// A secret key rendered in Base58.
pub type Base58SecretKey = String;

/// A program id rendered in Base58.
pub type ProgramID = String;

/// A transaction signature rendered in Base58.
pub type Base58TxSignature = String;

/// A value rendered in Base58, borrowed from the caller.
pub type Base58Value<'a> = &'a str;

/// A public key rendered in Base58, borrowed from the caller.
pub type BorrowedBase58PublicKey<'a> = &'a str;

} // verus!
