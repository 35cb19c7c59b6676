//! The error type shared by every fallible operation of the crate.

use vstd::prelude::*;

verus! {

/// The result type used by every fallible operation of the crate.
pub type PoseidonResult<T> = Result<T, PoseidonError>;

/// Every structural or validation failure the crate can report.
#[derive(Debug, Clone, PartialEq, Eq, Structural)]
pub enum PoseidonError {
    /// The maximum length of the seed provided has been exceeded
    /// as indicated by `MAX_SEED_LEN`.
    MaxSeedLengthExceeded,
    /// The owner public key of the PDA provided ends in the
    /// `PDA_MARKER` bytes. This is not allowed.
    IllegalOwner,
    /// The error that occurred has not been encountered before.
    UnspecifiedError,
    /// The string provided is not valid for the Base58 format.
    InvalidBase58ForPublicKey,
    /// Error decoding a Base58 string into a byte vector.
    InvalidBase58ToVec,
    /// Unable to convert a slice to an array of 32 bytes (`[u8; 32]`).
    ErrorConvertingToU832,
    /// The program id was not found in the message account keys.
    ProgramIdNotFound,
    /// The public key was not found in the accounts of the `Message`.
    PublicKeyNotFoundInMessageAccounts,
    /// The account index was not found in the message accounts.
    AccountIndexNotFoundInMessageAccounts,
    /// The transaction was not found in the cluster.
    TransactionNotFoundInCluster,
    /// Error decoding a string in the Base58 format.
    Bs58Decode,
    /// Error encoding to the Base58 format.
    Bs58Encode,
    /// A value does not fit the wire format's compact length encoding.
    BincodeError,
    /// An RPC response could not be deserialized.
    SerdeJsonDeser,
}

/// The error body of a JSON-RPC response.
#[derive(Debug, Clone, PartialEq)]
pub struct JsonRpcError {
    pub(crate) code: i16,
    pub(crate) message: String,
}

/// A JSON-RPC response that carries an error instead of a result.
#[derive(Debug, Clone, PartialEq)]
pub struct RpcResponseJsonError {
    pub(crate) jsonrpc: String,
    pub(crate) error: JsonRpcError,
    pub(crate) id: u8,
}

} // verus!
