//! The commitment levels a client can ask a cluster for.

pub use crate::clusters::Cluster;

use vstd::prelude::*;

verus! {

/// Lower-case folding of a string, as `str::to_lowercase` computes it.
pub uninterp spec fn lower_of(s: Seq<char>) -> Seq<char>;

/// Relies on str::to_lowercase: the result depends on the characters alone.
#[verifier::external_body]
fn lowercase(s: &str) -> (r: String)
    ensures
        r@ == lower_of(s@),
{
    s.to_lowercase()
}

/// Relies on str's equality: two string slices are equal exactly when
/// their characters are.
#[verifier::external_body]
fn str_eq(a: &str, b: &str) -> (r: bool)
    ensures
        r == (a@ == b@),
{
    a == b
}

/// The commitment level a lower-cased string names.
pub open spec fn spec_commitment_from(lowered: Seq<char>) -> Commitment {
    if lowered == "processed"@ {
        Commitment::Processed
    } else if lowered == "confirmed"@ {
        Commitment::Confirmed
    } else if lowered == "finalized"@ {
        Commitment::Finalized
    } else {
        Commitment::InvalidCommitment
    }
}

/// The commitment metric aims to give clients a measure of the network
/// confirmation and stake levels on a particular block.
#[derive(Debug, Clone, Copy, PartialEq, Eq, Structural, PartialOrd, Ord)]
pub enum Commitment {
    /// A block is processed by RPC servers.
    Processed,
    /// A block has been confirmed.
    Confirmed,
    /// A block has been finalized.
    Finalized,
    /// The commitment level provided is invalid.
    InvalidCommitment,
}

impl Commitment {
    /// The name the RPC protocol uses for the level.
    pub fn as_str(self) -> (r: &'static str)
        ensures
            self == Commitment::Processed ==> r@ == "processed"@,
            self == Commitment::Confirmed ==> r@ == "confirmed"@,
            self == Commitment::Finalized ==> r@ == "finalized"@,
            self == Commitment::InvalidCommitment ==> r@ == "invalid_commitment"@,
    {
        match self {
            Commitment::Processed => "processed",
            Commitment::Confirmed => "confirmed",
            Commitment::Finalized => "finalized",
            Commitment::InvalidCommitment => "invalid_commitment",
        }
    }
}

impl Default for Commitment {
    /// The finalized level.
    fn default() -> (r: Self)
        ensures
            r == Commitment::Finalized,
    {
        Commitment::Finalized
    }
}

impl vstd::std_specs::convert::FromSpecImpl<&str> for Commitment {
    open spec fn obeys_from_spec() -> bool {
        true
    }

    open spec fn from_spec(value: &str) -> Self {
        spec_commitment_from(lower_of(value@))
    }
}

impl From<&str> for Commitment {
    /// Reads a commitment level from its case-insensitive name.
    fn from(value: &str) -> (r: Self) {
        let lowered = lowercase(value);
        if str_eq(lowered.as_str(), "processed") {
            Commitment::Processed
        } else if str_eq(lowered.as_str(), "confirmed") {
            Commitment::Confirmed
        } else if str_eq(lowered.as_str(), "finalized") {
            Commitment::Finalized
        } else {
            Commitment::InvalidCommitment
        }
    }
}

} // verus!
