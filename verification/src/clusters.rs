//! The RPC clusters a client can talk to.

use vstd::prelude::*;

verus! {

/// Configures the RPC cluster to connect to.
#[derive(Debug, Clone, Copy, PartialEq, Eq, Structural, PartialOrd, Ord, Hash)]
pub enum Cluster {
    /// A locally run test validator.
    LocalNet,
    /// The developer cluster.
    DevNet,
    /// The testnet cluster for staging.
    TestNet,
    /// The production cluster.
    MainNetBeta,
}

impl Cluster {
    /// The URL of the cluster.
    pub fn url(&self) -> (r: &'static str)
        ensures
            *self == Cluster::LocalNet ==> r@ == "https://127.0.0.1:8899"@,
            *self == Cluster::DevNet ==> r@ == "https://api.devnet.solana.com"@,
            *self == Cluster::TestNet ==> r@ == "https://api.testnet.solana.com"@,
            *self == Cluster::MainNetBeta ==> r@ == "https://api.mainnet-beta.solana.com"@,
    {
        match self {
            Cluster::LocalNet => "https://127.0.0.1:8899",
            Cluster::DevNet => "https://api.devnet.solana.com",
            Cluster::TestNet => "https://api.testnet.solana.com",
            Cluster::MainNetBeta => "https://api.mainnet-beta.solana.com",
        }
    }
}

impl Default for Cluster {
    /// The developer cluster.
    fn default() -> (r: Self)
        ensures
            r == Cluster::DevNet,
    {
        Cluster::DevNet
    }
}

} // verus!
