//! Constants shared by the wallet.

use vstd::prelude::*;

verus! {

/// Number of lamports in one SOL.
pub const LAMPORTS_PER_SOL: u64 = 1_000_000_000;

/// Location of the wallet configuration, relative to the home directory.
pub const SCILLA_CONFIG_RELATIVE_PATH: &'static str = ".config/scilla.toml";

/// Location of the default keypair, relative to the home directory.
pub const DEFAULT_KEYPAIR_PATH: &'static str = ".config/solana/id.json";

/// Epoch value that marks a stake as never activated or never deactivated.
pub const ACTIVE_STAKE_EPOCH_BOUND: u64 = u64::MAX;

/// RPC endpoint of the development cluster.
pub const DEVNET_RPC: &'static str = "https://api.devnet.solana.com";

/// RPC endpoint of the main cluster.
pub const MAINNET_RPC: &'static str = "https://api.mainnet-beta.solana.com";

/// RPC endpoint of the test cluster.
pub const TESTNET_RPC: &'static str = "https://api.testnet.solana.com";

} // verus!
