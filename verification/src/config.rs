//! Configuration constants and the network profiles the reader can follow.

use vstd::prelude::*;

verus! {

/// Number of events the circular buffer keeps.
pub const BUFFER_SIZE: usize = 100;

/// Blocks seen before the buffer is cleared.
pub const MAX_BLOCK_COUNT: usize = 100;

/// Transactions seen before the buffer is cleared.
pub const MAX_TX_COUNT: usize = 500;

/// Address the service listens on, for both the REST API and the socket.
pub const SERVER_ADDR: &'static str = "127.0.0.1:8080";

/// A network profile: the relay to dump events from, its protocol magic, and
/// a display name.
pub struct CardanoConfig {
    pub relay: &'static str,
    pub magic: Option<u64>,
    pub network_name: &'static str,
}

impl CardanoConfig {
    /// The pre-production testnet (the default).
    pub fn preprod() -> (r: Self)
        ensures
            r.relay@ == "preprod-node.world.dev.cardano.org:30000"@,
            r.magic == Some(1u64),
            r.network_name@ == "PreProd Testnet"@,
    {
        CardanoConfig {
            relay: "preprod-node.world.dev.cardano.org:30000",
            magic: Some(1),
            network_name: "PreProd Testnet",
        }
    }

    /// The preview testnet.
    pub fn preview() -> (r: Self)
        ensures
            r.relay@ == "preview-node.world.dev.cardano.org:3001"@,
            r.magic == Some(2u64),
            r.network_name@ == "Preview Testnet"@,
    {
        CardanoConfig {
            relay: "preview-node.world.dev.cardano.org:3001",
            magic: Some(2),
            network_name: "Preview Testnet",
        }
    }

    /// The main network.
    pub fn mainnet() -> (r: Self)
        ensures
            r.relay@ == "relays-new.cardano-mainnet.iohk.io:3001"@,
            r.magic == Some(3u64),
            r.network_name@ == "Mainnet"@,
    {
        CardanoConfig {
            relay: "relays-new.cardano-mainnet.iohk.io:3001",
            magic: Some(3),
            network_name: "Mainnet",
        }
    }
}

impl Default for CardanoConfig {
    /// The default profile is the pre-production testnet.
    fn default() -> (r: Self)
        ensures
            r.magic == Some(1u64),
            r.network_name@ == "PreProd Testnet"@,
    {
        CardanoConfig::preprod()
    }
}

} // verus!
