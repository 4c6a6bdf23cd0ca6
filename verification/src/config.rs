//! Configuration records for the agent's subsystems, with their documented
//! defaults.

use vstd::prelude::*;
use vstd::string::*;

verus! {

/// Which monitoring modules are enabled.
#[derive(Debug, Clone, Copy, PartialEq, Eq, Structural)]
pub struct ModuleConfig {
    pub netflow: bool,
    pub syscall: bool,
    pub tls_inspect: bool,
    pub geo_fence: bool,
}

impl Default for ModuleConfig {
    /// All monitoring modules are enabled by default.
    fn default() -> (r: Self)
        ensures
            r.netflow && r.syscall && r.tls_inspect && r.geo_fence,
    {
        ModuleConfig { netflow: true, syscall: true, tls_inspect: true, geo_fence: true }
    }
}

/// Peer network configuration.
#[derive(Debug, Clone)]
pub struct P2pConfig {
    pub bootstrap_nodes: Vec<String>,
    pub listen_port: u16,
    pub max_connections: usize,
    pub reconnect_interval: u64,
}

impl Default for P2pConfig {
    /// The default bootstrap nodes and connection limits.
    fn default() -> (r: Self)
        ensures
            r.bootstrap_nodes@.len() == 2,
            r.listen_port == 4001,
            r.max_connections == 50,
            r.reconnect_interval == 30,
    {
        let mut bootstrap_nodes: Vec<String> = Vec::new();
        bootstrap_nodes.push(
            "/ip4/159.138.224.180/tcp/4001/p2p/12D3KooWCeV2JWivXqakX9ZR53z32k7Z4FwKjZ7y6zY6o2Rr5v5o".to_owned(),
        );
        bootstrap_nodes.push(
            "/ip4/159.138.224.181/tcp/4001/p2p/12D3KooWCeV2JWivXqakX9ZR53z32k7Z4FwKjZ7y6zY6o2Rr5v5p".to_owned(),
        );
        P2pConfig { bootstrap_nodes, listen_port: 4001, max_connections: 50, reconnect_interval: 30 }
    }
}

/// Cryptographic configuration.
#[derive(Debug, Clone)]
pub struct CryptoConfig {
    pub use_sm_crypto: bool,
    pub sm2_private_key: Option<String>,
    pub sm2_public_key: Option<String>,
    pub encryption_algorithm: String,
}

impl Default for CryptoConfig {
    /// SM ciphers off, no key material, AES-256 as the algorithm.
    fn default() -> (r: Self)
        ensures
            !r.use_sm_crypto,
            r.sm2_private_key is None,
            r.sm2_public_key is None,
            r.encryption_algorithm@ == "aes256"@,
    {
        CryptoConfig {
            use_sm_crypto: false,
            sm2_private_key: None,
            sm2_public_key: None,
            encryption_algorithm: "aes256".to_owned(),
        }
    }
}

/// Local storage configuration.
#[derive(Debug, Clone)]
pub struct StorageConfig {
    pub data_dir: String,
    pub max_log_size: usize,
    pub retention_days: u32,
    pub encryption_enabled: bool,
}

impl Default for StorageConfig {
    /// The default data directory, a ten-megabyte log cap, thirty days of
    /// retention and encryption on.
    fn default() -> (r: Self)
        ensures
            r.data_dir@ == "./data"@,
            r.max_log_size == 10485760,
            r.retention_days == 30,
            r.encryption_enabled,
    {
        StorageConfig {
            data_dir: "./data".to_owned(),
            max_log_size: 10485760,
            retention_days: 30,
            encryption_enabled: true,
        }
    }
}

} // verus!
