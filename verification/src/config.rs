//! The settings of a server that hosts the relay.

use vstd::prelude::*;

verus! {

/// Where the server listens.
#[derive(Debug)]
pub struct NetworkConfig {
    pub host: String,
    pub port: u16,
}

/// The bounds that the server applies to sizes.
#[derive(Debug)]
pub struct ParamsConfig {
    pub min_size: u32,
    pub max_size: u32,
}

/// All settings of the server.
#[derive(Debug)]
pub struct ServerConfig {
    pub network: NetworkConfig,
    pub params: ParamsConfig,
}

impl Default for NetworkConfig {
    /// Every interface, port 3000.
    fn default() -> (config: NetworkConfig)
        ensures
            config.host@ == "0.0.0.0"@,
            config.port == 3000,
    {
        NetworkConfig { host: "0.0.0.0".to_owned(), port: 3000 }
    }
}

impl Default for ParamsConfig {
    /// Sizes from 3 to 10.
    fn default() -> (config: ParamsConfig)
        ensures
            config.min_size == 3,
            config.max_size == 10,
    {
        ParamsConfig { max_size: 10, min_size: 3 }
    }
}

impl Default for ServerConfig {
    /// The default network settings with the default bounds.
    fn default() -> (config: ServerConfig)
        ensures
            config.network.host@ == "0.0.0.0"@,
            config.network.port == 3000,
            config.params.min_size == 3,
            config.params.max_size == 10,
    {
        ServerConfig { network: NetworkConfig::default(), params: ParamsConfig::default() }
    }
}

} // verus!
