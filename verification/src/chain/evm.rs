//! EVM chain client configuration and RPC result shapes. The network
//! calls themselves are I/O and live outside this library; what is
//! here is the configuration they are made with.

use vstd::prelude::*;

use crate::chain::types::Chain;

verus! {

/// EVM client configuration.
#[derive(Clone, Debug)]
pub struct EvmClientConfig {
    pub rpc_url: String,
    pub chain: Chain,
    pub api_key: Option<String>,
    pub max_retries: u32,
    pub timeout_secs: u64,
}

impl EvmClientConfig {
    /// Create with an RPC endpoint and a chain; three retries and a
    /// thirty-second timeout by default.
    pub fn new(rpc_url: &str, chain: Chain) -> (r: Self)
        ensures
            r.rpc_url@ == rpc_url@,
            r.chain == chain,
            r.api_key is None,
            r.max_retries == 3,
            r.timeout_secs == 30,
    {
        EvmClientConfig {
            rpc_url: rpc_url.to_owned(),
            chain,
            api_key: None,
            max_retries: 3,
            timeout_secs: 30,
        }
    }

    /// Attach an API key.
    pub fn with_api_key(self, api_key: &str) -> (r: Self)
        ensures
            r.rpc_url == self.rpc_url,
            r.chain == self.chain,
            r.api_key matches Some(k) && k@ == api_key@,
            r.max_retries == self.max_retries,
            r.timeout_secs == self.timeout_secs,
    {
        let mut s = self;
        s.api_key = Some(api_key.to_owned());
        s
    }
}

/// EVM chain client: the configuration the network calls are made
/// with.
#[derive(Clone, Debug)]
pub struct EvmClient {
    config: EvmClientConfig,
}

impl EvmClient {
    /// The held configuration.
    pub closed spec fn spec_config(&self) -> EvmClientConfig {
        self.config
    }

    /// Create a new EVM client.
    pub fn new(config: EvmClientConfig) -> (r: Self)
        ensures
            r.spec_config() == config,
    {
        EvmClient { config }
    }

    /// Get the client configuration.
    pub fn config(&self) -> (r: &EvmClientConfig)
        ensures
            *r == self.spec_config(),
    {
        &self.config
    }

    /// Get the chain.
    pub fn chain(&self) -> (r: Chain)
        ensures
            r == self.spec_config().chain,
    {
        self.config.chain
    }
}

/// ERC20 token interface: a client and the token's contract address.
pub struct Erc20Token {
    client: EvmClient,
    address: String,
}

impl Erc20Token {
    /// The client the token is read through.
    pub closed spec fn spec_client(&self) -> EvmClient {
        self.client
    }

    /// The token's contract address.
    pub closed spec fn spec_address(&self) -> Seq<char> {
        self.address@
    }

    /// Bind a token contract address to a client.
    pub fn new(client: EvmClient, address: &str) -> (r: Self)
        ensures
            r.spec_client() == client,
            r.spec_address() == address@,
    {
        Erc20Token { client, address: address.to_owned() }
    }
}

/// A JSON-RPC response envelope.
#[derive(Debug)]
pub struct RpcResponse<T> {
    pub jsonrpc: String,
    pub id: u64,
    pub result: Option<T>,
    pub error: Option<RpcError>,
}

/// A JSON-RPC error object.
#[derive(Clone, Debug)]
pub struct RpcError {
    pub code: i64,
    pub message: String,
}

} // verus!
