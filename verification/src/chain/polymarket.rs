//! Polymarket CLOB client configuration and order requests. The HTTP
//! calls live outside this library; what is here is the configuration
//! and the order values they carry.

use vstd::prelude::*;

use crate::chain::types::{Chain, OrderSide, OrderType};

verus! {

/// Polymarket API configuration.
#[derive(Clone, Debug)]
pub struct PolymarketConfig {
    pub api_url: String,
    pub api_key: Option<String>,
    pub api_secret: Option<String>,
    pub rpc_url: String,
    pub chain: Chain,
}

impl Default for PolymarketConfig {
    fn default() -> (r: Self)
        ensures
            r.api_url@ == "https://clob.polymarket.com"@,
            r.api_key is None,
            r.api_secret is None,
            r.rpc_url@ == "https://polygon-rpc.com"@,
            r.chain == Chain::Polygon,
    {
        PolymarketConfig {
            api_url: "https://clob.polymarket.com".to_owned(),
            api_key: None,
            api_secret: None,
            rpc_url: "https://polygon-rpc.com".to_owned(),
            chain: Chain::Polygon,
        }
    }
}

/// An order request: size in traded units, price fixed-point at
/// `PRICE_SCALE`.
#[derive(Clone, Debug)]
pub struct OrderRequest {
    pub token_id: String,
    pub side: OrderSide,
    pub order_type: OrderType,
    pub size: u64,
    pub price: u64,
    pub nonce: Option<u64>,
}

impl OrderRequest {
    /// A limit buy.
    pub fn buy(token_id: &str, size: u64, price: u64) -> (r: Self)
        ensures
            r.token_id@ == token_id@,
            r.side == OrderSide::Buy,
            r.order_type == OrderType::Limit,
            r.size == size,
            r.price == price,
            r.nonce is None,
    {
        OrderRequest {
            token_id: token_id.to_owned(),
            side: OrderSide::Buy,
            order_type: OrderType::Limit,
            size,
            price,
            nonce: None,
        }
    }

    /// A limit sell.
    pub fn sell(token_id: &str, size: u64, price: u64) -> (r: Self)
        ensures
            r.token_id@ == token_id@,
            r.side == OrderSide::Sell,
            r.order_type == OrderType::Limit,
            r.size == size,
            r.price == price,
            r.nonce is None,
    {
        OrderRequest {
            token_id: token_id.to_owned(),
            side: OrderSide::Sell,
            order_type: OrderType::Limit,
            size,
            price,
            nonce: None,
        }
    }

    /// Attach a nonce.
    pub fn with_nonce(self, nonce: u64) -> (r: Self)
        ensures
            r == (OrderRequest { nonce: Some(nonce), ..self }),
    {
        let mut s = self;
        s.nonce = Some(nonce);
        s
    }
}

} // verus!
