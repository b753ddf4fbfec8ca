use risk_management::chain::evm::{EvmClient, EvmClientConfig};
use risk_management::chain::polymarket::{OrderRequest, PolymarketConfig};
use risk_management::chain::types::{Position, Token, Transaction, PRICE_SCALE};
use risk_management::{Chain, Error, OrderSide, OrderType, Wallet};

#[test]
fn test_chain_id() {
    assert_eq!(Chain::Ethereum.chain_id(), 1);
    assert_eq!(Chain::Polygon.chain_id(), 137);
}

#[test]
fn test_wallet_explorer_url() {
    let wallet = Wallet::new("0x123...", Chain::Ethereum);
    assert!(wallet.explorer_url().contains("etherscan.io"));
    assert_eq!(
        wallet.explorer_url(),
        "https://etherscan.io/address/0x123..."
    );
}

#[test]
fn test_position_pnl() {
    let pos = Position {
        token_id: "0x...".to_string(),
        token: Token {
            address: "0x...".to_string(),
            symbol: "TEST".to_string(),
            name: "Test Token".to_string(),
            decimals: 18,
            chain: Chain::Ethereum,
            logo_url: None,
        },
        size: 100,
        entry_price: PRICE_SCALE,          // a price of 1.0
        current_price: PRICE_SCALE * 3 / 2, // a price of 1.5
        wallet: Wallet::new("0x...", Chain::Ethereum),
        opened_at: 0,
    };

    assert_eq!(pos.unrealized_pnl(), 50);
    assert_eq!(pos.unrealized_pnl_pct(), 50);
    assert_eq!(pos.value(), 150);
}

#[test]
fn test_position_pnl_edge_cases() {
    let mut pos = Position {
        token_id: "t".to_string(),
        token: Token {
            address: "a".to_string(),
            symbol: "S".to_string(),
            name: "N".to_string(),
            decimals: 18,
            chain: Chain::Base,
            logo_url: None,
        },
        size: 10,
        entry_price: 0,
        current_price: 2 * PRICE_SCALE,
        wallet: Wallet::new("w", Chain::Base),
        opened_at: 0,
    };
    // A zero entry price guards the percentage division.
    assert_eq!(pos.unrealized_pnl_pct(), 0);

    // A losing position reports a negative amount.
    pos.entry_price = 4 * PRICE_SCALE;
    assert_eq!(pos.unrealized_pnl(), -20);
    assert_eq!(pos.unrealized_pnl_pct(), -50);
}

#[test]
fn test_position_saturates_at_extremes() {
    let pos = Position {
        token_id: "t".to_string(),
        token: Token {
            address: "a".to_string(),
            symbol: "S".to_string(),
            name: "N".to_string(),
            decimals: 18,
            chain: Chain::Ethereum,
            logo_url: None,
        },
        size: u64::MAX,
        entry_price: 0,
        current_price: u64::MAX,
        wallet: Wallet::new("w", Chain::Ethereum),
        opened_at: 0,
    };
    assert_eq!(pos.unrealized_pnl(), i64::MAX);
    assert_eq!(pos.value(), u64::MAX);
}

#[test]
fn test_chain_properties() {
    assert!(Chain::Ethereum.is_evm());
    assert!(!Chain::Solana.is_evm());
    assert_eq!(Chain::Solana.chain_id(), 0);
    assert_eq!(Chain::Polygon.native_token(), "MATIC");
    assert_eq!(Chain::Base.native_token(), "ETH");
    assert_eq!(Chain::Bsc.explorer_url(), "https://bscscan.com");
}

#[test]
fn test_order_side_opposite() {
    assert_eq!(OrderSide::Buy.opposite(), OrderSide::Sell);
    assert_eq!(OrderSide::Sell.opposite(), OrderSide::Buy);
}

#[test]
fn test_wallet_label() {
    let wallet = Wallet::new("0xabc", Chain::Polygon).with_label("hot");
    assert_eq!(wallet.label, Some("hot".to_string()));
    assert_eq!(wallet.address, "0xabc");
}

#[test]
fn test_transaction_explorer_url() {
    let tx = Transaction {
        hash: "0xdeadbeef".to_string(),
        from: "0x1".to_string(),
        to: "0x2".to_string(),
        value: "10".to_string(),
        gas_used: 21_000,
        gas_price: 5,
        status: true,
        timestamp: 0,
        chain: Chain::Arbitrum,
    };
    assert_eq!(tx.explorer_url(), "https://arbiscan.io/tx/0xdeadbeef");
}

#[test]
fn test_error_retryable() {
    assert!(Error::Network("timed out".to_string()).is_retryable());
    assert!(Error::Rpc("503".to_string()).is_retryable());
    assert!(Error::RateLimit.is_retryable());
    assert!(!Error::InvalidAddress("0x".to_string()).is_retryable());
    assert!(!Error::msg("something else").is_retryable());
    assert!(matches!(Error::msg("oops"), Error::Other(m) if m == "oops"));
}

#[test]
fn test_evm_client_config() {
    let config = EvmClientConfig::new("https://rpc.example", Chain::Optimism)
        .with_api_key("test-key");
    assert_eq!(config.rpc_url, "https://rpc.example");
    assert_eq!(config.max_retries, 3);
    assert_eq!(config.timeout_secs, 30);
    assert!(config.api_key.is_some());

    let client = EvmClient::new(config);
    assert_eq!(client.chain(), Chain::Optimism);
    assert_eq!(client.config().rpc_url, "https://rpc.example");
}

#[test]
fn test_polymarket_config_default() {
    let config = PolymarketConfig::default();
    assert_eq!(config.api_url, "https://clob.polymarket.com");
    assert_eq!(config.rpc_url, "https://polygon-rpc.com");
    assert_eq!(config.chain, Chain::Polygon);
    assert!(config.api_key.is_none());
    assert!(config.api_secret.is_none());
}

#[test]
fn test_order_request_builders() {
    let buy = OrderRequest::buy("tok", 10, 5_000);
    assert_eq!(buy.side, OrderSide::Buy);
    assert_eq!(buy.order_type, OrderType::Limit);
    assert_eq!(buy.size, 10);
    assert_eq!(buy.price, 5_000);
    assert_eq!(buy.nonce, None);

    let sell = OrderRequest::sell("tok", 10, 5_000).with_nonce(7);
    assert_eq!(sell.side, OrderSide::Sell);
    assert_eq!(sell.nonce, Some(7));
}
