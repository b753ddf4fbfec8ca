//! Chain-facing value types and client configuration: networks,
//! wallets, orders, positions and the errors the clients report.

pub mod error;
pub mod evm;
pub mod polymarket;
pub mod types;
