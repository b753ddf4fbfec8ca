//! Risk-gating primitives for algorithmic trading: circuit breaker,
//! kill switch, composite risk guard and position-sizing strategies,
//! together with the chain and bot-control value types they feed.
//!
//! All monetary quantities are integer amounts in the caller's base
//! currency unit; prices and percentage-like quantities are fixed-point
//! integers whose scales are documented where they appear. Timestamps
//! are milliseconds of the UTC timeline.

pub mod chain;
mod clock;
pub mod control;
pub mod decimal;
pub mod risk;

pub use chain::error::{Error, Result};
pub use chain::types::{Chain, Order, OrderSide, OrderType, Position, Token, Wallet};
pub use control::auth::AccessControl;
pub use risk::circuit_breaker::{CircuitBreaker, CircuitBreakerConfig};
pub use risk::kill_switch::{KillSwitch, KillSwitchCondition, KillSwitchConfig};
pub use risk::position_sizing::{AntiMartingaleSizing, FixedFractionalSizing, KellySizing, PositionSizer, SizingStrategy, VolatilityBasedSizing};
pub use risk::types::{RiskCheck, RiskLevel, RiskReport};
