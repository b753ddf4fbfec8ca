//! Risk management: shared result vocabulary, circuit breaker, kill
//! switch, composite guard and position sizing.

pub mod circuit_breaker;
pub mod kill_switch;
pub mod position_sizing;
pub mod types;
