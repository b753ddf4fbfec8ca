//! Bot-control building blocks: access control, alert and keyboard
//! construction, command dispatch decisions, and the errors the
//! control layer reports.

pub mod alerts;
pub mod auth;
pub mod commands;
pub mod dispatch;
pub mod error;
pub mod keyboards;
