//! The errors the bot-control layer reports. Failures of outside
//! transports (the Telegram API, serialization, the file system) are
//! carried as their rendered messages.

use vstd::prelude::*;

verus! {

/// A bot-control error.
#[derive(Debug)]
pub enum Error {
    /// A Telegram API failure, carried as its message.
    Telegram(String),
    Auth(String),
    Unauthorized(i64),
    InvalidCommand(String),
    Config(String),
    /// An I/O failure, carried as its message.
    Io(String),
    /// A serialization failure, carried as its message.
    Serialization(String),
}

pub type Result<T> = core::result::Result<T, Error>;

} // verus!
