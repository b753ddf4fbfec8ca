//! The errors the chain clients report. Failures of outside transports
//! (the network, serialization, the file system) are carried as their
//! rendered messages.

use vstd::prelude::*;

verus! {

/// A chain client error.
#[derive(Debug)]
pub enum Error {
    /// A network failure, carried as its message.
    Network(String),
    Rpc(String),
    Authentication(String),
    RateLimit,
    InvalidAddress(String),
    InvalidTransaction(String),
    InsufficientBalance { required: String, available: String },
    MarketNotFound(String),
    OrderRejected(String),
    Config(String),
    /// A serialization failure, carried as its message.
    Serialization(String),
    /// An I/O failure, carried as its message.
    Io(String),
    Other(String),
}

pub type Result<T> = core::result::Result<T, Error>;

impl Error {
    /// Create a new error with a message.
    pub fn msg(message: &str) -> (r: Self)
        ensures
            r matches Error::Other(m) && m@ == message@,
    {
        Error::Other(message.to_owned())
    }

    /// Check if the error is worth retrying: transport and rate-limit
    /// failures are, rejections and bad inputs are not.
    pub fn is_retryable(&self) -> (r: bool)
        ensures
            r == (self is Network || self is Rpc || self is RateLimit),
    {
        matches!(self, Error::Network(_) | Error::Rpc(_) | Error::RateLimit)
    }
}

} // verus!
