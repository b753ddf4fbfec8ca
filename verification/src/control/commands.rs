//! Bot commands: the capability of being parsed from a message and
//! naming itself. Implementations come from the application; their
//! handling is asynchronous transport work and lives outside this
//! library.

use vstd::prelude::*;

use crate::control::error::Result;

verus! {

/// A bot command: parseable from a message text, with a name and a
/// description for the help listing. Nothing is assumed of the
/// implementations.
pub trait Command: Sized {
    /// Parse a command from a message text.
    fn parse(input: &str) -> Result<Self>;

    /// The command's name.
    fn name(&self) -> &'static str;

    /// The command's description.
    fn description(&self) -> &'static str;
}

} // verus!
