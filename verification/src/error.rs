//! The errors of the core engine and their messages.

use vstd::prelude::*;
use crate::text::append_str;

verus! {

/// Core error types.
#[derive(Debug, Clone, PartialEq, Eq)]
pub enum CoreError {
    /// PTY creation or operation failed
    Pty(String),
    /// Process spawning failed
    ProcessSpawn(String),
    /// Terminal emulation error
    Terminal(String),
    /// Session management error
    Session(String),
    /// I/O error (its message)
    Io(String),
    /// UTF-8 encoding error (its message)
    Utf8(String),
    /// Channel communication error
    Channel(String),
    /// Configuration error
    Config(String),
}

/// The message of an error: a prefix naming its kind, then its detail.
pub open spec fn error_message(e: CoreError) -> Seq<char> {
    match e {
        CoreError::Pty(s) => "PTY error: "@ + s@,
        CoreError::ProcessSpawn(s) => "Failed to spawn process: "@ + s@,
        CoreError::Terminal(s) => "Terminal error: "@ + s@,
        CoreError::Session(s) => "Session error: "@ + s@,
        CoreError::Io(s) => "I/O error: "@ + s@,
        CoreError::Utf8(s) => "UTF-8 encoding error: "@ + s@,
        CoreError::Channel(s) => "Channel error: "@ + s@,
        CoreError::Config(s) => "Configuration error: "@ + s@,
    }
}

impl CoreError {
    /// The message shown for this error.
    pub fn message(&self) -> (m: String)
        ensures
            m@ == error_message(*self),
    {
        let (prefix, detail) = match self {
            CoreError::Pty(s) => ("PTY error: ", s),
            CoreError::ProcessSpawn(s) => ("Failed to spawn process: ", s),
            CoreError::Terminal(s) => ("Terminal error: ", s),
            CoreError::Session(s) => ("Session error: ", s),
            CoreError::Io(s) => ("I/O error: ", s),
            CoreError::Utf8(s) => ("UTF-8 encoding error: ", s),
            CoreError::Channel(s) => ("Channel error: ", s),
            CoreError::Config(s) => ("Configuration error: ", s),
        };
        let mut m = prefix.to_owned();
        append_str(&mut m, detail.as_str());
        m
    }
}

} // verus!
