//! The library's error type.

use vstd::prelude::*;

verus! {

/// What can go wrong in a command.
#[derive(Debug, Clone)]
pub enum CliError {
    /// The device connection failed.
    Connection(String),
    /// The serial port failed.
    Serial(String),
    /// The device reported an error, or answered unexpectedly.
    Command(String),
    /// No contact matches the given name or key prefix.
    ContactNotFound(String),
    /// No channel matches the given index.
    ChannelNotFound(String),
    /// An argument could not be read.
    InvalidArgument(String),
    /// A wait ended without the awaited event.
    Timeout(String),
    /// The device's event stream ended while waiting.
    StreamClosed,
    /// A line named no known command.
    UnknownCommand(String),
    /// Reading or writing a file failed.
    Io(String),
    /// JSON could not be written or read.
    Json(String),
    /// A script line failed.
    Script { line: usize, message: String },
}

} // verus!
