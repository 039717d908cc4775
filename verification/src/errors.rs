//! Error values surfaced by fallible operations of the toolkit.

use vstd::prelude::*;

verus! {

/// The toolkit's error type. Every variant carries a human-readable
/// description of what went wrong.
#[derive(Debug)]
pub enum Error {
    /// An I/O error occurred.
    Io(String),
    /// A serialization or deserialization error occurred.
    Serialization(String),
    /// A rendering error occurred.
    Rendering(String),
    /// A widget error occurred.
    Widget(String),
    /// A style error occurred.
    Style(String),
    /// A generic error with a message.
    Message(String),
}

impl Error {
    /// Creates a generic error carrying the given message.
    pub fn new(msg: String) -> (e: Error)
        ensures
            e == Error::Message(msg),
    {
        Error::Message(msg)
    }
}

} // verus!
