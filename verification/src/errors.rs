//! The error kinds of the client.

use std::fmt::Display;

use vstd::prelude::*;
use vstd::string::to_string_from_display_ensures;

verus! {

/// What can go wrong while a client is built or a request is prepared and sent.
#[derive(Debug, Clone, PartialEq, Eq)]
pub enum Error {
    /// The builder was asked for a client before a key was set.
    ClientOptionConfigError(String),
    /// The transport failed: name resolution, connection, timeout.
    Connection(String),
    /// A payload could not be encoded, or a response could not be decoded.
    Serialization(String),
}

impl Error {
    /// The text that the error carries.
    pub open spec fn text(self) -> Seq<char> {
        match self {
            Error::ClientOptionConfigError(m) => m@,
            Error::Connection(m) => m@,
            Error::Serialization(m) => m@,
        }
    }

    /// The error for a transport that failed with `cause`; its text is what
    /// `cause` displays as.
    pub fn connection<E: Display>(cause: E) -> (e: Error)
        ensures
            e matches Error::Connection(m) && to_string_from_display_ensures::<E>(&cause, m),
    {
        Error::Connection(cause.to_string())
    }

    /// The error for an encoder or a decoder that failed with `cause`; its text
    /// is what `cause` displays as.
    pub fn serialization<E: Display>(cause: E) -> (e: Error)
        ensures
            e matches Error::Serialization(m) && to_string_from_display_ensures::<E>(&cause, m),
    {
        Error::Serialization(cause.to_string())
    }

    /// The text that the error carries, for callers that print it.
    pub fn message(&self) -> (m: &str)
        ensures
            m@ == self.text(),
    {
        match self {
            Error::ClientOptionConfigError(m) => m.as_str(),
            Error::Connection(m) => m.as_str(),
            Error::Serialization(m) => m.as_str(),
        }
    }
}

} // verus!
