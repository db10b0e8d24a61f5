//! Typed wrappers around a desktop framework's JavaScript-side API.
//!
//! Every host operation follows the same shape: typed arguments are marshalled
//! into the host's value representation, an externally supplied JavaScript
//! function is invoked, and its settlement is turned back into a typed value
//! or an [`Error`]. This crate holds the typed side of that boundary — the
//! geometry types, the filesystem and OS data model, request construction and
//! response interpretation — with contracts on each function. The asynchronous
//! host calls themselves live outside the library.

use vstd::prelude::*;
use vstd::string::StringExecFns;

pub mod api;
pub mod host;
pub mod plugin;
pub mod text;

verus! {

/// The result of a host-call wrapper.
pub type Result<T> = core::result::Result<T, Error>;

/// An error surfaced by a host-call wrapper: the host rejected the call, a
/// host value failed to parse, or a path could not be handed to the host.
#[derive(Debug, Clone, PartialEq, Eq)]
pub enum Error {
    /// The host rejected the call; the payload is the rejection formatted as text.
    Command(String),
    /// A host value could not be deserialized; the payload is the parser's message.
    Serde(String),
    /// A path held bytes that are not valid UTF-8; the payload is those bytes.
    Utf8(Vec<u8>),
}

impl Error {
    /// The rendering of this error as text.
    pub open spec fn spec_message(&self) -> Seq<char> {
        match self {
            Error::Command(s) => "Command returned Error: "@ + s@,
            Error::Serde(s) => "Failed to parse JSON: "@ + s@,
            Error::Utf8(_) => "path is not valid UTF-8"@,
        }
    }

    /// The message that describes this error to a user.
    pub fn message(&self) -> (r: String)
        ensures
            r@ == self.spec_message(),
    {
        match self {
            Error::Command(s) => String::from_str("Command returned Error: ").concat(s.as_str()),
            Error::Serde(s) => String::from_str("Failed to parse JSON: ").concat(s.as_str()),
            Error::Utf8(_) => String::from_str("path is not valid UTF-8"),
        }
    }
}

} // verus!
