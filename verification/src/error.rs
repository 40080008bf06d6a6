//! The error taxonomy shared by the gateway and the REST core.

use vstd::prelude::*;

verus! {

/// An error raised by the gateway connection or by the REST core.
///
/// Outside transports produce their own error values; the plumbing around
/// this crate maps each of them onto one of these kinds before the protocol
/// logic sees it.
#[derive(Debug, Clone, PartialEq)]
pub enum Error {
    /// A websocket or HTTP transport failure, with a description.
    Transport(String),
    /// A payload could not be decoded, with a description.
    Decode(String),
    /// A semantically forbidden frame arrived in the current protocol state.
    Protocol(String),
    /// The peer closed the websocket, with an optional status code and a reason.
    Closed(Option<u16>, String),
    /// A non-success REST response: the HTTP status code, and the body
    /// when it decoded as JSON.
    Status(u16, Option<serde_json::Value>),
    /// The platform rate-limited the request; retry after this many milliseconds.
    RateLimited(u64),
    /// A miscellaneous error, with a description.
    Other(String),
}

impl Error {
    /// A short fixed description of the error kind.
    pub fn kind_description(&self) -> (r: &'static str)
        ensures
            (self is Transport) ==> r@ == "transport error"@,
            (self is Decode) ==> r@ == "decode error"@,
            (self is Protocol) ==> r@ == "protocol error"@,
            (self is Closed) ==> r@ == "connection closed"@,
            (self is Status) ==> r@ == "bad HTTP status"@,
            (self is RateLimited) ==> r@ == "rate limited"@,
            (self is Other) ==> r@ == "error"@,
    {
        match self {
            Error::Transport(_) => "transport error",
            Error::Decode(_) => "decode error",
            Error::Protocol(_) => "protocol error",
            Error::Closed(_, _) => "connection closed",
            Error::Status(_, _) => "bad HTTP status",
            Error::RateLimited(_) => "rate limited",
            Error::Other(_) => "error",
        }
    }
}

/// `Result` alias used throughout the crate.
pub type Result<T> = core::result::Result<T, Error>;

} // verus!
