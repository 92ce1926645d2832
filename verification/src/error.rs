//! The error taxonomy of the library: one tagged union for everything a
//! caller can see go wrong.

use vstd::prelude::*;

use crate::text::{dec_chars, u64_to_dec};

verus! {

/// What went wrong.
#[derive(Debug, Clone, PartialEq)]
pub enum Error {
    /// An underlying socket or filesystem error, with its description.
    Io(String),
    /// An encode or decode failure.
    Json,
    /// A WebSocket framing or protocol violation, with its description.
    Transport(String),
    /// The WebSocket handshake failed.
    BadHandshake,
    /// A REST status other than success (the 429 retry protocol is handled
    /// before this is raised), with the response body.
    Http(u16, String),
    /// A send on a closed channel: the session is tearing down.
    Send,
    /// A receive on a closed channel: the session is tearing down.
    Recv,
    /// An embedder-surfaced error carried through the library.
    Custom(String),
}

/// The description of an error.
pub open spec fn spec_error_message(e: Error) -> Seq<char> {
    match e {
        Error::Io(m) => "io error: "@ + m@,
        Error::Json => "json error"@,
        Error::Transport(m) => "transport error: "@ + m@,
        Error::BadHandshake => "websocket handshake failed"@,
        Error::Http(status, body) => "http status "@ + dec_chars(status as nat) + ": "@ + body@,
        Error::Send => "sending on a closed channel"@,
        Error::Recv => "receiving on a closed channel"@,
        Error::Custom(m) => m@,
    }
}

impl Error {
    /// Describes the error.
    pub fn message(&self) -> (s: String)
        ensures
            s@ == spec_error_message(*self),
    {
        match self {
            Error::Io(m) => String::from_str("io error: ").concat(m.as_str()),
            Error::Json => String::from_str("json error"),
            Error::Transport(m) => String::from_str("transport error: ").concat(m.as_str()),
            Error::BadHandshake => String::from_str("websocket handshake failed"),
            Error::Http(status, body) => {
                let digits = u64_to_dec(*status as u64);
                String::from_str("http status ").concat(digits.as_str()).concat(": ").concat(
                    body.as_str(),
                )
            },
            Error::Send => String::from_str("sending on a closed channel"),
            Error::Recv => String::from_str("receiving on a closed channel"),
            Error::Custom(m) => m.clone(),
        }
    }
}

} // verus!
