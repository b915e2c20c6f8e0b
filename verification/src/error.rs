//! The errors that parsing an acceptance token can report.

use vstd::prelude::*;

verus! {

/// Why a textual `Sec-WebSocket-Accept` value was rejected.
///
/// Both conditions are permanent for a given input: the caller must treat
/// the peer's handshake as invalid, and there is nothing to retry.
#[derive(Clone, Copy, PartialEq, Eq, Structural, Debug)]
pub enum WebSocketError {
    /// The supplied text is not valid Base64.
    MalformedEncoding,
    /// The text decodes cleanly, but not to exactly the digest length.
    WrongLength,
}

impl WebSocketError {
    /// A fixed human-readable description of the rejection.
    pub fn description(&self) -> (r: &'static str)
        ensures
            r@ == (match self {
                WebSocketError::MalformedEncoding => "Invalid Sec-WebSocket-Accept"@,
                WebSocketError::WrongLength => "Sec-WebSocket-Accept must be 20 bytes"@,
            }),
    {
        match self {
            WebSocketError::MalformedEncoding => "Invalid Sec-WebSocket-Accept",
            WebSocketError::WrongLength => "Sec-WebSocket-Accept must be 20 bytes",
        }
    }
}

} // verus!
