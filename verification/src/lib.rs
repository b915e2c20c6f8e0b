//! Derivation, validation, and textual representation of the WebSocket
//! opening-handshake acceptance token: the value exchanged as the
//! `Sec-WebSocket-Accept` header during the opening handshake.
//!
//! A server proves that it understood a client's handshake request by
//! deriving a deterministic digest from the client's nonce text and
//! returning it; the client verifies this digest to confirm it is talking
//! to a genuine WebSocket-aware peer.

pub mod accept;
pub mod codec;
pub mod error;
pub mod header;

pub use accept::WebSocketAccept;
pub use error::WebSocketError;
pub use header::HeaderValue;
