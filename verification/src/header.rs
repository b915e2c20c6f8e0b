//! The narrow header capabilities an HTTP layer needs from a header-value
//! type: a fixed header name, parsing from raw header text, and formatting
//! back to header text. The acceptance token implements them, so the HTTP
//! layer can drive it polymorphically alongside other header types without
//! this library depending on any particular HTTP framework.

use vstd::prelude::*;

use crate::accept::spec_parse;
use crate::accept::WebSocketAccept;
use crate::codec::b64_encode_of;
use crate::error::WebSocketError;

verus! {

/// A value that lives in one fixed HTTP header and can cross between its
/// textual header form and its validated in-memory form.
///
/// The associated spec functions give the model against which both
/// directions are specified: `model` abstracts a value to the bytes it
/// stands for, `spec_parse_header` fixes exactly which texts parse to
/// which bytes (and which error every other text draws), and
/// `spec_fmt_header` fixes the canonical text of a value.
pub trait HeaderValue: Sized {
    /// The bytes this value stands for.
    spec fn model(&self) -> Seq<u8>;

    /// The well-formedness every successfully constructed value has.
    spec fn model_wf(&self) -> bool;

    /// The header name as specification text.
    spec fn spec_header_name() -> Seq<char>;

    /// What parsing yields for every input text: the model bytes of the
    /// value, or the error the text draws.
    spec fn spec_parse_header(text: Seq<char>) -> Result<Seq<u8>, WebSocketError>;

    /// The canonical header text of a value with the given model bytes.
    spec fn spec_fmt_header(model: Seq<u8>) -> Seq<char>;

    /// The fixed, case-sensitive spelling of the header's name.
    fn header_name() -> (r: &'static str)
        ensures
            r@ == Self::spec_header_name(),
    ;

    /// Parse raw header text into a well-formed value, or report exactly
    /// the error that `spec_parse_header` assigns to the text.
    fn parse_header(text: &str) -> (r: Result<Self, WebSocketError>)
        ensures
            match r {
                Ok(v) => v.model_wf() && Self::spec_parse_header(text@) == Ok::<
                    Seq<u8>,
                    WebSocketError,
                >(v.model()),
                Err(e) => Self::spec_parse_header(text@) == Err::<Seq<u8>, WebSocketError>(e),
            },
    ;

    /// Format this value as the exact text to emit in its header.
    fn fmt_header(&self) -> (r: String)
        ensures
            r@ == Self::spec_fmt_header(self.model()),
    ;
}

impl HeaderValue for WebSocketAccept {
    open spec fn model(&self) -> Seq<u8> {
        self@
    }

    open spec fn model_wf(&self) -> bool {
        self.wf()
    }

    open spec fn spec_header_name() -> Seq<char> {
        "Sec-WebSocket-Accept"@
    }

    open spec fn spec_parse_header(text: Seq<char>) -> Result<Seq<u8>, WebSocketError> {
        spec_parse(text)
    }

    open spec fn spec_fmt_header(model: Seq<u8>) -> Seq<char> {
        b64_encode_of(model)
    }

    fn header_name() -> (r: &'static str) {
        "Sec-WebSocket-Accept"
    }

    fn parse_header(text: &str) -> (r: Result<WebSocketAccept, WebSocketError>) {
        WebSocketAccept::parse(text)
    }

    fn fmt_header(&self) -> (r: String) {
        self.serialize()
    }
}

} // verus!
