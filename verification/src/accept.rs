//! The acceptance token: a fixed 20-byte value derived from the client's
//! nonce text, parsed from and serialized to its Base64 header text.

use vstd::prelude::*;
use vstd::std_specs::cmp::PartialEqSpec;
use vstd::string::StringExecFns;

use crate::codec::b64_decode;
use crate::codec::b64_decode_of;
use crate::codec::b64_encode;
use crate::codec::b64_encode_of;
use crate::codec::sha1_utf8;
use crate::codec::sha1_utf8_of;
use crate::error::WebSocketError;

verus! {

/// The number of bytes in an acceptance token: the SHA-1 digest output size.
pub const ACCEPT_LENGTH: usize = 20;

/// The fixed magic identifier the protocol appends to the nonce text
/// before hashing. It is never configurable and never varies.
pub open spec fn magic_guid() -> Seq<char> {
    "258EAFA5-E914-47DA-95CA-C5AB0DC85B11"@
}

/// The bytes a derivation yields: the SHA-1 digest of the UTF-8 bytes of
/// the nonce text followed directly (no separator) by the magic identifier.
pub open spec fn spec_derive(nonce: Seq<char>) -> Seq<u8> {
    sha1_utf8_of(nonce + magic_guid())
}

/// What parsing header text yields: the decoded octets where the text is
/// valid Base64 for exactly [`ACCEPT_LENGTH`] bytes, and otherwise the
/// error that names what was wrong. There is no partial success: a
/// truncated or over-long value is rejected, never coerced.
pub open spec fn spec_parse(text: Seq<char>) -> Result<Seq<u8>, WebSocketError> {
    match b64_decode_of(text) {
        Some(bytes) => if bytes.len() == ACCEPT_LENGTH {
            Ok(bytes)
        } else {
            Err(WebSocketError::WrongLength)
        },
        None => Err(WebSocketError::MalformedEncoding),
    }
}

/// Represents a Sec-WebSocket-Accept header value: the 20-byte digest
/// proving handshake comprehension. Immutable once constructed; no value
/// of this type with any other length can be built through this module.
#[derive(Clone, Debug)]
pub struct WebSocketAccept {
    bytes: Vec<u8>,
}

impl View for WebSocketAccept {
    type V = Seq<u8>;

    closed spec fn view(&self) -> Seq<u8> {
        self.bytes@
    }
}

impl WebSocketAccept {
    /// A token is well formed when it holds exactly the digest length.
    /// Every constructor establishes this.
    pub open spec fn wf(&self) -> bool {
        self@.len() == ACCEPT_LENGTH
    }

    /// Derive the acceptance token from the nonce text the client
    /// transmitted. Pure and total: any nonce text is acceptable, and the
    /// same text always yields the same token.
    ///
    /// The text must be exactly the string the client sent; any
    /// re-encoding by the caller changes the digest and breaks the
    /// handshake, which this function cannot detect.
    pub fn new(nonce: &str) -> (token: WebSocketAccept)
        ensures
            token.wf(),
            token@ == spec_derive(nonce@),
    {
        let mut input: String = nonce.to_owned();
        input.append(magic_guid_text());
        let bytes = sha1_utf8(input.as_str());
        WebSocketAccept { bytes }
    }

    /// Parse a textual header value. Returns the 20 decoded bytes exactly
    /// as decoded, or the error that says whether the text was not Base64
    /// at all or decoded to the wrong number of bytes.
    pub fn parse(text: &str) -> (r: Result<WebSocketAccept, WebSocketError>)
        ensures
            match r {
                Ok(token) => token.wf() && spec_parse(text@) == Ok::<Seq<u8>, WebSocketError>(
                    token@,
                ),
                Err(e) => spec_parse(text@) == Err::<Seq<u8>, WebSocketError>(e),
            },
    {
        match b64_decode(text) {
            Some(bytes) => {
                if bytes.len() != ACCEPT_LENGTH {
                    Err(WebSocketError::WrongLength)
                } else {
                    Ok(WebSocketAccept { bytes })
                }
            },
            None => Err(WebSocketError::MalformedEncoding),
        }
    }

    /// Return the Base64 encoding of this token: the canonical header
    /// text, which parses back to exactly this token's bytes.
    pub fn serialize(&self) -> (r: String)
        ensures
            r@ == b64_encode_of(self@),
            b64_decode_of(r@) == Some(self@),
    {
        b64_encode(&self.bytes)
    }
}

/// The magic identifier as header-ready text.
pub fn magic_guid_text() -> (r: &'static str)
    ensures
        r@ == magic_guid(),
{
    "258EAFA5-E914-47DA-95CA-C5AB0DC85B11"
}

impl PartialEq for WebSocketAccept {
    fn eq(&self, other: &WebSocketAccept) -> (r: bool) {
        if self.bytes.len() != other.bytes.len() {
            return false;
        }
        let n = self.bytes.len();
        let mut i: usize = 0;
        while i < n
            invariant
                n == self.bytes@.len(),
                n == other.bytes@.len(),
                0 <= i <= n,
                forall|j: int| 0 <= j < i ==> self.bytes@[j] == other.bytes@[j],
            decreases n - i,
        {
            if self.bytes[i] != other.bytes[i] {
                return false;
            }
            i = i + 1;
        }
        proof {
            assert(self.bytes@ =~= other.bytes@);
        }
        true
    }
}

impl vstd::std_specs::cmp::PartialEqSpecImpl for WebSocketAccept {
    open spec fn obeys_eq_spec() -> bool {
        true
    }

    open spec fn eq_spec(&self, other: &WebSocketAccept) -> bool {
        self@ == other@
    }
}

impl core::str::FromStr for WebSocketAccept {
    type Err = WebSocketError;

    fn from_str(s: &str) -> Result<WebSocketAccept, WebSocketError> {
        WebSocketAccept::parse(s)
    }
}

/// Law: derivation is deterministic. The token is a function of the nonce
/// text alone, so two derivations from the same nonce text, run
/// independently, describe byte-identical values.
pub proof fn lemma_derive_deterministic(nonce: Seq<char>, t1: Seq<u8>, t2: Seq<u8>)
    requires
        t1 == spec_derive(nonce),
        t2 == spec_derive(nonce),
    ensures
        t1 == t2,
{
}

/// Law: round trip. For every token of the proper length, its serialized
/// text parses back to exactly the same bytes. The premise on the text is
/// precisely what [`WebSocketAccept::serialize`] ensures of its result.
pub proof fn lemma_round_trip(bytes: Seq<u8>, text: Seq<char>)
    requires
        bytes.len() == ACCEPT_LENGTH,
        b64_decode_of(text) == Some(bytes),
    ensures
        spec_parse(text) == Ok::<Seq<u8>, WebSocketError>(bytes),
{
}

/// Law: equality is purely structural. The equality test of two tokens
/// goes by their bytes alone, so tokens constructed via different paths
/// (derived or parsed) with identical underlying bytes compare equal.
pub proof fn lemma_eq_structural(a: &WebSocketAccept, b: &WebSocketAccept)
    ensures
        a.eq_spec(b) <==> a@ == b@,
{
}

} // verus!
