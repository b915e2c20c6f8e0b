//! Trusted bindings to the two external leaf services this library uses:
//! a Base64 codec and a SHA-1 digest primitive.
//!
//! Each binding is a thin wrapper whose contract names, over plain
//! mathematical values, what the external call returns. Nothing else in
//! the library is trusted: all logic above these wrappers is verified
//! against their contracts.

use vstd::prelude::*;

verus! {

/// The Base64 text (standard alphabet, with padding) that encodes `bytes`.
pub uninterp spec fn b64_encode_of(bytes: Seq<u8>) -> Seq<char>;

/// The octets that `text` decodes to under standard Base64 with padding,
/// or `None` where `text` is not valid Base64 (invalid characters or
/// invalid padding).
pub uninterp spec fn b64_decode_of(text: Seq<char>) -> Option<Seq<u8>>;

/// The 20-byte SHA-1 digest of the UTF-8 bytes of `text`: a function of
/// the input text alone.
pub uninterp spec fn sha1_utf8_of(text: Seq<char>) -> Seq<u8>;

/// Relies on base64::encode: standard alphabet with padding, a pure
/// function of the input octets. Decoding its output with the same
/// standard configuration (base64::decode) gives back exactly the input.
#[verifier::external_body]
pub(crate) fn b64_encode(bytes: &Vec<u8>) -> (r: String)
    ensures
        r@ == b64_encode_of(bytes@),
        b64_decode_of(r@) == Some(bytes@),
{
    base64::encode(bytes.as_slice())
}

/// Relies on base64::decode: standard alphabet with padding; it rejects
/// invalid characters and invalid padding, and on success returns the
/// decoded octets.
#[verifier::external_body]
pub(crate) fn b64_decode(text: &str) -> (r: Option<Vec<u8>>)
    ensures
        match r {
            Some(bytes) => b64_decode_of(text@) == Some(bytes@),
            None => b64_decode_of(text@) is None,
        },
{
    match base64::decode(text) {
        Ok(bytes) => Some(bytes),
        Err(_) => None,
    }
}

/// Relies on sha1::Sha1 (update then digest) and Digest::bytes, which
/// returns the 160-bit (20-byte) digest of everything fed to the hasher.
#[verifier::external_body]
pub(crate) fn sha1_utf8(text: &str) -> (r: Vec<u8>)
    ensures
        r@ == sha1_utf8_of(text@),
        r@.len() == 20,
{
    let mut hasher = sha1::Sha1::new();
    hasher.update(text.as_bytes());
    hasher.digest().bytes().to_vec()
}

} // verus!
