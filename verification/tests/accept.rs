use std::str::FromStr;

use ws_accept::HeaderValue;
use ws_accept::WebSocketAccept;
use ws_accept::WebSocketError;

#[test]
fn test_header_accept() {
    let key = "dGhlIHNhbXBsZSBub25jZQ==";
    let accept = WebSocketAccept::new(key);
    let line = format!(
        "{}: {}\r\n",
        <WebSocketAccept as HeaderValue>::header_name(),
        accept.fmt_header()
    );
    assert_eq!(&line[..], "Sec-WebSocket-Accept: s3pPLMBiTxaQ9kYGzzhZRbK+xOo=\r\n");
}

#[test]
fn test_header_from_str() {
    let accept = WebSocketAccept::from_str("YSBzaW1wbGUgc2FtcGwgbm9uY2U=");
    assert!(accept.is_ok()); // 20 bytes

    let accept = WebSocketAccept::from_str("YSBzaG9ydCBub25jZQ==");
    assert!(accept.is_err()); // < 20 bytes

    let accept = WebSocketAccept::from_str("YSByZWFsbHkgbWFsaWNpb3VzIG5vbmNl");
    assert!(accept.is_err()); // > 20 bytes
}

#[test]
fn rfc_worked_example() {
    let accept = WebSocketAccept::new("dGhlIHNhbXBsZSBub25jZQ==");
    assert_eq!(accept.serialize(), "s3pPLMBiTxaQ9kYGzzhZRbK+xOo=");
}

#[test]
fn round_trip_serialized_token() {
    let derived = WebSocketAccept::new("dGhlIHNhbXBsZSBub25jZQ==");
    let back = WebSocketAccept::parse(&derived.serialize()).unwrap();
    assert_eq!(back, derived);

    let parsed = WebSocketAccept::parse("YSBzaW1wbGUgc2FtcGwgbm9uY2U=").unwrap();
    let again = WebSocketAccept::parse(&parsed.serialize()).unwrap();
    assert_eq!(again, parsed);
    assert_eq!(parsed.serialize(), "YSBzaW1wbGUgc2FtcGwgbm9uY2U=");
}

#[test]
fn parse_rejects_short_decoding() {
    let r = WebSocketAccept::parse("YSBzaG9ydCBub25jZQ==");
    assert_eq!(r.unwrap_err(), WebSocketError::WrongLength);
}

#[test]
fn parse_rejects_long_decoding() {
    let r = WebSocketAccept::parse("YSByZWFsbHkgbWFsaWNpb3VzIG5vbmNl");
    assert_eq!(r.unwrap_err(), WebSocketError::WrongLength);
}

#[test]
fn parse_rejects_invalid_base64() {
    let r = WebSocketAccept::parse("not!valid@base64#text$");
    assert_eq!(r.unwrap_err(), WebSocketError::MalformedEncoding);
}

#[test]
fn derive_is_deterministic() {
    let a = WebSocketAccept::new("dGhlIHNhbXBsZSBub25jZQ==");
    let b = WebSocketAccept::new("dGhlIHNhbXBsZSBub25jZQ==");
    assert_eq!(a, b);
    assert_eq!(a.serialize(), b.serialize());
}

#[test]
fn equality_is_structural_across_paths() {
    let derived = WebSocketAccept::new("dGhlIHNhbXBsZSBub25jZQ==");
    let parsed = WebSocketAccept::parse("s3pPLMBiTxaQ9kYGzzhZRbK+xOo=").unwrap();
    assert_eq!(derived, parsed);

    let other = WebSocketAccept::parse("YSBzaW1wbGUgc2FtcGwgbm9uY2U=").unwrap();
    assert!(derived != other);
}

#[test]
fn derived_token_is_twenty_bytes() {
    // 20 bytes encode to exactly 28 Base64 characters, and a serialized
    // token parses back successfully, which only a 20-byte value does.
    let t = WebSocketAccept::new("arbitrary nonce text");
    let text = t.serialize();
    assert_eq!(text.len(), 28);
    assert!(WebSocketAccept::parse(&text).is_ok());
}

#[test]
fn error_descriptions() {
    assert_eq!(
        WebSocketError::MalformedEncoding.description(),
        "Invalid Sec-WebSocket-Accept"
    );
    assert_eq!(
        WebSocketError::WrongLength.description(),
        "Sec-WebSocket-Accept must be 20 bytes"
    );
}

#[test]
fn from_str_behaves_like_parse() {
    let a = WebSocketAccept::from_str("s3pPLMBiTxaQ9kYGzzhZRbK+xOo=").unwrap();
    let b = WebSocketAccept::parse("s3pPLMBiTxaQ9kYGzzhZRbK+xOo=").unwrap();
    assert_eq!(a, b);
}

#[test]
fn header_capabilities_match_parse_and_serialize() {
    let parsed =
        <WebSocketAccept as HeaderValue>::parse_header("s3pPLMBiTxaQ9kYGzzhZRbK+xOo=").unwrap();
    assert_eq!(parsed.fmt_header(), "s3pPLMBiTxaQ9kYGzzhZRbK+xOo=");

    let err = <WebSocketAccept as HeaderValue>::parse_header("???").unwrap_err();
    assert_eq!(err, WebSocketError::MalformedEncoding);
}
