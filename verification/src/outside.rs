//! The library's contact with the crates it builds on: `bytes` for payloads,
//! `httparse` for request heads and `serde_json` for request bodies.
//! Every item here is trusted: its contract is taken as given, not proved.

use vstd::prelude::*;

verus! {

// ---------------------------------------------------------------------------
// bytes
// ---------------------------------------------------------------------------

/// `bytes::Bytes`, an immutable reference-counted byte buffer.
#[verifier::external_type_specification]
#[verifier::external_body]
pub struct ExBytes(bytes::Bytes);

/// The bytes that a `bytes::Bytes` buffer holds, in order.
pub uninterp spec fn bytes_view(b: bytes::Bytes) -> Seq<u8>;

/// `Bytes::from(Vec<u8>)`: the buffer takes over the vector and holds exactly
/// its bytes.
#[verifier::external_body]
pub(crate) fn bytes_from_vec(v: Vec<u8>) -> (r: bytes::Bytes)
    ensures
        bytes_view(r) == v@,
{
    bytes::Bytes::from(v)
}

/// `<Bytes as AsRef<[u8]>>::as_ref`: a slice over the buffer's bytes.
#[verifier::external_body]
pub(crate) fn bytes_as_slice(b: &bytes::Bytes) -> (r: &[u8])
    ensures
        r@ == bytes_view(*b),
{
    b.as_ref()
}

/// `<Bytes as Clone>::clone`: a second handle on the same bytes.
#[verifier::external_body]
pub(crate) fn bytes_clone(b: &bytes::Bytes) -> (r: bytes::Bytes)
    ensures
        bytes_view(r) == bytes_view(*b),
{
    b.clone()
}

/// The characters that the `Debug` impl of `bytes::Bytes` writes for one
/// byte: the escapes `\n`, `\r`, `\t`, `\\`, `\"` and `\0`, printable ASCII
/// as itself, and `\x` with two lower-case hexadecimal digits otherwise.
pub open spec fn debug_escape(b: u8) -> Seq<char> {
    if b == 10 {
        seq!['\\', 'n']
    } else if b == 13 {
        seq!['\\', 'r']
    } else if b == 9 {
        seq!['\\', 't']
    } else if b == 92 || b == 34 {
        seq!['\\', b as char]
    } else if b == 0 {
        seq!['\\', '0']
    } else if 0x20 <= b < 0x7f {
        seq![b as char]
    } else {
        seq!['\\', 'x', hex_digit(b / 16), hex_digit(b % 16)]
    }
}

/// A lower-case hexadecimal digit.
pub open spec fn hex_digit(d: u8) -> char {
    if d < 10 {
        (48 + d) as char
    } else {
        (87 + d) as char
    }
}

/// The escapes of all the bytes of `s`, in order.
pub open spec fn debug_escapes(s: Seq<u8>) -> Seq<char>
    decreases s.len(),
{
    if s.len() == 0 {
        Seq::empty()
    } else {
        debug_escapes(s.drop_last()) + debug_escape(s.last())
    }
}

/// What `format!("{:?}", b)` writes for a `bytes::Bytes` holding `s`:
/// `b"`, the escaped bytes, and a closing `"`.
pub open spec fn bytes_debug(s: Seq<u8>) -> Seq<char> {
    seq!['b', '"'] + debug_escapes(s) + seq!['"']
}

/// `format!("{:?}", b)` on `bytes::Bytes`, whose `Debug` impl (in the
/// crate's `fmt/debug.rs`) writes the byte-string literal described by
/// `bytes_debug`.
#[verifier::external_body]
pub(crate) fn bytes_debug_text(b: &bytes::Bytes) -> (r: String)
    ensures
        r@ == bytes_debug(bytes_view(*b)),
{
    format!("{:?}", b)
}

// ---------------------------------------------------------------------------
// httparse
// ---------------------------------------------------------------------------

/// `httparse::Error`, the reason a request head was refused.
#[verifier::external_type_specification]
#[verifier::external_body]
pub struct ExHttpError(httparse::Error);

/// What `httparse::Request::parse`, with room for sixteen headers, makes of
/// `buf`: `None` when it refuses the bytes, `Some(None)` when the head is not
/// complete yet, `Some(Some(n))` when the head ends after the first `n` bytes.
pub uninterp spec fn http_request_head(buf: Seq<u8>) -> Option<Option<nat>>;

/// `httparse::Request::parse` on a request with room for sixteen headers.
/// `Status::Complete(n)` gives the offset of the body, which the crate
/// computes as the number of bytes it consumed, so it is at most `buf.len()`.
#[verifier::external_body]
pub(crate) fn parse_request_head(buf: &[u8]) -> (r: Result<Option<usize>, httparse::Error>)
    ensures
        match r {
            Ok(Some(n)) => http_request_head(buf@) == Some(Some(n as nat)) && n <= buf.len(),
            Ok(None) => http_request_head(buf@) == Some(None::<nat>),
            Err(_) => http_request_head(buf@) is None,
        },
{
    let mut headers = [httparse::EMPTY_HEADER; 16];
    let mut req = httparse::Request::new(&mut headers);
    match req.parse(buf) {
        Ok(httparse::Status::Complete(n)) => Ok(Some(n)),
        Ok(httparse::Status::Partial) => Ok(None),
        Err(e) => Err(e),
    }
}

// ---------------------------------------------------------------------------
// serde_json
// ---------------------------------------------------------------------------

/// `serde_json::Value`, a parsed JSON document.
#[verifier::external_type_specification]
#[verifier::external_body]
pub struct ExJsonValue(serde_json::Value);

/// `serde_json::Error`, the reason a text was refused as JSON.
#[verifier::external_type_specification]
#[verifier::external_body]
pub struct ExJsonError(serde_json::Error);

/// Whether `serde_json::from_slice::<serde_json::Value>` accepts `text`.
pub uninterp spec fn json_accepts(text: Seq<u8>) -> bool;

/// For a text that `serde_json` accepts, the string stored under `key` at the
/// top level (indexing a `serde_json::Value` by `key`), or `None` where that
/// member is missing or is not a JSON string.
pub uninterp spec fn json_text_member(text: Seq<u8>, key: Seq<char>) -> Option<Seq<char>>;

/// For a text that `serde_json` accepts, the number stored under `key` at the
/// top level, as the pair (`Number::as_i64`, `Number::as_u64`), or `None`
/// where that member is missing or is not a JSON number.
pub uninterp spec fn json_number_member(text: Seq<u8>, key: Seq<char>) -> Option<
    (Option<i64>, Option<u64>),
>;

/// A JSON document together with the text it was parsed from. Only
/// `json_from_slice` builds one, so `value` is always the parse of `text`.
pub(crate) struct JsonDocument {
    value: serde_json::Value,
    text: Vec<u8>,
}

impl JsonDocument {
    /// The text the document was parsed from.
    pub closed spec fn text(&self) -> Seq<u8> {
        self.text@
    }
}

/// `serde_json::from_slice::<serde_json::Value>`: `Ok` exactly on the texts
/// that `json_accepts` names; the document keeps a copy of its text.
#[verifier::external_body]
pub(crate) fn json_from_slice(text: &[u8]) -> (r: Result<JsonDocument, serde_json::Error>)
    ensures
        r is Ok <==> json_accepts(text@),
        r matches Ok(d) ==> d.text() == text@,
{
    match serde_json::from_slice::<serde_json::Value>(text) {
        Ok(value) => Ok(JsonDocument { value, text: text.to_vec() }),
        Err(e) => Err(e),
    }
}

/// `doc.value[key]` matched against `serde_json::Value::String`: the string
/// member `key`, as `json_text_member` names it.
#[verifier::external_body]
pub(crate) fn json_text(doc: &JsonDocument, key: &str) -> (r: Option<String>)
    ensures
        json_text_member(doc.text(), key@) == match r {
            Some(s) => Some(s@),
            None => None::<Seq<char>>,
        },
{
    match &doc.value[key] {
        serde_json::Value::String(s) => Some(s.clone()),
        _ => None,
    }
}

/// `doc.value[key]` matched against `serde_json::Value::Number`, read with
/// `Number::as_i64` and `Number::as_u64`, as `json_number_member` names it.
#[verifier::external_body]
pub(crate) fn json_number(doc: &JsonDocument, key: &str) -> (r: Option<(Option<i64>, Option<u64>)>)
    ensures
        json_number_member(doc.text(), key@) == r,
{
    match &doc.value[key] {
        serde_json::Value::Number(n) => Some((n.as_i64(), n.as_u64())),
        _ => None,
    }
}

} // verus!
