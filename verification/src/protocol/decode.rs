//! Reading a command out of a request: an HTTP head followed by a JSON body
//! such as `{"command":"SET","key":"k","value":"v","id":3}`.

use vstd::prelude::*;
use vstd::utf8::encode_utf8;

use crate::error::KyotoError;
use crate::outside::{
    bytes_from_vec, http_request_head, json_accepts, json_from_slice, json_number,
    json_number_member, json_text, json_text_member, parse_request_head, JsonDocument,
};
use crate::protocol::command_table::{Command, CommandView};
use crate::text::text_eq;

verus! {

/// What reading a request buffer gives.
pub enum Decoded {
    /// The HTTP head is not complete yet.
    Incomplete,
    /// A command (possibly a `BadCommand` that names what was wrong).
    Command(CommandView),
    /// The HTTP head is refused.
    HttpInvalid,
    /// The body is refused as JSON.
    JsonInvalid,
    /// The body's `id` is a number that does not fit in an `i64`, on which
    /// reading the command cannot go on.
    IdNotI64,
}

/// The identifier of a command body: the `id` member read as an `i64`, or -1
/// where there is no numeric `id`; `None` where `id` is a number outside the
/// range of `i64`.
pub open spec fn spec_parse_id(text: Seq<u8>) -> Option<i64> {
    match json_number_member(text, "id"@) {
        Some((as_i64, _)) => as_i64,
        None => Some(-1i64),
    }
}

/// A command, once its other members are read, completed with the `id`.
pub open spec fn with_id(text: Seq<u8>, make: spec_fn(i64) -> CommandView) -> Decoded {
    match spec_parse_id(text) {
        Some(id) => Decoded::Command(make(id)),
        None => Decoded::IdNotI64,
    }
}

/// A `BadCommand` with the given reason.
pub open spec fn bad(message: Seq<char>) -> Decoded {
    Decoded::Command(CommandView::BadCommand { message })
}

/// A `GET` body: a string `key`.
pub open spec fn spec_decode_get(text: Seq<u8>) -> Decoded {
    match json_text_member(text, "key"@) {
        Some(key) => with_id(text, |id: i64| CommandView::Get { key, id }),
        None => bad("Invalid key for GET command"@),
    }
}

/// A `SET` body: a string `key` and a string `value`, stored as the value's
/// UTF-8 bytes.
pub open spec fn spec_decode_set(text: Seq<u8>) -> Decoded {
    match json_text_member(text, "key"@) {
        Some(key) => match json_text_member(text, "value"@) {
            Some(value) => with_id(
                text,
                |id: i64| CommandView::Store { key, value: encode_utf8(value), id },
            ),
            None => bad("Invalid value for SET command"@),
        },
        None => bad("Invalid key for SET command"@),
    }
}

/// An `INFO` body: nothing but the `id`.
pub open spec fn spec_decode_info(text: Seq<u8>) -> Decoded {
    with_id(text, |id: i64| CommandView::Info { id })
}

/// A `REPL_JOIN` body: a string `addr` and a non-negative integer `port`,
/// which is kept modulo 2^16.
pub open spec fn spec_decode_repl_join(text: Seq<u8>) -> Decoded {
    match json_text_member(text, "addr"@) {
        Some(addr) => match json_number_member(text, "port"@) {
            Some((_, Some(num))) => with_id(
                text,
                |id: i64| CommandView::ReplJoin { addr, port: num as u16, id },
            ),
            _ => bad("Invalid port for REPL_JOIN command"@),
        },
        None => bad("Invalid address for REPL_JOIN command"@),
    }
}

/// A `REPL_PING` body: nothing but the `id`.
pub open spec fn spec_decode_repl_ping(text: Seq<u8>) -> Decoded {
    with_id(text, |id: i64| CommandView::ReplPing { id })
}

/// A JSON body, chosen by its string member `command`.
pub open spec fn spec_decode_body(text: Seq<u8>) -> Decoded {
    match json_text_member(text, "command"@) {
        Some(c) => if c == "GET"@ {
            spec_decode_get(text)
        } else if c == "SET"@ {
            spec_decode_set(text)
        } else if c == "INFO"@ {
            spec_decode_info(text)
        } else if c == "REPL_JOIN"@ {
            spec_decode_repl_join(text)
        } else if c == "REPL_PING"@ {
            spec_decode_repl_ping(text)
        } else {
            bad("Invalid command name"@)
        },
        None => bad("Invalid command"@),
    }
}

/// A whole request buffer: the HTTP head, then the JSON body after it.
pub open spec fn spec_decode(buffer: Seq<u8>) -> Decoded {
    match http_request_head(buffer) {
        None => Decoded::HttpInvalid,
        Some(None) => Decoded::Incomplete,
        Some(Some(n)) => {
            let body = buffer.subrange(n as int, buffer.len() as int);
            if json_accepts(body) {
                spec_decode_body(body)
            } else {
                Decoded::JsonInvalid
            }
        },
    }
}

/// Whether an optional command is what `d` says, `None` standing for
/// `IdNotI64`.
pub open spec fn command_agrees(r: Option<Command>, d: Decoded) -> bool {
    match r {
        Some(c) => d == Decoded::Command(c@),
        None => d is IdNotI64,
    }
}

/// Whether the result of reading a buffer is what `d` says.
pub open spec fn parse_agrees(r: Result<Option<Command>, KyotoError>, d: Decoded) -> bool {
    match r {
        Ok(None) => d is Incomplete,
        Ok(Some(c)) => d == Decoded::Command(c@),
        Err(KyotoError::HttpParse(_)) => d is HttpInvalid,
        Err(KyotoError::JsonParse(_)) => d is JsonInvalid,
        Err(_) => false,
    }
}

/// A `BadCommand` with the given reason.
fn bad_command(message: &str) -> (c: Command)
    ensures
        c@ == (CommandView::BadCommand { message: message@ }),
{
    Command::BadCommand { message: message.to_owned() }
}

/// Reads the `id` member: `Some(-1)` where it is absent or not a number,
/// `None` where it is a number that does not fit in an `i64`.
fn parse_id(doc: &JsonDocument) -> (r: Option<i64>)
    ensures
        r == spec_parse_id(doc.text()),
{
    match json_number(doc, "id") {
        Some((as_i64, _)) => as_i64,
        None => Some(-1),
    }
}

/// Reads a `GET` body.
fn parse_get_command(doc: &JsonDocument) -> (r: Option<Command>)
    ensures
        command_agrees(r, spec_decode_get(doc.text())),
{
    let key = match json_text(doc, "key") {
        Some(k) => k,
        None => return Some(bad_command("Invalid key for GET command")),
    };
    match parse_id(doc) {
        Some(id) => Some(Command::Get { key, id }),
        None => None,
    }
}

/// Reads a `SET` body.
fn parse_set_command(doc: &JsonDocument) -> (r: Option<Command>)
    ensures
        command_agrees(r, spec_decode_set(doc.text())),
{
    let key = match json_text(doc, "key") {
        Some(k) => k,
        None => return Some(bad_command("Invalid key for SET command")),
    };
    let value = match json_text(doc, "value") {
        Some(v) => v,
        None => return Some(bad_command("Invalid value for SET command")),
    };
    match parse_id(doc) {
        Some(id) => {
            let bytes = value.as_str().as_bytes_vec();
            Some(Command::Store { key, value: bytes_from_vec(bytes), id })
        },
        None => None,
    }
}

/// Reads an `INFO` body.
fn parse_info_command(doc: &JsonDocument) -> (r: Option<Command>)
    ensures
        command_agrees(r, spec_decode_info(doc.text())),
{
    match parse_id(doc) {
        Some(id) => Some(Command::Info { id }),
        None => None,
    }
}

/// Reads a `REPL_JOIN` body.
fn parse_repl_join_command(doc: &JsonDocument) -> (r: Option<Command>)
    ensures
        command_agrees(r, spec_decode_repl_join(doc.text())),
{
    let addr = match json_text(doc, "addr") {
        Some(a) => a,
        None => return Some(bad_command("Invalid address for REPL_JOIN command")),
    };
    let port: u16 = match json_number(doc, "port") {
        Some((_, Some(num))) => num as u16,
        _ => return Some(bad_command("Invalid port for REPL_JOIN command")),
    };
    match parse_id(doc) {
        Some(id) => Some(Command::ReplJoin { addr, port, id }),
        None => None,
    }
}

/// Reads a `REPL_PING` body.
fn parse_repl_ping_command(doc: &JsonDocument) -> (r: Option<Command>)
    ensures
        command_agrees(r, spec_decode_repl_ping(doc.text())),
{
    match parse_id(doc) {
        Some(id) => Some(Command::ReplPing { id }),
        None => None,
    }
}

/// Reads a request buffer; `None` stands for a body whose `id` is a number
/// outside the range of `i64`, on which reading cannot go on.
fn decode_command(buffer: &[u8]) -> (r: Option<Result<Option<Command>, KyotoError>>)
    ensures
        match r {
            Some(res) => parse_agrees(res, spec_decode(buffer@)),
            None => spec_decode(buffer@) is IdNotI64,
        },
{
    let amt = match parse_request_head(buffer) {
        Ok(Some(n)) => n,
        Ok(None) => return Some(Ok(None)),
        Err(e) => return Some(Err(KyotoError::HttpParse(e))),
    };
    let (_head, body) = buffer.split_at(amt);
    let doc = match json_from_slice(body) {
        Ok(d) => d,
        Err(e) => return Some(Err(KyotoError::JsonParse(e))),
    };
    let command = match json_text(&doc, "command") {
        Some(c) => if text_eq(c.as_str(), "GET") {
            parse_get_command(&doc)
        } else if text_eq(c.as_str(), "SET") {
            parse_set_command(&doc)
        } else if text_eq(c.as_str(), "INFO") {
            parse_info_command(&doc)
        } else if text_eq(c.as_str(), "REPL_JOIN") {
            parse_repl_join_command(&doc)
        } else if text_eq(c.as_str(), "REPL_PING") {
            parse_repl_ping_command(&doc)
        } else {
            Some(bad_command("Invalid command name"))
        },
        None => Some(bad_command("Invalid command")),
    };
    match command {
        Some(c) => Some(Ok(Some(c))),
        None => None,
    }
}

/// Reads a command out of a request buffer: `Ok(None)` while the HTTP head
/// is incomplete, an error where the head or the JSON body is refused, and
/// otherwise the command the body describes, or a `BadCommand` naming the
/// member that is missing or of the wrong kind.
pub fn parse_command(buffer: &[u8]) -> (r: Result<Option<Command>, KyotoError>)
    requires
        !(spec_decode(buffer@) is IdNotI64),
    ensures
        parse_agrees(r, spec_decode(buffer@)),
{
    match decode_command(buffer) {
        Some(res) => res,
        None => vstd::pervasive::unreached(),
    }
}

/// Reads a request buffer as `parse_command` does, after testing it for the
/// one input on which `parse_command` cannot go on (a body whose `id` is a
/// number outside the range of `i64`); on that input it returns `None`.
pub fn try_parse_command(buffer: &[u8]) -> (r: Option<Result<Option<Command>, KyotoError>>)
    ensures
        match r {
            Some(res) => parse_agrees(res, spec_decode(buffer@)),
            None => spec_decode(buffer@) is IdNotI64,
        },
{
    match decode_command(buffer) {
        None => None,
        Some(_) => Some(parse_command(buffer)),
    }
}

} // verus!
