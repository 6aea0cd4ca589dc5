//! Writing responses to clients and requests to peer nodes.

use vstd::prelude::*;
use vstd::utf8::encode_utf8;

use crate::error::KyotoError;
use crate::outside::{bytes_as_slice, bytes_debug, bytes_debug_text, bytes_from_vec, bytes_view};
use crate::protocol::command_table::{Command, CommandView};
use crate::text::{decimal, push_bytes, push_decimal, push_signed_decimal, push_text, signed_decimal};

verus! {

/// The bytes of an HTTP response with status `code` and body `body`:
/// `HTTP/1.1 <code>\r\nContent-Length: <length of body>\r\n\r\n<body>`.
pub open spec fn response_bytes(code: u16, body: Seq<u8>) -> Seq<u8> {
    encode_utf8("HTTP/1.1 "@) + decimal(code as nat) + encode_utf8("\r\nContent-Length: "@)
        + decimal(body.len()) + encode_utf8("\r\n\r\n"@) + body
}

/// The JSON body that replicates a `SET` to a peer: the key is written as it
/// is and the value as the `Debug` text of its bytes.
pub open spec fn set_request_body(key: Seq<char>, value: Seq<u8>, id: i64) -> Seq<u8> {
    encode_utf8("{\"command\":\"SET\",\"key\":"@) + encode_utf8(key) + encode_utf8(",\"value\":"@)
        + encode_utf8(bytes_debug(value)) + encode_utf8(",\"id\":"@) + signed_decimal(id as int)
        + encode_utf8("}"@)
}

/// The JSON body of a `REPL_PING` request.
pub open spec fn repl_ping_request_body(id: i64) -> Seq<u8> {
    encode_utf8("{\"command\":\"REPL_PING\",\"id\":"@) + signed_decimal(id as int) + encode_utf8(
        "}"@,
    )
}

/// The bytes of a POST request that carries `body` as JSON.
pub open spec fn request_bytes(body: Seq<u8>) -> Seq<u8> {
    encode_utf8(
        "POST / HTTP/1.1\r\nContent-Type: application/json\r\nConnection: keep-alive\r\nContent-Length: "@,
    ) + decimal(body.len()) + encode_utf8("\r\n\r\n"@) + body
}

/// The request that forwards `cmd` to a peer node, where there is one: a
/// `SET` is replicated and a `REPL_PING` is sent; other commands are not
/// forwarded.
pub open spec fn spec_request(cmd: CommandView) -> Option<Seq<u8>> {
    match cmd {
        CommandView::Store { key, value, id } => Some(request_bytes(set_request_body(key, value, id))),
        CommandView::ReplPing { id } => Some(request_bytes(repl_ping_request_body(id))),
        _ => None,
    }
}

/// Wraps `val` in an HTTP response with status `erorr_code` and a
/// `Content-Length` header that gives the length of `val`.
pub fn generate_response(val: bytes::Bytes, erorr_code: u16) -> (r: Result<bytes::Bytes, KyotoError>)
    ensures
        r matches Ok(b) && bytes_view(b) == response_bytes(erorr_code, bytes_view(val)),
{
    let body = bytes_as_slice(&val);
    let mut out: Vec<u8> = Vec::new();
    push_text(&mut out, "HTTP/1.1 ");
    push_decimal(&mut out, erorr_code as u64);
    push_text(&mut out, "\r\nContent-Length: ");
    push_decimal(&mut out, body.len() as u64);
    push_text(&mut out, "\r\n\r\n");
    push_bytes(&mut out, body);
    proof {
        assert(out@ =~= response_bytes(erorr_code, bytes_view(val)));
    }
    Ok(bytes_from_vec(out))
}

/// The request that forwards `cmd` to a peer node: `Some` for a `SET` and a
/// `REPL_PING`, `None` for the other commands.
pub fn generate_request(cmd: &Command) -> (r: Result<Option<bytes::Bytes>, KyotoError>)
    ensures
        r matches Ok(o) && match (o, spec_request(cmd@)) {
            (Some(b), Some(s)) => bytes_view(b) == s,
            (None, None) => true,
            _ => false,
        },
{
    let body = match cmd {
        Command::Store { .. } => generate_set_request_body(cmd)?,
        Command::ReplPing { .. } => generate_repl_ping_request_body(cmd)?,
        _ => {
            return Ok(None);
        },
    };
    let body_bytes = bytes_as_slice(&body);
    let mut request: Vec<u8> = Vec::new();
    push_text(
        &mut request,
        "POST / HTTP/1.1\r\nContent-Type: application/json\r\nConnection: keep-alive\r\nContent-Length: ",
    );
    push_decimal(&mut request, body_bytes.len() as u64);
    push_text(&mut request, "\r\n\r\n");
    push_bytes(&mut request, body_bytes);
    proof {
        assert(request@ =~= request_bytes(bytes_view(body)));
    }
    Ok(Some(bytes_from_vec(request)))
}

/// The body of the request that replicates a `SET`; an error for any other
/// command.
fn generate_set_request_body(cmd: &Command) -> (r: Result<bytes::Bytes, KyotoError>)
    ensures
        match cmd@ {
            CommandView::Store { key, value, id } => r matches Ok(b) && bytes_view(b)
                == set_request_body(key, value, id),
            _ => r matches Err(KyotoError::InvalidCommandType),
        },
{
    if let Command::Store { key, value, id } = cmd {
        let mut body: Vec<u8> = Vec::new();
        push_text(&mut body, "{\"command\":\"SET\",\"key\":");
        push_text(&mut body, key.as_str());
        push_text(&mut body, ",\"value\":");
        let shown = bytes_debug_text(value);
        push_text(&mut body, shown.as_str());
        push_text(&mut body, ",\"id\":");
        push_signed_decimal(&mut body, *id);
        push_text(&mut body, "}");
        proof {
            assert(body@ =~= set_request_body(key@, bytes_view(*value), *id));
        }
        return Ok(bytes_from_vec(body));
    }
    Err(KyotoError::InvalidCommandType)
}

/// The body of a `REPL_PING` request; an error for any other command.
fn generate_repl_ping_request_body(cmd: &Command) -> (r: Result<bytes::Bytes, KyotoError>)
    ensures
        match cmd@ {
            CommandView::ReplPing { id } => r matches Ok(b) && bytes_view(b)
                == repl_ping_request_body(id),
            _ => r matches Err(KyotoError::InvalidCommandType),
        },
{
    if let Command::ReplPing { id } = cmd {
        let mut body: Vec<u8> = Vec::new();
        push_text(&mut body, "{\"command\":\"REPL_PING\",\"id\":");
        push_signed_decimal(&mut body, *id);
        push_text(&mut body, "}");
        proof {
            assert(body@ =~= repl_ping_request_body(*id));
        }
        return Ok(bytes_from_vec(body));
    }
    Err(KyotoError::InvalidCommandType)
}

} // verus!
