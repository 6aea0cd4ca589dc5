use bytes::Bytes;
use kyoto::error::KyotoError;
use kyoto::protocol::command_table::Command;
use kyoto::protocol::decode::{parse_command, try_parse_command};
use kyoto::protocol::encode::{generate_request, generate_response};

fn request(body: &str) -> Vec<u8> {
    let mut out = format!("POST / HTTP/1.1\r\nContent-Length: {}\r\n\r\n", body.len()).into_bytes();
    out.extend_from_slice(body.as_bytes());
    out
}

fn bad(message: &str) -> Command {
    Command::BadCommand { message: message.to_string() }
}

#[test]
fn parse_get_without_id() {
    let buf = request("{\"command\":\"GET\",\"key\":\"foo\"}");
    let cmd = parse_command(&buf).unwrap();
    assert_eq!(cmd, Some(Command::Get { key: "foo".to_string(), id: -1 }));
}

#[test]
fn parse_set_with_id() {
    let buf = request("{\"command\":\"SET\",\"key\":\"k\",\"value\":\"v\",\"id\":5}");
    let cmd = parse_command(&buf).unwrap();
    assert_eq!(
        cmd,
        Some(Command::Store { key: "k".to_string(), value: Bytes::from("v"), id: 5 })
    );
}

#[test]
fn parse_set_value_is_utf8() {
    let buf = request("{\"command\":\"SET\",\"key\":\"k\",\"value\":\"\u{e9}\",\"id\":1}");
    let cmd = parse_command(&buf).unwrap();
    assert_eq!(
        cmd,
        Some(Command::Store { key: "k".to_string(), value: Bytes::from(vec![0xc3u8, 0xa9]), id: 1 })
    );
}

#[test]
fn parse_info_ping_and_join() {
    let buf = request("{\"command\":\"INFO\",\"id\":-4}");
    assert_eq!(parse_command(&buf).unwrap(), Some(Command::Info { id: -4 }));
    let buf = request("{\"command\":\"REPL_PING\",\"id\":9}");
    assert_eq!(parse_command(&buf).unwrap(), Some(Command::ReplPing { id: 9 }));
    let buf = request("{\"command\":\"REPL_JOIN\",\"addr\":\"127.0.0.1\",\"port\":7000,\"id\":2}");
    assert_eq!(
        parse_command(&buf).unwrap(),
        Some(Command::ReplJoin { addr: "127.0.0.1".to_string(), port: 7000, id: 2 })
    );
}

#[test]
fn parse_join_port_wraps_to_u16() {
    let buf = request("{\"command\":\"REPL_JOIN\",\"addr\":\"h\",\"port\":70000}");
    assert_eq!(
        parse_command(&buf).unwrap(),
        Some(Command::ReplJoin { addr: "h".to_string(), port: 4464, id: -1 })
    );
}

#[test]
fn parse_id_not_a_number_is_minus_one() {
    let buf = request("{\"command\":\"INFO\",\"id\":\"7\"}");
    assert_eq!(parse_command(&buf).unwrap(), Some(Command::Info { id: -1 }));
}

#[test]
fn parse_bad_commands() {
    let cases = [
        ("{\"command\":\"DEL\"}", "Invalid command name"),
        ("{\"x\":1}", "Invalid command"),
        ("{\"command\":5}", "Invalid command"),
        ("[1,2]", "Invalid command"),
        ("{\"command\":\"GET\"}", "Invalid key for GET command"),
        ("{\"command\":\"SET\",\"value\":\"v\"}", "Invalid key for SET command"),
        ("{\"command\":\"SET\",\"key\":\"k\",\"value\":3}", "Invalid value for SET command"),
        ("{\"command\":\"REPL_JOIN\",\"port\":1}", "Invalid address for REPL_JOIN command"),
        ("{\"command\":\"REPL_JOIN\",\"addr\":\"h\",\"port\":-1}", "Invalid port for REPL_JOIN command"),
        ("{\"command\":\"REPL_JOIN\",\"addr\":\"h\",\"port\":\"1\"}", "Invalid port for REPL_JOIN command"),
        ("{\"command\":\"get\",\"key\":\"k\"}", "Invalid command name"),
    ];
    for (body, message) in cases.iter() {
        let buf = request(body);
        assert_eq!(parse_command(&buf).unwrap(), Some(bad(message)), "body {}", body);
    }
}

#[test]
fn parse_incomplete_head() {
    let buf = b"POST / HTTP/1.1\r\nContent-Le".to_vec();
    assert_eq!(parse_command(&buf).unwrap(), None);
    assert_eq!(parse_command(b"").unwrap(), None);
}

#[test]
fn parse_invalid_head() {
    let buf = b"PO\x01ST / HTTP/1.1\r\n\r\n{}".to_vec();
    assert!(matches!(parse_command(&buf), Err(KyotoError::HttpParse(_))));
}

#[test]
fn parse_invalid_json() {
    let buf = request("{\"command\":");
    assert!(matches!(parse_command(&buf), Err(KyotoError::JsonParse(_))));
    let buf = request("");
    assert!(matches!(parse_command(&buf), Err(KyotoError::JsonParse(_))));
}

#[test]
fn try_parse_refuses_out_of_range_id() {
    let buf = request("{\"command\":\"INFO\",\"id\":18446744073709551615}");
    assert!(try_parse_command(&buf).is_none());
    let buf = request("{\"command\":\"GET\",\"key\":\"k\",\"id\":1.5}");
    assert!(try_parse_command(&buf).is_none());
    let buf = request("{\"command\":\"GET\",\"id\":1.5}");
    assert_eq!(
        try_parse_command(&buf).unwrap().unwrap(),
        Some(bad("Invalid key for GET command"))
    );
    let buf = request("{\"command\":\"GET\",\"key\":\"k\",\"id\":3}");
    assert_eq!(
        try_parse_command(&buf).unwrap().unwrap(),
        Some(Command::Get { key: "k".to_string(), id: 3 })
    );
}

#[test]
fn response_has_status_and_length() {
    let r = generate_response(Bytes::from("abc"), 200).unwrap();
    assert_eq!(&r[..], b"HTTP/1.1 200\r\nContent-Length: 3\r\n\r\nabc");
    let r = generate_response(Bytes::from(""), 404).unwrap();
    assert_eq!(&r[..], b"HTTP/1.1 404\r\nContent-Length: 0\r\n\r\n");
    let r = generate_response(Bytes::from(vec![b'x'; 12]), 7).unwrap();
    assert_eq!(&r[..], b"HTTP/1.1 7\r\nContent-Length: 12\r\n\r\nxxxxxxxxxxxx");
}

#[test]
fn request_for_set() {
    let cmd = Command::Store { key: "k".to_string(), value: Bytes::from("v\n\"\x01"), id: 7 };
    let r = generate_request(&cmd).unwrap().unwrap();
    let body = "{\"command\":\"SET\",\"key\":k,\"value\":b\"v\\n\\\"\\x01\",\"id\":7}";
    let expected = format!(
        "POST / HTTP/1.1\r\nContent-Type: application/json\r\nConnection: keep-alive\r\nContent-Length: {}\r\n\r\n{}",
        body.len(),
        body
    );
    assert_eq!(body.len(), 53);
    assert_eq!(&r[..], expected.as_bytes());
}

#[test]
fn request_for_ping() {
    let r = generate_request(&Command::ReplPing { id: -3 }).unwrap().unwrap();
    assert_eq!(
        &r[..],
        &b"POST / HTTP/1.1\r\nContent-Type: application/json\r\nConnection: keep-alive\r\nContent-Length: 31\r\n\r\n{\"command\":\"REPL_PING\",\"id\":-3}"[..]
    );
}

#[test]
fn no_request_for_other_commands() {
    assert_eq!(generate_request(&Command::Get { key: "k".to_string(), id: 0 }).unwrap(), None);
    assert_eq!(generate_request(&Command::Info { id: 0 }).unwrap(), None);
    assert_eq!(generate_request(&bad("x")).unwrap(), None);
}

#[test]
fn replication_request_is_not_read_back() {
    // The SET body writes the key unquoted, so a peer refuses it as JSON.
    let cmd = Command::Store { key: "k".to_string(), value: Bytes::from("v"), id: 1 };
    let r = generate_request(&cmd).unwrap().unwrap();
    assert!(matches!(parse_command(&r), Err(KyotoError::JsonParse(_))));
}

#[test]
fn replication_body_escapes_every_kind_of_byte() {
    let cmd = Command::Store {
        key: "k".to_string(),
        value: Bytes::from(vec![b'\t', b'\r', 0u8, b'\\', 0x7f, 0xff, b'~', b' ']),
        id: -12,
    };
    let r = generate_request(&cmd).unwrap().unwrap();
    let body = "{\"command\":\"SET\",\"key\":k,\"value\":b\"\\t\\r\\0\\\\\\x7f\\xff~ \",\"id\":-12}";
    let expected = format!(
        "POST / HTTP/1.1\r\nContent-Type: application/json\r\nConnection: keep-alive\r\nContent-Length: {}\r\n\r\n{}",
        body.len(),
        body
    );
    assert_eq!(&r[..], expected.as_bytes());
    assert_eq!(format!("{:?}", Bytes::from(vec![b'\t', b'\r', 0u8, b'\\', 0x7f, 0xff, b'~', b' '])), "b\"\\t\\r\\0\\\\\\x7f\\xff~ \"");
}

#[test]
fn request_id_extremes() {
    let r = generate_request(&Command::ReplPing { id: i64::MIN }).unwrap().unwrap();
    let body = "{\"command\":\"REPL_PING\",\"id\":-9223372036854775808}";
    assert!(r.ends_with(body.as_bytes()));
    let r = generate_request(&Command::ReplPing { id: 0 }).unwrap().unwrap();
    assert!(r.ends_with(b"Content-Length: 30\r\n\r\n{\"command\":\"REPL_PING\",\"id\":0}"));
}
