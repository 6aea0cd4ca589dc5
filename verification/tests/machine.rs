use bytes::Bytes;
use kyoto::data::client::ClientType;
use kyoto::data::params::Params;
use kyoto::data::server::Server;
use kyoto::error::KyotoError;
use kyoto::machine::execute_command::{
    begin_repl_join, execute_get_cmd, execute_info_cmd, execute_set_cmd, finish_repl_join,
    handle_bad_cmd,
};
use kyoto::machine::handle_client::{execute_command, handle_buffer, handle_command, try_handle_buffer, ClientStep, Execution};
use kyoto::machine::handle_primary_probe::{
    execute_command_primary_probe, handle_buffer_primary_probe, handle_command_primary_probe,
    try_handle_buffer_primary_probe, ProbeStep,
};
use kyoto::protocol::command_table::Command;
use kyoto::protocol::response::{ErrorType, Response};

fn server() -> Server<u32> {
    Server::new(Params { port: None, input_buffer_size: None })
}

fn valid(s: &str) -> Response {
    Response::Valid { message: Bytes::from(s.to_string()) }
}

fn error(t: ErrorType, s: &str) -> Response {
    Response::Error { error_type: t, message: s.to_string() }
}

#[test]
fn set_then_get() {
    let mut server = server();
    let get = Command::Get { key: "foo".to_string(), id: 0 };
    assert_eq!(
        execute_get_cmd(&server, &get).unwrap(),
        error(ErrorType::NonExistentKey, "Key not found.")
    );
    let mut set = Command::Store { key: "foo".to_string(), value: Bytes::from("bar"), id: -1 };
    assert_eq!(execute_set_cmd(&mut server, &mut set).unwrap(), valid("Ok."));
    assert_eq!(set, Command::Store { key: "foo".to_string(), value: Bytes::from("bar"), id: 0 });
    assert_eq!(execute_get_cmd(&server, &get).unwrap(), valid("bar"));
    let mut set = Command::Store { key: "foo".to_string(), value: Bytes::from("baz"), id: 9 };
    execute_set_cmd(&mut server, &mut set).unwrap();
    assert_eq!(set, Command::Store { key: "foo".to_string(), value: Bytes::from("baz"), id: 1 });
    assert_eq!(execute_get_cmd(&server, &get).unwrap(), valid("baz"));
}

#[test]
fn executors_refuse_other_commands() {
    let mut server = server();
    let info = Command::Info { id: 0 };
    assert!(matches!(execute_get_cmd(&server, &info), Err(KyotoError::InvalidCommandType)));
    let mut info2 = Command::Info { id: 0 };
    assert!(matches!(execute_set_cmd(&mut server, &mut info2), Err(KyotoError::InvalidCommandType)));
    assert_eq!(info2, Command::Info { id: 0 });
    assert!(matches!(
        execute_info_cmd(&server, &Command::ReplPing { id: 0 }),
        Err(KyotoError::InvalidCommandType)
    ));
    assert!(matches!(handle_bad_cmd(&info), Err(KyotoError::InvalidCommandType)));
    assert!(matches!(
        begin_repl_join(ClientType::Customer, &info),
        Err(KyotoError::InvalidCommandType)
    ));
}

#[test]
fn info_text() {
    let mut server = server();
    server.client_collections.add_client(1, ClientType::Customer, 4);
    let r = execute_info_cmd(&server, &Command::Info { id: 0 }).unwrap();
    assert_eq!(
        r,
        valid("[Server config info]\r\nport: 9736\r\ninput_buffer_size: 4096\r\n\r\n[Client info]\r\ncustomer client num: 1\r\nreplication client num: 0\r\n\r\n")
    );
}

#[test]
fn bad_command_answer() {
    let r = handle_bad_cmd(&Command::BadCommand { message: "Invalid command".to_string() }).unwrap();
    assert_eq!(r, error(ErrorType::InvalidSyntax, "Invalid command"));
}

#[test]
fn dispatch_client_commands() {
    let mut server = server();
    let mut cmd = Command::Store { key: "a".to_string(), value: Bytes::from("1"), id: 0 };
    assert_eq!(
        execute_command(&mut server, ClientType::Customer, &mut cmd).unwrap(),
        Execution::Done(valid("Ok."))
    );
    let mut cmd = Command::Get { key: "a".to_string(), id: 0 };
    assert_eq!(
        execute_command(&mut server, ClientType::Customer, &mut cmd).unwrap(),
        Execution::Done(valid("1"))
    );
    let mut cmd = Command::ReplPing { id: 0 };
    assert_eq!(
        execute_command(&mut server, ClientType::Customer, &mut cmd).unwrap(),
        Execution::Done(error(ErrorType::InvalidSyntax, "Invalid command!"))
    );
    let mut cmd = Command::BadCommand { message: "Invalid command name".to_string() };
    assert_eq!(
        execute_command(&mut server, ClientType::Customer, &mut cmd).unwrap(),
        Execution::Done(error(ErrorType::InvalidSyntax, "Invalid command name"))
    );
    let mut cmd = Command::ReplJoin { addr: "127.0.0.1".to_string(), port: 9000, id: 0 };
    assert_eq!(
        execute_command(&mut server, ClientType::Customer, &mut cmd).unwrap(),
        Execution::JoinPrimary { addr: "127.0.0.1".to_string(), port: 9000 }
    );
    assert!(matches!(
        execute_command(&mut server, ClientType::Primary, &mut cmd),
        Err(KyotoError::JoinFromPrimary)
    ));
}

#[test]
fn repl_join_replaces_the_primary() {
    let mut server = server();
    assert_eq!(server.client_collections.replace_primary(1, 5).unwrap(), false);
    assert_eq!(server.client_collections.replace_primary(2, 6).unwrap(), true);
    assert_eq!(server.client_collections.get_client_number(ClientType::Primary).unwrap(), 1);
    assert_eq!(server.client_collections.primary_probe.get(&6), Some(&2));
    assert_eq!(finish_repl_join(), valid("Ok."));
}

#[test]
fn replies_to_clients() {
    let r = handle_command(valid("bar")).unwrap().unwrap();
    assert_eq!(&r[..], b"HTTP/1.1 200\r\nContent-Length: 3\r\n\r\nbar");
    let r = handle_command(error(ErrorType::NonExistentKey, "Key not found.")).unwrap().unwrap();
    assert_eq!(&r[..], &b"HTTP/1.1 404\r\nContent-Length: 37\r\n\r\nNonexistent key error: Key not found."[..]);
    let r = handle_command(error(ErrorType::InvalidSyntax, "Invalid command")).unwrap().unwrap();
    assert_eq!(&r[..], &b"HTTP/1.1 404\r\nContent-Length: 37\r\n\r\nInvalid syntax error: Invalid command"[..]);
    assert_eq!(handle_command(Response::Empty).unwrap(), None);
}

#[test]
fn primary_probe_commands() {
    let mut server = server();
    let mut cmd = Command::Store { key: "k".to_string(), value: Bytes::from("v"), id: 3 };
    assert_eq!(execute_command_primary_probe(&mut server, &mut cmd).unwrap(), valid("Ok."));
    let mut cmd = Command::Get { key: "k".to_string(), id: 0 };
    assert_eq!(execute_command_primary_probe(&mut server, &mut cmd).unwrap(), valid("v"));
    let mut cmd = Command::ReplJoin { addr: "h".to_string(), port: 1, id: 0 };
    assert_eq!(
        execute_command_primary_probe(&mut server, &mut cmd).unwrap(),
        error(ErrorType::InvalidSyntax, "Invalid command!")
    );
}

#[test]
fn primary_probe_reactions() {
    assert_eq!(handle_command_primary_probe(valid("x")).unwrap(), true);
    assert_eq!(handle_command_primary_probe(Response::Empty).unwrap(), false);
    match handle_command_primary_probe(error(ErrorType::NonExistentKey, "Key not found.")) {
        Err(KyotoError::PrimaryCommandFailed(m)) => assert_eq!(m, "Nonexistent key error: Key not found."),
        other => panic!("unexpected {:?}", other),
    }
}

#[test]
fn closing_a_connection_evicts_it() {
    let mut server = server();
    server.client_collections.add_client(1, ClientType::Customer, 4);
    let e = server.client_collections.close_connection(ClientType::Customer, 4, true);
    assert!(matches!(e, KyotoError::ConnectionClosed));
    assert_eq!(server.client_collections.get_client_number(ClientType::Customer).unwrap(), 0);
    let e = server.client_collections.close_connection(ClientType::Customer, 4, false);
    assert!(matches!(e, KyotoError::ConnectionReset));
}

fn request(body: &str) -> Vec<u8> {
    let mut out = format!("POST / HTTP/1.1\r\nContent-Length: {}\r\n\r\n", body.len()).into_bytes();
    out.extend_from_slice(body.as_bytes());
    out
}

#[test]
fn handle_buffer_set_then_get() {
    let mut server = server();
    let step = handle_buffer(
        &mut server,
        ClientType::Customer,
        &request("{\"command\":\"SET\",\"key\":\"k\",\"value\":\"v\",\"id\":3}"),
    )
    .unwrap();
    let body = "{\"command\":\"SET\",\"key\":k,\"value\":b\"v\",\"id\":0}";
    let replication = format!(
        "POST / HTTP/1.1\r\nContent-Type: application/json\r\nConnection: keep-alive\r\nContent-Length: {}\r\n\r\n{}",
        body.len(),
        body
    );
    assert_eq!(
        step,
        ClientStep::Reply {
            client_type: ClientType::Customer,
            reply: Some(Bytes::from(&b"HTTP/1.1 200\r\nContent-Length: 3\r\n\r\nOk."[..])),
            replication: Some(Bytes::from(replication)),
        }
    );
    let step = handle_buffer(
        &mut server,
        ClientType::Customer,
        &request("{\"command\":\"GET\",\"key\":\"k\"}"),
    )
    .unwrap();
    assert_eq!(
        step,
        ClientStep::Reply {
            client_type: ClientType::Customer,
            reply: Some(Bytes::from(&b"HTTP/1.1 200\r\nContent-Length: 1\r\n\r\nv"[..])),
            replication: None,
        }
    );
    let step = handle_buffer(
        &mut server,
        ClientType::Customer,
        &request("{\"command\":\"GET\",\"key\":\"nope\"}"),
    )
    .unwrap();
    assert_eq!(
        step,
        ClientStep::Reply {
            client_type: ClientType::Customer,
            reply: Some(Bytes::from(&b"HTTP/1.1 404\r\nContent-Length: 37\r\n\r\nNonexistent key error: Key not found."[..])),
            replication: None,
        }
    );
}

#[test]
fn handle_buffer_ping_join_and_incomplete() {
    let mut server = server();
    let step = handle_buffer(&mut server, ClientType::Customer, &request("{\"command\":\"REPL_PING\",\"id\":1}")).unwrap();
    assert_eq!(
        step,
        ClientStep::Reply {
            client_type: ClientType::Replication,
            reply: Some(Bytes::from(&b"HTTP/1.1 404\r\nContent-Length: 38\r\n\r\nInvalid syntax error: Invalid command!"[..])),
            replication: None,
        }
    );
    let join = request("{\"command\":\"REPL_JOIN\",\"addr\":\"h\",\"port\":6}");
    assert_eq!(
        handle_buffer(&mut server, ClientType::Customer, &join).unwrap(),
        ClientStep::JoinPrimary { client_type: ClientType::Customer, addr: "h".to_string(), port: 6 }
    );
    assert!(matches!(
        handle_buffer(&mut server, ClientType::Primary, &join),
        Err(KyotoError::JoinFromPrimary)
    ));
    assert_eq!(handle_buffer(&mut server, ClientType::Customer, b"POST /").unwrap(), ClientStep::Incomplete);
    assert!(matches!(
        handle_buffer(&mut server, ClientType::Customer, &request("nope")),
        Err(KyotoError::JsonParse(_))
    ));
}

#[test]
fn try_handle_buffer_refuses_out_of_range_id() {
    let mut server = server();
    let buf = request("{\"command\":\"SET\",\"key\":\"k\",\"value\":\"v\",\"id\":9223372036854775808}");
    assert!(try_handle_buffer(&mut server, ClientType::Customer, &buf).is_none());
    assert_eq!(server.db.get("k"), None);
    let buf = request("{\"command\":\"SET\",\"key\":\"k\",\"value\":\"v\",\"id\":9223372036854775807}");
    assert!(try_handle_buffer(&mut server, ClientType::Customer, &buf).is_some());
    assert_eq!(server.db.get("k"), Some(Bytes::from("v")));
}

#[test]
fn primary_probe_buffers() {
    let mut server = server();
    let step = handle_buffer_primary_probe(
        &mut server,
        &request("{\"command\":\"SET\",\"key\":\"k\",\"value\":\"v\"}"),
    )
    .unwrap();
    assert_eq!(step, ProbeStep::Handled { client_type: ClientType::Customer, clear_buffer: true });
    assert_eq!(server.db.get("k"), Some(Bytes::from("v")));
    match handle_buffer_primary_probe(&mut server, &request("{\"command\":\"GET\",\"key\":\"x\"}")) {
        Err(KyotoError::PrimaryCommandFailed(m)) => assert_eq!(m, "Nonexistent key error: Key not found."),
        other => panic!("unexpected {:?}", other),
    }
    assert_eq!(handle_buffer_primary_probe(&mut server, b"").unwrap(), ProbeStep::Incomplete);
    let buf = request("{\"command\":\"INFO\",\"id\":1e3}");
    assert!(try_handle_buffer_primary_probe(&mut server, &buf).is_none());
}
