use bytes::Bytes;
use kyoto::data::client::{get_client_type_from_commad, ClientCollections, ClientType};
use kyoto::data::db::Db;
use kyoto::data::params::Params;
use kyoto::data::replication_config::{ReplicationConfig, ReplicationNode};
use kyoto::data::server_config::{parse_unsigned, ServerConfig};
use kyoto::data::uid::UIDHandler;
use kyoto::error::KyotoError;
use kyoto::protocol::command_table::Command;

#[test]
fn uid_handler_counts_from_zero() {
    let mut uid = UIDHandler::new();
    assert_eq!(uid.latest_id(), 0);
    assert_eq!(uid.generate_new_id(), 0);
    assert_eq!(uid.generate_new_id(), 1);
    assert_eq!(uid.generate_new_id(), 2);
    assert_eq!(uid.latest_id(), 3);
}

#[test]
fn db_get_after_set() {
    let mut db = Db::new();
    assert_eq!(db.get("foo"), None);
    assert_eq!(db.set("foo", &Bytes::from("bar")).unwrap(), 0);
    assert_eq!(db.get("foo"), Some(Bytes::from("bar")));
    assert_eq!(db.get("fo"), None);
    assert_eq!(db.set("foo", &Bytes::from("baz")).unwrap(), 1);
    assert_eq!(db.set("other", &Bytes::from("x")).unwrap(), 2);
    assert_eq!(db.get("foo"), Some(Bytes::from("baz")));
    assert_eq!(db.get("other"), Some(Bytes::from("x")));
    assert_eq!(db.next_command_id(), 3);
}

#[test]
fn clients_start_as_customers_and_move_to_replicas() {
    let mut clients: ClientCollections<u32> = ClientCollections::new();
    clients.add_client(10, ClientType::Customer, 3);
    clients.add_client(11, ClientType::Customer, 4);
    assert_eq!(clients.get_client_number(ClientType::Customer).unwrap(), 2);
    clients.add_client(12, ClientType::Customer, 3);
    assert_eq!(clients.customer_clients.get(&3), Some(&10));
    clients.add_client(10, ClientType::Replication, 3);
    assert_eq!(clients.get_client_number(ClientType::Customer).unwrap(), 1);
    assert_eq!(clients.get_client_number(ClientType::Replication).unwrap(), 1);
    clients.add_client(13, ClientType::Unknown, 5);
    assert_eq!(clients.get_client_number(ClientType::Customer).unwrap(), 1);
    clients.evict_client(&ClientType::Replication, 3);
    assert_eq!(clients.get_client_number(ClientType::Replication).unwrap(), 0);
    clients.evict_client(&ClientType::Customer, 99);
    assert_eq!(clients.get_client_number(ClientType::Customer).unwrap(), 1);
}

#[test]
fn evicting_the_primary_drops_every_primary() {
    let mut clients: ClientCollections<u32> = ClientCollections::new();
    clients.add_client(1, ClientType::Primary, 7);
    clients.add_client(2, ClientType::Primary, 8);
    assert_eq!(clients.get_client_number(ClientType::Primary).unwrap(), 2);
    clients.evict_client(&ClientType::Primary, 0);
    assert_eq!(clients.get_client_number(ClientType::Primary).unwrap(), 0);
}

#[test]
fn unknown_clients_are_not_counted() {
    let clients: ClientCollections<u32> = ClientCollections::new();
    assert!(matches!(
        clients.get_client_number(ClientType::Unknown),
        Err(KyotoError::InvalidClientType)
    ));
}

#[test]
fn client_info_text() {
    let mut clients: ClientCollections<u32> = ClientCollections::new();
    clients.add_client(1, ClientType::Customer, 1);
    clients.add_client(2, ClientType::Customer, 2);
    clients.add_client(3, ClientType::Customer, 3);
    clients.add_client(3, ClientType::Replication, 3);
    let info = clients.generate_info(b"x".to_vec()).unwrap();
    assert_eq!(
        info,
        b"x[Client info]\r\ncustomer client num: 2\r\nreplication client num: 1\r\n\r\n".to_vec()
    );
}

#[test]
fn client_type_from_command() {
    assert_eq!(get_client_type_from_commad(&Command::ReplPing { id: 1 }), ClientType::Replication);
    assert_eq!(get_client_type_from_commad(&Command::Info { id: 1 }), ClientType::Customer);
    assert_eq!(
        get_client_type_from_commad(&Command::Get { key: "a".to_string(), id: 0 }),
        ClientType::Customer
    );
}

#[test]
fn parse_unsigned_as_str_parse() {
    assert_eq!(parse_unsigned("9736", 65535), Some(9736));
    assert_eq!(parse_unsigned("+80", 65535), Some(80));
    assert_eq!(parse_unsigned("007", 65535), Some(7));
    assert_eq!(parse_unsigned("65535", 65535), Some(65535));
    assert_eq!(parse_unsigned("65536", 65535), None);
    assert_eq!(parse_unsigned("", 65535), None);
    assert_eq!(parse_unsigned("+", 65535), None);
    assert_eq!(parse_unsigned("-1", 65535), None);
    assert_eq!(parse_unsigned(" 1", 65535), None);
    assert_eq!(parse_unsigned("1x", 65535), None);
    assert_eq!(parse_unsigned("18446744073709551615", u64::MAX), Some(u64::MAX));
    assert_eq!(parse_unsigned("18446744073709551616", u64::MAX), None);
    for text in ["0", "12", "+3", "99999", "a", "", "+-1"].iter() {
        assert_eq!(parse_unsigned(text, 65535), text.parse::<u16>().ok().map(|v| v as u64));
    }
}

#[test]
fn server_config_defaults() {
    let params = Params { port: None, input_buffer_size: None };
    let config = ServerConfig::new(&params);
    assert_eq!(config.port, 9736);
    assert_eq!(config.input_buffer_size, 4096);
}

#[test]
fn server_config_from_params() {
    let params = Params { port: Some("+8080".to_string()), input_buffer_size: Some("1024".to_string()) };
    let config = ServerConfig::new(&params);
    assert_eq!(config.port, 8080);
    assert_eq!(config.input_buffer_size, 1024);
}

#[test]
fn server_config_info_text() {
    let params = Params { port: Some("7".to_string()), input_buffer_size: None };
    let config = ServerConfig::new(&params);
    let info = config.generate_info(Vec::new()).unwrap();
    assert_eq!(info, b"[Server config info]\r\nport: 7\r\ninput_buffer_size: 4096\r\n\r\n".to_vec());
}

#[test]
fn replication_config_keeps_replicas_in_order() {
    let mut config = ReplicationConfig::new();
    config.add_replica_node("10.0.0.1".to_string(), 1);
    config.add_replica_node("10.0.0.2".to_string(), 2);
    let shown = format!("{:?}", config);
    assert!(shown.contains("Confused"));
    let first = shown.find("10.0.0.1").unwrap();
    let second = shown.find("10.0.0.2").unwrap();
    assert!(first < second);
    let node = ReplicationNode::new("h".to_string(), 5);
    assert!(format!("{:?}", node).contains("port: 5"));
}

#[test]
fn error_messages() {
    assert_eq!(KyotoError::InvalidCommandType.message(), "Invalid command type");
    assert_eq!(KyotoError::ConnectionReset.message(), "connection reset by peer");
    assert_eq!(KyotoError::PrimaryCommandFailed("m".to_string()).message(), "m");
}

#[test]
fn add_then_evict_customer_restores_count() {
    let mut clients: ClientCollections<u32> = ClientCollections::new();
    clients.add_client(1, ClientType::Customer, 1);
    let before = clients.get_client_number(ClientType::Customer).unwrap();
    clients.add_client(2, ClientType::Customer, 2);
    assert_eq!(clients.get_client_number(ClientType::Customer).unwrap(), before + 1);
    clients.evict_client(&ClientType::Customer, 2);
    assert_eq!(clients.get_client_number(ClientType::Customer).unwrap(), before);
    assert_eq!(clients.customer_clients.get(&1), Some(&1));
}
