//! What each command does, stated from its inputs: how a request body is
//! read, what each command answers, what it changes, and what a peer is
//! sent.

use vstd::prelude::*;
use vstd::utf8::encode_utf8;

use crate::data::client::{
    spec_add_client, spec_client_number, spec_client_type, spec_evict_client, ClientType, ClientsView,
};
use crate::data::server::Server;
use crate::machine::handle_client::{
    spec_command_after, spec_contents_after, spec_execute, spec_replication, spec_reply, ExecutionView,
};
use crate::machine::handle_primary_probe::{spec_execute_primary_probe, spec_probe_reaction};
use crate::outside::{bytes_debug, http_request_head, json_accepts, json_number_member, json_text_member};
use crate::properties::{all_ascii_digits, decimal_reads_back, decimal_value};
use crate::protocol::command_table::CommandView;
use crate::protocol::decode::{spec_decode, spec_decode_body, Decoded};
use crate::protocol::encode::{request_bytes, response_bytes, spec_request};
use crate::protocol::response::{ErrorType, ResponseView};
use crate::text::{decimal, signed_decimal};
use crate::data::server_config::{all_digits, digits_value, spec_parse_unsigned};

verus! {

// ---------------------------------------------------------------------------
// Reading request bodies
// ---------------------------------------------------------------------------

/// The five command names differ from one another.
proof fn command_names_differ()
    ensures
        "GET"@ != "SET"@,
        "GET"@ != "INFO"@,
        "GET"@ != "REPL_JOIN"@,
        "GET"@ != "REPL_PING"@,
        "SET"@ != "INFO"@,
        "SET"@ != "REPL_JOIN"@,
        "SET"@ != "REPL_PING"@,
        "INFO"@ != "REPL_JOIN"@,
        "INFO"@ != "REPL_PING"@,
        "REPL_JOIN"@ != "REPL_PING"@,
{
    reveal_strlit("GET");
    reveal_strlit("SET");
    reveal_strlit("INFO");
    reveal_strlit("REPL_JOIN");
    reveal_strlit("REPL_PING");
    assert("GET"@[0] != "SET"@[0]);
    assert("GET"@.len() != "INFO"@.len());
    assert("GET"@.len() != "REPL_JOIN"@.len());
    assert("GET"@.len() != "REPL_PING"@.len());
    assert("SET"@.len() != "INFO"@.len());
    assert("SET"@.len() != "REPL_JOIN"@.len());
    assert("SET"@.len() != "REPL_PING"@.len());
    assert("INFO"@.len() != "REPL_JOIN"@.len());
    assert("INFO"@.len() != "REPL_PING"@.len());
    assert("REPL_JOIN"@[5] != "REPL_PING"@[5]);
}

/// Whether the body's `id` member is the integer `id`, or `id` is -1 and the
/// body has no numeric `id`.
pub open spec fn body_id_is(text: Seq<u8>, id: i64) -> bool {
    ||| json_number_member(text, "id"@) matches Some((Some(i), _)) && i == id
    ||| json_number_member(text, "id"@) is None && id == -1
}

/// A `SET` body whose `key` is the string `k` and whose `value` is the string
/// `v` is read as a `SET` of the whole UTF-8 encoding of `v` under `k`.
pub proof fn set_body_keeps_the_whole_value(text: Seq<u8>, k: Seq<char>, v: Seq<char>, id: i64)
    requires
        json_text_member(text, "command"@) == Some("SET"@),
        json_text_member(text, "key"@) == Some(k),
        json_text_member(text, "value"@) == Some(v),
        body_id_is(text, id),
    ensures
        spec_decode_body(text) == Decoded::Command(CommandView::Store { key: k, value: encode_utf8(v), id }),
{
    command_names_differ();
}

/// A `GET` body whose `key` is the string `k` is read as a `GET` of `k`.
pub proof fn get_body_reads_the_key(text: Seq<u8>, k: Seq<char>, id: i64)
    requires
        json_text_member(text, "command"@) == Some("GET"@),
        json_text_member(text, "key"@) == Some(k),
        body_id_is(text, id),
    ensures
        spec_decode_body(text) == Decoded::Command(CommandView::Get { key: k, id }),
{
}

/// An `INFO` or `REPL_PING` body is read with its `id` and nothing else.
pub proof fn info_and_ping_bodies_read_the_id(text: Seq<u8>, id: i64)
    requires
        body_id_is(text, id),
    ensures
        json_text_member(text, "command"@) == Some("INFO"@) ==> spec_decode_body(text)
            == Decoded::Command(CommandView::Info { id }),
        json_text_member(text, "command"@) == Some("REPL_PING"@) ==> spec_decode_body(text)
            == Decoded::Command(CommandView::ReplPing { id }),
{
    command_names_differ();
}

/// A `REPL_JOIN` body whose `addr` is the string `a` and whose `port` is the
/// non-negative integer `p` is read as a join of `a` at `p` modulo 2^16.
pub proof fn join_body_reads_address_and_port(text: Seq<u8>, a: Seq<char>, p: u64, id: i64)
    requires
        json_text_member(text, "command"@) == Some("REPL_JOIN"@),
        json_text_member(text, "addr"@) == Some(a),
        json_number_member(text, "port"@) matches Some((_, Some(q))) && q == p,
        body_id_is(text, id),
    ensures
        spec_decode_body(text) == Decoded::Command(
            CommandView::ReplJoin { addr: a, port: (p % 65536) as u16, id },
        ),
{
    command_names_differ();
    assert(p as u16 == (p % 65536) as u16) by (bit_vector);
}

/// A body whose `command` is a string other than the five names is a bad
/// command named as such; a body with no string `command` is a bad command
/// too.
pub proof fn unknown_commands_are_bad(text: Seq<u8>)
    ensures
        json_text_member(text, "command"@) matches Some(c) && c != "GET"@ && c != "SET"@ && c
            != "INFO"@ && c != "REPL_JOIN"@ && c != "REPL_PING"@ ==> spec_decode_body(text)
            == Decoded::Command(CommandView::BadCommand { message: "Invalid command name"@ }),
        json_text_member(text, "command"@) is None ==> spec_decode_body(text) == Decoded::Command(
            CommandView::BadCommand { message: "Invalid command"@ },
        ),
{
}

// ---------------------------------------------------------------------------
// Executing commands
// ---------------------------------------------------------------------------

/// The `INFO` text: the port and the input buffer size, then the numbers of
/// customers and of replicas.
pub open spec fn info_text(port: u16, input_buffer_size: usize, customers: nat, replicas: nat) -> Seq<u8> {
    encode_utf8("[Server config info]\r\n"@) + encode_utf8("port: "@) + decimal(port as nat)
        + encode_utf8("\r\n"@) + encode_utf8("input_buffer_size: "@) + decimal(
        input_buffer_size as nat,
    ) + encode_utf8("\r\n"@) + encode_utf8("\r\n"@) + encode_utf8("[Client info]\r\n"@)
        + encode_utf8("customer client num: "@) + decimal(customers) + encode_utf8("\r\n"@)
        + encode_utf8("replication client num: "@) + decimal(replicas) + encode_utf8("\r\n"@)
        + encode_utf8("\r\n"@)
}

/// What each client command answers, from any connection: a `GET` answers
/// the stored value or `Key not found.`; a `SET` answers `Ok.`; an `INFO`
/// answers the settings and the numbers of customers and replicas; a
/// `REPL_JOIN` asks to connect to the given primary unless it comes from the
/// primary probe; a `REPL_PING` is an invalid command; a bad command answers
/// its reason.
pub proof fn client_commands_answer<C>(server: &Server<C>, client_type: ClientType, cmd: CommandView)
    ensures
        spec_execute(server, client_type, cmd) == match cmd {
            CommandView::Get { key, .. } => ExecutionView::Done(
                if server.db.contents().contains_key(key) {
                    ResponseView::Valid { message: server.db.contents()[key] }
                } else {
                    ResponseView::Error {
                        error_type: ErrorType::NonExistentKey,
                        message: "Key not found."@,
                    }
                },
            ),
            CommandView::Store { .. } => ExecutionView::Done(
                ResponseView::Valid { message: encode_utf8("Ok."@) },
            ),
            CommandView::Info { .. } => ExecutionView::Done(
                ResponseView::Valid {
                    message: info_text(
                        server.server_config.port,
                        server.server_config.input_buffer_size,
                        server.client_collections.view().customer.len(),
                        server.client_collections.view().replication.len(),
                    ),
                },
            ),
            CommandView::ReplJoin { addr, port, .. } => if client_type == ClientType::Primary {
                ExecutionView::JoinRefused
            } else {
                ExecutionView::JoinPrimary { addr, port }
            },
            CommandView::ReplPing { .. } => ExecutionView::Done(
                ResponseView::Error {
                    error_type: ErrorType::InvalidSyntax,
                    message: "Invalid command!"@,
                },
            ),
            CommandView::BadCommand { message } => ExecutionView::Done(
                ResponseView::Error { error_type: ErrorType::InvalidSyntax, message },
            ),
        },
{
    if cmd is Info {
        let v = server.client_collections.view();
        assert(crate::machine::execute_command::spec_info(server) =~= info_text(
            server.server_config.port,
            server.server_config.input_buffer_size,
            v.customer.len(),
            v.replication.len(),
        ));
    }
}

/// What each command from the primary answers: `GET`, `SET`, `INFO` and bad
/// commands as from a client; `REPL_JOIN` and `REPL_PING` are invalid.
pub proof fn primary_commands_answer<C>(server: &Server<C>, cmd: CommandView)
    ensures
        spec_execute_primary_probe(server, cmd) == match cmd {
            CommandView::Get { key, .. } => if server.db.contents().contains_key(key) {
                ResponseView::Valid { message: server.db.contents()[key] }
            } else {
                ResponseView::Error {
                    error_type: ErrorType::NonExistentKey,
                    message: "Key not found."@,
                }
            },
            CommandView::Store { .. } => ResponseView::Valid { message: encode_utf8("Ok."@) },
            CommandView::Info { .. } => ResponseView::Valid {
                message: info_text(
                    server.server_config.port,
                    server.server_config.input_buffer_size,
                    server.client_collections.view().customer.len(),
                    server.client_collections.view().replication.len(),
                ),
            },
            CommandView::BadCommand { message } => ResponseView::Error {
                error_type: ErrorType::InvalidSyntax,
                message,
            },
            _ => ResponseView::Error {
                error_type: ErrorType::InvalidSyntax,
                message: "Invalid command!"@,
            },
        },
{
    if cmd is Info {
        let v = server.client_collections.view();
        assert(crate::machine::execute_command::spec_info(server) =~= info_text(
            server.server_config.port,
            server.server_config.input_buffer_size,
            v.customer.len(),
            v.replication.len(),
        ));
    }
}

/// Only a `SET` changes the store: it stores its whole value under its key
/// and takes the next identifier; every other command leaves the store and
/// itself as they were.
pub proof fn only_set_writes(contents: Map<Seq<char>, Seq<u8>>, cmd: CommandView, next_id: int)
    ensures
        match cmd {
            CommandView::Store { key, value, .. } => {
                &&& spec_contents_after(contents, cmd)[key] == value
                &&& spec_contents_after(contents, cmd).dom() == contents.dom().insert(key)
                &&& forall|k: Seq<char>|
                    k != key && contents.contains_key(k) ==> spec_contents_after(contents, cmd)[k]
                        == contents[k]
                &&& spec_command_after(cmd, next_id) == (CommandView::Store {
                    key,
                    value,
                    id: next_id as i64,
                })
            },
            _ => spec_contents_after(contents, cmd) == contents && spec_command_after(cmd, next_id)
                == cmd,
        },
{
}

// ---------------------------------------------------------------------------
// Replies, requests and the primary's errors
// ---------------------------------------------------------------------------

/// A valid response is sent with status 200 and its message as the body; an
/// error is sent with status 404 and a body that names the kind of error
/// before the message; an empty response is not sent.
pub proof fn replies_name_their_errors(resp: ResponseView)
    ensures
        spec_reply(resp) == match resp {
            ResponseView::Valid { message } => Some(response_bytes(200, message)),
            ResponseView::Error { error_type: ErrorType::InvalidSyntax, message } => Some(
                response_bytes(404, encode_utf8("Invalid syntax error: "@ + message)),
            ),
            ResponseView::Error { error_type: ErrorType::NonExistentKey, message } => Some(
                response_bytes(404, encode_utf8("Nonexistent key error: "@ + message)),
            ),
            ResponseView::Empty => None,
        },
{
}

/// A `SET` is forwarded as a POST whose JSON body names the command, the key
/// as it is, the value as its `Debug` text and the identifier; a
/// `REPL_PING` as one that names the command and the identifier; no other
/// command is forwarded.
pub proof fn forwarded_requests(cmd: CommandView)
    ensures
        spec_request(cmd) == match cmd {
            CommandView::Store { key, value, id } => Some(
                request_bytes(
                    encode_utf8("{\"command\":\"SET\",\"key\":"@) + encode_utf8(key) + encode_utf8(
                        ",\"value\":"@,
                    ) + encode_utf8(bytes_debug(value)) + encode_utf8(",\"id\":"@)
                        + signed_decimal(id as int) + encode_utf8("}"@),
                ),
            ),
            CommandView::ReplPing { id } => Some(
                request_bytes(
                    encode_utf8("{\"command\":\"REPL_PING\",\"id\":"@) + signed_decimal(id as int)
                        + encode_utf8("}"@),
                ),
            ),
            _ => None,
        },
{
}

/// The bytes of a request head up to the `Content-Length` value.
pub open spec fn request_head_before_length() -> Seq<u8> {
    encode_utf8(
        "POST / HTTP/1.1\r\nContent-Type: application/json\r\nConnection: keep-alive\r\nContent-Length: "@,
    )
}

/// In every forwarded request, the text after `Content-Length: ` is a run of
/// digits that reads back as the exact length of the body, and after the
/// blank line comes the body itself.
pub proof fn request_length_reads_back(body: Seq<u8>)
    ensures
        ({
            let r = request_bytes(body);
            let k = request_head_before_length().len();
            exists|j: int|
                k < j <= r.len() && {
                    &&& r.subrange(0, k as int) == request_head_before_length()
                    &&& all_ascii_digits(r.subrange(k as int, j))
                    &&& decimal_value(r.subrange(k as int, j)) == body.len()
                    &&& r.subrange(j, r.len() as int) == encode_utf8("\r\n\r\n"@) + body
                }
        }),
{
    decimal_reads_back(body.len());
    let r = request_bytes(body);
    let head = request_head_before_length();
    let num = decimal(body.len());
    let tail = encode_utf8("\r\n\r\n"@) + body;
    assert(r =~= head + num + tail);
    let k = head.len() as int;
    let j = k + num.len();
    assert(r.subrange(0, k) =~= head);
    assert(r.subrange(k, j) =~= num);
    assert(r.subrange(j, r.len() as int) =~= tail);
}

/// The connection to the primary clears its buffer after a valid response,
/// keeps it after an empty one, and ends on an error with a message that
/// names the kind of error before the error's own message.
pub proof fn primary_reactions(resp: ResponseView)
    ensures
        spec_probe_reaction(resp) == match resp {
            ResponseView::Valid { .. } => Ok::<bool, Seq<char>>(true),
            ResponseView::Empty => Ok::<bool, Seq<char>>(false),
            ResponseView::Error { error_type: ErrorType::InvalidSyntax, message } => Err(
                "Invalid syntax error: "@ + message,
            ),
            ResponseView::Error { error_type: ErrorType::NonExistentKey, message } => Err(
                "Nonexistent key error: "@ + message,
            ),
        },
{
}

// ---------------------------------------------------------------------------
// Connected peers
// ---------------------------------------------------------------------------

/// Evicting a peer of a role removes exactly its descriptor from that role:
/// every other peer of that role stays with its handle, and the other roles
/// are untouched. Evicting the primary removes every primary.
pub proof fn eviction_removes_only_that_peer<C>(v: ClientsView<C>, client_type: ClientType, fd: i32, other: i32)
    ensures
        ({
            let e = spec_evict_client(v, client_type, fd);
            &&& client_type == ClientType::Replication ==> {
                &&& !e.replication.contains_key(fd)
                &&& other != fd ==> (e.replication.contains_key(other) <==> v.replication.contains_key(
                    other,
                ))
                &&& other != fd && v.replication.contains_key(other) ==> e.replication[other]
                    == v.replication[other]
                &&& e.customer == v.customer
                &&& e.primary == v.primary
            }
            &&& client_type == ClientType::Customer ==> {
                &&& !e.customer.contains_key(fd)
                &&& other != fd ==> (e.customer.contains_key(other) <==> v.customer.contains_key(
                    other,
                ))
                &&& other != fd && v.customer.contains_key(other) ==> e.customer[other]
                    == v.customer[other]
                &&& e.replication == v.replication
                &&& e.primary == v.primary
            }
            &&& client_type == ClientType::Primary ==> {
                &&& e.primary.is_empty()
                &&& e.customer == v.customer
                &&& e.replication == v.replication
            }
            &&& client_type == ClientType::Unknown ==> e == v
        }),
{
    let e = spec_evict_client(v, client_type, fd);
    if client_type == ClientType::Primary {
        assert(e.primary =~= Map::<i32, C>::empty());
    }
}

/// Adding a replica under a new descriptor and evicting it again gives back
/// the replicas as they were.
pub proof fn add_then_evict_replica<C>(v: ClientsView<C>, client: C, fd: i32)
    requires
        !v.replication.contains_key(fd),
    ensures
        spec_evict_client(spec_add_client(v, client, ClientType::Replication, fd), ClientType::Replication, fd).replication
            == v.replication,
{
    let a = spec_add_client(v, client, ClientType::Replication, fd);
    assert(a.replication.remove(fd) =~= v.replication);
}

/// Adding a peer of a role under a new descriptor records exactly that peer
/// under that descriptor, and keeps every other peer of that role.
pub proof fn adding_records_the_peer<C>(v: ClientsView<C>, client: C, client_type: ClientType, fd: i32, other: i32)
    ensures
        ({
            let a = spec_add_client(v, client, client_type, fd);
            &&& client_type == ClientType::Customer && !v.customer.contains_key(fd) ==> a.customer
                == v.customer.insert(fd, client) && a.replication == v.replication && a.primary
                == v.primary
            &&& client_type == ClientType::Replication && !v.replication.contains_key(fd)
                ==> a.replication == v.replication.insert(fd, client)
            &&& client_type == ClientType::Primary && !v.primary.contains_key(fd) ==> a.primary
                == v.primary.insert(fd, client) && a.customer == v.customer && a.replication
                == v.replication
                    &&& client_type == ClientType::Customer && v.customer.contains_key(fd) ==> a == v
            &&& client_type == ClientType::Replication && v.replication.contains_key(fd)
                ==> a.replication == v.replication
            &&& client_type == ClientType::Primary && v.primary.contains_key(fd) ==> a == v
        }),
{
}

/// Each role is counted by the number of its peers; `Unknown` peers are not
/// counted.
pub proof fn client_numbers_count_each_role<C>(v: ClientsView<C>)
    ensures
        spec_client_number(v, ClientType::Customer) == Some(v.customer.len()),
        spec_client_number(v, ClientType::Replication) == Some(v.replication.len()),
        spec_client_number(v, ClientType::Primary) == Some(v.primary.len()),
        spec_client_number(v, ClientType::Unknown) is None,
{
}

/// A peer that sends `REPL_PING` shows itself a replica; a peer that sends
/// any other command, a customer.
pub proof fn ping_marks_a_replica(cmd: CommandView)
    ensures
        (spec_client_type(cmd) == ClientType::Replication) <==> cmd is ReplPing,
        !(cmd is ReplPing) ==> spec_client_type(cmd) == ClientType::Customer,
{
}

/// A request buffer is read from the byte after its HTTP head: an incomplete
/// head reads as nothing yet, a refused head or a body that is not JSON as
/// the matching error, and otherwise the body decides.
pub proof fn requests_are_read_after_the_head(buffer: Seq<u8>)
    ensures
        http_request_head(buffer) is None ==> spec_decode(buffer) is HttpInvalid,
        http_request_head(buffer) == Some(None::<nat>) ==> spec_decode(buffer) is Incomplete,
        http_request_head(buffer) matches Some(Some(n)) ==> {
            let body = buffer.subrange(n as int, buffer.len() as int);
            &&& !json_accepts(body) ==> spec_decode(buffer) is JsonInvalid
            &&& json_accepts(body) ==> spec_decode(buffer) == spec_decode_body(body)
        },
{
}

/// A body that names a command but lacks a member the command needs is a bad
/// command that names the member.
pub proof fn missing_members_are_named(text: Seq<u8>)
    ensures
        json_text_member(text, "command"@) == Some("GET"@) && json_text_member(text, "key"@) is None
            ==> spec_decode_body(text) == Decoded::Command(
            CommandView::BadCommand { message: "Invalid key for GET command"@ },
        ),
        json_text_member(text, "command"@) == Some("SET"@) && json_text_member(text, "key"@) is None
            ==> spec_decode_body(text) == Decoded::Command(
            CommandView::BadCommand { message: "Invalid key for SET command"@ },
        ),
        json_text_member(text, "command"@) == Some("SET"@) && json_text_member(text, "key"@) is Some
            && json_text_member(text, "value"@) is None ==> spec_decode_body(text)
            == Decoded::Command(CommandView::BadCommand { message: "Invalid value for SET command"@ }),
        json_text_member(text, "command"@) == Some("REPL_JOIN"@) && json_text_member(text, "addr"@)
            is None ==> spec_decode_body(text) == Decoded::Command(
            CommandView::BadCommand { message: "Invalid address for REPL_JOIN command"@ },
        ),
        json_text_member(text, "command"@) == Some("REPL_JOIN"@) && json_text_member(text, "addr"@)
            is Some && !(json_number_member(text, "port"@) matches Some((_, Some(_))))
            ==> spec_decode_body(text) == Decoded::Command(
            CommandView::BadCommand { message: "Invalid port for REPL_JOIN command"@ },
        ),
{
    command_names_differ();
}

/// An `id` that is a number outside the range of `i64` stops the reading of
/// a command that has everything else it needs.
pub proof fn out_of_range_ids_stop_reading(text: Seq<u8>)
    requires
        json_number_member(text, "id"@) matches Some((None, _)),
    ensures
        json_text_member(text, "command"@) == Some("INFO"@) ==> spec_decode_body(text) is IdNotI64,
        json_text_member(text, "command"@) == Some("REPL_PING"@) ==> spec_decode_body(text) is IdNotI64,
        json_text_member(text, "command"@) == Some("GET"@) && json_text_member(text, "key"@) is Some
            ==> spec_decode_body(text) is IdNotI64,
{
    command_names_differ();
}

/// Only a command that got a valid response is forwarded to the replicas,
/// and a `SET` is forwarded with the identifier the store gave it.
pub proof fn forwarding_follows_success(resp: ResponseView, cmd: CommandView, next_id: int)
    ensures
        !(resp is Valid) ==> spec_replication(resp, spec_command_after(cmd, next_id)) is None,
        resp is Valid ==> (cmd matches CommandView::Store { key, value, .. } ==> spec_replication(
            resp,
            spec_command_after(cmd, next_id),
        ) == spec_request(CommandView::Store { key, value, id: next_id as i64 })),
        resp is Valid && !(cmd is Store) && !(cmd is ReplPing) ==> spec_replication(
            resp,
            spec_command_after(cmd, next_id),
        ) is None,
{
}

/// A signed numeral is a `-` before the numeral of the magnitude when the
/// number is negative, and the plain numeral otherwise; either reads back.
pub proof fn signed_decimal_reads_back(i: int)
    ensures
        i >= 0 ==> signed_decimal(i) == decimal(i as nat) && decimal_value(signed_decimal(i)) == i,
        i < 0 ==> signed_decimal(i)[0] == 45u8 && decimal_value(
            signed_decimal(i).subrange(1, signed_decimal(i).len() as int),
        ) == -i,
{
    if i >= 0 {
        decimal_reads_back(i as nat);
    } else {
        decimal_reads_back((-i) as nat);
        let s = signed_decimal(i);
        assert(s.subrange(1, s.len() as int) =~= decimal((-i) as nat));
    }
}

/// A setting is read as `str::parse` reads an unsigned integer: a run of
/// digits, optionally after one `+`, is its decimal value when that is at
/// most `max`, and nothing otherwise; a text with any other character, or
/// with no digit, is not read.
pub proof fn settings_read_as_unsigned(s: Seq<char>, max: nat)
    ensures
        s.len() > 0 && all_digits(s) ==> spec_parse_unsigned(s, max) == if digits_value(s) <= max {
            Some(digits_value(s))
        } else {
            None
        },
        s.len() > 0 && all_digits(s) ==> spec_parse_unsigned(seq!['+'] + s, max)
            == spec_parse_unsigned(s, max),
        spec_parse_unsigned(Seq::empty(), max) is None,
        spec_parse_unsigned(seq!['+'], max) is None,
        (exists|i: int| 0 <= i < s.len() && !('0' <= #[trigger] s[i] <= '9') && (i > 0 || s[i] != '+'))
            ==> spec_parse_unsigned(s, max) is None,
{
    if s.len() > 0 && all_digits(s) {
        assert((seq!['+'] + s).drop_first() =~= s);
        assert(s[0] != '+');
    }
    if exists|i: int| 0 <= i < s.len() && !('0' <= #[trigger] s[i] <= '9') && (i > 0 || s[i] != '+') {
        let i = choose|i: int| 0 <= i < s.len() && !('0' <= #[trigger] s[i] <= '9') && (i > 0 || s[i] != '+');
        if s.len() > 0 && s[0] == '+' {
            assert(s.drop_first()[i - 1] == s[i]);
        } else {
            assert(s[i] == s[i]);
        }
    }
}

} // verus!
