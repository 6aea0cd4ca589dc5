//! Handling the commands of a client connection: choosing the executor, and
//! turning its response into the bytes sent back.

use vstd::prelude::*;
use vstd::utf8::encode_utf8;

use crate::data::client::{spec_evict_client, ClientCollections, ClientType};
use crate::data::server::Server;
use crate::error::KyotoError;
use crate::machine::execute_command::{
    begin_repl_join, execute_get_cmd, execute_info_cmd, execute_set_cmd, handle_bad_cmd,
    ok_response, spec_get_response, spec_info,
};
use crate::outside::{bytes_from_vec, bytes_view};
use crate::protocol::command_table::{Command, CommandView};
use crate::data::client::{get_client_type_from_commad, spec_client_type};
use crate::protocol::decode::{parse_command, spec_decode, try_parse_command, Decoded};
use crate::protocol::encode::{generate_request, generate_response, response_bytes, spec_request};
use crate::protocol::response::{ErrorType, Response, ResponseView};

verus! {

/// What executing a client's command leads to.
#[derive(Debug, PartialEq, Eq)]
pub enum Execution {
    /// The command is done; this is its response.
    Done(Response),
    /// A `REPL_JOIN`: the server must connect to the primary at `addr`:`port`
    /// and then call `ClientCollections::replace_primary` and
    /// `finish_repl_join`.
    JoinPrimary { addr: String, port: u16 },
}

/// The response to a command that the executor does not take.
pub open spec fn invalid_command_response() -> ResponseView {
    ResponseView::Error { error_type: ErrorType::InvalidSyntax, message: "Invalid command!"@ }
}

/// The response for a command that the executor does not take.
fn invalid_command() -> (r: Response)
    ensures
        r@ == invalid_command_response(),
{
    Response::Error { error_type: ErrorType::InvalidSyntax, message: "Invalid command!".to_owned() }
}

/// What executing a command leads to, in mathematical terms.
pub enum ExecutionView {
    /// The command is done with this response.
    Done(ResponseView),
    /// A connection to the primary at `addr`:`port` is needed.
    JoinPrimary { addr: Seq<char>, port: u16 },
    /// A `REPL_JOIN` from the primary probe, which is refused.
    JoinRefused,
}

/// What a client's command `cmd` leads to on `server`, for a connection of
/// type `client_type`: a `GET`, `SET`, `INFO` or bad command is executed at
/// once; a `REPL_JOIN` asks for a connection to the new primary, unless it
/// comes from the primary probe; a `REPL_PING` is answered with an
/// `InvalidSyntax` error.
pub open spec fn spec_execute<C>(server: &Server<C>, client_type: ClientType, cmd: CommandView) -> ExecutionView {
    match cmd {
        CommandView::Get { key, .. } => ExecutionView::Done(spec_get_response(server.db.contents(), key)),
        CommandView::Store { .. } => ExecutionView::Done(ok_response()),
        CommandView::Info { .. } => ExecutionView::Done(ResponseView::Valid { message: spec_info(server) }),
        CommandView::ReplJoin { addr, port, .. } => if client_type == ClientType::Primary {
            ExecutionView::JoinRefused
        } else {
            ExecutionView::JoinPrimary { addr, port }
        },
        CommandView::ReplPing { .. } => ExecutionView::Done(invalid_command_response()),
        CommandView::BadCommand { message } => ExecutionView::Done(
            ResponseView::Error { error_type: ErrorType::InvalidSyntax, message },
        ),
    }
}

/// The command after it is executed on a store whose next identifier is
/// `next_id`: a `SET` takes that identifier, other commands stay as they are.
pub open spec fn spec_command_after(cmd: CommandView, next_id: int) -> CommandView {
    match cmd {
        CommandView::Store { key, value, .. } => CommandView::Store { key, value, id: next_id as i64 },
        _ => cmd,
    }
}

/// The store's contents after executing `cmd`: a `SET` stores its value.
pub open spec fn spec_contents_after(contents: Map<Seq<char>, Seq<u8>>, cmd: CommandView) -> Map<Seq<char>, Seq<u8>> {
    match cmd {
        CommandView::Store { key, value, .. } => contents.insert(key, value),
        _ => contents,
    }
}

/// Whether executing `cmd` needs a fresh identifier from a store whose next
/// identifier is `next_id`, and one is left.
pub open spec fn ids_left(cmd: CommandView, next_id: int) -> bool {
    cmd is Store ==> next_id < i64::MAX
}

/// Whether the result of `execute_command` is what `e` says.
pub open spec fn execution_agrees(r: Result<Execution, KyotoError>, e: ExecutionView) -> bool {
    match e {
        ExecutionView::Done(resp) => r matches Ok(Execution::Done(x)) && x@ == resp,
        ExecutionView::JoinPrimary { addr, port } => r matches Ok(
            Execution::JoinPrimary { addr: a, port: p },
        ) && a@ == addr && p == port,
        ExecutionView::JoinRefused => r matches Err(KyotoError::JoinFromPrimary),
    }
}

/// Executes a client's command on the server, as `spec_execute` says; a `SET`
/// also stores its value and takes the store's next identifier.
pub fn execute_command<C>(server: &mut Server<C>, client_type: ClientType, cmd: &mut Command) -> (r:
    Result<Execution, KyotoError>)
    requires
        ids_left(old(cmd)@, old(server).db.next_id()),
    ensures
        execution_agrees(r, spec_execute(&*old(server), client_type, old(cmd)@)),
        final(cmd)@ == spec_command_after(old(cmd)@, old(server).db.next_id()),
        final(server).db.contents() == spec_contents_after(old(server).db.contents(), old(cmd)@),
        final(server).db.next_id() == old(server).db.next_id() + if old(cmd)@ is Store {
            1int
        } else {
            0int
        },
        final(server).server_config == old(server).server_config,
        final(server).client_collections == old(server).client_collections,
{
    match cmd {
        Command::Get { .. } => Ok(Execution::Done(execute_get_cmd(server, cmd)?)),
        Command::Store { .. } => Ok(Execution::Done(execute_set_cmd(server, cmd)?)),
        Command::Info { .. } => Ok(Execution::Done(execute_info_cmd(server, cmd)?)),
        Command::ReplJoin { .. } => {
            let (addr, port) = begin_repl_join(client_type, cmd)?;
            Ok(Execution::JoinPrimary { addr, port })
        },
        Command::BadCommand { .. } => Ok(Execution::Done(handle_bad_cmd(cmd)?)),
        _ => Ok(Execution::Done(invalid_command())),
    }
}

/// The text put before the message of an error of type `t`.
pub open spec fn error_prefix(t: ErrorType) -> Seq<char> {
    match t {
        ErrorType::InvalidSyntax => "Invalid syntax error: "@,
        ErrorType::NonExistentKey => "Nonexistent key error: "@,
    }
}

/// The text put before the message of an error of type `t`.
fn error_prefix_text(t: ErrorType) -> (r: &'static str)
    ensures
        r@ == error_prefix(t),
{
    match t {
        ErrorType::InvalidSyntax => "Invalid syntax error: ",
        ErrorType::NonExistentKey => "Nonexistent key error: ",
    }
}

/// The status code sent with an error reply.
pub const ERROR_CODE: u16 = 404;

/// What a client is sent for a response: a valid response goes out with
/// status 200; an error goes out with status 404 and its message prefixed by
/// the kind of error; an empty response sends nothing.
pub open spec fn spec_reply(resp: ResponseView) -> Option<Seq<u8>> {
    match resp {
        ResponseView::Valid { message } => Some(response_bytes(200, message)),
        ResponseView::Error { error_type, message } => Some(
            response_bytes(ERROR_CODE, encode_utf8(error_prefix(error_type) + message)),
        ),
        ResponseView::Empty => None,
    }
}

/// The bytes a client is sent for `response`, if any.
pub fn handle_command(response: Response) -> (r: Result<Option<bytes::Bytes>, KyotoError>)
    ensures
        r matches Ok(o) && match (o, spec_reply(response@)) {
            (Some(b), Some(s)) => bytes_view(b) == s,
            (None, None) => true,
            _ => false,
        },
{
    match response {
        Response::Valid { message } => {
            let encoded_response = generate_response(message, 200)?;
            Ok(Some(encoded_response))
        },
        Response::Error { error_type, message } => {
            let error_prefix = error_prefix_text(error_type);
            let mut new_message = error_prefix.to_owned();
            new_message.append(message.as_str());
            let encoded_response = generate_response(
                bytes_from_vec(new_message.as_str().as_bytes_vec()),
                ERROR_CODE,
            )?;
            Ok(Some(encoded_response))
        },
        Response::Empty => Ok(None),
    }
}

/// What a client's buffer leads to.
#[derive(Debug, PartialEq, Eq)]
pub enum ClientStep {
    /// The request is not complete yet; nothing was done.
    Incomplete,
    /// The command was executed: send `reply` to the client, if there is one;
    /// `replication` is the request that would forward the command to the
    /// replicas; `client_type` is the role the command shows.
    Reply { client_type: ClientType, reply: Option<bytes::Bytes>, replication: Option<bytes::Bytes> },
    /// A `REPL_JOIN`: connect to the primary at `addr`:`port`, then call
    /// `ClientCollections::replace_primary` and reply to `finish_repl_join()`.
    JoinPrimary { client_type: ClientType, addr: String, port: u16 },
}

/// Whether optional bytes are the optional byte sequence `s`.
pub open spec fn bytes_agree(o: Option<bytes::Bytes>, s: Option<Seq<u8>>) -> bool {
    match (o, s) {
        (Some(b), Some(t)) => bytes_view(b) == t,
        (None, None) => true,
        _ => false,
    }
}

/// The request that forwards an executed command to the replicas: only a
/// command that got a valid response is forwarded.
pub open spec fn spec_replication(resp: ResponseView, cmd_after: CommandView) -> Option<Seq<u8>> {
    if resp is Valid {
        spec_request(cmd_after)
    } else {
        None
    }
}

/// Whether a step is what executing `cmd` on `server` for a connection of
/// type `conn_type` leads to.
pub open spec fn step_agrees<C>(r: Result<ClientStep, KyotoError>, server: &Server<C>, conn_type: ClientType, cmd: CommandView) -> bool {
    match spec_execute(server, conn_type, cmd) {
        ExecutionView::Done(resp) => r matches Ok(
            ClientStep::Reply { client_type, reply, replication },
        ) && client_type == spec_client_type(cmd) && bytes_agree(reply, spec_reply(resp))
            && bytes_agree(
            replication,
            spec_replication(resp, spec_command_after(cmd, server.db.next_id())),
        ),
        ExecutionView::JoinPrimary { addr, port } => r matches Ok(
            ClientStep::JoinPrimary { client_type, addr: a, port: p },
        ) && client_type == spec_client_type(cmd) && a@ == addr && p == port,
        ExecutionView::JoinRefused => r matches Err(KyotoError::JoinFromPrimary),
    }
}

/// Whether a buffer can be handled on `server` without running out of range:
/// the body's `id` fits in an `i64`, and a `SET` finds an identifier left.
pub open spec fn buffer_handleable<C>(server: &Server<C>, buffer: Seq<u8>) -> bool {
    match spec_decode(buffer) {
        Decoded::IdNotI64 => false,
        Decoded::Command(c) => ids_left(c, server.db.next_id()),
        _ => true,
    }
}

/// Whether handling `buffer` took the server from `before` to `after` with
/// the result `r`.
pub open spec fn handled<C>(r: Result<ClientStep, KyotoError>, before: &Server<C>, after: &Server<C>, conn_type: ClientType, buffer: Seq<u8>) -> bool {
    &&& after.server_config == before.server_config
    &&& after.client_collections == before.client_collections
    &&& match spec_decode(buffer) {
        Decoded::Command(c) => {
            &&& step_agrees(r, before, conn_type, c)
            &&& after.db.contents() == spec_contents_after(before.db.contents(), c)
            &&& after.db.next_id() == before.db.next_id() + if c is Store {
                1int
            } else {
                0int
            }
        },
        Decoded::Incomplete => r matches Ok(ClientStep::Incomplete) && after.db == before.db,
        Decoded::HttpInvalid => r matches Err(KyotoError::HttpParse(_)) && after.db == before.db,
        Decoded::JsonInvalid => r matches Err(KyotoError::JsonParse(_)) && after.db == before.db,
        Decoded::IdNotI64 => false,
    }
}

/// Handles what a client connection of type `conn_type` has read: reads the
/// command, executes it, and prepares the reply and the request that
/// forwards it to the replicas.
pub fn handle_buffer<C>(server: &mut Server<C>, conn_type: ClientType, buffer: &[u8]) -> (r: Result<
    ClientStep,
    KyotoError,
>)
    requires
        buffer_handleable(&*old(server), buffer@),
    ensures
        handled(r, &*old(server), &*final(server), conn_type, buffer@),
{
    let parsed = parse_command(buffer)?;
    let mut command = match parsed {
        Some(c) => c,
        None => return Ok(ClientStep::Incomplete),
    };
    let client_type = get_client_type_from_commad(&command);
    let execution = execute_command(server, conn_type, &mut command)?;
    match execution {
        Execution::Done(response) => {
            let replication = if let Response::Valid { .. } = &response {
                generate_request(&command)?
            } else {
                None
            };
            let reply = handle_command(response)?;
            Ok(ClientStep::Reply { client_type, reply, replication })
        },
        Execution::JoinPrimary { addr, port } => Ok(ClientStep::JoinPrimary { client_type, addr, port }),
    }
}

/// Handles a client's buffer as `handle_buffer` does, after testing the two
/// inputs on which `handle_buffer` cannot go on (an `id` outside the range
/// of `i64`, a `SET` when no identifier is left); on those it returns `None`
/// and changes nothing.
pub fn try_handle_buffer<C>(server: &mut Server<C>, conn_type: ClientType, buffer: &[u8]) -> (r: Option<
    Result<ClientStep, KyotoError>,
>)
    ensures
        r is None <==> !buffer_handleable(&*old(server), buffer@),
        r is None ==> *final(server) == *old(server),
        r matches Some(res) ==> handled(res, &*old(server), &*final(server), conn_type, buffer@),
{
    let exhausted = server.db.next_command_id() == i64::MAX;
    match try_parse_command(buffer) {
        None => None,
        Some(Ok(Some(Command::Store { .. }))) if exhausted => None,
        Some(_) => Some(handle_buffer(server, conn_type, buffer)),
    }
}

impl<C> ClientCollections<C> {
    /// What happens when the peer of `client_type` under `fd` closes its
    /// connection: it is evicted, and the error that ends its handling says
    /// whether it left a request half read.
    pub fn close_connection(&mut self, client_type: ClientType, fd: i32, buffer_empty: bool) -> (r:
        KyotoError)
        ensures
            final(self).view() == spec_evict_client(old(self).view(), client_type, fd),
            buffer_empty ==> r matches KyotoError::ConnectionClosed,
            !buffer_empty ==> r matches KyotoError::ConnectionReset,
    {
        self.evict_client(&client_type, fd);
        if buffer_empty {
            KyotoError::ConnectionClosed
        } else {
            KyotoError::ConnectionReset
        }
    }
}

} // verus!
