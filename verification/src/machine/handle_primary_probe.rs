//! Handling the commands that arrive from the primary this server follows.

use vstd::prelude::*;

use crate::data::server::Server;
use crate::error::KyotoError;
use crate::machine::execute_command::{
    execute_get_cmd, execute_info_cmd, execute_set_cmd, handle_bad_cmd, ok_response,
    spec_get_response, spec_info,
};
use crate::data::client::{get_client_type_from_commad, spec_client_type, ClientType};
use crate::machine::handle_client::{
    buffer_handleable, error_prefix, ids_left, invalid_command_response, spec_command_after,
    spec_contents_after,
};
use crate::protocol::decode::{parse_command, spec_decode, try_parse_command, Decoded};
use crate::protocol::command_table::{Command, CommandView};
use crate::protocol::response::{ErrorType, Response, ResponseView};

verus! {

/// The response to a command sent by the primary: a `GET`, `SET`, `INFO` or
/// bad command as for a client; a `REPL_JOIN` or `REPL_PING` is answered with
/// an `InvalidSyntax` error.
pub open spec fn spec_execute_primary_probe<C>(server: &Server<C>, cmd: CommandView) -> ResponseView {
    match cmd {
        CommandView::Get { key, .. } => spec_get_response(server.db.contents(), key),
        CommandView::Store { .. } => ok_response(),
        CommandView::Info { .. } => ResponseView::Valid { message: spec_info(server) },
        CommandView::BadCommand { message } => ResponseView::Error {
            error_type: ErrorType::InvalidSyntax,
            message,
        },
        _ => invalid_command_response(),
    }
}

/// Executes a command sent by the primary, as `spec_execute_primary_probe`
/// says; a `SET` also stores its value and takes the store's next identifier.
pub fn execute_command_primary_probe<C>(server: &mut Server<C>, cmd: &mut Command) -> (r: Result<
    Response,
    KyotoError,
>)
    requires
        ids_left(old(cmd)@, old(server).db.next_id()),
    ensures
        r matches Ok(resp) && resp@ == spec_execute_primary_probe(&*old(server), old(cmd)@),
        final(cmd)@ == spec_command_after(old(cmd)@, old(server).db.next_id()),
        final(server).db.contents() == spec_contents_after(old(server).db.contents(), old(cmd)@),
        final(server).db.next_id() == old(server).db.next_id() + if old(cmd)@ is Store {
            1int
        } else {
            0int
        },
        final(server).server_config == old(server).server_config,
        final(server).client_collections == old(server).client_collections,
{
    match cmd {
        Command::Get { .. } => execute_get_cmd(server, cmd),
        Command::Store { .. } => execute_set_cmd(server, cmd),
        Command::Info { .. } => execute_info_cmd(server, cmd),
        Command::BadCommand { .. } => handle_bad_cmd(cmd),
        _ => Ok(
            Response::Error {
                error_type: ErrorType::InvalidSyntax,
                message: "Invalid command!".to_owned(),
            },
        ),
    }
}

/// What the connection to the primary does after the response `resp`: a
/// valid response clears the input buffer (`Ok(true)`), an empty one leaves
/// it (`Ok(false)`), and an error ends the connection with the error's
/// message prefixed by the kind of error.
pub open spec fn spec_probe_reaction(resp: ResponseView) -> Result<bool, Seq<char>> {
    match resp {
        ResponseView::Valid { .. } => Ok(true),
        ResponseView::Empty => Ok(false),
        ResponseView::Error { error_type, message } => Err(error_prefix(error_type) + message),
    }
}

/// Whether a reaction is what `spec_probe_reaction` says.
pub open spec fn reaction_agrees(r: Result<bool, KyotoError>, s: Result<bool, Seq<char>>) -> bool {
    match s {
        Ok(b) => r == Ok::<bool, KyotoError>(b),
        Err(m) => r matches Err(KyotoError::PrimaryCommandFailed(x)) && x@ == m,
    }
}

/// What the connection to the primary does after a response: a valid
/// response clears the input buffer (`Ok(true)`), an empty one leaves it
/// (`Ok(false)`), and an error ends the connection with the error's message,
/// prefixed by the kind of error.
pub fn handle_command_primary_probe(response: Response) -> (r: Result<bool, KyotoError>)
    ensures
        reaction_agrees(r, spec_probe_reaction(response@)),
{
    match response {
        Response::Valid { .. } => Ok(true),
        Response::Error { error_type, message } => {
            let error_prefix = match error_type {
                ErrorType::InvalidSyntax => "Invalid syntax error: ",
                ErrorType::NonExistentKey => "Nonexistent key error: ",
            };
            let mut new_message = error_prefix.to_owned();
            new_message.append(message.as_str());
            Err(KyotoError::PrimaryCommandFailed(new_message))
        },
        Response::Empty => Ok(false),
    }
}

/// What the primary's connection buffer leads to.
#[derive(Debug, PartialEq, Eq)]
pub enum ProbeStep {
    /// The request is not complete yet; nothing was done.
    Incomplete,
    /// The command was executed; `clear_buffer` says whether to clear the
    /// input buffer, and `client_type` is the role the command shows.
    Handled { client_type: ClientType, clear_buffer: bool },
}

/// Whether handling the primary's `buffer` took the server from `before` to
/// `after` with the result `r`.
pub open spec fn probe_handled<C>(r: Result<ProbeStep, KyotoError>, before: &Server<C>, after: &Server<C>, buffer: Seq<u8>) -> bool {
    &&& after.server_config == before.server_config
    &&& after.client_collections == before.client_collections
    &&& match spec_decode(buffer) {
        Decoded::Command(c) => {
            &&& match spec_probe_reaction(spec_execute_primary_probe(before, c)) {
                Ok(b) => r == Ok::<ProbeStep, KyotoError>(
                    ProbeStep::Handled { client_type: spec_client_type(c), clear_buffer: b },
                ),
                Err(m) => r matches Err(KyotoError::PrimaryCommandFailed(x)) && x@ == m,
            }
            &&& after.db.contents() == spec_contents_after(before.db.contents(), c)
            &&& after.db.next_id() == before.db.next_id() + if c is Store {
                1int
            } else {
                0int
            }
        },
        Decoded::Incomplete => r == Ok::<ProbeStep, KyotoError>(ProbeStep::Incomplete) && after.db
            == before.db,
        Decoded::HttpInvalid => r matches Err(KyotoError::HttpParse(_)) && after.db == before.db,
        Decoded::JsonInvalid => r matches Err(KyotoError::JsonParse(_)) && after.db == before.db,
        Decoded::IdNotI64 => false,
    }
}

/// Handles what the connection to the primary has read: reads the command,
/// executes it, and says what to do with the buffer.
pub fn handle_buffer_primary_probe<C>(server: &mut Server<C>, buffer: &[u8]) -> (r: Result<
    ProbeStep,
    KyotoError,
>)
    requires
        buffer_handleable(&*old(server), buffer@),
    ensures
        probe_handled(r, &*old(server), &*final(server), buffer@),
{
    let parsed = parse_command(buffer)?;
    let mut command = match parsed {
        Some(c) => c,
        None => return Ok(ProbeStep::Incomplete),
    };
    let client_type = get_client_type_from_commad(&command);
    let response = execute_command_primary_probe(server, &mut command)?;
    let clear_buffer = handle_command_primary_probe(response)?;
    Ok(ProbeStep::Handled { client_type, clear_buffer })
}

/// Handles the primary's buffer as `handle_buffer_primary_probe` does, after
/// testing the two inputs on which it cannot go on (an `id` outside the range
/// of `i64`, a `SET` when no identifier is left); on those it returns `None`
/// and changes nothing.
pub fn try_handle_buffer_primary_probe<C>(server: &mut Server<C>, buffer: &[u8]) -> (r: Option<
    Result<ProbeStep, KyotoError>,
>)
    ensures
        r is None <==> !buffer_handleable(&*old(server), buffer@),
        r is None ==> *final(server) == *old(server),
        r matches Some(res) ==> probe_handled(res, &*old(server), &*final(server), buffer@),
{
    let exhausted = server.db.next_command_id() == i64::MAX;
    match try_parse_command(buffer) {
        None => None,
        Some(Ok(Some(Command::Store { .. }))) if exhausted => None,
        Some(_) => Some(handle_buffer_primary_probe(server, buffer)),
    }
}

} // verus!
