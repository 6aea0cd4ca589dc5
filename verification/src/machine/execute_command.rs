//! Executing each kind of command against the server's state.

use vstd::prelude::*;
use vstd::utf8::encode_utf8;

use crate::data::client::{ClientCollections, ClientType};
use crate::data::server::Server;
use crate::data::server_config::server_info;
use crate::data::client::clients_info;
use crate::error::KyotoError;
use crate::outside::{bytes_clone, bytes_from_vec};
use crate::protocol::command_table::{Command, CommandView};
use crate::protocol::response::{ErrorType, Response, ResponseView};

verus! {

/// The answer to a command that succeeded without a value of its own.
pub open spec fn ok_response() -> ResponseView {
    ResponseView::Valid { message: encode_utf8("Ok."@) }
}

/// The answer to a `GET` of `key` on a store holding `contents`.
pub open spec fn spec_get_response(contents: Map<Seq<char>, Seq<u8>>, key: Seq<char>) -> ResponseView {
    if contents.contains_key(key) {
        ResponseView::Valid { message: contents[key] }
    } else {
        ResponseView::Error { error_type: ErrorType::NonExistentKey, message: "Key not found."@ }
    }
}

/// The `INFO` text of a server.
pub open spec fn spec_info<C>(server: &Server<C>) -> Seq<u8> {
    server_info(server.server_config.port, server.server_config.input_buffer_size) + clients_info(
        server.client_collections.view().customer.len(),
        server.client_collections.view().replication.len(),
    )
}

/// The answer `Ok.`.
fn ok() -> (r: Response)
    ensures
        r@ == ok_response(),
{
    Response::Valid { message: bytes_from_vec("Ok.".as_bytes_vec()) }
}

/// Executes a `GET`: the stored value, or a `NonExistentKey` error with
/// `Key not found.`; any other command is refused.
pub fn execute_get_cmd<C>(server: &Server<C>, cmd: &Command) -> (r: Result<Response, KyotoError>)
    ensures
        match cmd@ {
            CommandView::Get { key, .. } => r matches Ok(resp) && resp@ == spec_get_response(
                server.db.contents(),
                key,
            ),
            _ => r matches Err(KyotoError::InvalidCommandType),
        },
{
    if let Command::Get { key, id: _ } = cmd {
        match server.db.get(key.as_str()) {
            Some(res) => Ok(Response::Valid { message: res }),
            None => Ok(
                Response::Error {
                    error_type: ErrorType::NonExistentKey,
                    message: "Key not found.".to_owned(),
                },
            ),
        }
    } else {
        Err(KyotoError::InvalidCommandType)
    }
}

/// Executes a `SET`: stores the value under the key, writes the identifier
/// the store gave the write into the command, and answers `Ok.`; any other
/// command is refused and nothing changes.
pub fn execute_set_cmd<C>(server: &mut Server<C>, cmd: &mut Command) -> (r: Result<Response, KyotoError>)
    requires
        old(cmd)@ is Store ==> old(server).db.next_id() < i64::MAX,
    ensures
        final(server).server_config == old(server).server_config,
        final(server).client_collections == old(server).client_collections,
        match old(cmd)@ {
            CommandView::Store { key, value, id: _ } => {
                &&& r matches Ok(resp) && resp@ == ok_response()
                &&& final(server).db.contents() == old(server).db.contents().insert(key, value)
                &&& final(server).db.next_id() == old(server).db.next_id() + 1
                &&& final(cmd)@ == (CommandView::Store {
                    key,
                    value,
                    id: old(server).db.next_id() as i64,
                })
            },
            _ => {
                &&& r matches Err(KyotoError::InvalidCommandType)
                &&& final(server).db == old(server).db
                &&& *final(cmd) == *old(cmd)
            },
        },
{
    let updated = if let Command::Store { key, value, id: _ } = &*cmd {
        let new_id = server.db.set(key.as_str(), value)?;
        Command::Store { key: key.clone(), value: bytes_clone(value), id: new_id }
    } else {
        return Err(KyotoError::InvalidCommandType);
    };
    *cmd = updated;
    Ok(ok())
}

/// Executes an `INFO`: the server section followed by the client section;
/// any other command is refused.
pub fn execute_info_cmd<C>(server: &Server<C>, cmd: &Command) -> (r: Result<Response, KyotoError>)
    ensures
        match cmd@ {
            CommandView::Info { .. } => r matches Ok(resp) && resp@ == (ResponseView::Valid {
                message: spec_info(server),
            }),
            _ => r matches Err(KyotoError::InvalidCommandType),
        },
{
    if let Command::Info { id: _ } = cmd {
        let info: Vec<u8> = Vec::new();
        let info = server.server_config.generate_info(info)?;
        let info = server.client_collections.generate_info(info)?;
        proof {
            assert(info@ =~= spec_info(server));
        }
        Ok(Response::Valid { message: bytes_from_vec(info) })
    } else {
        Err(KyotoError::InvalidCommandType)
    }
}

/// The first half of a `REPL_JOIN`, before any connection is made: a primary
/// probe client may not join; otherwise the address and port to connect to.
/// Any other command is refused.
pub fn begin_repl_join(client_type: ClientType, cmd: &Command) -> (r: Result<(String, u16), KyotoError>)
    ensures
        client_type == ClientType::Primary ==> r matches Err(KyotoError::JoinFromPrimary),
        client_type != ClientType::Primary ==> match cmd@ {
            CommandView::ReplJoin { addr, port, .. } => r matches Ok((a, p)) && a@ == addr && p
                == port,
            _ => r matches Err(KyotoError::InvalidCommandType),
        },
{
    if let ClientType::Primary = client_type {
        return Err(KyotoError::JoinFromPrimary);
    }
    if let Command::ReplJoin { addr, port, id: _ } = cmd {
        Ok((addr.clone(), *port))
    } else {
        Err(KyotoError::InvalidCommandType)
    }
}

impl<C> ClientCollections<C> {
    /// The second half of a `REPL_JOIN`, once the new primary is connected
    /// under `fd`: every old primary is dropped and `client` becomes the only
    /// primary. Returns whether there was an old primary, which must then be
    /// told to disconnect.
    pub fn replace_primary(&mut self, client: C, fd: i32) -> (had_primary: Result<bool, KyotoError>)
        ensures
            had_primary matches Ok(h) && h == (old(self).view().primary.len() > 0),
            final(self).view().primary == Map::<i32, C>::empty().insert(fd, client),
            final(self).view().customer == old(self).view().customer,
            final(self).view().replication == old(self).view().replication,
    {
        let had_primary = self.get_client_number(ClientType::Primary)? > 0;
        self.evict_client(&ClientType::Primary, 0);
        self.add_client(client, ClientType::Primary, fd);
        Ok(had_primary)
    }
}

/// The answer to a `REPL_JOIN` once the new primary is in place: `Ok.`.
pub fn finish_repl_join() -> (r: Response)
    ensures
        r@ == ok_response(),
{
    ok()
}

/// Answers a `BadCommand` with an `InvalidSyntax` error carrying its reason;
/// any other command is refused.
pub fn handle_bad_cmd(cmd: &Command) -> (r: Result<Response, KyotoError>)
    ensures
        match cmd@ {
            CommandView::BadCommand { message } => r matches Ok(resp) && resp@
                == (ResponseView::Error { error_type: ErrorType::InvalidSyntax, message }),
            _ => r matches Err(KyotoError::InvalidCommandType),
        },
{
    if let Command::BadCommand { message } = cmd {
        Ok(Response::Error { error_type: ErrorType::InvalidSyntax, message: message.clone() })
    } else {
        Err(KyotoError::InvalidCommandType)
    }
}

} // verus!
