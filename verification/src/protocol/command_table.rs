use vstd::prelude::*;

use crate::outside::bytes_view;

verus! {

/// A request, as a client or a peer node sends it.
#[derive(Debug, PartialEq, Eq)]
pub enum Command {
    /// Read the value stored under `key`.
    Get { key: String, id: i64 },
    /// Store `value` under `key`; `id` takes the identifier the store gives it.
    Store { key: String, value: bytes::Bytes, id: i64 },
    /// Describe the server.
    Info { id: i64 },
    /// Follow the primary at `addr`:`port`.
    ReplJoin { addr: String, port: u16, id: i64 },
    /// A peer announces itself as a replica.
    ReplPing { id: i64 },
    /// A request that could not be read as a command, with the reason.
    BadCommand { message: String },
}

/// The mathematical value of a `Command`.
pub enum CommandView {
    Get { key: Seq<char>, id: i64 },
    Store { key: Seq<char>, value: Seq<u8>, id: i64 },
    Info { id: i64 },
    ReplJoin { addr: Seq<char>, port: u16, id: i64 },
    ReplPing { id: i64 },
    BadCommand { message: Seq<char> },
}

impl View for Command {
    type V = CommandView;

    open spec fn view(&self) -> CommandView {
        match self {
            Command::Get { key, id } => CommandView::Get { key: key@, id: *id },
            Command::Store { key, value, id } => CommandView::Store {
                key: key@,
                value: bytes_view(*value),
                id: *id,
            },
            Command::Info { id } => CommandView::Info { id: *id },
            Command::ReplJoin { addr, port, id } => CommandView::ReplJoin {
                addr: addr@,
                port: *port,
                id: *id,
            },
            Command::ReplPing { id } => CommandView::ReplPing { id: *id },
            Command::BadCommand { message } => CommandView::BadCommand { message: message@ },
        }
    }
}

} // verus!
