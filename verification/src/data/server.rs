use vstd::prelude::*;

use crate::data::client::ClientCollections;
use crate::data::db::Db;
use crate::data::params::Params;
use crate::data::replication_config::ReplicationRole;
use crate::data::server_config::{
    params_readable, setting_text, spec_parse_unsigned, ServerConfig, DEFAULT_INPUT_BUFFER_SIZE,
    DEFAULT_PORT,
};

verus! {

/// Everything the server shares between connections: its settings, its
/// connected peers (each kept as a handle of type `C`) and the store.
pub struct Server<C> {
    pub server_config: ServerConfig,
    pub client_collections: ClientCollections<C>,
    pub db: Db,
}

impl<C> Server<C> {
    /// A server with the settings read from `params`, no peers and an empty
    /// store.
    pub fn new(params: Params) -> (r: Self)
        requires
            params_readable(params),
        ensures
            Some(r.server_config.port as nat) == spec_parse_unsigned(
                setting_text(params.port, DEFAULT_PORT),
                u16::MAX as nat,
            ),
            Some(r.server_config.input_buffer_size as nat) == spec_parse_unsigned(
                setting_text(params.input_buffer_size, DEFAULT_INPUT_BUFFER_SIZE),
                usize::MAX as nat,
            ),
            r.server_config.replication_config.role() == ReplicationRole::Confused,
            r.server_config.replication_config.replicas() == Seq::<(Seq<char>, u16)>::empty(),
            r.client_collections.view().customer == Map::<i32, C>::empty(),
            r.client_collections.view().replication == Map::<i32, C>::empty(),
            r.client_collections.view().primary == Map::<i32, C>::empty(),
            r.db.contents() == Map::<Seq<char>, Seq<u8>>::empty(),
            r.db.next_id() == 0,
    {
        let server_config = ServerConfig::new(&params);
        let client_collections = ClientCollections::new();
        let db = Db::new();
        Self { server_config: server_config, client_collections: client_collections, db: db }
    }
}

} // verus!
