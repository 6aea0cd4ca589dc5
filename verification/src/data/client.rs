use vstd::prelude::*;
use vstd::utf8::encode_utf8;
use std::collections::HashMap;

use crate::error::KyotoError;
use crate::protocol::command_table::{Command, CommandView};
use crate::text::{decimal, push_decimal, push_text};

verus! {

broadcast use vstd::std_specs::hash::group_hash_axioms;

/// The role of a connected peer.
#[derive(Debug, Clone, Copy, PartialEq, Eq, Structural)]
pub enum ClientType {
    /// A client that reads and writes data.
    Customer,
    /// A replica that follows this server.
    Replication,
    /// The connection to the primary this server follows.
    Primary,
    /// Not known yet.
    Unknown,
}

/// The connected peers, by role, each keyed by its socket descriptor. `C` is
/// the handle the server keeps for a connection.
///
/// Every connection starts as a customer; a connection that turns out to be
/// a replica is moved to the replication clients.
pub struct ClientCollections<C> {
    pub customer_clients: HashMap<i32, C>,
    pub replication_clients: HashMap<i32, C>,
    pub primary_probe: HashMap<i32, C>,
}

/// The descriptors of the peers of each role.
pub struct ClientsView<C> {
    pub customer: Map<i32, C>,
    pub replication: Map<i32, C>,
    pub primary: Map<i32, C>,
}

/// `m` with `client` under `fd`, unless `fd` is there already.
pub open spec fn add_once<C>(m: Map<i32, C>, fd: i32, client: C) -> Map<i32, C> {
    if m.contains_key(fd) {
        m
    } else {
        m.insert(fd, client)
    }
}

/// The collections after `add_client(client, client_type, fd)`.
pub open spec fn spec_add_client<C>(v: ClientsView<C>, client: C, client_type: ClientType, fd: i32) -> ClientsView<C> {
    match client_type {
        ClientType::Customer => ClientsView { customer: add_once(v.customer, fd, client), ..v },
        ClientType::Replication => ClientsView {
            customer: v.customer.remove(fd),
            replication: add_once(v.replication, fd, client),
            ..v
        },
        ClientType::Primary => ClientsView { primary: add_once(v.primary, fd, client), ..v },
        ClientType::Unknown => v,
    }
}

/// The collections after `evict_client(client_type, fd)`: a customer or a
/// replica is removed by its descriptor, and evicting the primary removes
/// every primary whatever the descriptor.
pub open spec fn spec_evict_client<C>(v: ClientsView<C>, client_type: ClientType, fd: i32) -> ClientsView<C> {
    match client_type {
        ClientType::Customer => ClientsView { customer: v.customer.remove(fd), ..v },
        ClientType::Replication => ClientsView { replication: v.replication.remove(fd), ..v },
        ClientType::Primary => ClientsView { primary: Map::empty(), ..v },
        ClientType::Unknown => v,
    }
}

/// The number of peers of a role; `None` for `Unknown`.
pub open spec fn spec_client_number<C>(v: ClientsView<C>, client_type: ClientType) -> Option<nat> {
    match client_type {
        ClientType::Customer => Some(v.customer.len()),
        ClientType::Replication => Some(v.replication.len()),
        ClientType::Primary => Some(v.primary.len()),
        ClientType::Unknown => None,
    }
}

/// The client section of the `INFO` text.
pub open spec fn clients_info(customers: nat, replicas: nat) -> Seq<u8> {
    encode_utf8("[Client info]\r\n"@) + encode_utf8("customer client num: "@) + decimal(customers)
        + encode_utf8("\r\n"@) + encode_utf8("replication client num: "@) + decimal(replicas)
        + encode_utf8("\r\n"@) + encode_utf8("\r\n"@)
}

impl<C> ClientCollections<C> {
    /// The peers of each role.
    pub open spec fn view(&self) -> ClientsView<C> {
        ClientsView {
            customer: self.customer_clients@,
            replication: self.replication_clients@,
            primary: self.primary_probe@,
        }
    }

    /// No peers.
    pub fn new() -> (r: Self)
        ensures
            r.view().customer == Map::<i32, C>::empty(),
            r.view().replication == Map::<i32, C>::empty(),
            r.view().primary == Map::<i32, C>::empty(),
    {
        let customer_clients = HashMap::new();
        let replication_clients = HashMap::new();
        let primary_client = HashMap::new();
        Self {
            customer_clients: customer_clients,
            replication_clients: replication_clients,
            primary_probe: primary_client,
        }
    }

    /// Records `client` under `fd` among the peers of `client_type`, unless a
    /// peer of that role already has that descriptor. A replica is first
    /// removed from the customers, where every connection starts. An
    /// `Unknown` client is not recorded.
    pub fn add_client(&mut self, client: C, client_type: ClientType, fd: i32)
        ensures
            final(self).view() == spec_add_client(old(self).view(), client, client_type, fd),
    {
        match client_type {
            ClientType::Customer => {
                if !self.customer_clients.contains_key(&fd) {
                    self.customer_clients.insert(fd, client);
                }
            },
            ClientType::Replication => {
                self.evict_client(&ClientType::Customer, fd);
                if !self.replication_clients.contains_key(&fd) {
                    self.replication_clients.insert(fd, client);
                }
            },
            ClientType::Primary => {
                if !self.primary_probe.contains_key(&fd) {
                    self.primary_probe.insert(fd, client);
                }
            },
            ClientType::Unknown => {
                return ;
            },
        }
    }

    /// Forgets the peer of `client_type` under `fd`; for the primary, forgets
    /// every primary.
    pub fn evict_client(&mut self, client_type: &ClientType, fd: i32)
        ensures
            final(self).view() == spec_evict_client(old(self).view(), *client_type, fd),
    {
        match client_type {
            ClientType::Customer => {
                if self.customer_clients.contains_key(&fd) {
                    self.customer_clients.remove(&fd);
                }
                proof {
                    assert(self.customer_clients@ =~= old(self).customer_clients@.remove(fd));
                }
            },
            ClientType::Replication => {
                if self.replication_clients.contains_key(&fd) {
                    self.replication_clients.remove(&fd);
                }
                proof {
                    assert(self.replication_clients@ =~= old(self).replication_clients@.remove(fd));
                }
            },
            ClientType::Primary => {
                self.primary_probe.clear();
            },
            ClientType::Unknown => {
                return ;
            },
        }
    }

    /// The number of peers of `client_type`; an error for `Unknown`.
    pub fn get_client_number(&self, client_type: ClientType) -> (r: Result<usize, KyotoError>)
        ensures
            match spec_client_number(self.view(), client_type) {
                Some(n) => r matches Ok(k) && k == n,
                None => r matches Err(KyotoError::InvalidClientType),
            },
    {
        match client_type {
            ClientType::Customer => Ok(self.customer_clients.len()),
            ClientType::Replication => Ok(self.replication_clients.len()),
            ClientType::Primary => Ok(self.primary_probe.len()),
            _ => Err(KyotoError::InvalidClientType),
        }
    }

    /// Appends the client section of the `INFO` text to `info`: the numbers
    /// of customers and of replicas.
    pub fn generate_info(&self, info: Vec<u8>) -> (r: Result<Vec<u8>, KyotoError>)
        ensures
            r matches Ok(out) && out@ == info@ + clients_info(
                self.view().customer.len(),
                self.view().replication.len(),
            ),
    {
        let ghost start = info@;
        let mut info = info;
        push_text(&mut info, "[Client info]\r\n");
        let customer_clients_num = self.get_client_number(ClientType::Customer)?;
        push_text(&mut info, "customer client num: ");
        push_decimal(&mut info, customer_clients_num as u64);
        push_text(&mut info, "\r\n");
        let replication_clients_num = self.get_client_number(ClientType::Replication)?;
        push_text(&mut info, "replication client num: ");
        push_decimal(&mut info, replication_clients_num as u64);
        push_text(&mut info, "\r\n");
        push_text(&mut info, "\r\n");
        proof {
            assert(info@ =~= start + clients_info(
                self.view().customer.len(),
                self.view().replication.len(),
            ));
        }
        Ok(info)
    }
}

/// The role a peer shows by sending `cmd`: a peer that sends `REPL_PING` is
/// a replica, every other peer a customer.
pub open spec fn spec_client_type(cmd: CommandView) -> ClientType {
    if cmd is ReplPing {
        ClientType::Replication
    } else {
        ClientType::Customer
    }
}

/// The role a connection takes from a command it sends: a peer that sends
/// `REPL_PING` is a replica, every other peer a customer.
pub fn get_client_type_from_commad(cmd: &Command) -> (r: ClientType)
    ensures
        r == spec_client_type(cmd@),
{
    match cmd {
        Command::ReplPing { id: _ } => {
            return ClientType::Replication;
        },
        _ => {
            return ClientType::Customer;
        },
    }
}

} // verus!
