use vstd::prelude::*;

verus! {

/// The part this server plays in replication.
#[derive(Debug, Clone, Copy, PartialEq, Eq, Structural)]
pub enum ReplicationRole {
    Primary,
    Replica,
    Confused,
}

/// A replica, by host and port.
#[derive(Debug)]
pub struct ReplicationNode {
    addr: String,
    port: u16,
}

/// The replication settings: this server's role and its replicas, in the
/// order they were added.
#[derive(Debug)]
pub struct ReplicationConfig {
    role: ReplicationRole,
    replicas: Vec<ReplicationNode>,
}

impl ReplicationNode {
    /// The node's host and port.
    pub closed spec fn view(&self) -> (Seq<char>, u16) {
        (self.addr@, self.port)
    }

    /// The replica at `addr`:`port`.
    pub fn new(addr: String, port: u16) -> (r: Self)
        ensures
            r.view() == (addr@, port),
    {
        Self { addr: addr, port: port }
    }
}

impl ReplicationConfig {
    /// This server's role.
    pub closed spec fn role(&self) -> ReplicationRole {
        self.role
    }

    /// The replicas' hosts and ports, in the order they were added.
    pub closed spec fn replicas(&self) -> Seq<(Seq<char>, u16)> {
        self.replicas@.map_values(|n: ReplicationNode| n.view())
    }

    /// A server that does not know its role yet and has no replicas.
    pub fn new() -> (r: Self)
        ensures
            r.role() == ReplicationRole::Confused,
            r.replicas() == Seq::<(Seq<char>, u16)>::empty(),
    {
        let role = ReplicationRole::Confused;
        let replicas = Vec::new();
        let r = Self { role: role, replicas: replicas };
        proof {
            assert(r.replicas() =~= Seq::<(Seq<char>, u16)>::empty());
        }
        r
    }

    /// Adds the replica at `addr`:`port` after the others.
    pub fn add_replica_node(&mut self, addr: String, port: u16)
        ensures
            final(self).role() == old(self).role(),
            final(self).replicas() == old(self).replicas().push((addr@, port)),
    {
        let new_node = ReplicationNode::new(addr, port);
        self.replicas.push(new_node);
        proof {
            assert(self.replicas() =~= old(self).replicas().push((addr@, port)));
        }
    }
}

} // verus!
