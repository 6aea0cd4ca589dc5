use vstd::prelude::*;
use vstd::hash_map::StringHashMap;

use crate::data::uid::UIDHandler;
use crate::error::KyotoError;
use crate::outside::{bytes_clone, bytes_view};

verus! {

/// The key-value store: values are byte buffers stored under string keys, and
/// every write is given the next command identifier.
pub struct Db {
    hashmap: StringHashMap<bytes::Bytes>,
    uid_handler: UIDHandler,
}

impl Db {
    /// What the store holds: each key's characters mapped to the value's bytes.
    pub closed spec fn contents(&self) -> Map<Seq<char>, Seq<u8>> {
        self.hashmap@.map_values(|b: bytes::Bytes| bytes_view(b))
    }

    /// The identifier the next write is given.
    pub closed spec fn next_id(&self) -> int {
        self.uid_handler@
    }

    /// An empty store whose first write gets identifier 0.
    pub fn new() -> (r: Self)
        ensures
            r.contents() == Map::<Seq<char>, Seq<u8>>::empty(),
            r.next_id() == 0,
    {
        let r = Db { hashmap: StringHashMap::new(), uid_handler: UIDHandler::new() };
        proof {
            assert(r.contents() =~= Map::<Seq<char>, Seq<u8>>::empty());
        }
        r
    }

    /// The value stored under `key`, if any.
    pub fn get(&self, key: &str) -> (r: Option<bytes::Bytes>)
        ensures
            match r {
                Some(b) => self.contents().contains_key(key@) && bytes_view(b) == self.contents()[key@],
                None => !self.contents().contains_key(key@),
            },
    {
        match self.hashmap.get(key) {
            Some(b) => Some(bytes_clone(b)),
            None => None,
        }
    }

    /// Stores `val` under `key`, replacing what was there, and returns the
    /// identifier given to this write.
    pub fn set(&mut self, key: &str, val: &bytes::Bytes) -> (r: Result<i64, KyotoError>)
        requires
            old(self).next_id() < i64::MAX,
        ensures
            r matches Ok(id) && id == old(self).next_id(),
            final(self).contents() == old(self).contents().insert(key@, bytes_view(*val)),
            final(self).next_id() == old(self).next_id() + 1,
    {
        self.hashmap.insert(key.to_owned(), bytes_clone(val));
        let cmd_id = self.uid_handler.generate_new_id();
        proof {
            assert(self.contents() =~= old(self).contents().insert(key@, bytes_view(*val)));
        }
        Ok(cmd_id)
    }

    /// The identifier the next write will be given.
    pub fn next_command_id(&self) -> (r: i64)
        ensures
            r == self.next_id(),
    {
        self.uid_handler.latest_id()
    }
}

} // verus!
