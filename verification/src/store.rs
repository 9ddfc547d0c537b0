//! Where publications in flight are kept.

use crate::error::Error;
use crate::message::{Message, MessageView};
use crate::pid::PacketIdentifier;
use std::collections::HashMap;
use vstd::prelude::*;

verus! {

/// A map from packet identifier to publication that outlives a connection.
///
/// The engine is the only caller of its store. An operation either takes
/// effect and returns `Ok`, or fails and leaves the contents as they were.
pub trait Store {
    /// What the store holds.
    spec fn contents(&self) -> Map<PacketIdentifier, MessageView>;

    /// Whether no operation of this kind of store fails for a reason of its
    /// own, that is for any reason but a missing entry.
    spec fn reliable() -> bool;

    /// Keeps `message` under its identifier, in place of what was there.
    fn put(&mut self, message: Message) -> (done: Result<(), Error>)
        requires
            message@.pid is Some,
        ensures
            done is Ok ==> final(self).contents() == old(self).contents().insert(
                message@.pid->0,
                message@,
            ),
            done is Err ==> final(self).contents() == old(self).contents(),
            Self::reliable() ==> done is Ok,
    ;

    /// The publication kept under `pid`; `Error::StorageMiss` if there is none.
    fn get(&mut self, pid: PacketIdentifier) -> (found: Result<Message, Error>)
        ensures
            final(self).contents() == old(self).contents(),
            found matches Ok(message) ==> old(self).contents().contains_key(pid)
                && message@ == old(self).contents()[pid],
            !old(self).contents().contains_key(pid) ==> found == Err::<Message, Error>(
                Error::StorageMiss,
            ),
            Self::reliable() && old(self).contents().contains_key(pid) ==> found is Ok,
    ;

    /// Forgets what is kept under `pid`, if anything.
    fn delete(&mut self, pid: PacketIdentifier) -> (done: Result<(), Error>)
        ensures
            done is Ok ==> final(self).contents() == old(self).contents().remove(pid),
            done is Err ==> final(self).contents() == old(self).contents(),
            Self::reliable() ==> done is Ok,
    ;
}

/// The store that keeps its publications in memory. It never fails.
pub struct MemoryStorage {
    entries: HashMap<u16, Message>,
}

impl MemoryStorage {
    /// An empty store.
    pub fn new() -> (store: MemoryStorage)
        ensures
            store.contents() == Map::<PacketIdentifier, MessageView>::empty(),
    {
        let store = MemoryStorage { entries: HashMap::new() };
        assert(store.contents() =~= Map::<PacketIdentifier, MessageView>::empty());
        store
    }

    /// How many publications the store holds.
    pub fn len(&self) -> (n: usize)
        ensures
            n == self.contents().len(),
            self.contents().dom().finite(),
    {
        proof {
            self.lemma_contents_len();
        }
        self.entries.len()
    }

    /// The store holds as many publications as its map has keys.
    proof fn lemma_contents_len(&self)
        ensures
            self.contents().dom().finite(),
            self.contents().len() == self.entries@.len(),
    {
        let keys = self.entries@.dom();
        let pids = keys.map(|k: u16| PacketIdentifier(k));
        assert(self.contents().dom() =~= pids) by {
            assert forall|p: PacketIdentifier| self.contents().dom().contains(p) implies pids.contains(p) by {
                assert(keys.contains(p.0));
                assert(PacketIdentifier(p.0) == p);
            }
        }
        keys.lemma_map_finite(|k: u16| PacketIdentifier(k));
        vstd::set_lib::lemma_map_size(keys, pids, |k: u16| PacketIdentifier(k));
    }
}

impl Store for MemoryStorage {
    closed spec fn contents(&self) -> Map<PacketIdentifier, MessageView> {
        Map::new(
            |pid: PacketIdentifier| self.entries@.contains_key(pid.0),
            |pid: PacketIdentifier| self.entries@[pid.0]@,
        )
    }

    open spec fn reliable() -> bool {
        true
    }

    fn put(&mut self, message: Message) -> (done: Result<(), Error>) {
        let ghost view = message@;
        let key = message.pid.unwrap().0;
        self.entries.insert(key, message);
        assert(self.contents() =~= old(self).contents().insert(view.pid->0, view));
        Ok(())
    }

    fn get(&mut self, pid: PacketIdentifier) -> (found: Result<Message, Error>) {
        match self.entries.get(&pid.0) {
            Some(message) => Ok(message.clone()),
            None => Err(Error::StorageMiss),
        }
    }

    fn delete(&mut self, pid: PacketIdentifier) -> (done: Result<(), Error>) {
        self.entries.remove(&pid.0);
        assert(self.contents() =~= old(self).contents().remove(pid));
        Ok(())
    }
}

} // verus!
