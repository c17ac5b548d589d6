//! The storage changes that a transaction has made and that are not in the storage yet.

use vstd::hash_map::StringHashMap;
use vstd::prelude::*;

use crate::key::Key;

verus! {

/// A change of the value at one key.
#[derive(Debug)]
pub enum StorageModification {
    /// The key was given a value.
    Write {
        value: Vec<u8>,
    },
    /// The key was deleted.
    Delete,
}

impl View for StorageModification {
    type V = Option<Seq<u8>>;

    /// The value that the change leaves at its key.
    open spec fn view(&self) -> Option<Seq<u8>> {
        match self {
            StorageModification::Write { value } => Some(value@),
            StorageModification::Delete => None,
        }
    }
}

/// The last change of each key that was changed.
pub struct WriteLog {
    changes: StringHashMap<StorageModification>,
}

impl View for WriteLog {
    type V = Map<Seq<char>, Option<Seq<u8>>>;

    /// The value that the last change leaves at each changed key: `None` where it was deleted.
    closed spec fn view(&self) -> Map<Seq<char>, Option<Seq<u8>>> {
        self.changes@.map_values(|change: StorageModification| change@)
    }
}

impl WriteLog {
    /// A log without changes.
    pub fn new() -> (log: WriteLog)
        ensures
            log@ == Map::<Seq<char>, Option<Seq<u8>>>::empty(),
    {
        let log = WriteLog { changes: StringHashMap::new() };
        assert(log@ =~= Map::<Seq<char>, Option<Seq<u8>>>::empty());
        log
    }

    /// The last change of a key, if it was changed.
    pub fn read(&self, key: &Key) -> (change: Option<&StorageModification>)
        ensures
            change is Some <==> self@.contains_key(key@),
            change matches Some(change) ==> change@ == self@[key@],
    {
        self.changes.get(key.as_str())
    }

    /// Gives a key a value.
    pub fn write(&mut self, key: Key, value: Vec<u8>)
        ensures
            final(self)@ == old(self)@.insert(key@, Some(value@)),
    {
        self.changes.insert(key.into_string(), StorageModification::Write { value });
        assert(self@ =~= old(self)@.insert(key@, Some(value@)));
    }

    /// Deletes a key, whether or not it has a value.
    pub fn delete(&mut self, key: Key)
        ensures
            final(self)@ == old(self)@.insert(key@, None),
    {
        self.changes.insert(key.into_string(), StorageModification::Delete);
        assert(self@ =~= old(self)@.insert(key@, None));
    }
}

} // verus!
