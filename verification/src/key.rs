//! Keys of the storage.

use vstd::prelude::*;

use crate::error::HostError;
use crate::text::{guest_text, read_guest_text, text_of};

verus! {

/// A storage key: a path of segments with `/` between them. The segment `?` is reserved for the
/// validity predicate of an account, and no key that a guest names may hold it.
#[derive(Debug)]
pub struct Key {
    raw: String,
}

/// Whether the character at `i` is a segment `?` of the path.
pub open spec fn is_reserved_at(path: Seq<char>, i: int) -> bool {
    &&& 0 <= i < path.len()
    &&& path[i] == '?'
    &&& i == 0 || path[i - 1] == '/'
    &&& i + 1 == path.len() || path[i + 1] == '/'
}

/// Whether a path is a storage key: none of its segments is reserved.
pub open spec fn is_key(path: Seq<char>) -> bool {
    forall|i: int| !is_reserved_at(path, i)
}

impl View for Key {
    type V = Seq<char>;

    closed spec fn view(&self) -> Seq<char> {
        self.raw@
    }
}

impl Key {
    /// Parses the text of a key. Returns `None` where a segment is reserved.
    pub fn parse(string: String) -> (key: Option<Key>)
        ensures
            key is Some <==> is_key(string@),
            key matches Some(key) ==> key@ == string@,
    {
        // Whether a segment starts at the next character, and whether the character before it is
        // the first of its segment and a `?`.
        let mut at_start: bool = true;
        let mut pending: bool = false;
        for c in it: string.as_str().chars()
            invariant
                it.seq() == string@,
                at_start <==> it.index() == 0 || string@[it.index() - 1] == '/',
                pending <==> it.index() > 0 && string@[it.index() - 1] == '?' && (it.index() == 1
                    || string@[it.index() - 2] == '/'),
                forall|i: int| i + 1 < it.index() ==> !is_reserved_at(string@, i),
        {
            if pending && c == '/' {
                assert(is_reserved_at(string@, it.index() - 1));
                return None;
            }
            pending = at_start && c == '?';
            at_start = c == '/';
        }
        if pending {
            assert(is_reserved_at(string@, string@.len() - 1));
            return None;
        }
        Some(Key { raw: string })
    }

    /// The text of the key.
    pub fn as_str(&self) -> (path: &str)
        ensures
            path@ == self@,
    {
        self.raw.as_str()
    }

    /// The text of the key, which [`Key::parse`] took.
    pub fn into_string(self) -> (path: String)
        ensures
            path@ == self@,
    {
        self.raw
    }
}

/// The key that the text at which the guest points names.
pub open spec fn guest_key(bytes: Option<Vec<u8>>) -> Result<Seq<char>, HostError> {
    match guest_text(bytes) {
        Some(path) => if is_key(path) {
            Ok(path)
        } else {
            Err(HostError::KeyNotParsed)
        },
        None => Err(HostError::KeyNotReadable),
    }
}

/// The prefix that the text at which the guest points names.
pub open spec fn guest_prefix(bytes: Option<Vec<u8>>) -> Result<Seq<char>, HostError> {
    match guest_text(bytes) {
        Some(path) => if is_key(path) {
            Ok(path)
        } else {
            Err(HostError::PrefixNotParsed)
        },
        None => Err(HostError::PrefixNotReadable),
    }
}

/// The key that bytes of the storage hold.
pub open spec fn stored_key(bytes: Seq<u8>) -> Result<Seq<char>, HostError> {
    match text_of(bytes) {
        Some(path) => if is_key(path) {
            Ok(path)
        } else {
            Err(HostError::KeyNotParsed)
        },
        None => Err(HostError::StoredKeyNotText),
    }
}

/// The path of a parsed key.
pub open spec fn key_path(key: Result<Key, HostError>) -> Result<Seq<char>, HostError> {
    match key {
        Ok(key) => Ok(key@),
        Err(err) => Err(err),
    }
}

/// Reads and parses the key at which the guest points.
pub fn read_guest_key(bytes: Option<Vec<u8>>) -> (key: Result<Key, HostError>)
    ensures
        key_path(key) == guest_key(bytes),
{
    match read_guest_text(bytes) {
        Some(text) => match Key::parse(text) {
            Some(key) => Ok(key),
            None => Err(HostError::KeyNotParsed),
        },
        None => Err(HostError::KeyNotReadable),
    }
}

/// Reads and parses the prefix at which the guest points.
pub fn read_guest_prefix(bytes: Option<Vec<u8>>) -> (prefix: Result<Key, HostError>)
    ensures
        key_path(prefix) == guest_prefix(bytes),
{
    match read_guest_text(bytes) {
        Some(text) => match Key::parse(text) {
            Some(prefix) => Ok(prefix),
            None => Err(HostError::PrefixNotParsed),
        },
        None => Err(HostError::PrefixNotReadable),
    }
}

} // verus!
