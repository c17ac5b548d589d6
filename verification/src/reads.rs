//! Reads of the state before and after a transaction.

use vstd::prelude::*;

use crate::error::HostError;
use crate::key::{guest_key, read_guest_key, Key};
use crate::reply::data_of;
use crate::write_log::{StorageModification, WriteLog};

verus! {

/// What a read of the storage gave: the value at a key, if it has one, and the gas that the read
/// cost.
pub type StorageRead<E> = Result<(Option<Vec<u8>>, u64), E>;

/// The value that a read of the storage found, if it did not fail.
pub open spec fn stored_value<E>(stored: StorageRead<E>) -> Result<Option<Seq<u8>>, HostError> {
    match stored {
        Ok((Some(value), _)) => Ok(Some(value@)),
        Ok((None, _)) => Ok(None),
        Err(_) => Err(HostError::StorageReadFailed),
    }
}

/// Whether `data` is what `read_storage` answers when it is asked for a key.
pub open spec fn storage_holds<F, E>(
    read_storage: F,
    path: Seq<char>,
    data: Result<Option<Seq<u8>>, HostError>,
) -> bool where F: FnOnce(&Key) -> StorageRead<E> {
    exists|key: Key, stored: StorageRead<E>|
        {
            &&& key@ == path
            &&& #[trigger] call_ensures(read_storage, (&key,), stored)
            &&& data == stored_value(stored)
        }
}

/// Whether `data` is the value at a key before the transaction: the one that the storage holds.
pub open spec fn prior_read<F, E>(
    key: Option<Vec<u8>>,
    read_storage: F,
    data: Result<Option<Seq<u8>>, HostError>,
) -> bool where F: FnOnce(&Key) -> StorageRead<E> {
    match guest_key(key) {
        Ok(path) => storage_holds::<F, E>(read_storage, path, data),
        Err(err) => data == Err::<Option<Seq<u8>>, HostError>(err),
    }
}

/// Whether `data` is the value at a key after the transaction: the one that its last change left
/// there, or, where it was not changed, the one that the storage holds.
pub open spec fn posterior_read<F, E>(
    log: Map<Seq<char>, Option<Seq<u8>>>,
    key: Option<Vec<u8>>,
    read_storage: F,
    data: Result<Option<Seq<u8>>, HostError>,
) -> bool where F: FnOnce(&Key) -> StorageRead<E> {
    match guest_key(key) {
        Ok(path) => if log.contains_key(path) {
            data == Ok::<Option<Seq<u8>>, HostError>(log[path])
        } else {
            storage_holds::<F, E>(read_storage, path, data)
        },
        Err(err) => data == Err::<Option<Seq<u8>>, HostError>(err),
    }
}

/// Whether the value at a key before the transaction is asked of the storage, under a path.
pub open spec fn prior_asks(key: Option<Vec<u8>>, path: Seq<char>) -> bool {
    guest_key(key) == Ok::<Seq<char>, HostError>(path)
}

/// Whether the value at a key after the transaction is asked of the storage, under a path: only
/// where the key was not changed.
pub open spec fn posterior_asks(
    log: Map<Seq<char>, Option<Seq<u8>>>,
    key: Option<Vec<u8>>,
    path: Seq<char>,
) -> bool {
    guest_key(key) == Ok::<Seq<char>, HostError>(path) && !log.contains_key(path)
}

/// Takes the value out of what a read of the storage gave.
pub fn take_stored<E>(stored: StorageRead<E>) -> (data: Result<Option<Vec<u8>>, HostError>)
    ensures
        data_of(data) == stored_value(stored),
        match stored {
            Ok((value, _)) => data == Ok::<Option<Vec<u8>>, HostError>(value),
            Err(_) => data == Err::<Option<Vec<u8>>, HostError>(HostError::StorageReadFailed),
        },
{
    match stored {
        Ok((value, _gas)) => Ok(value),
        Err(_) => Err(HostError::StorageReadFailed),
    }
}

/// Reads the value at a key before the transaction.
pub fn read_prior<F, E>(key: Option<Vec<u8>>, read_storage: F) -> (data: Result<
    Option<Vec<u8>>,
    HostError,
>) where F: FnOnce(&Key) -> StorageRead<E>
    requires
        forall|asked: Key|
            prior_asks(key, asked@) ==> #[trigger] call_requires(read_storage, (&asked,)),
    ensures
        prior_read::<F, E>(key, read_storage, data_of(data)),
{
    match read_guest_key(key) {
        Ok(key) => take_stored(read_storage(&key)),
        Err(err) => Err(err),
    }
}

/// Reads the value at a key after the transaction. The storage is asked only where the write log
/// holds no change of the key.
pub fn read_posterior<F, E>(
    write_log: &WriteLog,
    key: Option<Vec<u8>>,
    read_storage: F,
) -> (data: Result<Option<Vec<u8>>, HostError>) where F: FnOnce(&Key) -> StorageRead<E>
    requires
        forall|asked: Key|
            posterior_asks(write_log@, key, asked@) ==> #[trigger] call_requires(
                read_storage,
                (&asked,),
            ),
    ensures
        posterior_read::<F, E>(write_log@, key, read_storage, data_of(data)),
{
    match read_guest_key(key) {
        Ok(key) => match write_log.read(&key) {
            Some(StorageModification::Write { value }) => Ok(Some(value.clone())),
            Some(StorageModification::Delete) => Ok(None),
            None => take_stored(read_storage(&key)),
        },
        Err(err) => Err(err),
    }
}

} // verus!
