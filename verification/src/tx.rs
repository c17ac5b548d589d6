//! Host functions of transaction code.

use vstd::prelude::*;

use crate::error::HostError;
use crate::gas::{charge_gas, requested_gas, BlockGasMeter};
use crate::iteration::{
    next_posterior, open_iterator, opened, posterior_step, posterior_taken, step_data,
};
use crate::key::{guest_key, guest_prefix, read_guest_key, Key};
use crate::messages::{log_message, logged, message};
use crate::prefix_iter::{advanced, left, PrefixIterators};
use crate::reads::{posterior_asks, posterior_read, read_posterior, StorageRead};
use crate::reply::{
    answer, answer_varlen, fixed_reply, outcome, varlen_outcome, varlen_reply, HostReply,
    VarlenReply,
};
use crate::text::guest_text;
use crate::write_log::WriteLog;

verus! {

/// What the host keeps for the one transaction that it runs.
pub struct TxEnv {
    /// The changes that the transaction has made.
    pub write_log: WriteLog,
    /// The iterators that the transaction has opened.
    pub iterators: PrefixIterators,
    /// The gas that the transaction has used.
    pub gas_meter: BlockGasMeter,
}

/// Called from transaction code to request to use the given gas amount. If the transaction runs out
/// of gas, its execution has to stop.
pub fn tx_charge_gas(env: &mut TxEnv, used_gas: i32) -> (res: Result<(), HostError>)
    ensures
        res == match old(env).gas_meter@.charge(requested_gas(used_gas)) {
            Ok(()) => Ok(()),
            Err(err) => Err(HostError::Gas(err)),
        },
        final(env).gas_meter@ == old(env).gas_meter@.after(requested_gas(used_gas)),
        used_gas >= 0 ==> (res is Ok <==> old(env).gas_meter@.transaction_gas + used_gas
            <= old(env).gas_meter@.limit),
        used_gas >= 0 && old(env).gas_meter@.transaction_gas + used_gas <= u64::MAX
            ==> final(env).gas_meter@.transaction_gas == old(env).gas_meter@.transaction_gas
            + used_gas,
        final(env).gas_meter@.limit == old(env).gas_meter@.limit,
        final(env).write_log == old(env).write_log,
        final(env).iterators == old(env).iterators,
{
    charge_gas(&mut env.gas_meter, used_gas)
}

/// Storage read function of transaction code. It reads from the write log first, and from the
/// storage if no entry is found.
///
/// The result is `1` where the key has a value, and `0` where it has none.
pub fn tx_storage_read<F, E>(
    env: &TxEnv,
    key: Option<Vec<u8>>,
    result_ptr: u64,
    read_storage: F,
) -> (res: Result<HostReply, HostError>) where F: FnOnce(&Key) -> StorageRead<E>
    requires
        forall|asked: Key|
            posterior_asks(env.write_log@, key, asked@) ==> #[trigger] call_requires(
                read_storage,
                (&asked,),
            ),
    ensures
        exists|data: Result<Option<Seq<u8>>, HostError>| #[trigger]
            posterior_read::<F, E>(env.write_log@, key, read_storage, data) && outcome(res)
                == fixed_reply(data, result_ptr),
{
    let data = read_posterior(&env.write_log, key, read_storage);
    answer(data, result_ptr)
}

/// Storage read function of transaction code. It reads from the write log first, and from the
/// storage if no entry is found.
///
/// The result is `-1` when the key is not present, or the length of the data when the key is
/// present (the length may be `0`).
pub fn tx_storage_read_varlen<F, E>(
    env: &TxEnv,
    key: Option<Vec<u8>>,
    result_ptr: u64,
    read_storage: F,
) -> (res: Result<VarlenReply, HostError>) where F: FnOnce(&Key) -> StorageRead<E>
    requires
        forall|asked: Key|
            posterior_asks(env.write_log@, key, asked@) ==> #[trigger] call_requires(
                read_storage,
                (&asked,),
            ),
    ensures
        exists|data: Result<Option<Seq<u8>>, HostError>| #[trigger]
            posterior_read::<F, E>(env.write_log@, key, read_storage, data) && varlen_outcome(res)
                == varlen_reply(data, result_ptr),
{
    let data = read_posterior(&env.write_log, key, read_storage);
    answer_varlen(data, result_ptr)
}

/// Storage prefix iterator function of transaction code. It opens an iterator over what the storage
/// holds under the prefix and returns its number.
pub fn tx_storage_iter_prefix<F>(
    env: &mut TxEnv,
    prefix: Option<Vec<u8>>,
    iter_prefix: F,
) -> (res: Result<u64, HostError>) where F: FnOnce(&Key) -> Vec<(Vec<u8>, Vec<u8>)>
    requires
        forall|asked: Key|
            guest_prefix(prefix) == Ok::<Seq<char>, HostError>(asked@) ==> #[trigger] call_requires(
                iter_prefix,
                (&asked,),
            ),
    ensures
        match res {
            Ok(id) => guest_prefix(prefix) is Ok && id == old(env).iterators@.len(),
            Err(err) => guest_prefix(prefix) == Err::<Seq<char>, HostError>(err),
        },
        opened(old(env).iterators@, prefix, iter_prefix, final(env).iterators@),
        final(env).write_log == old(env).write_log,
        final(env).gas_meter == old(env).gas_meter,
{
    open_iterator(&mut env.iterators, prefix, iter_prefix)
}

/// Storage prefix iterator next function of transaction code. It hands over the next key value pair
/// of which the key is not deleted, with the value of the write log, or of the storage if the write
/// log has no entry.
///
/// The result is `1` where there is a pair, and `0` where there is none.
pub fn tx_storage_iter_next(env: &mut TxEnv, iter_id: u64, result_ptr: u64) -> (res: Result<
    HostReply,
    HostError,
>)
    ensures
        outcome(res) == fixed_reply(
            step_data(posterior_step(old(env).write_log@, left(old(env).iterators@, iter_id))),
            result_ptr,
        ),
        final(env).iterators@ == advanced(
            old(env).iterators@,
            iter_id,
            posterior_taken(old(env).write_log@, left(old(env).iterators@, iter_id)),
        ),
        final(env).write_log == old(env).write_log,
        final(env).gas_meter == old(env).gas_meter,
{
    let data = next_posterior(&env.write_log, &mut env.iterators, iter_id);
    answer(data, result_ptr)
}

/// Storage prefix iterator next function of transaction code. It hands over the next key value pair
/// of which the key is not deleted, with the value of the write log, or of the storage if the write
/// log has no entry.
///
/// The result is `-1` when there is no pair, or the length of the serialized pair.
pub fn tx_storage_iter_next_varlen(env: &mut TxEnv, iter_id: u64, result_ptr: u64) -> (res: Result<
    VarlenReply,
    HostError,
>)
    ensures
        varlen_outcome(res) == varlen_reply(
            step_data(posterior_step(old(env).write_log@, left(old(env).iterators@, iter_id))),
            result_ptr,
        ),
        final(env).iterators@ == advanced(
            old(env).iterators@,
            iter_id,
            posterior_taken(old(env).write_log@, left(old(env).iterators@, iter_id)),
        ),
        final(env).write_log == old(env).write_log,
        final(env).gas_meter == old(env).gas_meter,
{
    let data = next_posterior(&env.write_log, &mut env.iterators, iter_id);
    answer_varlen(data, result_ptr)
}

/// The key and the value at which the guest points. The text of the key is read first, then the
/// value; the text is parsed last.
pub open spec fn guest_write(key: Option<Vec<u8>>, value: Option<Vec<u8>>) -> Result<
    (Seq<char>, Seq<u8>),
    HostError,
> {
    if guest_text(key) is None {
        Err(HostError::KeyNotReadable)
    } else {
        match value {
            Some(value) => match guest_key(key) {
                Ok(path) => Ok((path, value@)),
                Err(err) => Err(err),
            },
            None => Err(HostError::ValueNotReadable),
        }
    }
}

/// Storage write function of transaction code. The given key and value are written to the write
/// log.
pub fn tx_storage_write(env: &mut TxEnv, key: Option<Vec<u8>>, value: Option<Vec<u8>>) -> (res:
    Result<(), HostError>)
    ensures
        match guest_write(key, value) {
            Ok((path, val)) => {
                &&& res == Ok::<(), HostError>(())
                &&& final(env).write_log@ == old(env).write_log@.insert(path, Some(val))
            },
            Err(err) => {
                &&& res == Err::<(), HostError>(err)
                &&& final(env).write_log == old(env).write_log
            },
        },
        guest_key(key) is Ok && value is Some ==> res is Ok && final(env).write_log@
            == old(env).write_log@.insert(guest_key(key)->Ok_0, Some(value->0@)),
        guest_key(key) is Err || value is None ==> res is Err,
        final(env).iterators == old(env).iterators,
        final(env).gas_meter == old(env).gas_meter,
{
    let parsed = read_guest_key(key);
    if let Err(HostError::KeyNotReadable) = parsed {
        return Err(HostError::KeyNotReadable);
    }
    let value = match value {
        Some(value) => value,
        None => {
            return Err(HostError::ValueNotReadable);
        },
    };
    match parsed {
        Ok(key) => {
            env.write_log.write(key, value);
            Ok(())
        },
        Err(err) => Err(err),
    }
}

/// Storage delete function of transaction code. The given key is written as deleted to the write
/// log, whether or not it has a value.
///
/// The result is `1`.
pub fn tx_storage_delete(env: &mut TxEnv, key: Option<Vec<u8>>) -> (res: Result<u64, HostError>)
    ensures
        match guest_key(key) {
            Ok(path) => {
                &&& res == Ok::<u64, HostError>(1)
                &&& final(env).write_log@ == old(env).write_log@.insert(path, None)
            },
            Err(err) => {
                &&& res == Err::<u64, HostError>(err)
                &&& final(env).write_log == old(env).write_log
            },
        },
        final(env).iterators == old(env).iterators,
        final(env).gas_meter == old(env).gas_meter,
{
    match read_guest_key(key) {
        Ok(key) => {
            env.write_log.delete(key);
            Ok(1)
        },
        Err(err) => Err(err),
    }
}

/// Log function of transaction code. The result is the message to log, at the level for
/// information.
pub fn tx_log_string(string: Option<Vec<u8>>) -> (res: Result<String, HostError>)
    ensures
        logged(res) == log_message("WASM Transaction log: "@, string),
{
    message("WASM Transaction log: ", string)
}

} // verus!
