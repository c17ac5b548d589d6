//! Host functions of validity predicate code.

use std::sync::Arc;

use vstd::prelude::*;

use crate::error::HostError;
use crate::gas::{charge_gas, requested_gas, BlockGasMeter};
use crate::iteration::{
    next_posterior, next_prior, open_iterator, opened, posterior_step, posterior_taken, prior_step,
    prior_taken, step_data,
};
use crate::key::{guest_prefix, Key};
use crate::messages::{log_message, logged, message};
use crate::prefix_iter::{advanced, left, PrefixIterators};
use crate::reads::{
    posterior_asks, posterior_read, prior_asks, prior_read, read_posterior, read_prior, StorageRead,
};
use crate::reply::{
    answer, answer_varlen, fixed_reply, outcome, varlen_outcome, varlen_reply, HostReply,
    VarlenReply,
};
use crate::write_log::WriteLog;

verus! {

/// What the host keeps for one of the validity predicates that it runs in parallel.
pub struct VpEnv {
    /// The changes that the transaction has made, which all the validity predicates share.
    pub write_log: Arc<WriteLog>,
    /// The iterators that the validity predicate has opened.
    pub iterators: PrefixIterators,
}

/// Called from validity predicate code to request to use the given gas amount, from a meter that
/// all the validity predicates share. If they run out of gas, the execution has to stop.
pub fn vp_charge_gas(gas_meter: &mut BlockGasMeter, used_gas: i32) -> (res: Result<(), HostError>)
    ensures
        res == match old(gas_meter)@.charge(requested_gas(used_gas)) {
            Ok(()) => Ok(()),
            Err(err) => Err(HostError::Gas(err)),
        },
        final(gas_meter)@ == old(gas_meter)@.after(requested_gas(used_gas)),
        used_gas >= 0 ==> (res is Ok <==> old(gas_meter)@.transaction_gas + used_gas
            <= old(gas_meter)@.limit),
        used_gas >= 0 && old(gas_meter)@.transaction_gas + used_gas <= u64::MAX
            ==> final(gas_meter)@.transaction_gas == old(gas_meter)@.transaction_gas + used_gas,
        final(gas_meter)@.limit == old(gas_meter)@.limit,
{
    charge_gas(gas_meter, used_gas)
}

/// Storage read function of validity predicate code for the prior state (before the transaction).
/// It reads from the storage.
///
/// The result is `1` where the key has a value, and `0` where it has none.
pub fn vp_storage_read_pre<F, E>(
    key: Option<Vec<u8>>,
    result_ptr: u64,
    read_storage: F,
) -> (res: Result<HostReply, HostError>) where F: FnOnce(&Key) -> StorageRead<E>
    requires
        forall|asked: Key|
            prior_asks(key, asked@) ==> #[trigger] call_requires(read_storage, (&asked,)),
    ensures
        exists|data: Result<Option<Seq<u8>>, HostError>| #[trigger]
            prior_read::<F, E>(key, read_storage, data) && outcome(res) == fixed_reply(
                data,
                result_ptr,
            ),
{
    let data = read_prior(key, read_storage);
    answer(data, result_ptr)
}

/// Storage read function of validity predicate code for the posterior state (after the
/// transaction). It reads from the write log first, and from the storage if no entry is found.
///
/// The result is `1` where the key has a value, and `0` where it has none.
pub fn vp_storage_read_post<F, E>(
    env: &VpEnv,
    key: Option<Vec<u8>>,
    result_ptr: u64,
    read_storage: F,
) -> (res: Result<HostReply, HostError>) where F: FnOnce(&Key) -> StorageRead<E>
    requires
        forall|asked: Key|
            posterior_asks(env.write_log@, key, asked@) ==> #[trigger] call_requires(
                read_storage,
                (&asked,),
            ),
    ensures
        exists|data: Result<Option<Seq<u8>>, HostError>| #[trigger]
            posterior_read::<F, E>(env.write_log@, key, read_storage, data) && outcome(res)
                == fixed_reply(data, result_ptr),
{
    let data = read_posterior(&*env.write_log, key, read_storage);
    answer(data, result_ptr)
}

/// Storage read function of validity predicate code for the prior state (before the transaction).
/// It reads from the storage.
///
/// The result is `-1` when the key is not present, or the length of the data when the key is
/// present (the length may be `0`).
pub fn vp_storage_read_pre_varlen<F, E>(
    key: Option<Vec<u8>>,
    result_ptr: u64,
    read_storage: F,
) -> (res: Result<VarlenReply, HostError>) where F: FnOnce(&Key) -> StorageRead<E>
    requires
        forall|asked: Key|
            prior_asks(key, asked@) ==> #[trigger] call_requires(read_storage, (&asked,)),
    ensures
        exists|data: Result<Option<Seq<u8>>, HostError>| #[trigger]
            prior_read::<F, E>(key, read_storage, data) && varlen_outcome(res) == varlen_reply(
                data,
                result_ptr,
            ),
{
    let data = read_prior(key, read_storage);
    answer_varlen(data, result_ptr)
}

/// Storage read function of validity predicate code for the posterior state (after the
/// transaction). It reads from the write log first, and from the storage if no entry is found.
///
/// The result is `-1` when the key is not present, or the length of the data when the key is
/// present (the length may be `0`).
pub fn vp_storage_read_post_varlen<F, E>(
    env: &VpEnv,
    key: Option<Vec<u8>>,
    result_ptr: u64,
    read_storage: F,
) -> (res: Result<VarlenReply, HostError>) where F: FnOnce(&Key) -> StorageRead<E>
    requires
        forall|asked: Key|
            posterior_asks(env.write_log@, key, asked@) ==> #[trigger] call_requires(
                read_storage,
                (&asked,),
            ),
    ensures
        exists|data: Result<Option<Seq<u8>>, HostError>| #[trigger]
            posterior_read::<F, E>(env.write_log@, key, read_storage, data) && varlen_outcome(res)
                == varlen_reply(data, result_ptr),
{
    let data = read_posterior(&*env.write_log, key, read_storage);
    answer_varlen(data, result_ptr)
}

/// Storage prefix iterator function of validity predicate code. It opens an iterator over what the
/// storage holds under the prefix and returns its number.
pub fn vp_storage_iter_prefix<F>(
    env: &mut VpEnv,
    prefix: Option<Vec<u8>>,
    iter_prefix: F,
) -> (res: Result<u64, HostError>) where F: FnOnce(&Key) -> Vec<(Vec<u8>, Vec<u8>)>
    requires
        forall|asked: Key|
            guest_prefix(prefix) == Ok::<Seq<char>, HostError>(asked@) ==> #[trigger] call_requires(
                iter_prefix,
                (&asked,),
            ),
    ensures
        match res {
            Ok(id) => guest_prefix(prefix) is Ok && id == old(env).iterators@.len(),
            Err(err) => guest_prefix(prefix) == Err::<Seq<char>, HostError>(err),
        },
        opened(old(env).iterators@, prefix, iter_prefix, final(env).iterators@),
        final(env).write_log == old(env).write_log,
{
    open_iterator(&mut env.iterators, prefix, iter_prefix)
}

/// Storage prefix iterator next function of validity predicate code for the prior state (before the
/// transaction). It hands over the next key value pair of the storage.
///
/// The result is `1` where there is a pair, and `0` where there is none.
pub fn vp_storage_iter_pre_next(env: &mut VpEnv, iter_id: u64, result_ptr: u64) -> (res: Result<
    HostReply,
    HostError,
>)
    ensures
        outcome(res) == fixed_reply(
            step_data(prior_step(left(old(env).iterators@, iter_id))),
            result_ptr,
        ),
        final(env).iterators@ == advanced(
            old(env).iterators@,
            iter_id,
            prior_taken(left(old(env).iterators@, iter_id)),
        ),
        final(env).write_log == old(env).write_log,
{
    let data = next_prior(&mut env.iterators, iter_id);
    answer(data, result_ptr)
}

/// Storage prefix iterator next function of validity predicate code for the posterior state (after
/// the transaction). It hands over the next key value pair of which the key is not deleted, with
/// the value of the write log, or of the storage if the write log has no entry.
///
/// The result is `1` where there is a pair, and `0` where there is none.
pub fn vp_storage_iter_post_next(env: &mut VpEnv, iter_id: u64, result_ptr: u64) -> (res: Result<
    HostReply,
    HostError,
>)
    ensures
        outcome(res) == fixed_reply(
            step_data(posterior_step(old(env).write_log@, left(old(env).iterators@, iter_id))),
            result_ptr,
        ),
        final(env).iterators@ == advanced(
            old(env).iterators@,
            iter_id,
            posterior_taken(old(env).write_log@, left(old(env).iterators@, iter_id)),
        ),
        final(env).write_log == old(env).write_log,
{
    let data = next_posterior(&*env.write_log, &mut env.iterators, iter_id);
    answer(data, result_ptr)
}

/// Storage prefix iterator next function of validity predicate code for the prior state (before the
/// transaction). It hands over the next key value pair of the storage.
///
/// The result is `-1` when there is no pair, or the length of the serialized pair.
pub fn vp_storage_iter_pre_next_varlen(env: &mut VpEnv, iter_id: u64, result_ptr: u64) -> (res:
    Result<VarlenReply, HostError>)
    ensures
        varlen_outcome(res) == varlen_reply(
            step_data(prior_step(left(old(env).iterators@, iter_id))),
            result_ptr,
        ),
        final(env).iterators@ == advanced(
            old(env).iterators@,
            iter_id,
            prior_taken(left(old(env).iterators@, iter_id)),
        ),
        final(env).write_log == old(env).write_log,
{
    let data = next_prior(&mut env.iterators, iter_id);
    answer_varlen(data, result_ptr)
}

/// Storage prefix iterator next function of validity predicate code for the posterior state (after
/// the transaction). It hands over the next key value pair of which the key is not deleted, with
/// the value of the write log, or of the storage if the write log has no entry.
///
/// The result is `-1` when there is no pair, or the length of the serialized pair.
pub fn vp_storage_iter_post_next_varlen(env: &mut VpEnv, iter_id: u64, result_ptr: u64) -> (res:
    Result<VarlenReply, HostError>)
    ensures
        varlen_outcome(res) == varlen_reply(
            step_data(posterior_step(old(env).write_log@, left(old(env).iterators@, iter_id))),
            result_ptr,
        ),
        final(env).iterators@ == advanced(
            old(env).iterators@,
            iter_id,
            posterior_taken(old(env).write_log@, left(old(env).iterators@, iter_id)),
        ),
        final(env).write_log == old(env).write_log,
{
    let data = next_posterior(&*env.write_log, &mut env.iterators, iter_id);
    answer_varlen(data, result_ptr)
}

/// Log function of validity predicate code. The result is the message to log, at the level for
/// information.
pub fn vp_log_string(string: Option<Vec<u8>>) -> (res: Result<String, HostError>)
    ensures
        logged(res) == log_message("WASM Validity predicate log: "@, string),
{
    message("WASM Validity predicate log: ", string)
}

} // verus!
