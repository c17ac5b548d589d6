//! Steps of prefix iterators over the state before and after a transaction.

use vstd::prelude::*;

use crate::error::HostError;
use crate::key::{guest_prefix, read_guest_prefix, stored_key, Key};
use crate::key_val::{is_serializable, key_val_bytes, KeyVal};
use crate::prefix_iter::{advanced, left, pairs_of, PrefixIteratorId, PrefixIterators};
use crate::reply::data_of;
use crate::text::{read_text, text_of};
use crate::write_log::{StorageModification, WriteLog};

verus! {

/// The pair that an iterator over the state before the transaction makes of a stored pair.
pub open spec fn prior_pair(pair: (Seq<u8>, Seq<u8>)) -> Result<(Seq<char>, Seq<u8>), HostError> {
    match text_of(pair.0) {
        Some(path) => Ok((path, pair.1)),
        None => Err(HostError::StoredKeyNotText),
    }
}

/// Whether the transaction deleted the key of a stored pair.
pub open spec fn is_deleted(
    log: Map<Seq<char>, Option<Seq<u8>>>,
    pair: (Seq<u8>, Seq<u8>),
) -> bool {
    match stored_key(pair.0) {
        Ok(path) => log.contains_key(path) && log[path] is None,
        Err(_) => false,
    }
}

/// The pair that an iterator over the state after the transaction makes of a stored pair of which
/// the key was not deleted: the value is the one that the last change left, if there was one.
pub open spec fn posterior_pair(
    log: Map<Seq<char>, Option<Seq<u8>>>,
    pair: (Seq<u8>, Seq<u8>),
) -> Result<(Seq<char>, Seq<u8>), HostError> {
    match stored_key(pair.0) {
        Ok(path) => if log.contains_key(path) && log[path] is Some {
            Ok((path, log[path]->0))
        } else {
            Ok((path, pair.1))
        },
        Err(err) => Err(err),
    }
}

/// How many pairs at the front have keys that the transaction deleted.
pub open spec fn deleted_front(
    log: Map<Seq<char>, Option<Seq<u8>>>,
    pairs: Seq<(Seq<u8>, Seq<u8>)>,
) -> nat
    decreases pairs.len(),
{
    if pairs.len() > 0 && is_deleted(log, pairs[0]) {
        1 + deleted_front(log, pairs.skip(1))
    } else {
        0
    }
}

/// What the next step of an iterator over the state before the transaction finds.
pub open spec fn prior_step(pairs: Seq<(Seq<u8>, Seq<u8>)>) -> Result<
    Option<(Seq<char>, Seq<u8>)>,
    HostError,
> {
    if pairs.len() == 0 {
        Ok(None)
    } else {
        match prior_pair(pairs[0]) {
            Ok(found) => Ok(Some(found)),
            Err(err) => Err(err),
        }
    }
}

/// How many stored pairs the next step of an iterator over the state before the transaction takes.
pub open spec fn prior_taken(pairs: Seq<(Seq<u8>, Seq<u8>)>) -> nat {
    if pairs.len() == 0 {
        0
    } else {
        1
    }
}

/// What the next step of an iterator over the state after the transaction finds.
pub open spec fn posterior_step(
    log: Map<Seq<char>, Option<Seq<u8>>>,
    pairs: Seq<(Seq<u8>, Seq<u8>)>,
) -> Result<Option<(Seq<char>, Seq<u8>)>, HostError> {
    let skipped = deleted_front(log, pairs);
    if skipped >= pairs.len() {
        Ok(None)
    } else {
        match posterior_pair(log, pairs[skipped as int]) {
            Ok(found) => Ok(Some(found)),
            Err(err) => Err(err),
        }
    }
}

/// How many stored pairs the next step of an iterator over the state after the transaction takes:
/// those that it skips, and the one that it finds.
pub open spec fn posterior_taken(
    log: Map<Seq<char>, Option<Seq<u8>>>,
    pairs: Seq<(Seq<u8>, Seq<u8>)>,
) -> nat {
    let skipped = deleted_front(log, pairs);
    if skipped >= pairs.len() {
        skipped
    } else {
        skipped + 1
    }
}

/// The data that a step hands to the guest: the pair that it found, serialized.
pub open spec fn step_data(step: Result<Option<(Seq<char>, Seq<u8>)>, HostError>) -> Result<
    Option<Seq<u8>>,
    HostError,
> {
    match step {
        Ok(Some((path, val))) => if is_serializable(path, val) {
            Ok(Some(key_val_bytes(path, val)))
        } else {
            Err(HostError::KeyValNotSerialized)
        },
        Ok(None) => Ok(None),
        Err(err) => Err(err),
    }
}

/// Whether `after` is `before` with an iterator added over what `iter_prefix` answers when it is
/// asked for a prefix.
pub open spec fn storage_opens<F>(
    before: Seq<Seq<(Seq<u8>, Seq<u8>)>>,
    path: Seq<char>,
    iter_prefix: F,
    after: Seq<Seq<(Seq<u8>, Seq<u8>)>>,
) -> bool where F: FnOnce(&Key) -> Vec<(Vec<u8>, Vec<u8>)> {
    exists|prefix: Key, pairs: Vec<(Vec<u8>, Vec<u8>)>|
        {
            &&& prefix@ == path
            &&& #[trigger] call_ensures(iter_prefix, (&prefix,), pairs)
            &&& after == before.push(pairs_of(pairs@))
        }
}

/// Whether `after` is `before` with an iterator added for the prefix at which the guest points,
/// or, where that is no prefix, `before` itself.
pub open spec fn opened<F>(
    before: Seq<Seq<(Seq<u8>, Seq<u8>)>>,
    prefix: Option<Vec<u8>>,
    iter_prefix: F,
    after: Seq<Seq<(Seq<u8>, Seq<u8>)>>,
) -> bool where F: FnOnce(&Key) -> Vec<(Vec<u8>, Vec<u8>)> {
    match guest_prefix(prefix) {
        Ok(path) => storage_opens(before, path, iter_prefix, after),
        Err(_) => after == before,
    }
}

/// Opens an iterator over the pairs that the storage holds under a prefix, in the order in which
/// the storage gives them, and returns its number.
pub fn open_iterator<F>(
    iterators: &mut PrefixIterators,
    prefix: Option<Vec<u8>>,
    iter_prefix: F,
) -> (res: Result<u64, HostError>) where F: FnOnce(&Key) -> Vec<(Vec<u8>, Vec<u8>)>
    requires
        forall|asked: Key|
            guest_prefix(prefix) == Ok::<Seq<char>, HostError>(asked@) ==> #[trigger] call_requires(
                iter_prefix,
                (&asked,),
            ),
    ensures
        match res {
            Ok(id) => guest_prefix(prefix) is Ok && id == old(iterators)@.len(),
            Err(err) => guest_prefix(prefix) == Err::<Seq<char>, HostError>(err),
        },
        opened(old(iterators)@, prefix, iter_prefix, final(iterators)@),
{
    match read_guest_prefix(prefix) {
        Ok(key) => {
            let pairs = iter_prefix(&key);
            let iter_id = iterators.insert(pairs);
            Ok(iter_id.id())
        },
        Err(err) => Err(err),
    }
}

/// Taking no pair leaves the iterators as they are.
proof fn lemma_advanced_by_none(iterators: Seq<Seq<(Seq<u8>, Seq<u8>)>>, iter_id: u64)
    ensures
        advanced(iterators, iter_id, 0) == iterators,
{
    if iter_id < iterators.len() {
        assert(iterators[iter_id as int].skip(0) =~= iterators[iter_id as int]);
        assert(advanced(iterators, iter_id, 0) =~= iterators);
    }
}

/// What an iterator has left after some of its pairs were taken.
proof fn lemma_left_of_advanced(
    iterators: Seq<Seq<(Seq<u8>, Seq<u8>)>>,
    iter_id: u64,
    n: nat,
)
    requires
        n <= left(iterators, iter_id).len(),
    ensures
        left(advanced(iterators, iter_id, n), iter_id) == left(iterators, iter_id).skip(n as int),
{
    assert(left(advanced(iterators, iter_id, n), iter_id) =~= left(iterators, iter_id).skip(
        n as int,
    ));
}

/// Taking one more pair.
proof fn lemma_advanced_once_more(
    iterators: Seq<Seq<(Seq<u8>, Seq<u8>)>>,
    iter_id: u64,
    n: nat,
)
    requires
        n < left(iterators, iter_id).len(),
    ensures
        advanced(advanced(iterators, iter_id, n), iter_id, 1) == advanced(
            iterators,
            iter_id,
            n + 1,
        ),
{
    let pairs = left(iterators, iter_id);
    assert(pairs.skip(n as int).skip(1) =~= pairs.skip(n as int + 1));
    assert(advanced(advanced(iterators, iter_id, n), iter_id, 1) =~= advanced(
        iterators,
        iter_id,
        n + 1,
    ));
}

/// Takes the next pair of an iterator over the state before the transaction, and serializes it.
pub fn next_prior(iterators: &mut PrefixIterators, iter_id: u64) -> (data: Result<
    Option<Vec<u8>>,
    HostError,
>)
    ensures
        data_of(data) == step_data(prior_step(left(old(iterators)@, iter_id))),
        final(iterators)@ == advanced(
            old(iterators)@,
            iter_id,
            prior_taken(left(old(iterators)@, iter_id)),
        ),
{
    match iterators.next(PrefixIteratorId::new(iter_id)) {
        Some((key, val)) => match read_text(key) {
            Some(key) => match (KeyVal { key, val }).try_to_vec() {
                Ok(bytes) => Ok(Some(bytes)),
                Err(err) => Err(err),
            },
            None => Err(HostError::StoredKeyNotText),
        },
        None => {
            proof {
                lemma_advanced_by_none(old(iterators)@, iter_id);
            }
            Ok(None)
        },
    }
}

/// Takes pairs of an iterator over the state after the transaction until it finds one of which the
/// key was not deleted, and serializes that one.
pub fn next_posterior(
    write_log: &WriteLog,
    iterators: &mut PrefixIterators,
    iter_id: u64,
) -> (data: Result<Option<Vec<u8>>, HostError>)
    ensures
        data_of(data) == step_data(posterior_step(write_log@, left(old(iterators)@, iter_id))),
        final(iterators)@ == advanced(
            old(iterators)@,
            iter_id,
            posterior_taken(write_log@, left(old(iterators)@, iter_id)),
        ),
{
    let ghost log = write_log@;
    let ghost before = iterators@;
    let ghost pairs = left(before, iter_id);
    let ghost mut taken: nat = 0;
    proof {
        lemma_advanced_by_none(before, iter_id);
        assert(pairs.skip(0) =~= pairs);
    }
    loop
        invariant
            log == write_log@,
            before == old(iterators)@,
            pairs == left(before, iter_id),
            taken <= pairs.len(),
            iterators@ == advanced(before, iter_id, taken),
            deleted_front(log, pairs) == taken + deleted_front(log, pairs.skip(taken as int)),
        decreases pairs.len() - taken,
    {
        proof {
            lemma_left_of_advanced(before, iter_id, taken);
        }
        match iterators.next(PrefixIteratorId::new(iter_id)) {
            Some((key, val)) => {
                let ghost pair = (key@, val@);
                proof {
                    assert(pair == pairs[taken as int]);
                    assert(pairs.skip(taken as int).skip(1) =~= pairs.skip(taken as int + 1));
                    lemma_advanced_once_more(before, iter_id, taken);
                    taken = taken + 1;
                }
                let key = match read_text(key) {
                    Some(key) => key,
                    None => {
                        return Err(HostError::StoredKeyNotText);
                    },
                };
                let parsed = match Key::parse(key.clone()) {
                    Some(parsed) => parsed,
                    None => {
                        return Err(HostError::KeyNotParsed);
                    },
                };
                let val = match write_log.read(&parsed) {
                    Some(StorageModification::Write { value }) => value.clone(),
                    Some(StorageModification::Delete) => {
                        // Check the next one, because the key has been deleted already.
                        continue ;
                    },
                    None => val,
                };
                return match (KeyVal { key, val }).try_to_vec() {
                    Ok(bytes) => Ok(Some(bytes)),
                    Err(err) => Err(err),
                };
            },
            None => {
                return Ok(None);
            },
        }
    }
}

} // verus!
