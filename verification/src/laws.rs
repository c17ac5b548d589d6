//! What holds of the host functions together.

use vstd::prelude::*;
use vstd::utf8::{
    decode_utf8, decode_utf8_encode_utf8, encode_utf8, encode_utf8_decode_utf8,
    encode_utf8_valid_utf8, valid_utf8,
};

use crate::error::{GasError, HostError};
use crate::gas::GasView;
use crate::imports::{matchmaker_imports, tx_imports, vp_imports, Import};
use crate::iteration::{
    deleted_front, is_deleted, posterior_pair, posterior_step, posterior_taken, prior_step,
    prior_taken,
};
use crate::key::{guest_key, is_key, stored_key, Key};
use crate::key_val::{is_serializable, key_val_bytes, length_bytes, with_length};
use crate::prefix_iter::{advanced, left};
use crate::reads::{posterior_read, prior_read, storage_holds, StorageRead};
use crate::reply::{fixed_reply, varlen_reply, Reply};

verus! {

/// A key that a transaction has written reads as the value that was written, whatever the storage
/// holds: the value is written where the guest asked for it, and the call returns `1`, or the
/// length of the value.
pub proof fn read_after_write<F, E>(
    log: Map<Seq<char>, Option<Seq<u8>>>,
    key: Option<Vec<u8>>,
    path: Seq<char>,
    value: Seq<u8>,
    read_storage: F,
    data: Result<Option<Seq<u8>>, HostError>,
    result_ptr: u64,
) where F: FnOnce(&Key) -> StorageRead<E>
    requires
        guest_key(key) == Ok::<Seq<char>, HostError>(path),
        posterior_read::<F, E>(log.insert(path, Some(value)), key, read_storage, data),
    ensures
        fixed_reply(data, result_ptr) == Ok::<Reply, HostError>(
            Reply { ret: 1, write: Some((result_ptr, value)) },
        ),
        value.len() <= i64::MAX ==> varlen_reply(data, result_ptr) == Ok::<Reply, HostError>(
            Reply { ret: value.len() as int, write: Some((result_ptr, value)) },
        ),
{
}

/// A key that a transaction has deleted reads as absent, whatever the storage holds: nothing is
/// written to the guest's memory, and the call returns `0`, or `-1`.
pub proof fn read_after_delete<F, E>(
    log: Map<Seq<char>, Option<Seq<u8>>>,
    key: Option<Vec<u8>>,
    path: Seq<char>,
    read_storage: F,
    data: Result<Option<Seq<u8>>, HostError>,
    result_ptr: u64,
) where F: FnOnce(&Key) -> StorageRead<E>
    requires
        guest_key(key) == Ok::<Seq<char>, HostError>(path),
        posterior_read::<F, E>(log.insert(path, None), key, read_storage, data),
    ensures
        fixed_reply(data, result_ptr) == Ok::<Reply, HostError>(Reply { ret: 0, write: None }),
        varlen_reply(data, result_ptr) == Ok::<Reply, HostError>(Reply { ret: -1, write: None }),
{
}

/// A write or a deletion of one key changes no read of another.
pub proof fn other_keys_read_the_same<F, E>(
    log: Map<Seq<char>, Option<Seq<u8>>>,
    changed: Seq<char>,
    change: Option<Seq<u8>>,
    key: Option<Vec<u8>>,
    read_storage: F,
    data: Result<Option<Seq<u8>>, HostError>,
) where F: FnOnce(&Key) -> StorageRead<E>
    requires
        guest_key(key) != Ok::<Seq<char>, HostError>(changed),
    ensures
        posterior_read::<F, E>(log.insert(changed, change), key, read_storage, data)
            <==> posterior_read::<F, E>(log, key, read_storage, data),
{
}

/// Of two changes of one key, only the last one counts; changes of different keys can be made in
/// either order.
pub proof fn last_change_counts(
    log: Map<Seq<char>, Option<Seq<u8>>>,
    path: Seq<char>,
    first: Option<Seq<u8>>,
    other: Seq<char>,
    last: Option<Seq<u8>>,
)
    ensures
        log.insert(path, first).insert(path, last) == log.insert(path, last),
        path != other ==> log.insert(path, first).insert(other, last) == log.insert(
            other,
            last,
        ).insert(path, first),
{
    assert(log.insert(path, first).insert(path, last) =~= log.insert(path, last));
    if path != other {
        assert(log.insert(path, first).insert(other, last) =~= log.insert(other, last).insert(
            path,
            first,
        ));
    }
}

/// A key that the transaction did not change reads after the transaction as it read before it.
pub proof fn unchanged_key_reads_as_before<F, E>(
    log: Map<Seq<char>, Option<Seq<u8>>>,
    key: Option<Vec<u8>>,
    read_storage: F,
    data: Result<Option<Seq<u8>>, HostError>,
) where F: FnOnce(&Key) -> StorageRead<E>
    requires
        guest_key(key) matches Ok(path) ==> !log.contains_key(path),
    ensures
        posterior_read::<F, E>(log, key, read_storage, data) <==> prior_read::<F, E>(
            key,
            read_storage,
            data,
        ),
{
}

/// The two forms of an answer agree. Both stop the guest for the same reasons, but that the form
/// with a length does so for data that is too long for it too. Otherwise they write the same bytes,
/// the length is `-1` where the other form returns `0`, and the length of the bytes that are
/// written where it returns `1`.
pub proof fn reply_forms_agree(data: Result<Option<Seq<u8>>, HostError>, result_ptr: u64)
    ensures
        match (fixed_reply(data, result_ptr), varlen_reply(data, result_ptr)) {
            (Ok(fixed), Ok(varlen)) => {
                &&& fixed.write == varlen.write
                &&& match fixed.write {
                    Some((ptr, bytes)) => ptr == result_ptr && fixed.ret == 1 && varlen.ret
                        == bytes.len(),
                    None => fixed.ret == 0 && varlen.ret == -1,
                }
            },
            (Ok(fixed), Err(err)) => {
                &&& err == HostError::DataLengthOverflow
                &&& fixed.write matches Some((_, bytes))
                &&& bytes.len() > i64::MAX
            },
            (Err(err), varlen) => varlen == Err::<Reply, HostError>(err),
        },
{
}

/// Guests and the storage name keys alike: bytes are the key of a stored pair exactly where a guest
/// that points at them names that key, and the UTF-8 bytes of a key name it.
pub proof fn stored_and_guest_keys_agree(bytes: Vec<u8>, path: Seq<char>)
    ensures
        stored_key(bytes@) == Ok::<Seq<char>, HostError>(path) <==> guest_key(Some(bytes))
            == Ok::<Seq<char>, HostError>(path),
        is_key(path) ==> stored_key(encode_utf8(path)) == Ok::<Seq<char>, HostError>(path),
        stored_key(bytes@) == Ok::<Seq<char>, HostError>(path) ==> is_key(path) && bytes@
            == encode_utf8(path),
{
    encode_utf8_valid_utf8(path);
    encode_utf8_decode_utf8(path);
    if valid_utf8(bytes@) {
        decode_utf8_encode_utf8(bytes@);
    }
}

/// The pairs that an iterator over the state after the transaction finds when it is stepped until
/// it finds no more, or a stored key that cannot be read.
pub open spec fn found_after(
    log: Map<Seq<char>, Option<Seq<u8>>>,
    pairs: Seq<(Seq<u8>, Seq<u8>)>,
) -> Seq<(Seq<char>, Seq<u8>)>
    decreases pairs.len(),
{
    match posterior_step(log, pairs) {
        Ok(Some(found)) => {
            seq![found] + found_after(log, pairs.skip(posterior_taken(log, pairs) as int))
        },
        _ => Seq::empty(),
    }
}

/// The pairs that an iterator over the state before the transaction finds when it is stepped until
/// it finds no more, or a stored key that cannot be read.
pub open spec fn found_before(pairs: Seq<(Seq<u8>, Seq<u8>)>) -> Seq<(Seq<char>, Seq<u8>)>
    decreases pairs.len(),
{
    match prior_step(pairs) {
        Ok(Some(found)) => {
            seq![found] + found_before(pairs.skip(prior_taken(pairs) as int))
        },
        _ => Seq::empty(),
    }
}

/// The stored pairs as they are after the transaction: without those of which the key was deleted,
/// and with the values that the write log holds.
pub open spec fn after_transaction(
    log: Map<Seq<char>, Option<Seq<u8>>>,
    pairs: Seq<(Seq<u8>, Seq<u8>)>,
) -> Seq<(Seq<char>, Seq<u8>)> {
    pairs.filter(|pair: (Seq<u8>, Seq<u8>)| !is_deleted(log, pair)).map_values(
        |pair: (Seq<u8>, Seq<u8>)| posterior_pair(log, pair)->Ok_0,
    )
}

/// An iterator over the state after the transaction finds, in the order of the storage, all the
/// stored pairs as they are after the transaction, and nothing else.
pub proof fn iterator_finds_the_state_after(
    log: Map<Seq<char>, Option<Seq<u8>>>,
    pairs: Seq<(Seq<u8>, Seq<u8>)>,
)
    requires
        forall|i: int| 0 <= i < pairs.len() ==> stored_key(#[trigger] pairs[i].0) is Ok,
    ensures
        found_after(log, pairs) == after_transaction(log, pairs),
    decreases pairs.len(),
{
    let kept = |pair: (Seq<u8>, Seq<u8>)| !is_deleted(log, pair);
    let rest = pairs.skip(1);
    if pairs.len() == 0 {
        assert(pairs.filter(kept) =~= pairs);
        assert(found_after(log, pairs) =~= after_transaction(log, pairs));
    } else {
        let first = seq![pairs[0]];
        assert(pairs =~= first + rest);
        Seq::filter_distributes_over_add(first, rest, kept);
        assert(first.drop_last() =~= Seq::empty());
        reveal_with_fuel(Seq::filter, 2);
        assert forall|i: int| 0 <= i < rest.len() implies stored_key(
            #[trigger] rest[i].0,
        ) is Ok by {
            assert(rest[i] == pairs[i + 1]);
        }
        iterator_finds_the_state_after(log, rest);
        if is_deleted(log, pairs[0]) {
            assert(first.filter(kept) =~= Seq::empty());
            assert(pairs.filter(kept) =~= rest.filter(kept));
            lemma_deleted_front_bound(log, rest);
            assert(pairs.skip(posterior_taken(log, pairs) as int) =~= rest.skip(
                posterior_taken(log, rest) as int,
            ));
            assert(found_after(log, pairs) =~= found_after(log, rest));
        } else {
            assert(first.filter(kept) =~= first);
            assert(found_after(log, pairs) =~= seq![posterior_pair(log, pairs[0])->Ok_0]
                + found_after(log, rest));
            assert(after_transaction(log, pairs) =~= seq![posterior_pair(log, pairs[0])->Ok_0]
                + after_transaction(log, rest));
        }
    }
}

/// No more pairs are skipped than there are.
proof fn lemma_deleted_front_bound(
    log: Map<Seq<char>, Option<Seq<u8>>>,
    pairs: Seq<(Seq<u8>, Seq<u8>)>,
)
    ensures
        deleted_front(log, pairs) <= pairs.len(),
        forall|i: int|
            0 <= i < deleted_front(log, pairs) ==> is_deleted(log, #[trigger] pairs[i]),
        deleted_front(log, pairs) < pairs.len() ==> !is_deleted(
            log,
            pairs[deleted_front(log, pairs) as int],
        ),
    decreases pairs.len(),
{
    if pairs.len() > 0 && is_deleted(log, pairs[0]) {
        let rest = pairs.skip(1);
        lemma_deleted_front_bound(log, rest);
        assert forall|i: int| 0 <= i < deleted_front(log, pairs) implies is_deleted(
            log,
            #[trigger] pairs[i],
        ) by {
            if i > 0 {
                assert(pairs[i] == rest[i - 1]);
            }
        }
    }
}

/// An iterator over the state before the transaction finds all the stored pairs, in the order of
/// the storage, whatever the transaction changed.
pub proof fn iterator_finds_the_state_before(pairs: Seq<(Seq<u8>, Seq<u8>)>)
    requires
        forall|i: int| 0 <= i < pairs.len() ==> valid_utf8(#[trigger] pairs[i].0),
    ensures
        found_before(pairs) == pairs.map_values(
            |pair: (Seq<u8>, Seq<u8>)| (decode_utf8(pair.0), pair.1),
        ),
    decreases pairs.len(),
{
    let decoded = |pair: (Seq<u8>, Seq<u8>)| (decode_utf8(pair.0), pair.1);
    if pairs.len() == 0 {
        assert(found_before(pairs) =~= pairs.map_values(decoded));
    } else {
        let rest = pairs.skip(1);
        assert forall|i: int| 0 <= i < rest.len() implies valid_utf8(#[trigger] rest[i].0) by {
            assert(rest[i] == pairs[i + 1]);
        }
        iterator_finds_the_state_before(rest);
        assert(found_before(pairs) =~= pairs.map_values(decoded));
    }
}

/// What an iterator over the state after the transaction finds is what a read of the key finds: the
/// same value, where the storage still holds the pair that the iterator has.
pub proof fn iterators_and_reads_agree<F, E>(
    log: Map<Seq<char>, Option<Seq<u8>>>,
    pairs: Seq<(Seq<u8>, Seq<u8>)>,
    path: Seq<char>,
    value: Seq<u8>,
    key: Option<Vec<u8>>,
    read_storage: F,
    data: Result<Option<Seq<u8>>, HostError>,
) where F: FnOnce(&Key) -> StorageRead<E>
    requires
        posterior_step(log, pairs) == Ok::<Option<(Seq<char>, Seq<u8>)>, HostError>(
            Some((path, value)),
        ),
        guest_key(key) == Ok::<Seq<char>, HostError>(path),
        forall|held: Result<Option<Seq<u8>>, HostError>| #[trigger]
            storage_holds::<F, E>(read_storage, path, held) ==> held == Ok::<
                Option<Seq<u8>>,
                HostError,
            >(Some(pairs[deleted_front(log, pairs) as int].1)),
        posterior_read::<F, E>(log, key, read_storage, data),
    ensures
        data == Ok::<Option<Seq<u8>>, HostError>(Some(value)),
{
    lemma_deleted_front_bound(log, pairs);
}

/// Each stored pair that an iterator over the state after the transaction skips has a key that
/// reads as absent.
pub proof fn skipped_keys_read_as_absent<F, E>(
    log: Map<Seq<char>, Option<Seq<u8>>>,
    pairs: Seq<(Seq<u8>, Seq<u8>)>,
    i: int,
    key: Option<Vec<u8>>,
    read_storage: F,
    data: Result<Option<Seq<u8>>, HostError>,
) where F: FnOnce(&Key) -> StorageRead<E>
    requires
        0 <= i < deleted_front(log, pairs),
        guest_key(key) == stored_key(pairs[i].0),
        posterior_read::<F, E>(log, key, read_storage, data),
    ensures
        data == Ok::<Option<Seq<u8>>, HostError>(None),
{
    lemma_deleted_front_bound(log, pairs);
    assert(is_deleted(log, pairs[i]));
}

/// An iterator that has found nothing more finds nothing more again, over either state and whatever
/// is changed in between.
pub proof fn finished_iterator_stays_finished(
    log: Map<Seq<char>, Option<Seq<u8>>>,
    later: Map<Seq<char>, Option<Seq<u8>>>,
    iterators: Seq<Seq<(Seq<u8>, Seq<u8>)>>,
    iter_id: u64,
)
    requires
        posterior_step(log, left(iterators, iter_id)) == Ok::<
            Option<(Seq<char>, Seq<u8>)>,
            HostError,
        >(None),
    ensures
        ({
            let rest = left(
                advanced(iterators, iter_id, posterior_taken(log, left(iterators, iter_id))),
                iter_id,
            );
            &&& rest.len() == 0
            &&& posterior_step(later, rest) == Ok::<Option<(Seq<char>, Seq<u8>)>, HostError>(None)
            &&& prior_step(rest) == Ok::<Option<(Seq<char>, Seq<u8>)>, HostError>(None)
        }),
{
    lemma_deleted_front_bound(log, left(iterators, iter_id));
}

/// A step of one iterator changes no other, and an iterator that is opened changes none.
pub proof fn other_iterators_stay(
    iterators: Seq<Seq<(Seq<u8>, Seq<u8>)>>,
    iter_id: u64,
    n: nat,
    opened: Seq<(Seq<u8>, Seq<u8>)>,
    other: u64,
)
    requires
        iterators.len() <= u64::MAX,
    ensures
        other != iter_id ==> left(advanced(iterators, iter_id, n), other) == left(
            iterators,
            other,
        ),
        other != iterators.len() ==> left(iterators.push(opened), other) == left(iterators, other),
        left(iterators.push(opened), iterators.len() as u64) == opened,
        left(iterators, iterators.len() as u64) == Seq::<(Seq<u8>, Seq<u8>)>::empty(),
{
}

/// The four bytes of a length give the length back.
proof fn lemma_length_bytes(len: nat)
    requires
        len <= u32::MAX,
    ensures
        ({
            let bytes = length_bytes(len);
            len == bytes[0] + 0x100 * bytes[1] + 0x1_0000 * bytes[2] + 0x100_0000 * bytes[3]
        }),
{
}

/// Bytes that follow their length can be told from what follows them.
proof fn lemma_with_length_splits(
    bytes: Seq<u8>,
    rest: Seq<u8>,
    other: Seq<u8>,
    other_rest: Seq<u8>,
)
    requires
        bytes.len() <= u32::MAX,
        other.len() <= u32::MAX,
        with_length(bytes) + rest == with_length(other) + other_rest,
    ensures
        bytes == other,
        rest == other_rest,
{
    let whole = with_length(bytes) + rest;
    assert(whole.take(4) =~= length_bytes(bytes.len()));
    assert(whole.take(4) =~= length_bytes(other.len()));
    lemma_length_bytes(bytes.len());
    lemma_length_bytes(other.len());
    let n = bytes.len() as int;
    assert(whole.subrange(4, 4 + n) =~= bytes);
    assert(whole.subrange(4, 4 + n) =~= other);
    assert(whole.skip(4 + n) =~= rest);
    assert(whole.skip(4 + n) =~= other_rest);
}

/// A guest can tell a serialized pair's key from its value: different pairs have different bytes.
/// The bytes are longer than those of the key and of the value by the two lengths.
pub proof fn serialized_pairs_differ(
    key: Seq<char>,
    val: Seq<u8>,
    other_key: Seq<char>,
    other_val: Seq<u8>,
)
    requires
        is_serializable(key, val),
        is_serializable(other_key, other_val),
    ensures
        key_val_bytes(key, val) == key_val_bytes(other_key, other_val) ==> key == other_key && val
            == other_val,
        key_val_bytes(key, val).len() == encode_utf8(key).len() + val.len() + 8,
{
    if key_val_bytes(key, val) == key_val_bytes(other_key, other_val) {
        lemma_with_length_splits(
            encode_utf8(key),
            with_length(val),
            encode_utf8(other_key),
            with_length(other_val),
        );
        encode_utf8_decode_utf8(key);
        encode_utf8_decode_utf8(other_key);
        assert(with_length(val) + Seq::empty() =~= with_length(val));
        assert(with_length(other_val) + Seq::empty() =~= with_length(other_val));
        lemma_with_length_splits(val, Seq::empty(), other_val, Seq::empty());
    }
}

/// Once a transaction has asked for more gas than it may use, every request is refused, one for no
/// gas too.
pub proof fn out_of_gas_stays_out_of_gas(meter: GasView, gas: nat, later: nat)
    requires
        meter.charge(gas) == Err::<(), GasError>(GasError::LimitExceeded),
    ensures
        meter.after(gas).charge(later) is Err,
        meter.after(gas).after(later).charge(0) == Err::<(), GasError>(GasError::LimitExceeded),
{
}

/// Two requests are granted exactly where one for both amounts is, and are counted as that one is.
pub proof fn requests_for_gas_add_up(meter: GasView, gas: nat, later: nat)
    requires
        meter.limit <= u64::MAX,
    ensures
        meter.charge(gas) is Ok && meter.after(gas).charge(later) is Ok <==> meter.charge(
            gas + later,
        ) is Ok,
        meter.charge(gas + later) is Ok ==> meter.after(gas).after(later) == meter.after(
            gas + later,
        ),
        meter.after(gas).limit == meter.limit,
        meter.after(gas).transaction_gas >= meter.transaction_gas,
{
}

/// No two imports of one guest have the same name.
pub open spec fn names_differ<F>(imports: Seq<(Seq<char>, Import<F>)>) -> bool {
    forall|i: int, j: int|
        0 <= i < j < imports.len() ==> (#[trigger] imports[i]).0 != (#[trigger] imports[j]).0
}

/// Transaction code finds one import under each name.
pub proof fn tx_import_names_differ()
    ensures
        names_differ(tx_imports()),
{
    let imports = tx_imports();
    reveal_strlit("memory");
    reveal_strlit("gas");
    reveal_strlit("_read");
    reveal_strlit("_write");
    reveal_strlit("_delete");
    reveal_strlit("_read_varlen");
    reveal_strlit("_iter_prefix");
    reveal_strlit("_iter_next");
    reveal_strlit("_iter_next_varlen");
    reveal_strlit("_log_string");
    assert(imports.len() == 10);
    assert(imports[0].0.len() == 6);
    assert(imports[1].0.len() == 3);
    assert(imports[2].0.len() == 5);
    assert(imports[3].0.len() == 6);
    assert(imports[4].0.len() == 7);
    assert(imports[5].0.len() == 12);
    assert(imports[6].0.len() == 12);
    assert(imports[7].0.len() == 10);
    assert(imports[8].0.len() == 17);
    assert(imports[9].0.len() == 11);
    // Names of the same length differ in one of these characters.
    assert(imports[0].0[0] != imports[3].0[0]);
    assert(imports[5].0[1] != imports[6].0[1]);
    assert forall|i: int, j: int| 0 <= i < j < imports.len() implies (
    #[trigger] imports[i]).0 != (#[trigger] imports[j]).0 by {
        assert(i == 0 || i == 1 || i == 2 || i == 3 || i == 4 || i == 5 || i == 6 || i == 7 || i == 8);
        assert(j == 1 || j == 2 || j == 3 || j == 4 || j == 5 || j == 6 || j == 7 || j == 8 || j == 9);
    }
}

/// Validity predicate code finds one import under each name.
pub proof fn vp_import_names_differ()
    ensures
        names_differ(vp_imports()),
{
    let imports = vp_imports();
    reveal_strlit("memory");
    reveal_strlit("gas");
    reveal_strlit("_read_pre");
    reveal_strlit("_read_post");
    reveal_strlit("_read_pre_varlen");
    reveal_strlit("_read_post_varlen");
    reveal_strlit("_iter_prefix");
    reveal_strlit("_iter_pre_next");
    reveal_strlit("_iter_post_next");
    reveal_strlit("_iter_pre_next_varlen");
    reveal_strlit("_iter_post_next_varlen");
    reveal_strlit("_log_string");
    assert(imports.len() == 12);
    assert(imports[0].0.len() == 6);
    assert(imports[1].0.len() == 3);
    assert(imports[2].0.len() == 9);
    assert(imports[3].0.len() == 10);
    assert(imports[4].0.len() == 16);
    assert(imports[5].0.len() == 17);
    assert(imports[6].0.len() == 12);
    assert(imports[7].0.len() == 14);
    assert(imports[8].0.len() == 15);
    assert(imports[9].0.len() == 21);
    assert(imports[10].0.len() == 22);
    assert(imports[11].0.len() == 11);
    assert forall|i: int, j: int| 0 <= i < j < imports.len() implies (
    #[trigger] imports[i]).0 != (#[trigger] imports[j]).0 by {
        assert(i == 0 || i == 1 || i == 2 || i == 3 || i == 4 || i == 5 || i == 6 || i == 7 || i == 8 || i == 9 || i == 10);
        assert(j == 1 || j == 2 || j == 3 || j == 4 || j == 5 || j == 6 || j == 7 || j == 8 || j == 9 || j == 10 || j == 11);
    }
}

/// Matchmaker code finds one import under each name.
pub proof fn matchmaker_import_names_differ()
    ensures
        names_differ(matchmaker_imports()),
{
    let imports = matchmaker_imports();
    reveal_strlit("memory");
    reveal_strlit("_send_match");
    reveal_strlit("_log_string");
    assert(imports.len() == 3);
    assert(imports[0].0.len() == 6);
    assert(imports[1].0.len() == 11);
    assert(imports[2].0.len() == 11);
    // Names of the same length differ in this character.
    assert(imports[1].0[1] != imports[2].0[1]);
    assert forall|i: int, j: int| 0 <= i < j < imports.len() implies (
    #[trigger] imports[i]).0 != (#[trigger] imports[j]).0 by {
        assert(i == 0 || i == 1);
        assert(j == 1 || j == 2);
    }
}

} // verus!
