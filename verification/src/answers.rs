//! What guests are answered, in terms of the bytes at which they point, the answers of the storage
//! and the changes that the transaction made.

use vstd::prelude::*;
use vstd::utf8::{
    decode_utf8, decode_utf8_encode_utf8, encode_utf8, encode_utf8_decode_utf8,
    encode_utf8_valid_utf8, valid_utf8,
};

use crate::error::{GasError, HostError};
use crate::gas::{requested_gas, GasView};
use crate::imports::{
    matchmaker_imports, table, tx_imports, vp_imports, Import, MatchmakerFunction, TxFunction,
    VpFunction,
};
use crate::iteration::{
    deleted_front, is_deleted, opened, posterior_step, posterior_taken, prior_step, prior_taken,
    step_data,
};
use crate::key::{guest_key, guest_prefix, is_key, is_reserved_at, key_path, stored_key, Key};
use crate::key_val::{is_serializable, key_val_bytes, length_bytes};
use crate::messages::{log_message, logged};
use crate::prefix_iter::{advanced, left, pairs_of};
use crate::reads::{posterior_asks, posterior_read, prior_asks, prior_read, StorageRead};
use crate::reply::{
    data_of, fixed_reply, outcome, varlen_outcome, varlen_reply, HostReply, MemoryWrite, Reply,
    VarlenReply,
};
use crate::text::{guest_text, text_of};
use crate::tx::guest_write;

verus! {

/// Text is read from its UTF-8 bytes, and from no other bytes.
pub proof fn text_is_read_from_its_bytes(text: Seq<char>, bytes: Seq<u8>)
    ensures
        text_of(encode_utf8(text)) == Some(text),
        text_of(bytes) == Some(text) ==> bytes == encode_utf8(text),
        !valid_utf8(bytes) ==> text_of(bytes) is None,
{
    encode_utf8_valid_utf8(text);
    encode_utf8_decode_utf8(text);
    if valid_utf8(bytes) {
        decode_utf8_encode_utf8(bytes);
    }
}

/// A guest that points at the UTF-8 bytes of a text points at that text; one that points at other
/// bytes, or outside its memory, points at none.
pub proof fn guest_points_at_text(bytes: Vec<u8>, text: Seq<char>)
    ensures
        bytes@ == encode_utf8(text) ==> guest_text(Some(bytes)) == Some(text),
        !valid_utf8(bytes@) ==> guest_text(Some(bytes)) is None,
        guest_text(None) is None,
{
    text_is_read_from_its_bytes(text, bytes@);
}

/// A path with a `/` in it is a key exactly where what stands before and what stands after the `/`
/// are.
pub proof fn key_is_made_of_keys(front: Seq<char>, back: Seq<char>)
    ensures
        is_key(front + seq!['/'] + back) <==> is_key(front) && is_key(back),
{
    let path = front + seq!['/'] + back;
    let n = front.len() as int;
    if is_key(path) {
        assert forall|i: int| !is_reserved_at(front, i) by {
            assert(!is_reserved_at(path, i));
        }
        assert forall|i: int| !is_reserved_at(back, i) by {
            assert(!is_reserved_at(path, n + 1 + i));
        }
    }
    if is_key(front) && is_key(back) {
        assert forall|i: int| !is_reserved_at(path, i) by {
            assert(!is_reserved_at(front, i));
            assert(!is_reserved_at(back, i - n - 1));
        }
    }
}

/// A path of one segment is a key, unless it is the reserved segment.
pub proof fn one_segment_is_a_key(path: Seq<char>)
    requires
        !path.contains('/'),
    ensures
        is_key(path) <==> path != seq!['?'],
{
    if path == seq!['?'] {
        assert(is_reserved_at(path, 0));
    } else {
        assert forall|i: int| !is_reserved_at(path, i) by {
            if is_reserved_at(path, i) {
                assert(i > 0 ==> path.contains(path[i - 1]));
                assert(i + 1 < path.len() ==> path.contains(path[i + 1]));
                assert(path =~= seq!['?']);
            }
        }
    }
}

/// The UTF-8 bytes of a path name the key with that path, to guests and in the storage alike. Where
/// the path is no key, they name none.
pub proof fn bytes_name_the_key(bytes: Vec<u8>, path: Seq<char>)
    requires
        bytes@ == encode_utf8(path),
    ensures
        is_key(path) ==> guest_key(Some(bytes)) == Ok::<Seq<char>, HostError>(path),
        is_key(path) ==> guest_prefix(Some(bytes)) == Ok::<Seq<char>, HostError>(path),
        is_key(path) ==> stored_key(bytes@) == Ok::<Seq<char>, HostError>(path),
        !is_key(path) ==> guest_key(Some(bytes)) == Err::<Seq<char>, HostError>(
            HostError::KeyNotParsed,
        ),
        !is_key(path) ==> guest_prefix(Some(bytes)) == Err::<Seq<char>, HostError>(
            HostError::PrefixNotParsed,
        ),
        !is_key(path) ==> stored_key(bytes@) == Err::<Seq<char>, HostError>(
            HostError::KeyNotParsed,
        ),
{
    guest_points_at_text(bytes, path);
    text_is_read_from_its_bytes(path, bytes@);
}

/// Bytes that are not UTF-8, and bytes outside the guest's memory, name no key.
pub proof fn unreadable_bytes_name_no_key(bytes: Vec<u8>)
    requires
        !valid_utf8(bytes@),
    ensures
        guest_key(Some(bytes)) == Err::<Seq<char>, HostError>(HostError::KeyNotReadable),
        guest_prefix(Some(bytes)) == Err::<Seq<char>, HostError>(HostError::PrefixNotReadable),
        stored_key(bytes@) == Err::<Seq<char>, HostError>(HostError::StoredKeyNotText),
        guest_key(None) == Err::<Seq<char>, HostError>(HostError::KeyNotReadable),
        guest_prefix(None) == Err::<Seq<char>, HostError>(HostError::PrefixNotReadable),
{
}

/// An answer is what its fields hold, byte for byte.
pub proof fn answers_are_what_they_hold(
    reply: HostReply,
    varlen: VarlenReply,
    write: MemoryWrite,
    bytes: Vec<u8>,
    err: HostError,
)
    ensures
        outcome(Ok(reply)) is Ok && varlen_outcome(Ok(varlen)) is Ok,
        (outcome(Ok(reply))->Ok_0).ret == reply.ret,
        (varlen_outcome(Ok(varlen))->Ok_0).ret == varlen.ret,
        reply.write is None <==> (outcome(Ok(reply))->Ok_0).write is None,
        varlen.write is None <==> (varlen_outcome(Ok(varlen))->Ok_0).write is None,
        reply.write == Some(write) ==> (outcome(Ok(reply))->Ok_0).write == Some(
            (write.ptr, write.bytes@),
        ),
        varlen.write == Some(write) ==> (varlen_outcome(Ok(varlen))->Ok_0).write == Some(
            (write.ptr, write.bytes@),
        ),
        outcome(Err(err)) == Err::<Reply, HostError>(err),
        varlen_outcome(Err(err)) == Err::<Reply, HostError>(err),
        data_of(Ok(Some(bytes))) == Ok::<Option<Seq<u8>>, HostError>(Some(bytes@)),
        data_of(Ok(None)) == Ok::<Option<Seq<u8>>, HostError>(None),
        data_of(Err(err)) == Err::<Option<Seq<u8>>, HostError>(err),
{
}

/// A parsed key, a message, stored pairs and imports are what they hold.
pub proof fn values_are_what_they_hold<F>(
    key: Key,
    message: String,
    err: HostError,
    pairs: Seq<(Vec<u8>, Vec<u8>)>,
    imports: Seq<(&'static str, Import<F>)>,
)
    ensures
        key_path(Ok(key)) == Ok::<Seq<char>, HostError>(key@),
        key_path(Err(err)) == Err::<Seq<char>, HostError>(err),
        logged(Ok(message)) == Ok::<Seq<char>, HostError>(message@),
        logged(Err(err)) == Err::<Seq<char>, HostError>(err),
        pairs_of(pairs).len() == pairs.len(),
        forall|i: int|
            0 <= i < pairs.len() ==> (#[trigger] pairs_of(pairs)[i]).0 == pairs[i].0@ && pairs_of(
                pairs,
            )[i].1 == pairs[i].1@,
        table(imports).len() == imports.len(),
        forall|i: int|
            0 <= i < imports.len() ==> (#[trigger] table(imports)[i]).0 == imports[i].0@ && table(
                imports,
            )[i].1 == imports[i].1,
{
}

/// A guest is answered with the data that was found, all of it and where it asked for it: `1`, or
/// the length. Where nothing was found nothing is written: `0`, or `-1`.
pub proof fn guest_gets_the_data(bytes: Seq<u8>, err: HostError, result_ptr: u64)
    ensures
        fixed_reply(Ok(Some(bytes)), result_ptr) == Ok::<Reply, HostError>(
            Reply { ret: 1, write: Some((result_ptr, bytes)) },
        ),
        bytes.len() <= i64::MAX ==> varlen_reply(Ok(Some(bytes)), result_ptr) == Ok::<
            Reply,
            HostError,
        >(Reply { ret: bytes.len() as int, write: Some((result_ptr, bytes)) }),
        bytes.len() > i64::MAX ==> varlen_reply(Ok(Some(bytes)), result_ptr) == Err::<
            Reply,
            HostError,
        >(HostError::DataLengthOverflow),
        fixed_reply(Ok(None), result_ptr) == Ok::<Reply, HostError>(Reply { ret: 0, write: None }),
        varlen_reply(Ok(None), result_ptr) == Ok::<Reply, HostError>(
            Reply { ret: -1, write: None },
        ),
        fixed_reply(Err(err), result_ptr) == Err::<Reply, HostError>(err),
        varlen_reply(Err(err), result_ptr) == Err::<Reply, HostError>(err),
{
}

/// A value that the storage answers with for a key is what the key reads as before the transaction,
/// and, where the transaction did not change the key, after it: all of the value, whatever it is
/// and whatever gas the read costs.
pub proof fn stored_value_is_read<F, E>(
    log: Map<Seq<char>, Option<Seq<u8>>>,
    key: Vec<u8>,
    path: Seq<char>,
    value: Seq<u8>,
    read_storage: F,
    before: Result<Option<Seq<u8>>, HostError>,
    after: Result<Option<Seq<u8>>, HostError>,
    result_ptr: u64,
) where F: FnOnce(&Key) -> StorageRead<E>
    requires
        key@ == encode_utf8(path),
        is_key(path),
        !log.contains_key(path),
        forall|asked: Key, stored: StorageRead<E>|
            asked@ == path && #[trigger] call_ensures(read_storage, (&asked,), stored)
                ==> stored is Ok && (stored->Ok_0).0 is Some && ((stored->Ok_0).0->0)@ == value,
        prior_read::<F, E>(Some(key), read_storage, before),
        posterior_read::<F, E>(log, Some(key), read_storage, after),
    ensures
        before == Ok::<Option<Seq<u8>>, HostError>(Some(value)),
        after == Ok::<Option<Seq<u8>>, HostError>(Some(value)),
        fixed_reply(after, result_ptr) == Ok::<Reply, HostError>(
            Reply { ret: 1, write: Some((result_ptr, value)) },
        ),
        value.len() <= i64::MAX ==> varlen_reply(after, result_ptr) == Ok::<Reply, HostError>(
            Reply { ret: value.len() as int, write: Some((result_ptr, value)) },
        ),
{
    bytes_name_the_key(key, path);
}

/// A key at which the storage answers that there is no value reads as absent before the
/// transaction, and, where the transaction did not change the key, after it.
pub proof fn absent_value_is_not_read<F, E>(
    log: Map<Seq<char>, Option<Seq<u8>>>,
    key: Vec<u8>,
    path: Seq<char>,
    read_storage: F,
    before: Result<Option<Seq<u8>>, HostError>,
    after: Result<Option<Seq<u8>>, HostError>,
    result_ptr: u64,
) where F: FnOnce(&Key) -> StorageRead<E>
    requires
        key@ == encode_utf8(path),
        is_key(path),
        !log.contains_key(path),
        forall|asked: Key, stored: StorageRead<E>|
            asked@ == path && #[trigger] call_ensures(read_storage, (&asked,), stored)
                ==> stored is Ok && (stored->Ok_0).0 is None,
        prior_read::<F, E>(Some(key), read_storage, before),
        posterior_read::<F, E>(log, Some(key), read_storage, after),
    ensures
        before == Ok::<Option<Seq<u8>>, HostError>(None),
        after == Ok::<Option<Seq<u8>>, HostError>(None),
        fixed_reply(after, result_ptr) == Ok::<Reply, HostError>(Reply { ret: 0, write: None }),
        varlen_reply(after, result_ptr) == Ok::<Reply, HostError>(Reply { ret: -1, write: None }),
{
    bytes_name_the_key(key, path);
}

/// A read of the storage that fails stops the guest.
pub proof fn failed_read_stops_the_guest<F, E>(
    log: Map<Seq<char>, Option<Seq<u8>>>,
    key: Vec<u8>,
    path: Seq<char>,
    read_storage: F,
    before: Result<Option<Seq<u8>>, HostError>,
    after: Result<Option<Seq<u8>>, HostError>,
    result_ptr: u64,
) where F: FnOnce(&Key) -> StorageRead<E>
    requires
        key@ == encode_utf8(path),
        is_key(path),
        !log.contains_key(path),
        forall|asked: Key, stored: StorageRead<E>|
            asked@ == path && #[trigger] call_ensures(read_storage, (&asked,), stored)
                ==> stored is Err,
        prior_read::<F, E>(Some(key), read_storage, before),
        posterior_read::<F, E>(log, Some(key), read_storage, after),
    ensures
        before == Err::<Option<Seq<u8>>, HostError>(HostError::StorageReadFailed),
        after == Err::<Option<Seq<u8>>, HostError>(HostError::StorageReadFailed),
        fixed_reply(after, result_ptr) == Err::<Reply, HostError>(HostError::StorageReadFailed),
        varlen_reply(after, result_ptr) == Err::<Reply, HostError>(HostError::StorageReadFailed),
{
    bytes_name_the_key(key, path);
}

/// A key that the transaction changed reads after it as the change left it, whatever the storage
/// holds.
pub proof fn change_is_read<F, E>(
    log: Map<Seq<char>, Option<Seq<u8>>>,
    key: Vec<u8>,
    path: Seq<char>,
    read_storage: F,
    after: Result<Option<Seq<u8>>, HostError>,
) where F: FnOnce(&Key) -> StorageRead<E>
    requires
        key@ == encode_utf8(path),
        is_key(path),
        log.contains_key(path),
        posterior_read::<F, E>(log, Some(key), read_storage, after),
    ensures
        after == Ok::<Option<Seq<u8>>, HostError>(log[path]),
{
    bytes_name_the_key(key, path);
}

/// A guest that does not point at a key is stopped, whatever the storage holds and whatever was
/// changed.
pub proof fn unnamed_key_stops_the_guest<F, E>(
    log: Map<Seq<char>, Option<Seq<u8>>>,
    key: Option<Vec<u8>>,
    path: Seq<char>,
    read_storage: F,
    before: Result<Option<Seq<u8>>, HostError>,
    after: Result<Option<Seq<u8>>, HostError>,
) where F: FnOnce(&Key) -> StorageRead<E>
    requires
        key is None || !valid_utf8(key->0@) || (key->0@ == encode_utf8(path) && !is_key(path)),
        prior_read::<F, E>(key, read_storage, before),
        posterior_read::<F, E>(log, key, read_storage, after),
    ensures
        key is None || !valid_utf8(key->0@) ==> before == Err::<Option<Seq<u8>>, HostError>(
            HostError::KeyNotReadable,
        ),
        key is Some && valid_utf8(key->0@) ==> before == Err::<Option<Seq<u8>>, HostError>(
            HostError::KeyNotParsed,
        ),
        after == before,
{
    if key is Some && valid_utf8(key->0@) {
        bytes_name_the_key(key->0, path);
    }
}

/// The storage is asked for the key at which the guest points alone, and after the transaction only
/// where the key was not changed.
pub proof fn storage_is_asked_for_the_key(
    log: Map<Seq<char>, Option<Seq<u8>>>,
    key: Vec<u8>,
    path: Seq<char>,
    asked: Seq<char>,
)
    requires
        key@ == encode_utf8(path),
    ensures
        prior_asks(Some(key), asked) <==> is_key(path) && asked == path,
        posterior_asks(log, Some(key), asked) <==> is_key(path) && asked == path
            && !log.contains_key(path),
        !prior_asks(None, asked),
        !posterior_asks(log, None, asked),
{
    bytes_name_the_key(key, path);
}

/// What a guest writes is the key and all of the value at which it points.
pub proof fn guest_writes_what_it_points_at(key: Vec<u8>, path: Seq<char>, value: Vec<u8>)
    requires
        key@ == encode_utf8(path),
    ensures
        is_key(path) ==> guest_write(Some(key), Some(value)) == Ok::<
            (Seq<char>, Seq<u8>),
            HostError,
        >((path, value@)),
        !is_key(path) ==> guest_write(Some(key), Some(value)) == Err::<
            (Seq<char>, Seq<u8>),
            HostError,
        >(HostError::KeyNotParsed),
        guest_write(Some(key), None) == Err::<(Seq<char>, Seq<u8>), HostError>(
            HostError::ValueNotReadable,
        ),
        guest_write(None, Some(value)) == Err::<(Seq<char>, Seq<u8>), HostError>(
            HostError::KeyNotReadable,
        ),
        guest_write(None, None) == Err::<(Seq<char>, Seq<u8>), HostError>(
            HostError::KeyNotReadable,
        ),
{
    bytes_name_the_key(key, path);
    guest_points_at_text(key, path);
}

/// A guest that points at bytes that are not UTF-8 writes nothing.
pub proof fn unreadable_key_is_not_written(key: Vec<u8>, value: Option<Vec<u8>>)
    requires
        !valid_utf8(key@),
    ensures
        guest_write(Some(key), value) == Err::<(Seq<char>, Seq<u8>), HostError>(
            HostError::KeyNotReadable,
        ),
{
}

/// What a guest writes at a key, it reads back: all the bytes at which it pointed, whatever the
/// storage holds.
pub proof fn written_value_is_read_back<F, E>(
    log: Map<Seq<char>, Option<Seq<u8>>>,
    key: Vec<u8>,
    path: Seq<char>,
    value: Vec<u8>,
    read_storage: F,
    after: Result<Option<Seq<u8>>, HostError>,
    result_ptr: u64,
) where F: FnOnce(&Key) -> StorageRead<E>
    requires
        key@ == encode_utf8(path),
        is_key(path),
        guest_write(Some(key), Some(value)) is Ok,
        ({
            let (to, written) = guest_write(Some(key), Some(value))->Ok_0;
            posterior_read::<F, E>(log.insert(to, Some(written)), Some(key), read_storage, after)
        }),
    ensures
        fixed_reply(after, result_ptr) == Ok::<Reply, HostError>(
            Reply { ret: 1, write: Some((result_ptr, value@)) },
        ),
        value@.len() <= i64::MAX ==> varlen_reply(after, result_ptr) == Ok::<Reply, HostError>(
            Reply { ret: value@.len() as int, write: Some((result_ptr, value@)) },
        ),
{
    bytes_name_the_key(key, path);
    guest_writes_what_it_points_at(key, path, value);
}

/// The text at which a guest points is logged whole, after the label.
pub proof fn text_is_logged(label: Seq<char>, string: Vec<u8>, text: Seq<char>)
    ensures
        string@ == encode_utf8(text) ==> log_message(label, Some(string)) == Ok::<
            Seq<char>,
            HostError,
        >(label + text),
        !valid_utf8(string@) ==> log_message(label, Some(string)) == Err::<Seq<char>, HostError>(
            HostError::StringNotReadable,
        ),
        log_message(label, None) == Err::<Seq<char>, HostError>(HostError::StringNotReadable),
{
    guest_points_at_text(string, text);
}

/// The number that four bytes hold, the least significant one first.
pub open spec fn number_at(bytes: Seq<u8>, at: int) -> int {
    bytes[at] + 0x100 * bytes[at + 1] + 0x1_0000 * bytes[at + 2] + 0x100_0000 * bytes[at + 3]
}

/// What a guest reads in bytes that it was handed: a key and a value, each after its length, and
/// nothing behind them.
pub open spec fn read_pair(bytes: Seq<u8>) -> Option<(Seq<char>, Seq<u8>)> {
    let key_len = number_at(bytes, 0);
    let val_len = number_at(bytes, 4 + key_len);
    let val_at = 8 + key_len;
    if bytes.len() >= 8 && bytes.len() >= val_at && bytes.len() == val_at + val_len && valid_utf8(
        bytes.subrange(4, 4 + key_len),
    ) {
        Some(
            (
                decode_utf8(bytes.subrange(4, 4 + key_len)),
                bytes.subrange(val_at, val_at + val_len),
            ),
        )
    } else {
        None
    }
}

/// A pair can be serialized exactly where the lengths of its key and of its value fit in four
/// bytes, and a guest then reads the same pair in its bytes.
pub proof fn serialized_pair_reads_back(key: Seq<char>, val: Seq<u8>)
    ensures
        is_serializable(key, val) <==> encode_utf8(key).len() < 0x1_0000_0000 && val.len()
            < 0x1_0000_0000,
        is_serializable(key, val) ==> read_pair(key_val_bytes(key, val)) == Some((key, val)),
{
    if is_serializable(key, val) {
        let bytes = key_val_bytes(key, val);
        let text = encode_utf8(key);
        let n = text.len() as int;
        encode_utf8_valid_utf8(key);
        encode_utf8_decode_utf8(key);
        assert(bytes.subrange(0, 4) =~= length_bytes(text.len()));
        assert(bytes.subrange(4 + n, 8 + n) =~= length_bytes(val.len()));
        assert(number_at(bytes, 0) == number_at(bytes.subrange(0, 4), 0));
        assert(number_at(bytes, 4 + n) == number_at(bytes.subrange(4 + n, 8 + n), 0));
        lemma_number_of_length(text.len());
        lemma_number_of_length(val.len());
        assert(bytes.subrange(4, 4 + n) =~= text);
        assert(bytes.subrange(8 + n, 8 + n + val.len()) =~= val);
    }
}

/// The four bytes of a length hold it.
proof fn lemma_number_of_length(len: nat)
    requires
        len <= u32::MAX,
    ensures
        number_at(length_bytes(len), 0) == len,
{
}

/// The pair that a step found is handed to the guest with all of its key and all of its value; a
/// pair that is too long for that stops the guest.
pub proof fn found_pair_is_handed_over(
    path: Seq<char>,
    val: Seq<u8>,
    err: HostError,
    result_ptr: u64,
)
    ensures
        encode_utf8(path).len() < 0x1_0000_0000 && val.len() < 0x1_0000_0000 ==> {
            let data = step_data(Ok(Some((path, val))));
            &&& data is Ok && data->Ok_0 is Some
            &&& read_pair(data->Ok_0->0) == Some((path, val))
            &&& (data->Ok_0->0).len() == 8 + encode_utf8(path).len() + val.len()
            &&& fixed_reply(data, result_ptr) == Ok::<Reply, HostError>(
                Reply { ret: 1, write: Some((result_ptr, data->Ok_0->0)) },
            )
            &&& varlen_reply(data, result_ptr) == Ok::<Reply, HostError>(
                Reply {
                    ret: (data->Ok_0->0).len() as int,
                    write: Some((result_ptr, data->Ok_0->0)),
                },
            )
        },
        encode_utf8(path).len() >= 0x1_0000_0000 || val.len() >= 0x1_0000_0000 ==> step_data(
            Ok(Some((path, val))),
        ) == Err::<Option<Seq<u8>>, HostError>(HostError::KeyValNotSerialized),
        step_data(Ok(None)) == Ok::<Option<Seq<u8>>, HostError>(None),
        step_data(Err(err)) == Err::<Option<Seq<u8>>, HostError>(err),
{
    serialized_pair_reads_back(path, val);
}

/// A step over the state before the transaction finds the next stored pair, its key and all of its
/// value, and takes that pair alone.
pub proof fn step_before_finds_the_stored_pair(pairs: Seq<(Seq<u8>, Seq<u8>)>, path: Seq<char>)
    ensures
        pairs.len() > 0 && pairs[0].0 == encode_utf8(path) ==> prior_step(pairs) == Ok::<
            Option<(Seq<char>, Seq<u8>)>,
            HostError,
        >(Some((path, pairs[0].1))),
        pairs.len() > 0 && !valid_utf8(pairs[0].0) ==> prior_step(pairs) == Err::<
            Option<(Seq<char>, Seq<u8>)>,
            HostError,
        >(HostError::StoredKeyNotText),
        pairs.len() == 0 ==> prior_step(pairs) == Ok::<Option<(Seq<char>, Seq<u8>)>, HostError>(
            None,
        ),
        pairs.len() > 0 ==> prior_taken(pairs) == 1,
        pairs.len() == 0 ==> prior_taken(pairs) == 0,
{
    if pairs.len() > 0 {
        text_is_read_from_its_bytes(path, pairs[0].0);
    }
}

/// Whether the stored pairs before the one at `n` have the given paths as keys, and the transaction
/// deleted them all.
pub open spec fn deleted_before(
    log: Map<Seq<char>, Option<Seq<u8>>>,
    pairs: Seq<(Seq<u8>, Seq<u8>)>,
    paths: Seq<Seq<char>>,
    n: int,
) -> bool {
    &&& 0 <= n <= pairs.len()
    &&& n <= paths.len()
    &&& forall|i: int|
        0 <= i < n ==> {
            &&& pairs[i].0 == encode_utf8(#[trigger] paths[i])
            &&& is_key(paths[i])
            &&& log.contains_key(paths[i])
            &&& log[paths[i]] is None
        }
}

/// Of pairs that are all deleted, each is skipped.
proof fn lemma_deleted_are_skipped(
    log: Map<Seq<char>, Option<Seq<u8>>>,
    pairs: Seq<(Seq<u8>, Seq<u8>)>,
    paths: Seq<Seq<char>>,
    n: int,
)
    requires
        deleted_before(log, pairs, paths, n),
        n < pairs.len() ==> !is_deleted(log, pairs[n]),
    ensures
        deleted_front(log, pairs) == n,
    decreases n,
{
    if n > 0 {
        let rest = pairs.skip(1);
        assert(pairs[0].0 == encode_utf8(paths[0]));
        lemma_stored_path(paths[0]);
        assert forall|i: int| 0 <= i < n - 1 implies {
            &&& rest[i].0 == encode_utf8(#[trigger] paths.skip(1)[i])
            &&& is_key(paths.skip(1)[i])
            &&& log.contains_key(paths.skip(1)[i])
            &&& log[paths.skip(1)[i]] is None
        } by {
            assert(paths.skip(1)[i] == paths[i + 1]);
            assert(rest[i] == pairs[i + 1]);
        }
        lemma_deleted_are_skipped(log, rest, paths.skip(1), n - 1);
    }
}

/// The key that the bytes of a path hold.
proof fn lemma_stored_path(path: Seq<char>)
    ensures
        is_key(path) ==> stored_key(encode_utf8(path)) == Ok::<Seq<char>, HostError>(path),
        !is_key(path) ==> stored_key(encode_utf8(path)) == Err::<Seq<char>, HostError>(
            HostError::KeyNotParsed,
        ),
{
    text_is_read_from_its_bytes(path, encode_utf8(path));
}

/// A step over the state after the transaction finds the first stored pair of which the key was not
/// deleted. It hands over the key with all of the value that the transaction wrote there, or, where
/// it wrote none, all of the stored value. It takes the pairs that it skips and the one that it
/// finds.
pub proof fn step_after_finds_the_first_live_pair(
    log: Map<Seq<char>, Option<Seq<u8>>>,
    pairs: Seq<(Seq<u8>, Seq<u8>)>,
    paths: Seq<Seq<char>>,
    n: int,
    value: Seq<u8>,
)
    requires
        deleted_before(log, pairs, paths, n),
        n < pairs.len() && n < paths.len(),
        pairs[n].0 == encode_utf8(paths[n]),
        is_key(paths[n]),
        log.contains_key(paths[n]) ==> log[paths[n]] == Some(value),
        !log.contains_key(paths[n]) ==> pairs[n].1 == value,
    ensures
        posterior_step(log, pairs) == Ok::<Option<(Seq<char>, Seq<u8>)>, HostError>(
            Some((paths[n], value)),
        ),
        posterior_taken(log, pairs) == n + 1,
        encode_utf8(paths[n]).len() < 0x1_0000_0000 && value.len() < 0x1_0000_0000 ==> {
            let data = step_data(posterior_step(log, pairs));
            data is Ok && data->Ok_0 is Some && read_pair(data->Ok_0->0) == Some((paths[n], value))
        },
{
    lemma_stored_path(paths[n]);
    lemma_deleted_are_skipped(log, pairs, paths, n);
    found_pair_is_handed_over(paths[n], value, HostError::KeyNotParsed, 0);
}

/// A step over the state after the transaction finds nothing where all the stored pairs that are
/// left were deleted, and takes them all.
pub proof fn step_after_finds_no_deleted_pair(
    log: Map<Seq<char>, Option<Seq<u8>>>,
    pairs: Seq<(Seq<u8>, Seq<u8>)>,
    paths: Seq<Seq<char>>,
)
    requires
        deleted_before(log, pairs, paths, pairs.len() as int),
    ensures
        posterior_step(log, pairs) == Ok::<Option<(Seq<char>, Seq<u8>)>, HostError>(None),
        posterior_taken(log, pairs) == pairs.len(),
{
    lemma_deleted_are_skipped(log, pairs, paths, pairs.len() as int);
}

/// A step over the state after the transaction that comes to a stored key that is not UTF-8 text,
/// or no key, stops the guest, and has taken the pair.
pub proof fn step_after_stops_at_an_unreadable_key(
    log: Map<Seq<char>, Option<Seq<u8>>>,
    pairs: Seq<(Seq<u8>, Seq<u8>)>,
    paths: Seq<Seq<char>>,
    n: int,
    path: Seq<char>,
)
    requires
        deleted_before(log, pairs, paths, n),
        n < pairs.len(),
        !valid_utf8(pairs[n].0) || (pairs[n].0 == encode_utf8(path) && !is_key(path)),
    ensures
        posterior_step(log, pairs) == Err::<Option<(Seq<char>, Seq<u8>)>, HostError>(
            if valid_utf8(pairs[n].0) {
                HostError::KeyNotParsed
            } else {
                HostError::StoredKeyNotText
            },
        ),
        posterior_taken(log, pairs) == n + 1,
{
    lemma_stored_path(path);
    lemma_deleted_are_skipped(log, pairs, paths, n);
}

/// A step hands over what a read of the same key gives: the value that the guest reads in the bytes
/// is the one that it reads at the key, after the transaction, while the storage answers with the
/// stored value.
pub proof fn handed_over_value_is_the_one_read<F, E>(
    log: Map<Seq<char>, Option<Seq<u8>>>,
    pairs: Seq<(Seq<u8>, Seq<u8>)>,
    paths: Seq<Seq<char>>,
    n: int,
    key: Vec<u8>,
    read_storage: F,
    after: Result<Option<Seq<u8>>, HostError>,
) where F: FnOnce(&Key) -> StorageRead<E>
    requires
        deleted_before(log, pairs, paths, n),
        n < pairs.len() && n < paths.len(),
        pairs[n].0 == encode_utf8(paths[n]),
        key@ == pairs[n].0,
        is_key(paths[n]),
        log.contains_key(paths[n]) ==> log[paths[n]] is Some,
        forall|asked: Key, stored: StorageRead<E>|
            asked@ == paths[n] && #[trigger] call_ensures(read_storage, (&asked,), stored)
                ==> stored is Ok && (stored->Ok_0).0 is Some && ((stored->Ok_0).0->0)@
                == pairs[n].1,
        posterior_read::<F, E>(log, Some(key), read_storage, after),
    ensures
        after is Ok && after->Ok_0 is Some,
        encode_utf8(paths[n]).len() < 0x1_0000_0000 && (after->Ok_0->0).len() < 0x1_0000_0000 ==> {
            let data = step_data(posterior_step(log, pairs));
            data is Ok && data->Ok_0 is Some && read_pair(data->Ok_0->0) == Some(
                (paths[n], after->Ok_0->0),
            )
        },
{
    bytes_name_the_key(key, paths[n]);
    let value = if log.contains_key(paths[n]) {
        log[paths[n]]->0
    } else {
        pairs[n].1
    };
    step_after_finds_the_first_live_pair(log, pairs, paths, n, value);
}

/// A step over the state before the transaction hands over what a read of the same key before the
/// transaction gives, while the storage answers with the stored value.
pub proof fn handed_over_value_is_the_one_read_before<F, E>(
    pairs: Seq<(Seq<u8>, Seq<u8>)>,
    path: Seq<char>,
    key: Vec<u8>,
    read_storage: F,
    before: Result<Option<Seq<u8>>, HostError>,
) where F: FnOnce(&Key) -> StorageRead<E>
    requires
        pairs.len() > 0,
        pairs[0].0 == encode_utf8(path),
        key@ == pairs[0].0,
        is_key(path),
        forall|asked: Key, stored: StorageRead<E>|
            asked@ == path && #[trigger] call_ensures(read_storage, (&asked,), stored)
                ==> stored is Ok && (stored->Ok_0).0 is Some && ((stored->Ok_0).0->0)@
                == pairs[0].1,
        prior_read::<F, E>(Some(key), read_storage, before),
    ensures
        before is Ok && before->Ok_0 is Some,
        encode_utf8(path).len() < 0x1_0000_0000 && (before->Ok_0->0).len() < 0x1_0000_0000 ==> {
            let data = step_data(prior_step(pairs));
            data is Ok && data->Ok_0 is Some && read_pair(data->Ok_0->0) == Some(
                (path, before->Ok_0->0),
            )
        },
{
    bytes_name_the_key(key, path);
    step_before_finds_the_stored_pair(pairs, path);
    found_pair_is_handed_over(path, pairs[0].1, HostError::KeyNotParsed, 0);
}

/// An iterator is opened over the pairs that the storage answers with for the prefix at which the
/// guest points, all of them, whole and in their order. The other iterators stay.
pub proof fn opened_iterator_holds_the_stored_pairs<F>(
    before: Seq<Seq<(Seq<u8>, Seq<u8>)>>,
    prefix: Vec<u8>,
    path: Seq<char>,
    pairs: Seq<(Seq<u8>, Seq<u8>)>,
    iter_prefix: F,
    after: Seq<Seq<(Seq<u8>, Seq<u8>)>>,
) where F: FnOnce(&Key) -> Vec<(Vec<u8>, Vec<u8>)>
    requires
        prefix@ == encode_utf8(path),
        is_key(path),
        forall|asked: Key, stored: Vec<(Vec<u8>, Vec<u8>)>|
            asked@ == path && #[trigger] call_ensures(iter_prefix, (&asked,), stored)
                ==> stored@.len() == pairs.len() && forall|i: int|
                0 <= i < pairs.len() ==> (#[trigger] stored@[i]).0@ == pairs[i].0 && stored@[i].1@
                    == pairs[i].1,
        opened(before, Some(prefix), iter_prefix, after),
    ensures
        after.len() == before.len() + 1,
        forall|i: int| 0 <= i < before.len() ==> #[trigger] after[i] == before[i],
        after[before.len() as int] == pairs,
{
    bytes_name_the_key(prefix, path);
    assert(after.last() =~= pairs);
}

/// No iterator is opened where the guest does not point at a prefix.
pub proof fn unnamed_prefix_opens_nothing<F>(
    before: Seq<Seq<(Seq<u8>, Seq<u8>)>>,
    prefix: Option<Vec<u8>>,
    path: Seq<char>,
    iter_prefix: F,
    after: Seq<Seq<(Seq<u8>, Seq<u8>)>>,
) where F: FnOnce(&Key) -> Vec<(Vec<u8>, Vec<u8>)>
    requires
        prefix is None || !valid_utf8(prefix->0@) || (prefix->0@ == encode_utf8(path) && !is_key(
            path,
        )),
        opened(before, prefix, iter_prefix, after),
    ensures
        after == before,
{
    if prefix is Some && valid_utf8(prefix->0@) {
        bytes_name_the_key(prefix->0, path);
    } else if prefix is Some {
        unreadable_bytes_name_no_key(prefix->0);
    }
}

/// A step takes the pairs at the front of its iterator, leaves the rest in order, and leaves the
/// other iterators as they are. A number that no iterator has stands for an iterator at its end.
pub proof fn step_takes_from_the_front(
    iterators: Seq<Seq<(Seq<u8>, Seq<u8>)>>,
    iter_id: u64,
    n: nat,
)
    requires
        n <= left(iterators, iter_id).len(),
    ensures
        iter_id < iterators.len() ==> left(iterators, iter_id) == iterators[iter_id as int],
        iter_id >= iterators.len() ==> left(iterators, iter_id).len() == 0,
        advanced(iterators, iter_id, n).len() == iterators.len(),
        forall|i: int|
            0 <= i < iterators.len() && i != iter_id ==> #[trigger] advanced(
                iterators,
                iter_id,
                n,
            )[i] == iterators[i],
        left(advanced(iterators, iter_id, n), iter_id).len() + n == left(iterators, iter_id).len(),
        forall|i: int|
            n <= i < left(iterators, iter_id).len() ==> left(
                advanced(iterators, iter_id, n),
                iter_id,
            )[i - n] == #[trigger] left(iterators, iter_id)[i],
{
}

/// A guest is charged for the gas that it asks for: all of it, and where it asks with a negative
/// number for that number and two to the power of sixty-four.
pub proof fn guest_is_charged_what_it_asks_for(used_gas: i32)
    ensures
        used_gas >= 0 ==> requested_gas(used_gas) == used_gas,
        used_gas < 0 ==> requested_gas(used_gas) == used_gas + u64::MAX + 1,
{
}

/// A request for gas is granted exactly where the gas in use with it is within the limit. Otherwise
/// the guest is stopped. The meter then counts the request, unless the sum is more than it can
/// count, and the limit stays.
pub proof fn request_is_granted_within_the_limit(meter: GasView, gas: nat)
    requires
        meter.limit <= u64::MAX,
    ensures
        meter.charge(gas) is Ok <==> meter.transaction_gas + gas <= meter.limit,
        meter.charge(gas) == Err::<(), GasError>(GasError::LimitExceeded) <==> meter.limit
            < meter.transaction_gas + gas <= u64::MAX,
        meter.charge(gas) == Err::<(), GasError>(GasError::Overflow) <==> meter.transaction_gas
            + gas > u64::MAX,
        meter.transaction_gas + gas <= u64::MAX ==> meter.after(gas).transaction_gas
            == meter.transaction_gas + gas,
        meter.transaction_gas + gas > u64::MAX ==> meter.after(gas).transaction_gas
            == meter.transaction_gas,
        meter.after(gas).limit == meter.limit,
{
}

/// A guest that may use `limit` gas and has used none is granted two requests exactly where their
/// sum is within the limit, and the meter counts both.
pub proof fn guest_uses_gas_up_to_the_limit(limit: u64, first: i32, second: i32)
    requires
        first >= 0,
        second >= 0,
    ensures
        ({
            let meter = GasView { limit: limit as nat, transaction_gas: 0 };
            let later = meter.after(requested_gas(first));
            &&& meter.charge(requested_gas(first)) is Ok <==> first <= limit
            &&& later.charge(requested_gas(second)) is Ok <==> first + second <= limit
            &&& later.transaction_gas == first
            &&& later.after(requested_gas(second)).transaction_gas == first + second
        }),
{
}

/// The name under which transaction code calls a host function.
pub open spec fn tx_function_name(function: TxFunction) -> Seq<char> {
    match function {
        TxFunction::ChargeGas => "gas"@,
        TxFunction::StorageRead => "_read"@,
        TxFunction::StorageReadVarlen => "_read_varlen"@,
        TxFunction::StorageWrite => "_write"@,
        TxFunction::StorageDelete => "_delete"@,
        TxFunction::StorageIterPrefix => "_iter_prefix"@,
        TxFunction::StorageIterNext => "_iter_next"@,
        TxFunction::StorageIterNextVarlen => "_iter_next_varlen"@,
        TxFunction::LogString => "_log_string"@,
    }
}

/// The name under which validity predicate code calls a host function.
pub open spec fn vp_function_name(function: VpFunction) -> Seq<char> {
    match function {
        VpFunction::ChargeGas => "gas"@,
        VpFunction::StorageReadPre => "_read_pre"@,
        VpFunction::StorageReadPreVarlen => "_read_pre_varlen"@,
        VpFunction::StorageReadPost => "_read_post"@,
        VpFunction::StorageReadPostVarlen => "_read_post_varlen"@,
        VpFunction::StorageIterPrefix => "_iter_prefix"@,
        VpFunction::StorageIterPreNext => "_iter_pre_next"@,
        VpFunction::StorageIterPreNextVarlen => "_iter_pre_next_varlen"@,
        VpFunction::StorageIterPostNext => "_iter_post_next"@,
        VpFunction::StorageIterPostNextVarlen => "_iter_post_next_varlen"@,
        VpFunction::LogString => "_log_string"@,
    }
}

/// The name under which matchmaker code calls a host function.
pub open spec fn matchmaker_function_name(function: MatchmakerFunction) -> Seq<char> {
    match function {
        MatchmakerFunction::SendMatch => "_send_match"@,
        MatchmakerFunction::LogString => "_log_string"@,
    }
}

/// Whether something stands in a table of imports exactly once, under a name.
pub open spec fn stands_once<F>(
    imports: Seq<(Seq<char>, Import<F>)>,
    import: Import<F>,
    name: Seq<char>,
) -> bool {
    exists|i: int|
        {
            &&& 0 <= i < imports.len()
            &&& (#[trigger] imports[i]).0 == name
            &&& imports[i].1 == import
            &&& forall|j: int|
                0 <= j < imports.len() && (#[trigger] imports[j]).1 == import ==> j == i
        }
}

/// Each host function of transaction code, and the memory, stands once among the imports, under its
/// own name; nothing else does.
pub proof fn tx_functions_stand_under_their_names(function: TxFunction)
    ensures
        stands_once(tx_imports(), Import::Function(function), tx_function_name(function)),
        stands_once(tx_imports(), Import::Memory, "memory"@),
        tx_imports().len() == 10,
{
    let imports = tx_imports();
    assert(imports[0].1 == Import::<TxFunction>::Memory);
    let i: int = match function {
        TxFunction::ChargeGas => 1,
        TxFunction::StorageRead => 2,
        TxFunction::StorageWrite => 3,
        TxFunction::StorageDelete => 4,
        TxFunction::StorageReadVarlen => 5,
        TxFunction::StorageIterPrefix => 6,
        TxFunction::StorageIterNext => 7,
        TxFunction::StorageIterNextVarlen => 8,
        TxFunction::LogString => 9,
    };
    assert(imports[i].1 == Import::Function(function));
}

/// Each host function of validity predicate code, and the memory, stands once among the imports,
/// under its own name; nothing else does.
pub proof fn vp_functions_stand_under_their_names(function: VpFunction)
    ensures
        stands_once(vp_imports(), Import::Function(function), vp_function_name(function)),
        stands_once(vp_imports(), Import::Memory, "memory"@),
        vp_imports().len() == 12,
{
    let imports = vp_imports();
    assert(imports[0].1 == Import::<VpFunction>::Memory);
    let i: int = match function {
        VpFunction::ChargeGas => 1,
        VpFunction::StorageReadPre => 2,
        VpFunction::StorageReadPost => 3,
        VpFunction::StorageReadPreVarlen => 4,
        VpFunction::StorageReadPostVarlen => 5,
        VpFunction::StorageIterPrefix => 6,
        VpFunction::StorageIterPreNext => 7,
        VpFunction::StorageIterPostNext => 8,
        VpFunction::StorageIterPreNextVarlen => 9,
        VpFunction::StorageIterPostNextVarlen => 10,
        VpFunction::LogString => 11,
    };
    assert(imports[i].1 == Import::Function(function));
}

/// Each host function of matchmaker code, and the memory, stands once among the imports, under its
/// own name; nothing else does.
pub proof fn matchmaker_functions_stand_under_their_names(function: MatchmakerFunction)
    ensures
        stands_once(
            matchmaker_imports(),
            Import::Function(function),
            matchmaker_function_name(function),
        ),
        stands_once(matchmaker_imports(), Import::Memory, "memory"@),
        matchmaker_imports().len() == 3,
{
    let imports = matchmaker_imports();
    assert(imports[0].1 == Import::<MatchmakerFunction>::Memory);
    let i: int = match function {
        MatchmakerFunction::SendMatch => 1,
        MatchmakerFunction::LogString => 2,
    };
    assert(imports[i].1 == Import::Function(function));
}

} // verus!
