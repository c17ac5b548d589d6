use std::sync::Arc;

use borsh::BorshDeserialize;
use host_env::error::HostError;
use host_env::gas::BlockGasMeter;
use host_env::key_val::KeyVal;
use host_env::prefix_iter::{PrefixIteratorId, PrefixIterators};
use host_env::reads::StorageRead;
use host_env::tx::{
    tx_storage_delete, tx_storage_iter_next, tx_storage_iter_next_varlen, tx_storage_iter_prefix,
    tx_storage_read, tx_storage_write, TxEnv,
};
use host_env::vp::{
    vp_log_string, vp_storage_iter_post_next, vp_storage_iter_post_next_varlen,
    vp_storage_iter_pre_next, vp_storage_iter_pre_next_varlen, vp_storage_iter_prefix,
    vp_storage_read_post, vp_storage_read_post_varlen, vp_storage_read_pre,
    vp_storage_read_pre_varlen, VpEnv,
};
use host_env::write_log::WriteLog;

fn text(text: &str) -> Option<Vec<u8>> {
    Some(text.as_bytes().to_vec())
}

fn pair(key: &str, val: &[u8]) -> (Vec<u8>, Vec<u8>) {
    (key.as_bytes().to_vec(), val.to_vec())
}

fn four() -> Vec<(Vec<u8>, Vec<u8>)> {
    vec![pair("p/a", &[1]), pair("p/b", &[2]), pair("p/c", &[3]), pair("p/d", &[4])]
}

fn tx_env() -> TxEnv {
    TxEnv {
        write_log: WriteLog::new(),
        iterators: PrefixIterators::new(),
        gas_meter: BlockGasMeter::new(0),
    }
}

/// A log in which `p/a` and `p/c` are deleted, `p/b` has a new value, and `p/z` is written.
fn changed(env: &mut TxEnv) {
    tx_storage_delete(env, text("p/a")).unwrap();
    tx_storage_write(env, text("p/b"), Some(vec![20, 21])).unwrap();
    tx_storage_delete(env, text("p/c")).unwrap();
    tx_storage_write(env, text("p/z"), Some(vec![26])).unwrap();
}

fn decode(bytes: &[u8]) -> (String, Vec<u8>) {
    <(String, Vec<u8>)>::try_from_slice(bytes).unwrap()
}

#[test]
fn a_pair_is_serialized_as_borsh_does() {
    let key_val = KeyVal { key: "k\u{e9}".to_string(), val: vec![5, 6, 7, 8] };
    let bytes = key_val.try_to_vec().unwrap();
    assert_eq!(
        bytes,
        vec![3, 0, 0, 0, b'k', 0xc3, 0xa9, 4, 0, 0, 0, 5, 6, 7, 8]
    );
    assert_eq!(decode(&bytes), ("k\u{e9}".to_string(), vec![5, 6, 7, 8]));
    let long = KeyVal { key: String::new(), val: vec![1; 0x1_0203] };
    let bytes = long.try_to_vec().unwrap();
    assert_eq!(bytes.len(), 8 + 0x1_0203);
    assert_eq!(&bytes[..9], &[0, 0, 0, 0, 3, 2, 1, 0, 1]);
}

#[test]
fn different_pairs_have_different_bytes() {
    let one = KeyVal { key: "a".to_string(), val: vec![b'b'] };
    let other = KeyVal { key: "ab".to_string(), val: vec![] };
    assert_ne!(one.try_to_vec().unwrap(), other.try_to_vec().unwrap());
}

#[test]
fn opens_iterators_under_new_numbers() {
    let mut env = tx_env();
    assert_eq!(
        tx_storage_iter_prefix(&mut env, text("p"), |prefix| {
            assert_eq!(prefix.as_str(), "p");
            four()
        }),
        Ok(0)
    );
    assert_eq!(tx_storage_iter_prefix(&mut env, text("q"), |_| vec![]), Ok(1));
    assert_eq!(tx_storage_iter_prefix(&mut env, text("p"), |_| four()), Ok(2));
    assert_eq!(tx_storage_iter_next(&mut env, 1, 0).unwrap().ret, 0);
    let first = tx_storage_iter_next(&mut env, 0, 0).unwrap().write.unwrap().bytes;
    assert_eq!(decode(&first).0, "p/a");
    let second = tx_storage_iter_next(&mut env, 0, 0).unwrap().write.unwrap().bytes;
    assert_eq!(decode(&second).0, "p/b");
    let other = tx_storage_iter_next(&mut env, 2, 0).unwrap().write.unwrap().bytes;
    assert_eq!(decode(&other).0, "p/a");
}

#[test]
fn an_unknown_iterator_finds_nothing() {
    let mut env = tx_env();
    tx_storage_iter_prefix(&mut env, text("p"), |_| four()).unwrap();
    for iter_id in [1, 2, u64::MAX] {
        let reply = tx_storage_iter_next(&mut env, iter_id, 8).unwrap();
        assert_eq!(reply.ret, 0);
        assert!(reply.write.is_none());
        let reply = tx_storage_iter_next_varlen(&mut env, iter_id, 8).unwrap();
        assert_eq!(reply.ret, -1);
        assert!(reply.write.is_none());
    }
    assert_eq!(tx_storage_iter_next(&mut env, 0, 8).unwrap().ret, 1);
}

#[test]
fn iterates_over_the_state_after_the_transaction() {
    let mut env = tx_env();
    changed(&mut env);
    tx_storage_iter_prefix(&mut env, text("p"), |_| four()).unwrap();
    let reply = tx_storage_iter_next(&mut env, 0, 40).unwrap();
    assert_eq!(reply.ret, 1);
    let write = reply.write.unwrap();
    assert_eq!(write.ptr, 40);
    assert_eq!(decode(&write.bytes), ("p/b".to_string(), vec![20, 21]));
    let reply = tx_storage_iter_next_varlen(&mut env, 0, 44).unwrap();
    assert_eq!(reply.ret, 8 + 3 + 1);
    let write = reply.write.unwrap();
    assert_eq!(write.ptr, 44);
    assert_eq!(decode(&write.bytes), ("p/d".to_string(), vec![4]));
    for _ in 0..2 {
        assert_eq!(tx_storage_iter_next(&mut env, 0, 0).unwrap().ret, 0);
        assert_eq!(tx_storage_iter_next_varlen(&mut env, 0, 0).unwrap().ret, -1);
    }
}

#[test]
fn iterators_and_reads_find_the_same() {
    let mut env = tx_env();
    changed(&mut env);
    tx_storage_iter_prefix(&mut env, text("p"), |_| four()).unwrap();
    let storage = four();
    let mut found = Vec::new();
    while let Some(write) = tx_storage_iter_next(&mut env, 0, 0).unwrap().write {
        found.push(decode(&write.bytes));
    }
    let mut read = Vec::new();
    for (key, val) in storage {
        let reply = tx_storage_read(&env, Some(key.clone()), 0, |_| -> StorageRead<()> {
            Ok((Some(val.clone()), 0))
        })
        .unwrap();
        if let Some(write) = reply.write {
            read.push((String::from_utf8(key).unwrap(), write.bytes));
        }
    }
    assert_eq!(found, read);
    assert_eq!(found.len(), 2);
}

#[test]
fn trailing_deletions_end_the_iteration() {
    let mut env = tx_env();
    tx_storage_delete(&mut env, text("p/c")).unwrap();
    tx_storage_delete(&mut env, text("p/d")).unwrap();
    tx_storage_iter_prefix(&mut env, text("p"), |_| four()).unwrap();
    assert_eq!(tx_storage_iter_next(&mut env, 0, 0).unwrap().ret, 1);
    assert_eq!(tx_storage_iter_next(&mut env, 0, 0).unwrap().ret, 1);
    assert_eq!(tx_storage_iter_next(&mut env, 0, 0).unwrap().ret, 0);
    tx_storage_write(&mut env, text("p/d"), Some(vec![1])).unwrap();
    assert_eq!(tx_storage_iter_next(&mut env, 0, 0).unwrap().ret, 0);
}

#[test]
fn an_unreadable_stored_key_stops_the_guest() {
    let mut env = tx_env();
    let pairs = vec![(vec![0xff], vec![1]), pair("p/?", &[2]), pair("p/a", &[3])];
    tx_storage_iter_prefix(&mut env, text("p"), |_| pairs.clone()).unwrap();
    assert_eq!(
        tx_storage_iter_next(&mut env, 0, 0).unwrap_err(),
        HostError::StoredKeyNotText
    );
    assert_eq!(
        tx_storage_iter_next_varlen(&mut env, 0, 0).unwrap_err(),
        HostError::KeyNotParsed
    );
    assert_eq!(tx_storage_iter_next(&mut env, 0, 0).unwrap().ret, 1);

    let mut env = VpEnv { write_log: Arc::new(WriteLog::new()), iterators: PrefixIterators::new() };
    vp_storage_iter_prefix(&mut env, text("p"), |_| pairs).unwrap();
    assert_eq!(
        vp_storage_iter_pre_next(&mut env, 0, 0).unwrap_err(),
        HostError::StoredKeyNotText
    );
    // The state before the transaction is handed over without a look at the write log, so the key
    // is not parsed.
    let write = vp_storage_iter_pre_next(&mut env, 0, 0).unwrap().write.unwrap();
    assert_eq!(decode(&write.bytes), ("p/?".to_string(), vec![2]));
}

#[test]
fn validity_predicates_see_both_states() {
    let mut tx = tx_env();
    changed(&mut tx);
    let mut env = VpEnv { write_log: Arc::new(tx.write_log), iterators: PrefixIterators::new() };

    let pre = vp_storage_read_pre(text("p/b"), 1, |_| -> StorageRead<()> {
        Ok((Some(vec![2]), 0))
    })
    .unwrap();
    assert_eq!((pre.ret, pre.write.unwrap().bytes), (1, vec![2]));
    let post = vp_storage_read_post(&env, text("p/b"), 1, |_| -> StorageRead<()> {
        panic!("the storage was asked")
    })
    .unwrap();
    assert_eq!((post.ret, post.write.unwrap().bytes), (1, vec![20, 21]));

    let pre = vp_storage_read_pre_varlen(text("p/a"), 1, |_| -> StorageRead<()> {
        Ok((Some(vec![1]), 0))
    })
    .unwrap();
    assert_eq!((pre.ret, pre.write.unwrap().bytes), (1, vec![1]));
    let post = vp_storage_read_post_varlen(&env, text("p/a"), 1, |_| -> StorageRead<()> {
        panic!("the storage was asked")
    })
    .unwrap();
    assert_eq!(post.ret, -1);
    assert!(post.write.is_none());

    assert_eq!(vp_storage_iter_prefix(&mut env, text("p"), |_| four()), Ok(0));
    assert_eq!(vp_storage_iter_prefix(&mut env, text("p"), |_| four()), Ok(1));
    let mut before = Vec::new();
    while let Some(write) = vp_storage_iter_pre_next(&mut env, 0, 0).unwrap().write {
        before.push(decode(&write.bytes));
    }
    let stored: Vec<(String, Vec<u8>)> = four()
        .into_iter()
        .map(|(key, val)| (String::from_utf8(key).unwrap(), val))
        .collect();
    assert_eq!(before, stored);
    let mut after = Vec::new();
    while let Some(write) = vp_storage_iter_post_next(&mut env, 1, 0).unwrap().write {
        after.push(decode(&write.bytes));
    }
    assert_eq!(
        after,
        vec![("p/b".to_string(), vec![20, 21]), ("p/d".to_string(), vec![4])]
    );
}

#[test]
fn varlen_steps_tell_the_length() {
    let mut tx = tx_env();
    changed(&mut tx);
    let mut env = VpEnv { write_log: Arc::new(tx.write_log), iterators: PrefixIterators::new() };
    vp_storage_iter_prefix(&mut env, text("p"), |_| four()).unwrap();
    let reply = vp_storage_iter_pre_next_varlen(&mut env, 0, 9).unwrap();
    assert_eq!(reply.ret, 12);
    let write = reply.write.unwrap();
    assert_eq!((write.ptr, write.bytes.len()), (9, 12));
    assert_eq!(decode(&write.bytes), ("p/a".to_string(), vec![1]));
    let reply = vp_storage_iter_post_next_varlen(&mut env, 0, 9).unwrap();
    assert_eq!(reply.ret, 13);
    assert_eq!(decode(&reply.write.unwrap().bytes), ("p/b".to_string(), vec![20, 21]));
    vp_storage_iter_post_next_varlen(&mut env, 0, 9).unwrap();
    assert_eq!(vp_storage_iter_pre_next_varlen(&mut env, 0, 9).unwrap().ret, -1);
    assert_eq!(vp_storage_iter_post_next_varlen(&mut env, 0, 9).unwrap().ret, -1);
}

#[test]
fn validity_predicates_are_stopped_too() {
    let env = VpEnv { write_log: Arc::new(WriteLog::new()), iterators: PrefixIterators::new() };
    let failed = |_: &host_env::key::Key| -> StorageRead<u8> { Err(3) };
    assert_eq!(
        vp_storage_read_pre(text("a"), 0, failed).unwrap_err(),
        HostError::StorageReadFailed
    );
    assert_eq!(
        vp_storage_read_post(&env, text("a"), 0, failed).unwrap_err(),
        HostError::StorageReadFailed
    );
    assert_eq!(
        vp_storage_read_pre(text("?"), 0, failed).unwrap_err(),
        HostError::KeyNotParsed
    );
    assert_eq!(
        vp_storage_read_post_varlen(&env, None, 0, failed).unwrap_err(),
        HostError::KeyNotReadable
    );
}

#[test]
fn validity_predicates_label_what_they_log() {
    assert_eq!(vp_log_string(text("x")).unwrap(), "WASM Validity predicate log: x");
    assert_eq!(vp_log_string(None), Err(HostError::StringNotReadable));
}

#[test]
fn iterators_hand_out_pairs_in_order() {
    let mut iterators = PrefixIterators::new();
    let id = iterators.insert(four());
    assert_eq!(id.id(), 0);
    for expected in four() {
        assert_eq!(iterators.next(PrefixIteratorId::new(0)), Some(expected));
    }
    assert_eq!(iterators.next(id), None);
}
