use std::cell::Cell;

use host_env::error::{GasError, HostError};
use host_env::gas::BlockGasMeter;
use host_env::key::Key;
use host_env::prefix_iter::PrefixIterators;
use host_env::reads::StorageRead;
use host_env::tx::{
    tx_charge_gas, tx_log_string, tx_storage_delete, tx_storage_iter_prefix, tx_storage_read,
    tx_storage_read_varlen, tx_storage_write, TxEnv,
};
use host_env::write_log::WriteLog;

fn env() -> TxEnv {
    TxEnv {
        write_log: WriteLog::new(),
        iterators: PrefixIterators::new(),
        gas_meter: BlockGasMeter::new(100),
    }
}

fn text(text: &str) -> Option<Vec<u8>> {
    Some(text.as_bytes().to_vec())
}

fn stored(value: &[u8]) -> StorageRead<()> {
    Ok((Some(value.to_vec()), 7))
}

fn unasked(key: &Key) -> StorageRead<()> {
    panic!("the storage was asked for {}", key.as_str())
}

#[test]
fn reads_from_the_storage_what_was_not_written() {
    let asked = Cell::new(false);
    let reply = tx_storage_read(&env(), text("a/b"), 16, |key| {
        asked.set(key.as_str() == "a/b");
        stored(&[1, 2])
    })
    .unwrap();
    assert!(asked.get());
    assert_eq!(reply.ret, 1);
    let write = reply.write.unwrap();
    assert_eq!(write.ptr, 16);
    assert_eq!(write.bytes, vec![1, 2]);

    let reply =
        tx_storage_read(&env(), text("a/b"), 16, |_| -> StorageRead<()> { Ok((None, 7)) }).unwrap();
    assert_eq!(reply.ret, 0);
    assert!(reply.write.is_none());
}

#[test]
fn reads_what_was_written_without_the_storage() {
    let mut env = env();
    assert_eq!(tx_storage_write(&mut env, text("a"), Some(vec![9, 8, 7])), Ok(()));
    let reply = tx_storage_read(&env, text("a"), 3, unasked).unwrap();
    assert_eq!(reply.ret, 1);
    let write = reply.write.unwrap();
    assert_eq!((write.ptr, write.bytes), (3, vec![9, 8, 7]));
    let reply = tx_storage_read_varlen(&env, text("a"), 4, unasked).unwrap();
    assert_eq!(reply.ret, 3);
    let write = reply.write.unwrap();
    assert_eq!((write.ptr, write.bytes), (4, vec![9, 8, 7]));
}

#[test]
fn reads_nothing_after_a_deletion() {
    let mut env = env();
    assert_eq!(tx_storage_delete(&mut env, text("a")), Ok(1));
    let reply = tx_storage_read(&env, text("a"), 3, unasked).unwrap();
    assert_eq!(reply.ret, 0);
    assert!(reply.write.is_none());
    let reply = tx_storage_read_varlen(&env, text("a"), 3, unasked).unwrap();
    assert_eq!(reply.ret, -1);
    assert!(reply.write.is_none());
}

#[test]
fn the_last_change_counts() {
    let mut env = env();
    tx_storage_write(&mut env, text("a"), Some(vec![1])).unwrap();
    tx_storage_write(&mut env, text("a"), Some(vec![2])).unwrap();
    assert_eq!(
        tx_storage_read(&env, text("a"), 0, unasked).unwrap().write.unwrap().bytes,
        vec![2]
    );
    tx_storage_delete(&mut env, text("a")).unwrap();
    assert_eq!(tx_storage_read(&env, text("a"), 0, unasked).unwrap().ret, 0);
    tx_storage_write(&mut env, text("a"), Some(vec![3])).unwrap();
    assert_eq!(
        tx_storage_read(&env, text("a"), 0, unasked).unwrap().write.unwrap().bytes,
        vec![3]
    );
}

#[test]
fn other_keys_are_not_changed() {
    let mut env = env();
    tx_storage_write(&mut env, text("a"), Some(vec![1])).unwrap();
    tx_storage_delete(&mut env, text("b")).unwrap();
    let reply = tx_storage_read(&env, text("c"), 0, |_| stored(&[5])).unwrap();
    assert_eq!(reply.write.unwrap().bytes, vec![5]);
}

#[test]
fn a_present_value_may_be_empty() {
    let mut env = env();
    tx_storage_write(&mut env, text("a"), Some(vec![])).unwrap();
    let reply = tx_storage_read_varlen(&env, text("a"), 5, unasked).unwrap();
    assert_eq!(reply.ret, 0);
    let write = reply.write.unwrap();
    assert_eq!((write.ptr, write.bytes), (5, vec![]));
    let reply = tx_storage_read_varlen(&env, text("b"), 5, |_| stored(&[])).unwrap();
    assert_eq!(reply.ret, 0);
    assert!(reply.write.is_some());
    let reply =
        tx_storage_read_varlen(&env, text("b"), 5, |_| -> StorageRead<()> { Ok((None, 0)) })
            .unwrap();
    assert_eq!(reply.ret, -1);
}

#[test]
fn unreadable_keys_stop_the_guest() {
    let mut env = env();
    for key in [None, Some(vec![0xff]), Some(vec![b'a', 0xc3])] {
        assert_eq!(
            tx_storage_read(&env, key.clone(), 0, unasked).unwrap_err(),
            HostError::KeyNotReadable
        );
        assert_eq!(
            tx_storage_read_varlen(&env, key.clone(), 0, unasked).unwrap_err(),
            HostError::KeyNotReadable
        );
        assert_eq!(
            tx_storage_write(&mut env, key.clone(), Some(vec![1])),
            Err(HostError::KeyNotReadable)
        );
        assert_eq!(tx_storage_write(&mut env, key.clone(), None), Err(HostError::KeyNotReadable));
        assert_eq!(tx_storage_delete(&mut env, key.clone()), Err(HostError::KeyNotReadable));
        assert_eq!(
            tx_storage_iter_prefix(&mut env, key.clone(), |_| panic!("the storage was asked")),
            Err(HostError::PrefixNotReadable)
        );
    }
}

#[test]
fn reserved_keys_stop_the_guest() {
    let mut env = env();
    for key in ["?", "?/a", "a/?", "a/?/b", "/?"] {
        assert_eq!(
            tx_storage_read(&env, text(key), 0, unasked).unwrap_err(),
            HostError::KeyNotParsed
        );
        assert_eq!(
            tx_storage_write(&mut env, text(key), Some(vec![1])),
            Err(HostError::KeyNotParsed)
        );
        assert_eq!(
            tx_storage_write(&mut env, text(key), None),
            Err(HostError::ValueNotReadable)
        );
        assert_eq!(tx_storage_delete(&mut env, text(key)), Err(HostError::KeyNotParsed));
        assert_eq!(
            tx_storage_iter_prefix(&mut env, text(key), |_| panic!("the storage was asked")),
            Err(HostError::PrefixNotParsed)
        );
    }
    for key in ["", "/", "a", "a?", "?a", "a/b?/c", "?\u{e9}", "#a/b", "??"] {
        assert_eq!(tx_storage_write(&mut env, text(key), Some(vec![1])), Ok(()));
        assert_eq!(tx_storage_read(&env, text(key), 0, unasked).unwrap().ret, 1);
    }
}

#[test]
fn an_unreadable_value_stops_the_guest() {
    let mut env = env();
    assert_eq!(
        tx_storage_write(&mut env, text("a"), None),
        Err(HostError::ValueNotReadable)
    );
    assert_eq!(tx_storage_read(&env, text("a"), 0, |_| stored(&[4])).unwrap().ret, 1);
}

#[test]
fn a_failed_storage_read_stops_the_guest() {
    let res = tx_storage_read(&env(), text("a"), 0, |_| -> StorageRead<()> { Err(()) });
    assert_eq!(res.unwrap_err(), HostError::StorageReadFailed);
    let res = tx_storage_read_varlen(&env(), text("a"), 0, |_| -> StorageRead<()> { Err(()) });
    assert_eq!(res.unwrap_err(), HostError::StorageReadFailed);
}

#[test]
fn charges_gas() {
    let mut env = env();
    assert_eq!(tx_charge_gas(&mut env, 100), Ok(()));
    assert_eq!(
        tx_charge_gas(&mut env, 1),
        Err(HostError::Gas(GasError::LimitExceeded))
    );
    assert_eq!(env.gas_meter.transaction_gas(), 101);
    assert_eq!(
        tx_charge_gas(&mut env, -1),
        Err(HostError::Gas(GasError::Overflow))
    );
}

#[test]
fn labels_what_it_logs() {
    assert_eq!(
        tx_log_string(text("h\u{e9}llo")).unwrap(),
        "WASM Transaction log: h\u{e9}llo"
    );
    assert_eq!(tx_log_string(text("")).unwrap(), "WASM Transaction log: ");
    assert_eq!(tx_log_string(None), Err(HostError::StringNotReadable));
    assert_eq!(tx_log_string(Some(vec![0x80])), Err(HostError::StringNotReadable));
}

#[test]
fn each_error_has_its_message() {
    let messages = [
        (HostError::KeyNotReadable, "Cannot read the key from memory"),
        (HostError::PrefixNotReadable, "Cannot read the prefix from memory"),
        (HostError::ValueNotReadable, "Cannot read the value from memory"),
        (HostError::StringNotReadable, "Cannot read the string from memory"),
        (HostError::KeyNotParsed, "Cannot parse the key string"),
        (HostError::PrefixNotParsed, "Cannot parse the prefix string"),
        (HostError::StorageReadFailed, "storage read failed"),
        (HostError::StoredKeyNotText, "Cannot convert from bytes to key string"),
        (HostError::KeyValNotSerialized, "cannot serialize the key value pair"),
        (HostError::DataLengthOverflow, "data length overflow"),
        (HostError::Gas(GasError::LimitExceeded), "gas limit exceeded"),
        (HostError::Gas(GasError::Overflow), "gas overflow"),
    ];
    for (err, message) in messages {
        assert_eq!(err.message(), message);
    }
}
