use host_env::error::HostError;
use host_env::imports::{
    import_namespace, prepare_matchmaker_imports, prepare_tx_imports, prepare_vp_imports, Import,
    MatchmakerFunction, TxFunction, VpFunction,
};
use host_env::matchmaker::{matchmaker_log_string, send_match, MatchmakerEnv};

#[test]
fn makes_a_transaction_of_a_match() {
    let env = MatchmakerEnv { tx_code: vec![1, 2, 3] };
    let tx = send_match(&env, Some(vec![4, 5])).unwrap();
    assert_eq!(tx.code, vec![1, 2, 3]);
    assert_eq!(tx.data, Some(vec![4, 5]));
    let tx = send_match(&env, Some(vec![])).unwrap();
    assert_eq!((tx.code, tx.data), (vec![1, 2, 3], Some(vec![])));
    assert_eq!(send_match(&env, None).unwrap_err(), HostError::KeyNotReadable);
}

#[test]
fn matchmakers_label_what_they_log() {
    assert_eq!(
        matchmaker_log_string(Some(b"m".to_vec())).unwrap(),
        "WASM Matchmaker log: m"
    );
    assert_eq!(matchmaker_log_string(None), Err(HostError::StringNotReadable));
}

#[test]
fn guests_find_their_imports() {
    assert_eq!(import_namespace(), "env");
    let tx = prepare_tx_imports();
    assert_eq!(tx.len(), 10);
    assert_eq!(tx[0], ("memory", Import::Memory));
    assert_eq!(tx[1], ("gas", Import::Function(TxFunction::ChargeGas)));
    assert_eq!(tx[8], ("_iter_next_varlen", Import::Function(TxFunction::StorageIterNextVarlen)));
    let vp = prepare_vp_imports();
    assert_eq!(vp.len(), 12);
    assert_eq!(vp[3], ("_read_post", Import::Function(VpFunction::StorageReadPost)));
    assert_eq!(
        vp[10],
        ("_iter_post_next_varlen", Import::Function(VpFunction::StorageIterPostNextVarlen))
    );
    let matchmaker = prepare_matchmaker_imports();
    assert_eq!(
        matchmaker,
        vec![
            ("memory", Import::Memory),
            ("_send_match", Import::Function(MatchmakerFunction::SendMatch)),
            ("_log_string", Import::Function(MatchmakerFunction::LogString)),
        ]
    );
}

#[test]
fn no_import_name_is_used_twice() {
    let mut tx: Vec<&str> = prepare_tx_imports().into_iter().map(|import| import.0).collect();
    let mut vp: Vec<&str> = prepare_vp_imports().into_iter().map(|import| import.0).collect();
    for names in [&mut tx, &mut vp] {
        let len = names.len();
        names.sort();
        names.dedup();
        assert_eq!(names.len(), len);
    }
}
