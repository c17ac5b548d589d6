//! What the host exposes to each kind of guest, and under which names.

use vstd::prelude::*;

verus! {

/// Something that a guest imports from the host.
#[derive(Debug, PartialEq, Eq)]
pub enum Import<F> {
    /// The memory that the guest starts with.
    Memory,
    /// A host function.
    Function(F),
}

/// The host functions of transaction code.
#[derive(Clone, Copy, Debug, PartialEq, Eq)]
pub enum TxFunction {
    ChargeGas,
    StorageRead,
    StorageWrite,
    StorageDelete,
    StorageReadVarlen,
    StorageIterPrefix,
    StorageIterNext,
    StorageIterNextVarlen,
    LogString,
}

/// The host functions of validity predicate code.
#[derive(Clone, Copy, Debug, PartialEq, Eq)]
pub enum VpFunction {
    ChargeGas,
    StorageReadPre,
    StorageReadPost,
    StorageReadPreVarlen,
    StorageReadPostVarlen,
    StorageIterPrefix,
    StorageIterPreNext,
    StorageIterPostNext,
    StorageIterPreNextVarlen,
    StorageIterPostNextVarlen,
    LogString,
}

/// The host functions of matchmaker code.
#[derive(Clone, Copy, Debug, PartialEq, Eq)]
pub enum MatchmakerFunction {
    SendMatch,
    LogString,
}

/// The names of imports with what they stand for.
pub open spec fn table<F>(imports: Seq<(&'static str, Import<F>)>) -> Seq<(Seq<char>, Import<F>)> {
    Seq::new(imports.len(), |i: int| (imports[i].0@, imports[i].1))
}

/// The imports of transaction code.
pub open spec fn tx_imports() -> Seq<(Seq<char>, Import<TxFunction>)> {
    seq![
        ("memory"@, Import::Memory),
        ("gas"@, Import::Function(TxFunction::ChargeGas)),
        ("_read"@, Import::Function(TxFunction::StorageRead)),
        ("_write"@, Import::Function(TxFunction::StorageWrite)),
        ("_delete"@, Import::Function(TxFunction::StorageDelete)),
        ("_read_varlen"@, Import::Function(TxFunction::StorageReadVarlen)),
        ("_iter_prefix"@, Import::Function(TxFunction::StorageIterPrefix)),
        ("_iter_next"@, Import::Function(TxFunction::StorageIterNext)),
        ("_iter_next_varlen"@, Import::Function(TxFunction::StorageIterNextVarlen)),
        ("_log_string"@, Import::Function(TxFunction::LogString)),
    ]
}

/// The imports of validity predicate code.
pub open spec fn vp_imports() -> Seq<(Seq<char>, Import<VpFunction>)> {
    seq![
        ("memory"@, Import::Memory),
        ("gas"@, Import::Function(VpFunction::ChargeGas)),
        ("_read_pre"@, Import::Function(VpFunction::StorageReadPre)),
        ("_read_post"@, Import::Function(VpFunction::StorageReadPost)),
        ("_read_pre_varlen"@, Import::Function(VpFunction::StorageReadPreVarlen)),
        ("_read_post_varlen"@, Import::Function(VpFunction::StorageReadPostVarlen)),
        ("_iter_prefix"@, Import::Function(VpFunction::StorageIterPrefix)),
        ("_iter_pre_next"@, Import::Function(VpFunction::StorageIterPreNext)),
        ("_iter_post_next"@, Import::Function(VpFunction::StorageIterPostNext)),
        ("_iter_pre_next_varlen"@, Import::Function(VpFunction::StorageIterPreNextVarlen)),
        ("_iter_post_next_varlen"@, Import::Function(VpFunction::StorageIterPostNextVarlen)),
        ("_log_string"@, Import::Function(VpFunction::LogString)),
    ]
}

/// The imports of matchmaker code.
pub open spec fn matchmaker_imports() -> Seq<(Seq<char>, Import<MatchmakerFunction>)> {
    seq![
        ("memory"@, Import::Memory),
        ("_send_match"@, Import::Function(MatchmakerFunction::SendMatch)),
        ("_log_string"@, Import::Function(MatchmakerFunction::LogString)),
    ]
}

/// The namespace of all the imports.
pub fn import_namespace() -> (name: &'static str)
    ensures
        name@ == "env"@,
{
    "env"
}

/// The imports (memory and host functions) exposed to a guest that runs transaction code.
pub fn prepare_tx_imports() -> (imports: Vec<(&'static str, Import<TxFunction>)>)
    ensures
        table(imports@) == tx_imports(),
{
    let imports: Vec<(&'static str, Import<TxFunction>)> = vec![
        ("memory", Import::Memory),
        ("gas", Import::Function(TxFunction::ChargeGas)),
        ("_read", Import::Function(TxFunction::StorageRead)),
        ("_write", Import::Function(TxFunction::StorageWrite)),
        ("_delete", Import::Function(TxFunction::StorageDelete)),
        ("_read_varlen", Import::Function(TxFunction::StorageReadVarlen)),
        ("_iter_prefix", Import::Function(TxFunction::StorageIterPrefix)),
        ("_iter_next", Import::Function(TxFunction::StorageIterNext)),
        ("_iter_next_varlen", Import::Function(TxFunction::StorageIterNextVarlen)),
        ("_log_string", Import::Function(TxFunction::LogString)),
    ];
    assert(table(imports@) =~= tx_imports());
    imports
}

/// The imports (memory and host functions) exposed to a guest that runs validity predicate code.
pub fn prepare_vp_imports() -> (imports: Vec<(&'static str, Import<VpFunction>)>)
    ensures
        table(imports@) == vp_imports(),
{
    let imports: Vec<(&'static str, Import<VpFunction>)> = vec![
        ("memory", Import::Memory),
        ("gas", Import::Function(VpFunction::ChargeGas)),
        ("_read_pre", Import::Function(VpFunction::StorageReadPre)),
        ("_read_post", Import::Function(VpFunction::StorageReadPost)),
        ("_read_pre_varlen", Import::Function(VpFunction::StorageReadPreVarlen)),
        ("_read_post_varlen", Import::Function(VpFunction::StorageReadPostVarlen)),
        ("_iter_prefix", Import::Function(VpFunction::StorageIterPrefix)),
        ("_iter_pre_next", Import::Function(VpFunction::StorageIterPreNext)),
        ("_iter_post_next", Import::Function(VpFunction::StorageIterPostNext)),
        ("_iter_pre_next_varlen", Import::Function(VpFunction::StorageIterPreNextVarlen)),
        ("_iter_post_next_varlen", Import::Function(VpFunction::StorageIterPostNextVarlen)),
        ("_log_string", Import::Function(VpFunction::LogString)),
    ];
    assert(table(imports@) =~= vp_imports());
    imports
}

/// The imports (memory and host functions) exposed to a guest that runs matchmaker code.
pub fn prepare_matchmaker_imports() -> (imports: Vec<(&'static str, Import<MatchmakerFunction>)>)
    ensures
        table(imports@) == matchmaker_imports(),
{
    let imports: Vec<(&'static str, Import<MatchmakerFunction>)> = vec![
        ("memory", Import::Memory),
        ("_send_match", Import::Function(MatchmakerFunction::SendMatch)),
        ("_log_string", Import::Function(MatchmakerFunction::LogString)),
    ];
    assert(table(imports@) =~= matchmaker_imports());
    imports
}

} // verus!
