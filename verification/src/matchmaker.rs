//! Host functions of matchmaker code.

use vstd::prelude::*;

use crate::error::HostError;
use crate::messages::{log_message, logged, message};

verus! {

/// A transaction: its code and the data that the code runs on.
#[derive(Debug)]
pub struct Tx {
    pub code: Vec<u8>,
    pub data: Option<Vec<u8>>,
}

/// What the host keeps for a matchmaker.
#[derive(Debug)]
pub struct MatchmakerEnv {
    /// The code of the transactions that the matchmaker makes of matched intents.
    pub tx_code: Vec<u8>,
}

/// Makes the transaction to inject into the ledger from a matchmaker's matched intents.
pub fn send_match(env: &MatchmakerEnv, data: Option<Vec<u8>>) -> (res: Result<Tx, HostError>)
    ensures
        match data {
            Some(bytes) => res matches Ok(tx) && tx.code@ == env.tx_code@ && tx.data == Some(bytes),
            None => res == Err::<Tx, HostError>(HostError::KeyNotReadable),
        },
{
    match data {
        Some(bytes) => Ok(Tx { code: env.tx_code.clone(), data: Some(bytes) }),
        None => Err(HostError::KeyNotReadable),
    }
}

/// Log function of matchmaker code. The result is the message to log, at the level for information.
pub fn matchmaker_log_string(string: Option<Vec<u8>>) -> (res: Result<String, HostError>)
    ensures
        logged(res) == log_message("WASM Matchmaker log: "@, string),
{
    message("WASM Matchmaker log: ", string)
}

} // verus!
