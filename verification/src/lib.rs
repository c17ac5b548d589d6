//! The host side of a ledger's wasm virtual machine: what the host functions that transaction,
//! validity predicate and matchmaker code import decide and answer.

// Some imports are used in contracts alone.
#![allow(unused_imports)]

pub mod answers;
pub mod error;
pub mod gas;
pub mod imports;
pub mod iteration;
pub mod key;
pub mod key_val;
pub mod laws;
pub mod matchmaker;
pub mod messages;
pub mod prefix_iter;
pub mod reads;
pub mod reply;
pub mod text;
pub mod tx;
pub mod vp;
pub mod write_log;
