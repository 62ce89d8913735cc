//! The records of the ledger: transactions and blocks.

pub mod transaction;
pub mod block;
