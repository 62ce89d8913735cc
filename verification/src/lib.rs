//! Core of a small proof-of-concept blockchain node: transactions and
//! blocks, their hashes, ECDSA signatures over transaction data, the block
//! keys of the block store, and the decisions that assemble blocks out of
//! pending transactions.
pub mod encoding;
pub mod digest;
pub mod cryptography;
pub mod clock;
pub mod strucks;
pub mod blockchain;
pub mod processor_transactions;
pub mod service_server;
pub mod server;
