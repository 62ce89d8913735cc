//! Signatures over transaction data.
pub mod ecdsa;
