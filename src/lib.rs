//! A single-validator ledger core: content-addressed blocks and transactions, ECDSA signing
//! over P-256, a chain that admits a block only after validating it against the current tip,
//! and a hash-indexed pool of pending transactions drained in arrival order.

pub mod address;
pub mod block;
pub mod blockchain;
pub mod encoding;
pub mod hash;
pub mod hasher;
pub mod keypair;
pub mod rpc;
pub mod server;
pub mod storage;
pub mod transaction;
pub mod txpool;
pub mod validator;
