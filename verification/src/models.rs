//! The ledger: blocks, their digests, and chains of blocks.

pub mod block;
pub mod blockchain;
pub mod digest;
