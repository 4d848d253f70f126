//! A proof-of-work ledger and the coordination rules of a peer-to-peer node
//! that keeps it.
//!
//! The crate holds the decisions of the node, each with a contract that Verus
//! proves: how a block is hashed and mined, how a chain grows and which of two
//! chains wins, how a client retries a bootstrap request, and how the event
//! loop answers network events and commands. Sockets, timers and locks are the
//! caller's business; the functions here take plain values and return the
//! next state together with the action to perform.

pub mod models;
pub mod p2p;
