//! Coordination between a node, its peers and its callers.

use crate::models::block::lemma_no_difficulty_stops_at_once;
use crate::models::blockchain::{
    fork_choice, genesis_previous_hash, unmined_block, Blockchain, BlockchainView,
};
use vstd::prelude::*;
use vstd::string::StringExecFns;

pub mod client;
pub mod node;

verus! {

/// What a node shares between its event loop and its callers: the ledger it
/// holds, and whether its listener is up.
#[derive(Debug)]
pub struct NodeState {
    /// The authoritative ledger of this node.
    pub blockchain: Blockchain,
    /// Set once the node listens on an address; never cleared.
    pub ready: bool,
}

/// The mathematical value of a [`NodeState`].
pub struct NodeStateView {
    pub blockchain: BlockchainView,
    pub ready: bool,
}

impl View for NodeState {
    type V = NodeStateView;

    open spec fn view(&self) -> NodeStateView {
        NodeStateView { blockchain: self.blockchain@, ready: self.ready }
    }
}

/// Capacity of the queue that carries commands to the event loop: none, so
/// that a sender waits until the loop takes its command.
pub const COMMAND_QUEUE_CAPACITY: usize = 0;

/// What a caller asks of the event loop. `S` is the handle through which the
/// caller is told the outcome.
#[derive(Debug)]
pub enum Command<S> {
    /// Fetch a ledger from the peers and report it through `sender`.
    RequestInit { sender: S },
}

/// The request a node sends to a peer to ask for its ledger.
#[derive(Debug)]
pub struct InitRequest(pub String);

/// A peer's answer to an [`InitRequest`]: its ledger, or nothing when it has
/// none.
#[derive(Debug)]
pub struct InitResponse(pub Option<Blockchain>);

impl View for InitResponse {
    type V = Option<BlockchainView>;

    open spec fn view(&self) -> Option<BlockchainView> {
        match self.0 {
            Some(blockchain) => Some(blockchain@),
            None => None,
        }
    }
}

/// The text that an [`InitRequest`] carries.
pub open spec fn init_request_kind() -> Seq<char> {
    seq!['i', 'n', 'i', 't']
}

/// The answer a node with ledger `blockchain` gives to a peer: the ledger
/// when it holds a block, nothing otherwise.
pub open spec fn response_for(blockchain: BlockchainView) -> Option<BlockchainView> {
    if blockchain.chain.len() == 0 {
        None
    } else {
        Some(blockchain)
    }
}

/// `blockchain` is a ledger that a node may start from when its bootstrap
/// request ended with `downloaded`: the ledger that came, or, when none came,
/// a chain of one genesis block mined at difficulty zero, which takes the
/// first counter.
pub open spec fn is_ledger_after_init(downloaded: Option<Blockchain>, blockchain: Blockchain) -> bool {
    match downloaded {
        Some(remote) => blockchain == remote,
        None => {
            let fresh = blockchain@;
            &&& fresh.difficulty == 0
            &&& fresh.chain.len() == 1
            &&& (BlockchainView { chain: Seq::empty(), difficulty: 0 }).is_mined_successor(
                fresh.chain[0],
            )
            &&& fresh.chain[0].proof_of_work == 1
            &&& fresh.well_formed()
        },
    }
}

/// The ledger to start from when the bootstrap request ended with
/// `downloaded`. Without a download this mines a genesis block.
pub fn ledger_after_init(downloaded: Option<Blockchain>) -> (blockchain: Blockchain)
    ensures
        is_ledger_after_init(downloaded, blockchain),
{
    match downloaded {
        Some(remote) => remote,
        None => {
            let fresh = Blockchain::new(0);
            proof {
                let genesis = fresh@.chain[0];
                let seed = unmined_block(0, genesis.timestamp, genesis_previous_hash());
                lemma_no_difficulty_stops_at_once(seed, genesis.proof_of_work);
            }
            fresh
        },
    }
}

impl InitRequest {
    /// The one request of the bootstrap exchange.
    pub fn new() -> (request: InitRequest)
        ensures
            request.0@ == init_request_kind(),
    {
        proof {
            reveal_strlit("init");
        }
        let kind = String::from_str("init");
        assert(kind@ =~= init_request_kind());
        InitRequest(kind)
    }
}

impl NodeState {
    /// The state of a node that holds `blockchain` and does not listen yet.
    pub fn new(blockchain: Blockchain) -> (state: NodeState)
        ensures
            state.blockchain == blockchain,
            !state.ready,
    {
        NodeState { blockchain, ready: false }
    }

    /// Records that the listener is up. The ledger stays as it is.
    pub fn mark_ready(&mut self)
        ensures
            final(self).ready,
            final(self).blockchain == old(self).blockchain,
    {
        self.ready = true;
    }

    /// Whether the node has no ledger yet and must get one before it can
    /// serve.
    pub fn needs_init(&self) -> (needed: bool)
        ensures
            needed == (self@.blockchain.chain.len() == 0),
    {
        self.blockchain.is_empty()
    }

    /// The answer to a peer that asks for the ledger: a copy of it when it
    /// holds a block, nothing otherwise.
    pub fn init_response(&self) -> (response: InitResponse)
        ensures
            response@ == response_for(self@.blockchain),
    {
        if self.blockchain.is_empty() {
            InitResponse(None)
        } else {
            InitResponse(Some(self.blockchain.clone()))
        }
    }

    /// Ends the bootstrap: installs the ledger that the peers gave, or, when
    /// they gave none, a fresh chain of one genesis block at difficulty zero.
    pub fn install(&mut self, downloaded: Option<Blockchain>)
        ensures
            final(self).ready == old(self).ready,
            is_ledger_after_init(downloaded, final(self).blockchain),
    {
        self.blockchain = ledger_after_init(downloaded);
    }

    /// Applies the fork-choice rule to the node's ledger and `chain`, and
    /// keeps a copy of the winner.
    pub fn adopt_better(&mut self, chain: &Blockchain)
        ensures
            final(self).ready == old(self).ready,
            final(self)@.blockchain == fork_choice(old(self)@.blockchain, chain@),
    {
        let better = Blockchain::compare(&self.blockchain, chain).clone();
        self.blockchain = better;
    }
}

} // verus!
