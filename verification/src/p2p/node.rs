//! The decisions of the node's event loop.
//!
//! The loop that owns the network handle and the command queue lives with the
//! caller. For every network event and every command it asks the [`Node`]
//! what to do, and carries out the [`NodeAction`] or [`CommandAction`] that
//! comes back. The race between the peers that were asked for a ledger is an
//! [`InitRace`], which runs apart from the loop.

use crate::models::blockchain::{fork_choice, Blockchain};
use crate::p2p::{response_for, Command, InitResponse, NodeState};
use std::collections::HashMap;
use vstd::prelude::*;
use vstd::string::StringExecFns;

verus! {

broadcast use vstd::std_specs::hash::group_hash_axioms;

/// The most peers that one bootstrap request is sent to.
pub const MAX_INIT_PEERS: usize = 3;

/// What one peer request, or a whole bootstrap request, ends in: a ledger or
/// the news that the peer has none, or a failure.
pub type InitResult = Result<Option<Blockchain>, ()>;

/// A network event, as far as the node's decisions depend on it.
#[derive(Debug)]
pub enum NetworkEvent {
    /// A peer asks for this node's ledger.
    InitRequest,
    /// A peer answers the request that went out under `request_id`.
    InitResponse { request_id: u64, response: InitResponse },
    /// A message arrived on a subscribed topic.
    Gossip,
    /// Peers were discovered on the local network.
    PeersDiscovered,
    /// Discovered peers have expired.
    PeersExpired,
    /// The node now listens on an address.
    NewListenAddr,
    /// Any other event.
    Other,
}

/// What the event loop is to do after a network event.
#[derive(Debug)]
pub enum NodeAction<S> {
    /// Answer the peer with this response.
    SendResponse(InitResponse),
    /// Hand `result` to the waiter behind `completion`.
    Deliver { completion: S, result: InitResult },
    /// Make the discovered peers explicit peers of the message topic.
    AddExplicitPeers,
    /// Remove the expired peers from the message topic.
    RemoveExplicitPeers,
    /// Nothing.
    Nothing,
}

/// What the event loop is to do after it looked at its command queue.
#[derive(Debug)]
pub enum CommandAction<S> {
    /// No peer is known: report a failure through `sender`.
    Fail { sender: S },
    /// Send a request to each of the first `peers` discovered peers, register
    /// each, and race them for `sender`.
    Dispatch { sender: S, peers: usize },
    /// The command queue is closed: leave the loop.
    Stop,
}

/// Where the node listens and what it subscribes to when it starts.
#[derive(Debug)]
pub struct StartPlan {
    pub listen_address: String,
    pub init_topic: String,
    pub chain_update_topic: String,
}

/// The address on which a node listens when it is given none: every
/// interface, on a port that the system picks.
pub open spec fn default_listen_address() -> Seq<char> {
    "/ip4/0.0.0.0/tcp/0"@
}

/// Number of peers that a bootstrap request goes to when `discovered` peers
/// are known.
pub open spec fn init_fan_out(discovered: usize) -> usize {
    if discovered > MAX_INIT_PEERS {
        MAX_INIT_PEERS
    } else {
        discovered
    }
}

/// The part of the event loop's state that its decisions rest on: the
/// requests that are on their way to a peer, each with the handle of the
/// waiter for its answer.
pub struct Node<S> {
    pending_init_requests: HashMap<u64, S>,
}

impl<S> Node<S> {
    /// The requests that wait for an answer, by request identifier.
    pub closed spec fn pending(&self) -> Map<u64, S> {
        self.pending_init_requests@
    }

    /// A node with no request under way.
    pub fn new() -> (node: Node<S>)
        ensures
            node.pending() == Map::<u64, S>::empty(),
    {
        Node { pending_init_requests: HashMap::new() }
    }

    /// What to listen on and subscribe to: the address given, or the default
    /// one, and the two topics of the node.
    pub fn start(addr: Option<String>) -> (plan: StartPlan)
        ensures
            plan.listen_address@ == match addr {
                Some(address) => address@,
                None => default_listen_address(),
            },
            plan.init_topic@ == "init"@,
            plan.chain_update_topic@ == "chain-update"@,
    {
        let listen_address = match addr {
            Some(address) => address,
            None => String::from_str("/ip4/0.0.0.0/tcp/0"),
        };
        StartPlan {
            listen_address,
            init_topic: String::from_str("init"),
            chain_update_topic: String::from_str("chain-update"),
        }
    }

    /// Whether a request waits under `request_id`.
    pub fn is_pending(&self, request_id: u64) -> (waiting: bool)
        ensures
            waiting == self.pending().contains_key(request_id),
    {
        self.pending_init_requests.contains_key(&request_id)
    }

    /// Records that a request went out under `request_id` and that
    /// `completion` waits for its answer. An earlier entry under the same
    /// identifier is dropped.
    pub fn register_request(&mut self, request_id: u64, completion: S)
        ensures
            final(self).pending() == old(self).pending().insert(request_id, completion),
    {
        self.pending_init_requests.insert(request_id, completion);
    }

    /// Decides what follows a network event.
    ///
    /// A peer that asks for the ledger gets a copy of it, or the answer that
    /// there is none. An answer to a pending request leaves the table and
    /// goes to its waiter; an answer that matches no entry is dropped. A new
    /// listen address makes the node ready. Discovery events are passed on to
    /// the message topic, and nothing else changes anything.
    pub fn handle_swarm_event(&mut self, state: &mut NodeState, event: NetworkEvent) -> (action:
        NodeAction<S>)
        ensures
            final(state).blockchain == old(state).blockchain,
            final(state).ready == (old(state).ready || event is NewListenAddr),
            match event {
                NetworkEvent::InitRequest => {
                    &&& final(self).pending() == old(self).pending()
                    &&& action matches NodeAction::SendResponse(response)
                    &&& response@ == response_for(old(state)@.blockchain)
                },
                NetworkEvent::InitResponse { request_id, response } => {
                    &&& !final(self).pending().contains_key(request_id)
                    &&& if old(self).pending().contains_key(request_id) {
                        &&& final(self).pending() == old(self).pending().remove(request_id)
                        &&& action == (NodeAction::Deliver {
                            completion: old(self).pending()[request_id],
                            result: Ok(response.0),
                        })
                    } else {
                        &&& final(self).pending() == old(self).pending()
                        &&& action == NodeAction::<S>::Nothing
                    }
                },
                NetworkEvent::PeersDiscovered => {
                    &&& final(self).pending() == old(self).pending()
                    &&& action == NodeAction::<S>::AddExplicitPeers
                },
                NetworkEvent::PeersExpired => {
                    &&& final(self).pending() == old(self).pending()
                    &&& action == NodeAction::<S>::RemoveExplicitPeers
                },
                _ => {
                    &&& final(self).pending() == old(self).pending()
                    &&& action == NodeAction::<S>::Nothing
                },
            },
    {
        match event {
            NetworkEvent::InitRequest => NodeAction::SendResponse(state.init_response()),
            NetworkEvent::InitResponse { request_id, response } => {
                match self.pending_init_requests.remove(&request_id) {
                    Some(completion) => NodeAction::Deliver { completion, result: Ok(response.0) },
                    None => {
                        assert(self.pending() =~= old(self).pending());
                        NodeAction::Nothing
                    },
                }
            },
            NetworkEvent::PeersDiscovered => NodeAction::AddExplicitPeers,
            NetworkEvent::PeersExpired => NodeAction::RemoveExplicitPeers,
            NetworkEvent::NewListenAddr => {
                state.mark_ready();
                NodeAction::Nothing
            },
            _ => NodeAction::Nothing,
        }
    }

    /// Decides what follows a look at the command queue while `discovered`
    /// peers are known.
    ///
    /// A closed queue ends the loop. A bootstrap request fails at once when
    /// no peer is known, and goes to at most three peers otherwise.
    pub fn handle_command(&self, command: Option<Command<S>>, discovered: usize) -> (action:
        CommandAction<S>)
        ensures
            action == match command {
                None => CommandAction::Stop,
                Some(Command::RequestInit { sender }) => if discovered == 0 {
                    CommandAction::Fail { sender }
                } else {
                    CommandAction::Dispatch { sender, peers: init_fan_out(discovered) }
                },
            },
    {
        match command {
            None => CommandAction::Stop,
            Some(Command::RequestInit { sender }) => {
                if discovered == 0 {
                    CommandAction::Fail { sender }
                } else if discovered > MAX_INIT_PEERS {
                    CommandAction::Dispatch { sender, peers: MAX_INIT_PEERS }
                } else {
                    CommandAction::Dispatch { sender, peers: discovered }
                }
            },
        }
    }

    /// Replaces the node's ledger by `chain` if `chain` is strictly longer.
    pub fn compare_chains_and_save(&self, state: &mut NodeState, chain: &Blockchain)
        ensures
            final(state).ready == old(state).ready,
            final(state)@.blockchain == fork_choice(old(state)@.blockchain, chain@),
    {
        state.adopt_better(chain);
    }
}

/// How one peer's request ended for the race: with what the peer's answer
/// was turned into, or with nothing when its waiter was dropped unanswered.
pub type PeerOutcome = Option<InitResult>;

/// What the race says after one peer's outcome.
#[derive(Debug)]
pub enum RaceStep {
    /// Other peers are still out: go on waiting.
    Pending,
    /// The race is decided: hand this to the caller and forget the others.
    Settled(InitResult),
    /// The race was decided before; the outcome is of no use.
    Over,
}

/// The race between the peers that one bootstrap request went to. The first
/// answer wins; the race fails when every request ended without one.
#[derive(Debug)]
pub struct InitRace {
    outstanding: usize,
    settled: bool,
}

/// The mathematical value of an [`InitRace`].
pub struct InitRaceModel {
    /// Requests whose outcome has not been seen.
    pub outstanding: nat,
    /// Whether the race has been decided.
    pub settled: bool,
}

impl InitRaceModel {
    /// The race's transition function.
    pub open spec fn step(self, outcome: PeerOutcome) -> (InitRaceModel, RaceStep) {
        if self.settled || self.outstanding == 0 {
            (InitRaceModel { settled: true, ..self }, RaceStep::Over)
        } else {
            match outcome {
                Some(result) => (
                    InitRaceModel { outstanding: (self.outstanding - 1) as nat, settled: true },
                    RaceStep::Settled(result),
                ),
                None => if self.outstanding == 1 {
                    (InitRaceModel { outstanding: 0, settled: true }, RaceStep::Settled(Err(())))
                } else {
                    (
                        InitRaceModel { outstanding: (self.outstanding - 1) as nat, settled: false },
                        RaceStep::Pending,
                    )
                },
            }
        }
    }
}

impl View for InitRace {
    type V = InitRaceModel;

    closed spec fn view(&self) -> InitRaceModel {
        InitRaceModel { outstanding: self.outstanding as nat, settled: self.settled }
    }
}

impl InitRace {
    /// A race between `peers` requests that are all still out.
    pub fn new(peers: usize) -> (race: InitRace)
        requires
            peers > 0,
        ensures
            race@ == (InitRaceModel { outstanding: peers as nat, settled: false }),
    {
        InitRace { outstanding: peers, settled: false }
    }

    /// Whether the race has been decided.
    pub fn is_settled(&self) -> (settled: bool)
        ensures
            settled == self@.settled,
    {
        self.settled
    }

    /// Takes the outcome of one more request.
    ///
    /// The first answer decides the race, whatever the other peers do. A
    /// request that ended without an answer leaves the race open while
    /// others are out, and decides it as failed when it was the last.
    pub fn on_outcome(&mut self, outcome: PeerOutcome) -> (step: RaceStep)
        ensures
            (final(self)@, step) == old(self)@.step(outcome),
    {
        if self.settled || self.outstanding == 0 {
            self.settled = true;
            return RaceStep::Over;
        }
        self.outstanding = self.outstanding - 1;
        match outcome {
            Some(result) => {
                self.settled = true;
                RaceStep::Settled(result)
            },
            None => {
                if self.outstanding == 0 {
                    self.settled = true;
                    RaceStep::Settled(Err(()))
                } else {
                    RaceStep::Pending
                }
            },
        }
    }
}

/// The first answer decides an open race at once, however many peers are
/// still out, and it is the answer itself that the caller gets.
pub proof fn lemma_first_answer_wins(race: InitRaceModel, result: InitResult)
    requires
        !race.settled,
        race.outstanding > 0,
    ensures
        race.step(Some(result)).1 == RaceStep::Settled(result),
        race.step(Some(result)).0.settled,
{
}

/// Once a race is decided no later outcome reaches the caller.
pub proof fn lemma_decided_race_stays_decided(race: InitRaceModel, outcome: PeerOutcome)
    requires
        race.settled,
    ensures
        race.step(outcome) == (race, RaceStep::Over),
{
}

/// The race after `silent` requests of a race between `peers` ended without
/// an answer, and what it said after the last of them.
pub open spec fn after_silent_peers(peers: nat, silent: nat) -> (InitRaceModel, RaceStep)
    decreases silent,
{
    if silent == 0 {
        (InitRaceModel { outstanding: peers, settled: false }, RaceStep::Pending)
    } else {
        after_silent_peers(peers, (silent - 1) as nat).0.step(None)
    }
}

/// A race in which no peer answers stays open until the last request has
/// ended, and is then decided as failed.
pub proof fn lemma_silent_race_fails_at_the_end(peers: nat, silent: nat)
    requires
        0 < silent <= peers,
    ensures
        after_silent_peers(peers, silent) == if silent < peers {
            (
                InitRaceModel { outstanding: (peers - silent) as nat, settled: false },
                RaceStep::Pending,
            )
        } else {
            (InitRaceModel { outstanding: 0, settled: true }, RaceStep::Settled(Err(())))
        },
    decreases silent,
{
    let before = (silent - 1) as nat;
    if before > 0 {
        lemma_silent_race_fails_at_the_end(peers, before);
    } else {
        assert(after_silent_peers(peers, before).0 == (InitRaceModel {
            outstanding: peers,
            settled: false,
        }));
    }
}

} // verus!
