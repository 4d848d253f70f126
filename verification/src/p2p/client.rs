//! The caller's side of the bootstrap exchange.
//!
//! A [`Client`] asks the event loop for a ledger and retries when that fails.
//! It performs no waiting itself: each step returns the [`ClientAction`] to
//! carry out, and the outcome of that action comes back as a
//! [`ClientEvent`].

use crate::models::blockchain::Blockchain;
use vstd::prelude::*;

verus! {

/// Number of attempts after which a client gives up.
pub const MAX_ATTEMPTS: u8 = 5;

/// Pause between two looks at the node's readiness, in milliseconds.
pub const READY_POLL_MILLIS: u64 = 100;

/// Pause after a failed attempt, in milliseconds.
pub const RETRY_DELAY_MILLIS: u64 = 1000;

/// What the event loop reports for one request: a ledger or the news that
/// no peer has one, a failure, or nothing at all when the channel to the
/// event loop is gone.
pub type Completion = Option<Result<Option<Blockchain>, ()>>;

/// Where a client stands in its exchange with the event loop.
#[derive(Clone, Copy, Debug, PartialEq, Eq, Structural)]
pub enum Phase {
    /// No request is under way.
    Idle,
    /// The client has asked whether the node is ready.
    AwaitingReady,
    /// The node was not ready; the client pauses before it asks again.
    Napping,
    /// The command is with the event loop.
    AwaitingCompletion,
    /// The attempt failed; the client pauses before the next one.
    BackingOff,
    /// The request has ended.
    Finished,
}

/// The outcome of the action that the client asked for last.
#[derive(Debug)]
pub enum ClientEvent {
    /// The node's readiness flag, as just read.
    Readiness(bool),
    /// The pause is over.
    Elapsed,
    /// What came back for the submitted command.
    Completed(Completion),
}

/// What the caller is to do next on the client's behalf.
#[derive(Debug)]
pub enum ClientAction {
    /// Read the node's readiness flag and report it.
    CheckReady,
    /// Pause for `millis` milliseconds.
    Sleep { millis: u64 },
    /// Send the command with a fresh completion channel and wait for its
    /// completion.
    Submit,
    /// The request has ended with this result.
    Finish(Option<Blockchain>),
    /// The event answers no action of this client; there is nothing to do.
    Nothing,
}

/// The mathematical value of a [`Client`].
pub struct ClientModel {
    /// Attempts that have failed so far.
    pub tries: nat,
    pub phase: Phase,
}

/// Whether a completion counts as a failed attempt: all but a ledger or the
/// news that no peer has one.
pub open spec fn is_failure(completion: Completion) -> bool {
    !(completion matches Some(Ok(_)))
}

impl ClientModel {
    /// The client at the start of a request.
    pub open spec fn started() -> ClientModel {
        ClientModel { tries: 0, phase: Phase::AwaitingReady }
    }

    /// A client never counts more failures than the limit, and it is in the
    /// middle of an attempt only while it is below the limit.
    pub open spec fn inv(self) -> bool {
        &&& self.tries <= MAX_ATTEMPTS
        &&& (self.phase == Phase::AwaitingReady || self.phase == Phase::Napping || self.phase
            == Phase::AwaitingCompletion) ==> self.tries < MAX_ATTEMPTS
    }

    /// The state and the action at the top of an attempt: the end when the
    /// limit is reached, a look at the readiness flag otherwise.
    pub open spec fn attempt(tries: nat) -> (ClientModel, ClientAction) {
        if tries >= MAX_ATTEMPTS {
            (ClientModel { tries, phase: Phase::Finished }, ClientAction::Finish(None))
        } else {
            (ClientModel { tries, phase: Phase::AwaitingReady }, ClientAction::CheckReady)
        }
    }

    /// The client's transition function.
    pub open spec fn step(self, event: ClientEvent) -> (ClientModel, ClientAction) {
        match (self.phase, event) {
            (Phase::AwaitingReady, ClientEvent::Readiness(true)) => (
                ClientModel { phase: Phase::AwaitingCompletion, ..self },
                ClientAction::Submit,
            ),
            (Phase::AwaitingReady, ClientEvent::Readiness(false)) => (
                ClientModel { phase: Phase::Napping, ..self },
                ClientAction::Sleep { millis: READY_POLL_MILLIS },
            ),
            (Phase::Napping, ClientEvent::Elapsed) => (
                ClientModel { phase: Phase::AwaitingReady, ..self },
                ClientAction::CheckReady,
            ),
            (Phase::AwaitingCompletion, ClientEvent::Completed(Some(Ok(result)))) => (
                ClientModel { phase: Phase::Finished, ..self },
                ClientAction::Finish(result),
            ),
            (Phase::AwaitingCompletion, ClientEvent::Completed(_)) => (
                ClientModel { tries: self.tries + 1, phase: Phase::BackingOff },
                ClientAction::Sleep { millis: RETRY_DELAY_MILLIS },
            ),
            (Phase::BackingOff, ClientEvent::Elapsed) => ClientModel::attempt(self.tries),
            _ => (self, ClientAction::Nothing),
        }
    }

    /// One whole attempt on a ready node that ends in `completion`, and the
    /// pause after it: the state it leaves and the last action it asks for.
    pub open spec fn failed_round(self, completion: Completion) -> (ClientModel, ClientAction) {
        self.step(ClientEvent::Readiness(true)).0.step(ClientEvent::Completed(completion)).0.step(
            ClientEvent::Elapsed,
        )
    }
}

/// The retry state of one caller.
#[derive(Debug)]
pub struct Client {
    tries: u8,
    phase: Phase,
}

impl View for Client {
    type V = ClientModel;

    closed spec fn view(&self) -> ClientModel {
        ClientModel { tries: self.tries as nat, phase: self.phase }
    }
}

impl Client {
    #[verifier::type_invariant]
    spec fn type_inv(&self) -> bool {
        self@.inv()
    }

    /// A client with no request under way.
    pub fn new() -> (client: Client)
        ensures
            client@ == (ClientModel { tries: 0, phase: Phase::Idle }),
    {
        Client { tries: 0, phase: Phase::Idle }
    }

    /// Where the client stands.
    pub fn phase(&self) -> (phase: Phase)
        ensures
            phase == self@.phase,
    {
        self.phase
    }

    /// Attempts that have failed since the request began.
    pub fn tries(&self) -> (tries: u8)
        ensures
            tries == self@.tries,
            tries <= MAX_ATTEMPTS,
    {
        proof {
            use_type_invariant(self);
        }
        self.tries
    }

    /// Begins a request, whatever went before: no attempt has failed yet, and
    /// the first thing to do is to look at the readiness flag.
    pub fn request_init(self) -> (next: (Client, ClientAction))
        ensures
            next.0@ == ClientModel::started(),
            next.1 == ClientAction::CheckReady,
    {
        (Client { tries: 0, phase: Phase::AwaitingReady }, ClientAction::CheckReady)
    }

    /// Takes the outcome of the last action and says what to do next.
    ///
    /// While the node is not ready the client pauses and looks again. Once it
    /// is, the command goes out. A ledger, or the news that no peer has one,
    /// ends the request. Anything else is a failed attempt: the client pauses
    /// and tries again, and ends the request empty-handed after the fifth
    /// failure. An event that answers no pending action changes nothing.
    pub fn on_event(self, event: ClientEvent) -> (next: (Client, ClientAction))
        ensures
            (next.0@, next.1) == self@.step(event),
            next.0@.inv(),
    {
        proof {
            use_type_invariant(&self);
        }
        match (self.phase, event) {
            (Phase::AwaitingReady, ClientEvent::Readiness(true)) => (
                Client { tries: self.tries, phase: Phase::AwaitingCompletion },
                ClientAction::Submit,
            ),
            (Phase::AwaitingReady, ClientEvent::Readiness(false)) => (
                Client { tries: self.tries, phase: Phase::Napping },
                ClientAction::Sleep { millis: READY_POLL_MILLIS },
            ),
            (Phase::Napping, ClientEvent::Elapsed) => (
                Client { tries: self.tries, phase: Phase::AwaitingReady },
                ClientAction::CheckReady,
            ),
            (Phase::AwaitingCompletion, ClientEvent::Completed(Some(Ok(result)))) => (
                Client { tries: self.tries, phase: Phase::Finished },
                ClientAction::Finish(result),
            ),
            (Phase::AwaitingCompletion, ClientEvent::Completed(_)) => (
                Client { tries: self.tries + 1, phase: Phase::BackingOff },
                ClientAction::Sleep { millis: RETRY_DELAY_MILLIS },
            ),
            (Phase::BackingOff, ClientEvent::Elapsed) => {
                if self.tries >= MAX_ATTEMPTS {
                    (Client { tries: self.tries, phase: Phase::Finished }, ClientAction::Finish(None))
                } else {
                    (
                        Client { tries: self.tries, phase: Phase::AwaitingReady },
                        ClientAction::CheckReady,
                    )
                }
            },
            _ => (self, ClientAction::Nothing),
        }
    }
}

/// Every step keeps the client's invariant.
pub proof fn lemma_step_keeps_inv(model: ClientModel, event: ClientEvent)
    requires
        model.inv(),
    ensures
        model.step(event).0.inv(),
{
}

/// The command goes out only in answer to a readiness flag that is set:
/// while the node is not ready the client submits nothing.
pub proof fn lemma_submits_only_when_ready(model: ClientModel, event: ClientEvent)
    ensures
        model.step(event).1 == ClientAction::Submit <==> model.phase == Phase::AwaitingReady
            && event == ClientEvent::Readiness(true),
        model.phase == Phase::AwaitingReady && event == ClientEvent::Readiness(false)
            ==> model.step(event).1 == (ClientAction::Sleep { millis: READY_POLL_MILLIS }),
{
}

/// A request ends in two ways only: with what the event loop reported as a
/// success, passed on unchanged, or empty-handed once the limit of failed
/// attempts is reached.
pub proof fn lemma_finish_reasons(model: ClientModel, event: ClientEvent)
    requires
        model.step(event).1 is Finish,
    ensures
        ({
            &&& model.phase == Phase::AwaitingCompletion
            &&& event == ClientEvent::Completed(Some(Ok(model.step(event).1->Finish_0)))
        }) || ({
            &&& model.phase == Phase::BackingOff
            &&& event == ClientEvent::Elapsed
            &&& model.tries >= MAX_ATTEMPTS
            &&& model.step(event).1->Finish_0 is None
        }),
{
}

/// A success ends the request at once, and a success with no ledger is a
/// success too: it is not retried.
pub proof fn lemma_success_is_final(model: ClientModel, result: Option<Blockchain>)
    requires
        model.phase == Phase::AwaitingCompletion,
    ensures
        model.step(ClientEvent::Completed(Some(Ok(result)))) == (
            ClientModel { phase: Phase::Finished, ..model },
            ClientAction::Finish(result),
        ),
{
}

/// A failed attempt on a ready node costs one try and is followed by the
/// retry pause; below the limit the client then looks at the readiness flag
/// again, and at the limit it ends the request with no result.
pub proof fn lemma_failed_round(model: ClientModel, completion: Completion)
    requires
        model.inv(),
        model.phase == Phase::AwaitingReady,
        is_failure(completion),
    ensures
        model.step(ClientEvent::Readiness(true)).0.step(ClientEvent::Completed(completion)) == (
            ClientModel { tries: model.tries + 1, phase: Phase::BackingOff },
            ClientAction::Sleep { millis: RETRY_DELAY_MILLIS },
        ),
        model.failed_round(completion) == ClientModel::attempt(model.tries + 1),
{
}

/// The state after `rounds` failed attempts in a row, counted from the start
/// of a request, each round ending in the completion that `completions`
/// gives for it.
pub open spec fn after_failed_rounds(rounds: nat, completions: spec_fn(nat) -> Completion) -> (
    ClientModel,
    ClientAction,
)
    decreases rounds,
{
    if rounds == 0 {
        (ClientModel::started(), ClientAction::CheckReady)
    } else {
        after_failed_rounds((rounds - 1) as nat, completions).0.failed_round(
            completions((rounds - 1) as nat),
        )
    }
}

/// When every attempt fails, the client makes exactly five: after fewer
/// failures it is back at the readiness check, and after the fifth it ends
/// the request with no result.
pub proof fn lemma_gives_up_after_five_failures(
    rounds: nat,
    completions: spec_fn(nat) -> Completion,
)
    requires
        rounds <= MAX_ATTEMPTS,
        forall|k: nat| k < rounds ==> is_failure(#[trigger] completions(k)),
    ensures
        after_failed_rounds(rounds, completions) == if rounds < MAX_ATTEMPTS {
            (ClientModel { tries: rounds, phase: Phase::AwaitingReady }, ClientAction::CheckReady)
        } else {
            (ClientModel { tries: rounds, phase: Phase::Finished }, ClientAction::Finish(None))
        },
    decreases rounds,
{
    if rounds > 0 {
        let before = (rounds - 1) as nat;
        lemma_gives_up_after_five_failures(before, completions);
        lemma_failed_round(after_failed_rounds(before, completions).0, completions(before));
    }
}

} // verus!
