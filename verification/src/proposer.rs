//! The proposer engine: the state machine that drives a two-phase
//! prepare / accept round against the acceptors and detects quorum.

use vstd::prelude::*;

use crate::id::ProposalId;
use crate::message::{AcceptPhaseBody, Message, PreparePhaseBody};
use crate::proposal::{Proposal, ProposalHistory};
use crate::quorum::{quorum_reached, spec_quorum, NodeSet};

verus! {

/// Declares `tokio::sync::broadcast::Sender` so that the engine can hold
/// its broadcast handle; the type stays opaque to verification.
#[verifier::external_type_specification]
#[verifier::external_body]
#[verifier::reject_recursive_types(T)]
pub struct ExBroadcastSender<T>(tokio::sync::broadcast::Sender<T>);

/// Relies on `tokio::sync::broadcast::Sender::send`: with at least one
/// receiver subscribed at the instant of the call it queues the message and
/// returns how many there were — at least one, though a receiver that lags
/// behind or drops may still never observe it; with none subscribed the
/// message itself comes back as the error.
#[verifier::external_body]
fn broadcast_message(
    sender: &tokio::sync::broadcast::Sender<Message>,
    message: Message,
) -> (r: Result<usize, Message>)
    ensures
        r matches Err(m) ==> m == message,
        r matches Ok(n) ==> n >= 1,
{
    sender.send(message).map_err(|e| e.0)
}

/// Where the engine stands in the current round.
#[derive(Clone, Copy, Debug, PartialEq, Eq, Structural)]
pub enum Phase {
    /// No round has been started yet.
    Idle,
    /// A prepare request is out; prepare responses are being tallied.
    Preparing,
    /// An accept request is out; accept responses are being tallied.
    Accepting,
    /// A strict majority accepted: consensus is reached for this round.
    Decided,
}

/// The failures the engine surfaces instead of panicking.
#[derive(Clone, Copy, Debug, PartialEq, Eq, Structural)]
pub enum ProposerError {
    /// A ballot that must have been recorded in history is absent from it:
    /// the append-before-reference invariant was violated, fatal to the
    /// round.
    MissingHistoryEntry(ProposalId),
    /// An accept request was asked for before any round bound a proposal.
    NoActiveProposal,
    /// The broadcast channel has no subscribed acceptor to deliver to; the
    /// caller may retry once acceptors are back.
    BroadcastUnavailable,
}

/// The mathematical state of the engine: the latest proposal as a
/// (ballot, value) pair, the history as a map, and the two tallies as sets
/// of acceptor identifiers.
#[verifier::ext_equal]
pub struct ProposerView {
    pub id: u64,
    pub latest: Option<(u128, u64)>,
    pub history: Map<u128, u64>,
    pub prepared: Set<u64>,
    pub accepted: Set<u64>,
    pub phase: Phase,
}

/// The abstraction of an optional concrete proposal.
pub open spec fn latest_of(p: Option<Proposal>) -> Option<(u128, u64)> {
    match p {
        Some(pr) => Some((pr.id.0, pr.value)),
        None => None,
    }
}

/// A prepare response that cannot be tallied: it carries a ballot more
/// recent than the current latest which the history never recorded, so the
/// value that would have to be re-proposed is unknown.
pub open spec fn prepare_missing(s: ProposerView, rid: u128) -> bool {
    match s.latest {
        Some(l) => rid > l.0 && !s.history.contains_key(rid),
        None => false,
    }
}

/// The latest proposal after a prepare response carrying ballot `rid`:
/// adopted, with the value history binds to it, when `rid` is more recent
/// than the current latest; kept unchanged otherwise.
pub open spec fn adopted_latest(s: ProposerView, rid: u128) -> Option<(u128, u64)> {
    match s.latest {
        Some(l) => if rid > l.0 {
            Some((rid, s.history[rid]))
        } else {
            Some(l)
        },
        None => None,
    }
}

/// The state change one tallied prepare response makes: the ballot is
/// adopted if more recent, and the responder joins the prepared tally.
/// Whether the quorum so reached also fires the accept broadcast is
/// settled by the handler's contract.
pub open spec fn prepare_step(s: ProposerView, body: PreparePhaseBody) -> ProposerView {
    ProposerView {
        latest: adopted_latest(s, body.proposal_id.0),
        prepared: s.prepared.insert(body.issuer_id),
        ..s
    }
}

/// The state after one accept response with `acceptor_count` acceptors in
/// view: the responder joins the accepted tally, and in the accepting
/// phase a strict majority decides the round.
pub open spec fn accept_step(s: ProposerView, body: AcceptPhaseBody, acceptor_count: nat) -> ProposerView {
    let accepted = s.accepted.insert(body.issuer_id);
    ProposerView {
        accepted,
        phase: if s.phase == Phase::Accepting && spec_quorum(accepted.len(), acceptor_count) {
            Phase::Decided
        } else {
            s.phase
        },
        ..s
    }
}

/// The consensus event an accept response fires: the value of the latest
/// proposal at the moment a strict majority is first reached, and nothing
/// at any other moment.
pub open spec fn accept_event(s: ProposerView, body: AcceptPhaseBody, acceptor_count: nat) -> Option<u64> {
    if s.phase == Phase::Accepting
        && spec_quorum(s.accepted.insert(body.issuer_id).len(), acceptor_count) {
        match s.latest {
            Some(l) => Some(l.1),
            None => None,
        }
    } else {
        None
    }
}

/// Node that broadcasts proposals to all the acceptors and tallies their
/// responses. All state is per-proposer and ephemeral; a new round resets
/// the tallies.
pub struct Proposer {
    pub id: u64,
    /// Interface to broadcast messages to the acceptors.
    pub acceptor_sender: tokio::sync::broadcast::Sender<Message>,
    /// The id and value of the latest proposal set to be accepted by any
    /// acceptor.
    pub latest_proposal: Option<Proposal>,
    /// History of proposals known to this proposer, and their values.
    pub proposal_history: ProposalHistory,
    /// Nodes that replied to the prepare request.
    pub prepared_nodes: NodeSet,
    /// Nodes that replied to the accept request.
    pub accepted_value_nodes: NodeSet,
    /// Where the engine stands in the current round.
    pub phase: Phase,
}

impl View for Proposer {
    type V = ProposerView;

    open spec fn view(&self) -> ProposerView {
        ProposerView {
            id: self.id,
            latest: latest_of(self.latest_proposal),
            history: self.proposal_history@,
            prepared: self.prepared_nodes@,
            accepted: self.accepted_value_nodes@,
            phase: self.phase,
        }
    }
}

impl Proposer {
    /// Well-formedness: the parts keep their invariants, the latest
    /// proposal is bound in history to exactly its value, and any started
    /// round has a latest proposal.
    pub open spec fn wf(&self) -> bool {
        &&& self.proposal_history.wf()
        &&& self.prepared_nodes.wf()
        &&& self.accepted_value_nodes.wf()
        &&& match self@.latest {
            Some(l) => self@.history.contains_key(l.0) && self@.history[l.0] == l.1,
            None => self.phase == Phase::Idle,
        }
    }

    pub fn new(acceptor_sender: tokio::sync::broadcast::Sender<Message>) -> (r: Proposer)
        ensures
            r.wf(),
            r@.id == 1,
            r@.latest is None,
            r@.history == Map::<u128, u64>::empty(),
            r@.prepared == Set::<u64>::empty(),
            r@.accepted == Set::<u64>::empty(),
            r@.phase == Phase::Idle,
    {
        let id: u64 = 1;
        Proposer {
            id,
            acceptor_sender,
            latest_proposal: None,
            proposal_history: ProposalHistory::new(),
            prepared_nodes: NodeSet::new(),
            accepted_value_nodes: NodeSet::new(),
            phase: Phase::Idle,
        }
    }

    /// Start a round under ballot `id` for `value`: record the binding in
    /// history (insert-if-absent), adopt as latest the value history
    /// actually binds to the ballot, reset both tallies, and broadcast the
    /// prepare request to all acceptors.
    pub fn begin_round(&mut self, id: ProposalId, value: u64) -> (r: Result<(), ProposerError>)
        requires
            old(self).wf(),
        ensures
            final(self).wf(),
            final(self)@.id == old(self)@.id,
            old(self)@.history.contains_key(id.0) ==> final(self)@.history == old(self)@.history,
            !old(self)@.history.contains_key(id.0) ==> final(self)@.history == old(
                self,
            )@.history.insert(id.0, value),
            final(self)@.latest == Some((id.0, final(self)@.history[id.0])),
            final(self)@.prepared == Set::<u64>::empty(),
            final(self)@.accepted == Set::<u64>::empty(),
            final(self)@.phase == Phase::Preparing,
            r is Ok || r == Err::<(), ProposerError>(ProposerError::BroadcastUnavailable),
    {
        self.proposal_history.record(id, value);
        let bound = match self.proposal_history.lookup(id) {
            Some(v) => v,
            None => unreached(),  // the binding was just recorded
        };
        self.latest_proposal = Some(Proposal::new(bound, id));
        self.prepared_nodes = NodeSet::new();
        self.accepted_value_nodes = NodeSet::new();
        self.phase = Phase::Preparing;
        let body = self.prepare_request_body(id);
        match broadcast_message(&self.acceptor_sender, Message::PrepareRequest { body }) {
            Ok(_) => Ok(()),
            Err(_) => Err(ProposerError::BroadcastUnavailable),
        }
    }

    /// The prepare-phase payload a round under ballot `id` broadcasts: this
    /// proposer as the issuer, asking the acceptors to promise that ballot.
    pub fn prepare_request_body(&self, id: ProposalId) -> (r: PreparePhaseBody)
        ensures
            r == (PreparePhaseBody { issuer_id: self@.id, proposal_id: id }),
    {
        PreparePhaseBody { issuer_id: self.id, proposal_id: id }
    }

    /// The beginning of the protocol: a value received from the client is
    /// assigned a freshly generated ballot and proposed to all acceptors.
    pub fn send_prepare_request(&mut self, value: u64) -> (r: Result<(), ProposerError>)
        requires
            old(self).wf(),
        ensures
            final(self).wf(),
            final(self)@.id == old(self)@.id,
            final(self)@.prepared == Set::<u64>::empty(),
            final(self)@.accepted == Set::<u64>::empty(),
            final(self)@.phase == Phase::Preparing,
            exists|i: u128|
                #![auto]
                {
                    &&& final(self)@.latest == Some((i, final(self)@.history[i]))
                    &&& (old(self)@.history.contains_key(i) ==> final(self)@.history == old(
                        self,
                    )@.history)
                    &&& (!old(self)@.history.contains_key(i) ==> final(self)@.history == old(
                        self,
                    )@.history.insert(i, value))
                },
            r is Ok || r == Err::<(), ProposerError>(ProposerError::BroadcastUnavailable),
    {
        let id = ProposalId::generate();
        let r = self.begin_round(id, value);
        proof {
            assert(self@.latest == Some((id.0, self@.history[id.0])));
        }
        r
    }

    /// The accept-phase payload the current round stands for: the latest
    /// proposal's ballot, carrying the value history binds to it.
    pub fn accept_request_body(&self) -> (r: Result<AcceptPhaseBody, ProposerError>)
        requires
            self.wf(),
        ensures
            match self@.latest {
                None => r == Err::<AcceptPhaseBody, ProposerError>(
                    ProposerError::NoActiveProposal,
                ),
                Some(l) => r == Ok::<AcceptPhaseBody, ProposerError>(
                    AcceptPhaseBody {
                        issuer_id: self@.id,
                        proposal_id: ProposalId(l.0),
                        value: l.1,
                    },
                ),
            },
    {
        let latest = match &self.latest_proposal {
            Some(p) => *p,
            None => {
                return Err(ProposerError::NoActiveProposal);
            },
        };
        match self.proposal_history.lookup(latest.id) {
            Some(value) => Ok(
                AcceptPhaseBody { issuer_id: self.id, proposal_id: latest.id, value },
            ),
            None => {
                // well-formedness binds the latest proposal in history
                Err(ProposerError::MissingHistoryEntry(latest.id))
            },
        }
    }

    /// Broadcast the accept request for the latest proposal, its value read
    /// from history. Surfaces `NoActiveProposal` when no round ever bound a
    /// proposal and `BroadcastUnavailable` when no acceptor is subscribed;
    /// the engine state itself is left untouched.
    pub fn send_accept_request(&mut self) -> (r: Result<(), ProposerError>)
        requires
            old(self).wf(),
        ensures
            *final(self) == *old(self),
            old(self)@.latest is None ==> r == Err::<(), ProposerError>(
                ProposerError::NoActiveProposal,
            ),
            old(self)@.latest is Some ==> (r is Ok || r == Err::<(), ProposerError>(
                ProposerError::BroadcastUnavailable,
            )),
    {
        let body = match self.accept_request_body() {
            Ok(b) => b,
            Err(e) => {
                return Err(e);
            },
        };
        match broadcast_message(&self.acceptor_sender, Message::AcceptRequest { body }) {
            Ok(_) => Ok(()),
            Err(_) => Err(ProposerError::BroadcastUnavailable),
        }
    }

    /// Tally a prepare response with `acceptor_count` acceptors in view:
    /// adopt the response's ballot when it is more recent than the latest
    /// (failing with `MissingHistoryEntry` when history never recorded that
    /// ballot), record the responder, and on a strict majority while still
    /// preparing broadcast the accept request once and move to the
    /// accepting phase.
    pub fn handle_prepare_response(
        &mut self,
        received_proposal: PreparePhaseBody,
        acceptor_count: usize,
    ) -> (r: Result<(), ProposerError>)
        requires
            old(self).wf(),
        ensures
            final(self).wf(),
            prepare_missing(old(self)@, received_proposal.proposal_id.0) ==> {
                &&& r == Err::<(), ProposerError>(
                    ProposerError::MissingHistoryEntry(received_proposal.proposal_id),
                )
                &&& *final(self) == *old(self)
            },
            !prepare_missing(old(self)@, received_proposal.proposal_id.0) ==> ({
                let stepped = prepare_step(old(self)@, received_proposal);
                let fires = old(self)@.phase == Phase::Preparing && spec_quorum(
                    stepped.prepared.len(),
                    acceptor_count as nat,
                );
                &&& (!fires ==> r is Ok && final(self)@ == stepped)
                &&& (fires ==> {
                    ||| (r is Ok && final(self)@ == (ProposerView {
                        phase: Phase::Accepting,
                        ..stepped
                    }))
                    ||| (r == Err::<(), ProposerError>(ProposerError::BroadcastUnavailable)
                        && final(self)@ == stepped)
                })
            }),
    {
        let received_proposal_id = received_proposal.proposal_id;
        let node_id = received_proposal.issuer_id;

        if let Some(latest) = self.latest_proposal {
            // A node saw a more up-to-date ballot: re-propose the value
            // history binds to it, never a fresh one.
            if received_proposal_id.is_after(&latest.id) {
                let value = match self.proposal_history.lookup(received_proposal_id) {
                    Some(v) => v,
                    None => {
                        return Err(ProposerError::MissingHistoryEntry(received_proposal_id));
                    },
                };
                self.latest_proposal = Some(Proposal { id: received_proposal_id, value });
            }
        }
        self.prepared_nodes.insert(node_id);

        if self.phase == Phase::Preparing {
            let votes = self.prepared_nodes.len();
            if quorum_reached(votes, acceptor_count) {
                match self.send_accept_request() {
                    Ok(_) => {
                        self.phase = Phase::Accepting;
                    },
                    Err(e) => {
                        return Err(e);
                    },
                }
            }
        }
        Ok(())
    }

    /// Tally an accept response with `acceptor_count` acceptors in view:
    /// record the responder; in the accepting phase the first strict
    /// majority decides the round, and the decided value — the one the
    /// latest proposal carries — is returned exactly once.
    pub fn handle_accept_response(
        &mut self,
        received_message: AcceptPhaseBody,
        acceptor_count: usize,
    ) -> (r: Option<u64>)
        requires
            old(self).wf(),
        ensures
            final(self).wf(),
            final(self)@ == accept_step(old(self)@, received_message, acceptor_count as nat),
            r == accept_event(old(self)@, received_message, acceptor_count as nat),
    {
        self.accepted_value_nodes.insert(received_message.issuer_id);

        if self.phase == Phase::Accepting {
            let votes = self.accepted_value_nodes.len();
            if quorum_reached(votes, acceptor_count) {
                // consensus: remaining accept responses only keep counting
                self.phase = Phase::Decided;
                let latest = match &self.latest_proposal {
                    Some(p) => *p,
                    None => unreached(),  // an accepting round has a latest proposal
                };
                return Some(latest.value);
            }
        }
        None
    }

    /// React to one message from the acceptor channel, with
    /// `acceptor_count` acceptors in view. Responses are tallied; request
    /// messages — the proposer's own kind of traffic — are ignored.
    /// Returns the decided value when this very message completes the
    /// round.
    pub fn handle_message(&mut self, received_message: Message, acceptor_count: usize) -> (r:
        Result<Option<u64>, ProposerError>)
        requires
            old(self).wf(),
        ensures
            final(self).wf(),
            match received_message {
                Message::PrepareResponse { body } => {
                    &&& prepare_missing(old(self)@, body.proposal_id.0) ==> {
                        &&& r == Err::<Option<u64>, ProposerError>(
                            ProposerError::MissingHistoryEntry(body.proposal_id),
                        )
                        &&& *final(self) == *old(self)
                    }
                    &&& !prepare_missing(old(self)@, body.proposal_id.0) ==> ({
                        let stepped = prepare_step(old(self)@, body);
                        let fires = old(self)@.phase == Phase::Preparing && spec_quorum(
                            stepped.prepared.len(),
                            acceptor_count as nat,
                        );
                        &&& (!fires ==> r == Ok::<Option<u64>, ProposerError>(None)
                            && final(self)@ == stepped)
                        &&& (fires ==> {
                            ||| (r == Ok::<Option<u64>, ProposerError>(None) && final(self)@
                                == (ProposerView { phase: Phase::Accepting, ..stepped }))
                            ||| (r == Err::<Option<u64>, ProposerError>(
                                ProposerError::BroadcastUnavailable,
                            ) && final(self)@ == stepped)
                        })
                    })
                },
                Message::AcceptResponse { body } => {
                    &&& final(self)@ == accept_step(old(self)@, body, acceptor_count as nat)
                    &&& r == Ok::<Option<u64>, ProposerError>(
                        accept_event(old(self)@, body, acceptor_count as nat),
                    )
                },
                Message::PrepareRequest { .. } => r == Ok::<Option<u64>, ProposerError>(None)
                    && *final(self) == *old(self),
                Message::AcceptRequest { .. } => r == Ok::<Option<u64>, ProposerError>(None)
                    && *final(self) == *old(self),
            },
    {
        match received_message {
            Message::PrepareResponse { body } => {
                match self.handle_prepare_response(body, acceptor_count) {
                    Ok(_) => Ok(None),
                    Err(e) => Err(e),
                }
            },
            Message::AcceptResponse { body } => {
                Ok(self.handle_accept_response(body, acceptor_count))
            },
            Message::PrepareRequest { .. } => Ok(None),
            Message::AcceptRequest { .. } => Ok(None),
        }
    }
}

} // verus!
