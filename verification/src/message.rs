//! The wire messages exchanged between the proposer and the acceptors.

use vstd::prelude::*;

use crate::id::ProposalId;

verus! {

/// Payload of a prepare-phase message: the sending node and the ballot it
/// concerns.
#[derive(Clone, Copy, Debug, PartialEq, Eq, Structural)]
pub struct PreparePhaseBody {
    pub issuer_id: u64,
    pub proposal_id: ProposalId,
}

/// Payload of an accept-phase message: the sending node, the ballot, and the
/// value to be accepted under that ballot.
#[derive(Clone, Copy, Debug, PartialEq, Eq, Structural)]
pub struct AcceptPhaseBody {
    pub issuer_id: u64,
    pub proposal_id: ProposalId,
    pub value: u64,
}

/// The four wire messages. Requests travel proposer to acceptor, responses
/// acceptor to proposer; both directions share the one union for transport.
#[derive(Clone, Copy, Debug, PartialEq, Eq, Structural)]
pub enum Message {
    PrepareRequest { body: PreparePhaseBody },
    PrepareResponse { body: PreparePhaseBody },
    AcceptRequest { body: AcceptPhaseBody },
    AcceptResponse { body: AcceptPhaseBody },
}

} // verus!
