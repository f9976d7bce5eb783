//! Proposer side of single-decree Paxos.
//!
//! The crate models the proposer role of the two-phase (prepare / accept)
//! consensus protocol: ballot identifiers, the wire messages exchanged with
//! the acceptors, the history binding each ballot to its value, and the
//! engine that tallies responses and detects quorum.

pub mod id;
pub mod laws;
pub mod message;
pub mod proposal;
pub mod proposer;
pub mod quorum;
