//! Ballot identifiers: globally unique, ordered by generation time.

use vstd::prelude::*;

verus! {

/// A ballot identifier: the 128-bit value of a time-ordered (version 7)
/// UUID. A numerically greater value denotes a more recent ballot; the
/// identifier with the greatest value wins among competing proposals.
#[derive(Clone, Copy, Debug, PartialEq, Eq, Structural)]
pub struct ProposalId(pub u128);

impl ProposalId {
    /// Relies on `uuid::Uuid::now_v7`: a version-7 UUID built from the
    /// current system time, taken here as its 128-bit integer value.
    /// Nothing is promised of the value: it depends on the clock. The call
    /// aborts if the system clock stands before the Unix epoch.
    #[verifier::external_body]
    pub(crate) fn generate() -> ProposalId {
        ProposalId(uuid::Uuid::now_v7().as_u128())
    }

    /// True when `self` denotes a more recent ballot than `other`.
    pub fn is_after(&self, other: &ProposalId) -> (r: bool)
        ensures
            r == (self.0 > other.0),
    {
        self.0 > other.0
    }
}

} // verus!
