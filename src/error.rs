use vstd::prelude::*;

verus! {

/// Why a ledger call was refused. Every refused call leaves the ledger as it was.
#[derive(Clone, Copy, Debug, PartialEq, Eq, Structural)]
pub enum VoteError {
    /// `initialize` was called on a ledger that already has an admin.
    AlreadyInitialized,
    /// A gated vote was submitted before any admin was set.
    NotInitialized,
    /// A vote was submitted by someone other than the admin of a gated ledger.
    Unauthorized,
    /// The candidate id lies outside the fixed candidate range.
    InvalidCandidate,
    /// The voter already has a ballot on record.
    AlreadyVoted,
}

} // verus!
