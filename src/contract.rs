use vstd::prelude::*;
use crate::error::VoteError;
use crate::ledger::{Address, Env, LedgerState};

verus! {

/// The open ledger: anyone may vote for themselves, for any candidate id.
/// On a gated ledger its votes are refused, since there only the admin votes.
pub struct Contract;

impl Contract {
    /// What an open vote returns: it fails on a gated ledger, and for a voter
    /// who already voted.
    pub open spec fn vote_result(s: LedgerState, voter: u64) -> Result<(), VoteError> {
        if s.gated {
            Err(VoteError::Unauthorized)
        } else if s.has_voted(voter) {
            Err(VoteError::AlreadyVoted)
        } else {
            Ok(())
        }
    }

    /// Casts the ballot of `voter` for `candidate_id`.
    pub fn vote(env: &mut Env, voter: Address, candidate_id: u32) -> (r: Result<(), VoteError>)
        requires
            old(env).wf(),
            Self::vote_result(old(env)@, voter.id) is Ok ==> old(env)@.count(candidate_id) < u32::MAX,
        ensures
            final(env).wf(),
            r == Self::vote_result(old(env)@, voter.id),
            final(env)@ == old(env)@.after_vote(r, voter.id, candidate_id),
    {
        if env.is_gated() {
            return Err(VoteError::Unauthorized);
        }
        if Self::has_voted(env, voter) {
            return Err(VoteError::AlreadyVoted);
        }
        env.record_vote(voter, candidate_id);
        Ok(())
    }

    /// Whether `voter` has a ballot on record.
    pub fn has_voted(env: &Env, voter: Address) -> (r: bool)
        requires
            env.wf(),
        ensures
            r == env@.has_voted(voter.id),
    {
        env.voted(voter)
    }

    /// The counter of `candidate_id`, 0 for a candidate without votes.
    pub fn get_vote_count(env: &Env, candidate_id: u32) -> (r: u32)
        ensures
            r == env@.count(candidate_id),
    {
        env.count(candidate_id)
    }
}

} // verus!
