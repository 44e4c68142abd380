use vstd::prelude::*;
use crate::error::VoteError;
use crate::ledger::{Address, DataKey, Env, LedgerState};

verus! {

/// The number of candidates of the gated ledger; their ids are `0..CANDIDATE_COUNT`.
pub const CANDIDATE_COUNT: u32 = 3;

/// The gated ledger: an admin, set once, submits every ballot, and only the
/// candidates below `CANDIDATE_COUNT` exist.
pub struct VotingContract;

impl VotingContract {
    /// What `initialize` returns: it fails once an admin is stored.
    pub open spec fn initialize_result(s: LedgerState) -> Result<(), VoteError> {
        if s.is_initialized() {
            Err(VoteError::AlreadyInitialized)
        } else {
            Ok(())
        }
    }

    /// What a gated vote returns. The checks come in this order: the admin,
    /// the candidate's range, then the voter's marker.
    pub open spec fn vote_result(s: LedgerState, caller: u64, voter: u64, candidate_id: u32) -> Result<(), VoteError> {
        match s.admin {
            None => Err(VoteError::NotInitialized),
            Some(a) => if a != caller {
                Err(VoteError::Unauthorized)
            } else if candidate_id >= CANDIDATE_COUNT {
                Err(VoteError::InvalidCandidate)
            } else if s.has_voted(voter) {
                Err(VoteError::AlreadyVoted)
            } else {
                Ok(())
            },
        }
    }

    /// Sets `admin` as the admin of a gated ledger and stores a counter of 0
    /// for each candidate.
    pub fn initialize(env: &mut Env, admin: Address) -> (r: Result<(), VoteError>)
        requires
            old(env).wf(),
            old(env)@.gated,
        ensures
            final(env).wf(),
            r == Self::initialize_result(old(env)@),
            final(env)@ == old(env)@.after_initialize(r, admin.id, CANDIDATE_COUNT),
            r is Ok ==> final(env)@.admin == Some(admin.id),
            r is Ok ==> forall|c: u32| c < CANDIDATE_COUNT ==> #[trigger] final(env)@.count(c) == 0,
    {
        if env.has(&DataKey::Admin) {
            return Err(VoteError::AlreadyInitialized);
        }
        env.set_up(admin, CANDIDATE_COUNT);
        Ok(())
    }

    /// Casts, on the admin's authority, the ballot of `voter` for `candidate_id`.
    pub fn vote(env: &mut Env, caller: Address, voter: Address, candidate_id: u32) -> (r: Result<(), VoteError>)
        requires
            old(env).wf(),
            Self::vote_result(old(env)@, caller.id, voter.id, candidate_id) is Ok
                ==> old(env)@.count(candidate_id) < u32::MAX,
        ensures
            final(env).wf(),
            r == Self::vote_result(old(env)@, caller.id, voter.id, candidate_id),
            final(env)@ == old(env)@.after_vote(r, voter.id, candidate_id),
    {
        match env.admin() {
            None => {
                return Err(VoteError::NotInitialized);
            },
            Some(a) => {
                if a.id != caller.id {
                    return Err(VoteError::Unauthorized);
                }
            },
        }
        if candidate_id >= CANDIDATE_COUNT {
            return Err(VoteError::InvalidCandidate);
        }
        if env.has(&DataKey::HasVoted(voter)) {
            return Err(VoteError::AlreadyVoted);
        }
        env.record_vote(voter, candidate_id);
        Ok(())
    }

    /// The counter of `candidate_id`, 0 for a candidate without votes; an id
    /// outside the candidate range is refused.
    pub fn get_vote_count(env: &Env, candidate_id: u32) -> (r: Result<u32, VoteError>)
        ensures
            candidate_id < CANDIDATE_COUNT ==> r == Ok::<u32, VoteError>(env@.count(candidate_id) as u32),
            candidate_id >= CANDIDATE_COUNT ==> r == Err::<u32, VoteError>(VoteError::InvalidCandidate),
    {
        if candidate_id >= CANDIDATE_COUNT {
            return Err(VoteError::InvalidCandidate);
        }
        Ok(env.count(candidate_id))
    }

    /// Whether `voter` has a ballot on record.
    pub fn has_voted(env: &Env, voter: Address) -> (r: bool)
        requires
            env.wf(),
        ensures
            r == env@.has_voted(voter.id),
    {
        env.has(&DataKey::HasVoted(voter))
    }
}

/// An entry point that the hosting platform's deployment tooling expects; it does nothing.
pub fn test() {
}

/// An entry point that the hosting platform's deployment tooling expects; it does nothing.
pub fn deploy() {
}

/// An entry point that the hosting platform's deployment tooling expects; it does nothing.
pub fn upgrade() {
}

} // verus!
