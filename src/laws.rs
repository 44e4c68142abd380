use vstd::prelude::*;
use crate::contract::Contract;
use crate::error::VoteError;
use crate::ledger::{Env, LedgerState};
use crate::voting_contract::{VotingContract, CANDIDATE_COUNT};

verus! {

/// A new ledger has no voter marker.
pub proof fn lemma_no_voter_at_start(gated: bool, voter: u64)
    ensures
        !LedgerState::empty(gated).has_voted(voter),
{
}

/// A gated vote never clears a voter marker, and it sets one only for the
/// voter it names, and only when it succeeds, and that voter had none before.
pub proof fn lemma_gated_vote_marks_only_its_voter(
    s: LedgerState,
    caller: u64,
    voter: u64,
    candidate_id: u32,
)
    ensures
        ({
            let r = VotingContract::vote_result(s, caller, voter, candidate_id);
            let t = s.after_vote(r, voter, candidate_id);
            &&& forall|v: u64| s.has_voted(v) ==> #[trigger] t.has_voted(v)
            &&& forall|v: u64| #[trigger] t.has_voted(v) && !s.has_voted(v) ==> v == voter && r is Ok
            &&& r is Ok ==> !s.has_voted(voter) && t.has_voted(voter)
        }),
{
}

/// An open vote never clears a voter marker, and it sets one only for the
/// voter it names, and only when it succeeds, and that voter had none before.
pub proof fn lemma_open_vote_marks_only_its_voter(s: LedgerState, voter: u64, candidate_id: u32)
    ensures
        ({
            let r = Contract::vote_result(s, voter);
            let t = s.after_vote(r, voter, candidate_id);
            &&& forall|v: u64| s.has_voted(v) ==> #[trigger] t.has_voted(v)
            &&& forall|v: u64| #[trigger] t.has_voted(v) && !s.has_voted(v) ==> v == voter && r is Ok
            &&& r is Ok ==> !s.has_voted(voter) && t.has_voted(voter)
        }),
{
}

/// Initialization leaves every voter marker as it was.
pub proof fn lemma_initialize_keeps_voter_markers(s: LedgerState, admin: u64)
    ensures
        forall|v: u64|
            #[trigger] s.initialized(admin, CANDIDATE_COUNT).has_voted(v) == s.has_voted(v),
{
}

/// In every ledger, each candidate's counter equals the number of distinct
/// voters whose accepted ballot named that candidate.
pub proof fn lemma_count_is_distinct_voters(env: &Env)
    requires
        env.wf(),
    ensures
        forall|c: u32| #[trigger] env@.count(c) == env@.voters_for(c).len(),
{
}

/// After a successful gated vote, a second gated vote by the same admin for
/// the same voter fails with `AlreadyVoted` for every candidate in range,
/// and changes nothing.
pub proof fn lemma_gated_second_vote_refused(
    s: LedgerState,
    caller: u64,
    voter: u64,
    first: u32,
    second: u32,
)
    requires
        VotingContract::vote_result(s, caller, voter, first) is Ok,
        second < CANDIDATE_COUNT,
    ensures
        ({
            let t = s.cast(voter, first);
            let r = VotingContract::vote_result(t, caller, voter, second);
            &&& r == Err::<(), VoteError>(VoteError::AlreadyVoted)
            &&& t.after_vote(r, voter, second) == t
        }),
{
}

/// After a successful open vote, a second open vote for the same voter fails
/// with `AlreadyVoted` whatever the candidate id, and changes nothing.
pub proof fn lemma_open_second_vote_refused(s: LedgerState, voter: u64, first: u32, second: u32)
    requires
        Contract::vote_result(s, voter) is Ok,
    ensures
        ({
            let t = s.cast(voter, first);
            let r = Contract::vote_result(t, voter);
            &&& r == Err::<(), VoteError>(VoteError::AlreadyVoted)
            &&& t.after_vote(r, voter, second) == t
        }),
{
}

/// Whatever the first `initialize` did, a second one fails with
/// `AlreadyInitialized` and leaves the store, every counter included, as it
/// was.
pub proof fn lemma_initialize_once(s: LedgerState, first: u64, second: u64)
    ensures
        ({
            let t = s.after_initialize(VotingContract::initialize_result(s), first, CANDIDATE_COUNT);
            let r = VotingContract::initialize_result(t);
            &&& r == Err::<(), VoteError>(VoteError::AlreadyInitialized)
            &&& t.after_initialize(r, second, CANDIDATE_COUNT) == t
        }),
{
}

/// A vote by the admin for a candidate id outside the range fails with
/// `InvalidCandidate` and changes nothing.
pub proof fn lemma_out_of_range_vote_refused(
    s: LedgerState,
    caller: u64,
    voter: u64,
    candidate_id: u32,
)
    requires
        s.admin == Some(caller),
        candidate_id >= CANDIDATE_COUNT,
    ensures
        ({
            let r = VotingContract::vote_result(s, caller, voter, candidate_id);
            &&& r == Err::<(), VoteError>(VoteError::InvalidCandidate)
            &&& s.after_vote(r, voter, candidate_id) == s
        }),
{
}

} // verus!
