use std::collections::HashMap;
use std::collections::HashSet;
use vstd::prelude::*;
use crate::error::VoteError;

verus! {

broadcast use vstd::std_specs::hash::group_hash_axioms;

/// An identity known to the ledger: an admin or a voter.
#[derive(Clone, Copy, Debug, PartialEq, Eq, Structural, Hash)]
pub struct Address {
    pub id: u64,
}

/// A key of the ledger's store. The namespace tag is part of every key, so
/// keys of different namespaces never collide.
#[derive(Clone, Copy, Debug, PartialEq, Eq, Structural)]
pub enum DataKey {
    /// The admin marker.
    Admin,
    /// The vote counter of a candidate.
    VoteCount(u32),
    /// The has-voted marker of a voter.
    HasVoted(Address),
}

/// The abstract contents of a ledger's store.
pub struct LedgerState {
    /// Whether the ledger is admin-gated, fixed when it is made: only a gated
    /// ledger has an admin, and only an open one takes unauthenticated votes.
    pub gated: bool,
    /// The admin marker, by identity; `None` until the ledger is initialized.
    pub admin: Option<u64>,
    /// The stored counters, by candidate id.
    pub counts: Map<u32, u32>,
    /// Each voter with a ballot on record, mapped to the candidate that
    /// ballot named. Only the voter markers are stored; the candidates are
    /// kept as ghost state to tie the counters to the ballots.
    pub ballots: Map<u64, u32>,
}

impl LedgerState {
    /// The store of a new ledger: nothing in it.
    pub open spec fn empty(gated: bool) -> LedgerState {
        LedgerState { gated, admin: None, counts: Map::empty(), ballots: Map::empty() }
    }

    pub open spec fn is_initialized(self) -> bool {
        self.admin is Some
    }

    pub open spec fn has_voted(self, voter: u64) -> bool {
        self.ballots.contains_key(voter)
    }

    /// The counter of a candidate, 0 when none is stored.
    pub open spec fn count(self, candidate: u32) -> int {
        if self.counts.contains_key(candidate) {
            self.counts[candidate] as int
        } else {
            0
        }
    }

    /// The voters whose ballot named `candidate`.
    pub open spec fn voters_for(self, candidate: u32) -> Set<u64> {
        self.ballots.dom().filter(|v: u64| self.ballots[v] == candidate)
    }

    /// Whether `key` is present in the store.
    pub open spec fn has(self, key: DataKey) -> bool {
        match key {
            DataKey::Admin => self.admin is Some,
            DataKey::VoteCount(c) => self.counts.contains_key(c),
            DataKey::HasVoted(v) => self.ballots.contains_key(v.id),
        }
    }

    /// Every counter equals the number of distinct voters whose ballot named
    /// its candidate; an open ledger has no admin; a gated ledger without an
    /// admin holds no counter and no ballot.
    pub open spec fn wf(self) -> bool {
        &&& !self.gated ==> self.admin is None
        &&& self.gated && self.admin is None ==> self.counts == Map::<u32, u32>::empty()
            && self.ballots == Map::<u64, u32>::empty()
        &&& self.ballots.dom().finite()
        &&& forall|c: u32| #[trigger] self.count(c) == self.voters_for(c).len()
    }

    /// The store after an accepted ballot of `voter` for `candidate`: the
    /// voter marker is set and the candidate's counter grows by one.
    pub open spec fn cast(self, voter: u64, candidate: u32) -> LedgerState {
        LedgerState {
            gated: self.gated,
            admin: self.admin,
            counts: self.counts.insert(candidate, (self.count(candidate) + 1) as u32),
            ballots: self.ballots.insert(voter, candidate),
        }
    }

    /// A counter of 0 for each of the first `n` candidates.
    pub open spec fn zero_counts(n: u32) -> Map<u32, u32> {
        Map::new(|c: u32| c < n, |c: u32| 0u32)
    }

    /// The store after a vote call that returned `r`: the ballot is recorded
    /// when the call succeeded, and nothing changes when it failed.
    pub open spec fn after_vote(self, r: Result<(), VoteError>, voter: u64, candidate: u32) -> LedgerState {
        if r is Ok {
            self.cast(voter, candidate)
        } else {
            self
        }
    }

    /// The store after initialization with `admin` for `n` candidates: the
    /// admin marker is set and a counter of 0 is stored for each candidate.
    pub open spec fn initialized(self, admin: u64, n: u32) -> LedgerState {
        LedgerState {
            gated: self.gated,
            admin: Some(admin),
            counts: self.counts.union_prefer_right(Self::zero_counts(n)),
            ballots: self.ballots,
        }
    }

    /// The store after an `initialize` call that returned `r`.
    pub open spec fn after_initialize(self, r: Result<(), VoteError>, admin: u64, n: u32) -> LedgerState {
        if r is Ok {
            self.initialized(admin, n)
        } else {
            self
        }
    }
}

/// The durable store of one ledger instance.
pub struct Env {
    gated: bool,
    admin: Option<Address>,
    counts: HashMap<u32, u32>,
    voted: HashSet<u64>,
    ballots: Ghost<Map<u64, u32>>,
}

impl View for Env {
    type V = LedgerState;

    closed spec fn view(&self) -> LedgerState {
        LedgerState {
            gated: self.gated,
            admin: match self.admin {
                Some(a) => Some(a.id),
                None => None,
            },
            counts: self.counts@,
            ballots: self.ballots@,
        }
    }
}

impl Env {
    /// The stored voter markers are exactly the voters with a ballot.
    pub closed spec fn markers_agree(&self) -> bool {
        self.voted@ == self.ballots@.dom()
    }

    pub open spec fn wf(&self) -> bool {
        self@.wf() && self.markers_agree()
    }

    /// An open ledger with an empty store.
    pub fn new_open() -> (r: Env)
        ensures
            r@ == LedgerState::empty(false),
            r.wf(),
    {
        Self::with_access(false)
    }

    /// An admin-gated ledger with an empty store.
    pub fn new_gated() -> (r: Env)
        ensures
            r@ == LedgerState::empty(true),
            r.wf(),
    {
        Self::with_access(true)
    }

    fn with_access(gated: bool) -> (r: Env)
        ensures
            r@ == LedgerState::empty(gated),
            r.wf(),
    {
        let r = Env {
            gated,
            admin: None,
            counts: HashMap::new(),
            voted: HashSet::new(),
            ballots: Ghost(Map::empty()),
        };
        proof {
            assert forall|c: u32| #[trigger] r@.count(c) == r@.voters_for(c).len() by {
                assert(r@.voters_for(c) =~= Set::empty());
            }
        }
        r
    }

    /// Whether `key` is present in the store.
    pub fn has(&self, key: &DataKey) -> (r: bool)
        requires
            self.wf(),
        ensures
            r == self@.has(*key),
    {
        match key {
            DataKey::Admin => self.admin.is_some(),
            DataKey::VoteCount(c) => self.counts.contains_key(c),
            DataKey::HasVoted(v) => self.voted.contains(&v.id),
        }
    }

    /// The stored admin, if any.
    pub fn admin(&self) -> (r: Option<Address>)
        ensures
            r is Some <==> self@.admin is Some,
            r is Some ==> self@.admin == Some(r->0.id),
    {
        self.admin
    }

    /// Whether the ledger is admin-gated.
    pub fn is_gated(&self) -> (r: bool)
        ensures
            r == self@.gated,
    {
        self.gated
    }

    /// Whether the voter's marker is stored.
    pub fn voted(&self, voter: Address) -> (r: bool)
        requires
            self.wf(),
        ensures
            r == self@.has_voted(voter.id),
    {
        self.voted.contains(&voter.id)
    }

    /// The candidate's counter, 0 when none is stored.
    pub fn count(&self, candidate: u32) -> (r: u32)
        ensures
            r == self@.count(candidate),
    {
        match self.counts.get(&candidate) {
            Some(n) => *n,
            None => 0,
        }
    }

    /// Stores the admin marker and a counter of 0 for each of the first `n`
    /// candidates of a gated ledger that has no admin yet.
    pub(crate) fn set_up(&mut self, admin: Address, n: u32)
        requires
            old(self).wf(),
            old(self)@.gated,
            old(self)@.admin is None,
        ensures
            final(self).wf(),
            final(self)@ == old(self)@.initialized(admin.id, n),
    {
        self.admin = Some(admin);
        let mut i: u32 = 0;
        while i < n
            invariant
                i <= n,
                self.gated,
                self.markers_agree() == old(self).markers_agree(),
                self.voted@ == old(self).voted@,
                self.ballots@ == Map::<u64, u32>::empty(),
                self@.admin == Some(admin.id),
                self@.counts == LedgerState::zero_counts(i),
            decreases n - i,
        {
            self.counts.insert(i, 0);
            assert(self@.counts =~= LedgerState::zero_counts((i + 1) as u32));
            i = i + 1;
        }
        proof {
            assert forall|c: u32| #[trigger] self@.count(c) == self@.voters_for(c).len() by {
                assert(self@.voters_for(c) =~= Set::empty());
            }
        }
        assert(old(self)@.counts.union_prefer_right(LedgerState::zero_counts(n)) =~= self@.counts);
        assert(self@ =~= old(self)@.initialized(admin.id, n));
    }

    /// Records an accepted ballot: sets the voter marker and adds one to the
    /// candidate's counter.
    pub(crate) fn record_vote(&mut self, voter: Address, candidate: u32)
        requires
            old(self).wf(),
            !old(self)@.has_voted(voter.id),
            old(self)@.count(candidate) < u32::MAX,
            old(self)@.gated ==> old(self)@.admin is Some,
        ensures
            final(self).wf(),
            final(self)@ == old(self)@.cast(voter.id, candidate),
    {
        let ghost pre = self@;
        self.voted.insert(voter.id);
        let n = self.count(candidate);
        self.counts.insert(candidate, n + 1);
        self.ballots = Ghost(self.ballots@.insert(voter.id, candidate));
        assert(self@ =~= pre.cast(voter.id, candidate));
        proof {
            lemma_cast_keeps_tally(pre, voter.id, candidate);
        }
    }
}

/// An accepted ballot keeps every counter equal to its ballots.
proof fn lemma_cast_keeps_tally(s: LedgerState, voter: u64, candidate: u32)
    requires
        s.wf(),
        !s.has_voted(voter),
        s.count(candidate) < u32::MAX,
        s.gated ==> s.admin is Some,
    ensures
        s.cast(voter, candidate).wf(),
{
    let t = s.cast(voter, candidate);
    assert forall|c: u32| #[trigger] t.count(c) == t.voters_for(c).len() by {
        assert(s.count(c) == s.voters_for(c).len());
        if c == candidate {
            lemma_voters_for_finite(s, c);
            assert(t.voters_for(c) =~= s.voters_for(c).insert(voter));
            assert(!s.voters_for(c).contains(voter));
        } else {
            assert(t.voters_for(c) =~= s.voters_for(c));
        }
    }
}

/// The voters of one candidate are finitely many.
proof fn lemma_voters_for_finite(s: LedgerState, candidate: u32)
    requires
        s.ballots.dom().finite(),
    ensures
        s.voters_for(candidate).finite(),
{
    s.ballots.dom().lemma_len_filter(|v: u64| s.ballots[v] == candidate);
}

} // verus!
