//! A ballot-tallying ledger: a fixed set of candidates, one vote per voter,
//! and counters that always equal the ballots cast.
pub mod contract;
pub mod error;
pub mod laws;
pub mod ledger;
pub mod voting_contract;

pub use contract::Contract;
pub use error::VoteError;
pub use ledger::{Address, DataKey, Env, LedgerState};
pub use voting_contract::{deploy, upgrade, VotingContract, CANDIDATE_COUNT};
