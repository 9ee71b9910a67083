//! Verified core of the CricketFi betting program: platform, match and bet
//! state, the rules of every instruction, and the arithmetic of fees,
//! pools and payouts. The on-chain shell (account loading, clock reads and
//! lamport transfers) lives outside this crate and calls into it.

pub mod behaviour;
pub mod cricketfi_contracts;
pub mod errors;
pub mod histories;
pub mod laws;
pub mod state;

pub use cricketfi_contracts::{Party, Transfer};
pub use errors::{ContractError, CricketFiError, ErrorCode};
pub use state::{
    keys_equal, Bet, CricketFiContract, Key, Match, MatchStatus, UserBetTracker, UserStats,
};
