//! Account data of the program, with the invariants that its
//! instructions keep.

use vstd::prelude::*;

verus! {

broadcast use vstd::array::group_array_axioms;

/// A 32-byte account address or identifier (public keys, match ids,
/// team ids).
pub type Key = [u8; 32];

/// Compares two 32-byte keys.
pub fn keys_equal(a: &Key, b: &Key) -> (r: bool)
    ensures
        r == (*a == *b),
{
    let mut i: usize = 0;
    while i < 32
        invariant
            i <= 32,
            forall|j: int| 0 <= j < i ==> a[j] == b[j],
        decreases 32 - i,
    {
        if a[i] != b[i] {
            return false;
        }
        i = i + 1;
    }
    assert(*a =~= *b);
    true
}

/// Life cycle of a match: `Created` by the admin, `Active` while bets are
/// taken, then either `Completed` (a winner is recorded) or `Cancelled`
/// (bets are refunded).
#[derive(Clone, Copy, Debug, PartialEq, Eq, Structural)]
pub enum MatchStatus {
    Created,
    Active,
    Completed,
    Cancelled,
}

/// Platform-wide state, owned by the admin (`authority`).
#[derive(Clone, Copy, Debug, PartialEq, Eq)]
pub struct CricketFiContract {
    /// Admin of the platform.
    pub authority: Key,
    /// Number of matches created on the platform.
    pub total_matches: u16,
    /// Number of bets placed on the platform.
    pub total_bets: u16,
    /// Platform fees accumulated and not yet withdrawn.
    pub treasury_balance: u32,
    /// Fee taken from each bet, in percent of the bet amount.
    pub fee_percentage: u8,
}

/// One match that users can bet on.
#[derive(Clone, Copy, Debug, PartialEq, Eq)]
pub struct Match {
    pub match_id: Key,
    pub team1: Key,
    pub team2: Key,
    /// Betting closes at this unix time.
    pub start_time: i64,
    pub end_time: i64,
    /// Principal held for the match, less the excess paid out to winners.
    pub total_pool_amount: u64,
    pub team1_pool_amount: u64,
    pub team2_pool_amount: u64,
    pub status: MatchStatus,
    pub winner: Option<Key>,
    /// Payout odds for team 1 in hundredths (150 means a 1.5x payout).
    pub odds_team1: u64,
    /// Payout odds for team 2 in hundredths (200 means a 2.0x payout).
    pub odds_team2: u64,
    pub min_bet_amount: u64,
    pub max_bet_amount: u64,
}

/// One placed bet.
#[derive(Clone, Copy, Debug, PartialEq, Eq)]
pub struct Bet {
    pub better: Key,
    pub match_id: Key,
    /// Principal of the bet in lamports (the amount staked, less the fee).
    pub amount: u64,
    /// Team bet on: 0 for team 1, 1 for team 2.
    pub team: u8,
    /// Unix time at which the bet was placed.
    pub bet_time: i64,
    /// Whether the bet has been paid out or refunded.
    pub claimed: bool,
    /// Odds of the chosen team when the bet was placed, in hundredths.
    pub odds_at_bet: u64,
}

/// Per-user statistics record.
#[derive(Clone, Copy, Debug, PartialEq, Eq)]
pub struct UserStats {
    pub total_bets: u64,
    pub total_winnings: u64,
    pub wins: u64,
    pub losses: u64,
}

/// Records that a user has bet on a match (one bet per user and match).
#[derive(Clone, Copy, Debug, PartialEq, Eq)]
pub struct UserBetTracker {
    pub user: Key,
    pub match_id: Key,
    pub has_bet: bool,
}

/// Lowest accepted odds (1.01x).
pub const MIN_ODDS: u64 = 101;

/// Highest accepted odds (10.00x).
pub const MAX_ODDS: u64 = 1000;

/// Odds are accepted when they lie between 1.01x and 10.00x.
pub open spec fn odds_in_range(odds: u64) -> bool {
    MIN_ODDS <= odds <= MAX_ODDS
}

/// `Completed` and `Cancelled` are final: no instruction leaves them.
pub open spec fn is_final_status(s: MatchStatus) -> bool {
    s is Completed || s is Cancelled
}

/// The status changes that instructions make: none, or one step of the
/// life cycle.
pub open spec fn status_step(from: MatchStatus, to: MatchStatus) -> bool {
    ||| from == to
    ||| (from is Created && to is Active)
    ||| (from is Active && to is Completed)
    ||| ((from is Created || from is Active) && to is Cancelled)
}

impl Match {
    /// Invariant of every match the program creates and updates: both
    /// odds in range, a winner recorded exactly when the match is
    /// completed, and the total pool never above the two team pools.
    pub open spec fn wf(self) -> bool {
        &&& odds_in_range(self.odds_team1)
        &&& odds_in_range(self.odds_team2)
        &&& (self.winner is Some <==> self.status is Completed)
        &&& self.total_pool_amount <= self.team1_pool_amount + self.team2_pool_amount
    }

    /// Odds of the given team (0 for team 1, anything else for team 2).
    pub open spec fn odds_for(self, team: u8) -> u64 {
        if team == 0 { self.odds_team1 } else { self.odds_team2 }
    }

    /// Identifier of the given team (0 for team 1, anything else for team 2).
    pub open spec fn team_id(self, team: u8) -> Key {
        if team == 0 { self.team1 } else { self.team2 }
    }
}

impl Bet {
    /// Invariant of every bet the program creates: a valid team and odds
    /// in range.
    pub open spec fn wf(self) -> bool {
        &&& self.team <= 1
        &&& odds_in_range(self.odds_at_bet)
    }
}

} // verus!
