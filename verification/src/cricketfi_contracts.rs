//! The program's instructions. Each one reads and updates the accounts it
//! is given, and either succeeds, returning the lamport transfers that
//! the runtime must then make, or fails and leaves every account as it
//! was (the runtime discards the changes of a failed instruction).
//!
//! The checks that the account constraints of the program make before an
//! instruction runs (the signer is the platform's authority, a bet belongs
//! to its signer, a bet's match is the given match) are made here too, in
//! the same order; seed derivations, signatures and account creation are
//! left to the runtime.

use vstd::prelude::*;

use crate::errors::{ContractError, CricketFiError, ErrorCode};
use crate::state::{
    keys_equal, odds_in_range, status_step, Bet, CricketFiContract, Key, Match, MatchStatus,
    UserBetTracker, MAX_ODDS, MIN_ODDS,
};

verus! {

/// The accounts between which an instruction moves lamports.
#[derive(Clone, Copy, Debug, PartialEq, Eq, Structural)]
pub enum Party {
    /// The user who places or settles a bet.
    Better,
    /// The match's vault, which holds the principal of its bets.
    MatchVault,
    /// The platform account, which holds the fees.
    Platform,
    /// The platform's admin.
    Authority,
}

/// A lamport transfer that an instruction asks the runtime to make.
#[derive(Clone, Copy, Debug, PartialEq, Eq, Structural)]
pub struct Transfer {
    pub from: Party,
    pub to: Party,
    pub lamports: u64,
}

/// Fee taken from every bet on a new platform, in percent.
pub const DEFAULT_FEE_PERCENTAGE: u8 = 2;

pub open spec fn program_error(e: CricketFiError) -> ContractError {
    ContractError::Program(e)
}

pub open spec fn overflow_error() -> ContractError {
    ContractError::Arithmetic(ErrorCode::NumericalOverflow)
}

/// The fee of a bet of `amount` lamports at `fee_percentage` percent,
/// rounded down.
pub open spec fn bet_fee(amount: u64, fee_percentage: u8) -> int {
    (amount * fee_percentage) / 100
}

/// The payout of a winning bet: the principal times the odds, in
/// hundredths, rounded down.
pub open spec fn payout(amount: u64, odds: u64) -> int {
    (amount * odds) / 100
}

/// Outcome of `placebet`: the new platform, match and tracker, the new
/// bet and the transfers, or the first check that fails.
pub open spec fn placebet_spec(
    platform: CricketFiContract,
    m: Match,
    tracker: UserBetTracker,
    better: Key,
    now: i64,
    match_id: Key,
    amount: u64,
    team: u8,
) -> Result<(CricketFiContract, Match, UserBetTracker, Bet, Seq<Transfer>), ContractError> {
    let odds: u64 = m.odds_for(team);
    let fee: int = bet_fee(amount, platform.fee_percentage);
    let principal: int = amount - fee;
    let team1_pool: int = if team == 0 { m.team1_pool_amount + principal } else { m.team1_pool_amount as int };
    let team2_pool: int = if team == 0 { m.team2_pool_amount as int } else { m.team2_pool_amount + principal };
    let total_pool: int = m.total_pool_amount + principal;
    if m.match_id != match_id {
        Err(program_error(CricketFiError::InvalidMatch))
    } else if !(m.status is Active) {
        Err(program_error(CricketFiError::InvalidMatchStatus))
    } else if !(now < m.start_time) {
        Err(program_error(CricketFiError::BettingClosed))
    } else if tracker.has_bet {
        Err(program_error(CricketFiError::UserAlreadyBet))
    } else if !(m.min_bet_amount <= amount <= m.max_bet_amount) {
        Err(program_error(CricketFiError::InvalidBetAmount))
    } else if !(team == 0 || team == 1) {
        Err(program_error(CricketFiError::InvalidTeam))
    } else if !odds_in_range(odds) {
        Err(program_error(CricketFiError::InvalidOdds))
    } else if amount * platform.fee_percentage > u64::MAX
        || fee > u32::MAX
        || fee > amount
        || team1_pool > u64::MAX
        || team2_pool > u64::MAX
        || total_pool > u64::MAX
        || platform.total_bets + 1 > u16::MAX
        || platform.treasury_balance + fee > u32::MAX {
        Err(overflow_error())
    } else {
        Ok((
            CricketFiContract {
                total_bets: (platform.total_bets + 1) as u16,
                treasury_balance: (platform.treasury_balance + fee) as u32,
                ..platform
            },
            Match {
                team1_pool_amount: team1_pool as u64,
                team2_pool_amount: team2_pool as u64,
                total_pool_amount: total_pool as u64,
                ..m
            },
            UserBetTracker { user: better, match_id, has_bet: true },
            Bet {
                better,
                match_id,
                amount: principal as u64,
                team,
                bet_time: now,
                claimed: false,
                odds_at_bet: odds,
            },
            seq![
                Transfer { from: Party::Better, to: Party::MatchVault, lamports: principal as u64 },
                Transfer { from: Party::Better, to: Party::Platform, lamports: fee as u64 },
            ],
        ))
    }
}

/// Places a bet of `amount` lamports by `better` on `team` (0 or 1) of the
/// match, at time `now`, while the match is active and has not started.
/// The platform fee is taken from the amount; the rest, the principal, is
/// staked at the team's current odds. On success the new bet and the two
/// transfers (principal to the match vault, fee to the platform) come back.
pub fn placebet(
    platform: &mut CricketFiContract,
    match_account: &mut Match,
    user_bet_tracker: &mut UserBetTracker,
    better: Key,
    now: i64,
    match_id: Key,
    amount: u64,
    team: u8,
) -> (r: Result<(Bet, Vec<Transfer>), ContractError>)
    ensures
        placebet_spec(
            *old(platform),
            *old(match_account),
            *old(user_bet_tracker),
            better,
            now,
            match_id,
            amount,
            team,
        ) == (match r {
            Ok((bet, transfers)) => Ok(
                (*final(platform), *final(match_account), *final(user_bet_tracker), bet, transfers@),
            ),
            Err(e) => Err(e),
        }),
        r is Err ==> *final(platform) == *old(platform) && *final(match_account) == *old(
            match_account,
        ) && *final(user_bet_tracker) == *old(user_bet_tracker),
        status_step(old(match_account).status, final(match_account).status),
        old(match_account).wf() ==> final(match_account).wf(),
        r matches Ok((bet, _)) ==> bet.wf(),
{
    if !keys_equal(&match_account.match_id, &match_id) {
        return Err(ContractError::Program(CricketFiError::InvalidMatch));
    }
    if !(match match_account.status { MatchStatus::Active => true, _ => false }) {
        return Err(ContractError::Program(CricketFiError::InvalidMatchStatus));
    }
    if !(now < match_account.start_time) {
        return Err(ContractError::Program(CricketFiError::BettingClosed));
    }
    if user_bet_tracker.has_bet {
        return Err(ContractError::Program(CricketFiError::UserAlreadyBet));
    }
    if !(amount >= match_account.min_bet_amount && amount <= match_account.max_bet_amount) {
        return Err(ContractError::Program(CricketFiError::InvalidBetAmount));
    }
    if !(team == 0 || team == 1) {
        return Err(ContractError::Program(CricketFiError::InvalidTeam));
    }
    let odds_to_use: u64 = if team == 0 {
        match_account.odds_team1
    } else {
        match_account.odds_team2
    };
    if !(odds_to_use >= MIN_ODDS && odds_to_use <= MAX_ODDS) {
        return Err(ContractError::Program(CricketFiError::InvalidOdds));
    }
    let overflow = ContractError::Arithmetic(ErrorCode::NumericalOverflow);
    let fee: u64 = match amount.checked_mul(platform.fee_percentage as u64) {
        Some(product) => product / 100,
        None => return Err(overflow),
    };
    if fee > 0xffff_ffffu64 {
        return Err(overflow);
    }
    let principal: u64 = match amount.checked_sub(fee) {
        Some(p) => p,
        None => return Err(overflow),
    };
    let mut team1_pool: u64 = match_account.team1_pool_amount;
    let mut team2_pool: u64 = match_account.team2_pool_amount;
    if team == 0 {
        team1_pool = match team1_pool.checked_add(principal) {
            Some(v) => v,
            None => return Err(overflow),
        };
    } else {
        team2_pool = match team2_pool.checked_add(principal) {
            Some(v) => v,
            None => return Err(overflow),
        };
    }
    let total_pool: u64 = match match_account.total_pool_amount.checked_add(principal) {
        Some(v) => v,
        None => return Err(overflow),
    };
    let total_bets: u16 = match platform.total_bets.checked_add(1) {
        Some(v) => v,
        None => return Err(overflow),
    };
    let treasury: u32 = match platform.treasury_balance.checked_add(fee as u32) {
        Some(v) => v,
        None => return Err(overflow),
    };

    user_bet_tracker.user = better;
    user_bet_tracker.match_id = match_id;
    user_bet_tracker.has_bet = true;
    match_account.team1_pool_amount = team1_pool;
    match_account.team2_pool_amount = team2_pool;
    match_account.total_pool_amount = total_pool;
    platform.total_bets = total_bets;
    platform.treasury_balance = treasury;

    let bet = Bet {
        better,
        match_id,
        amount: principal,
        team,
        bet_time: now,
        claimed: false,
        odds_at_bet: odds_to_use,
    };
    let mut transfers: Vec<Transfer> = Vec::new();
    transfers.push(Transfer { from: Party::Better, to: Party::MatchVault, lamports: principal });
    transfers.push(Transfer { from: Party::Better, to: Party::Platform, lamports: fee });
    assert(transfers@ =~= seq![
        Transfer { from: Party::Better, to: Party::MatchVault, lamports: principal },
        Transfer { from: Party::Better, to: Party::Platform, lamports: fee },
    ]);
    Ok((bet, transfers))
}

/// Outcome of `claim_winnings`: the new match and bet and the payout
/// transfer, or the first check that fails.
pub open spec fn claim_winnings_spec(
    m: Match,
    bet: Bet,
    better: Key,
    vault_lamports: u64,
    team: u8,
) -> Result<(Match, Bet, Seq<Transfer>), ContractError> {
    let winnings: int = payout(bet.amount, bet.odds_at_bet);
    let excess: int = winnings - bet.amount;
    if bet.better != better {
        Err(ContractError::ConstraintHasOne)
    } else if bet.match_id != m.match_id {
        Err(program_error(CricketFiError::InvalidMatch))
    } else if bet.claimed {
        Err(program_error(CricketFiError::WinningsAlreadyClaimed))
    } else if !(m.status is Completed) {
        Err(program_error(CricketFiError::InvalidMatchStatus))
    } else if team != bet.team {
        Err(program_error(CricketFiError::InvalidTeam))
    } else if m.winner != Some(m.team_id(team)) {
        Err(program_error(CricketFiError::InvalidTeam))
    } else if bet.amount * bet.odds_at_bet > u64::MAX {
        Err(overflow_error())
    } else if vault_lamports < winnings {
        Err(program_error(CricketFiError::InsufficientVaultFunds))
    } else if excess < 0 || m.total_pool_amount < excess {
        Err(overflow_error())
    } else {
        Ok((
            Match { total_pool_amount: (m.total_pool_amount - excess) as u64, ..m },
            Bet { claimed: true, ..bet },
            seq![Transfer { from: Party::MatchVault, to: Party::Better, lamports: winnings as u64 }],
        ))
    }
}

/// Pays out a bet on the winning team of a completed match to its
/// better: the principal times the odds fixed when the bet was placed
/// (`winnings = amount * odds_at_bet / 100`). The bet is marked claimed
/// and the match's total pool loses the part of the payout above the
/// principal. `vault_lamports` is the balance of the match vault, which
/// must cover the payout. The account constraints come first: the bet
/// belongs to the signer `better` and to this match.
pub fn claim_winnings(
    match_account: &mut Match,
    bet_account: &mut Bet,
    better: Key,
    vault_lamports: u64,
    team: u8,
) -> (r: Result<Vec<Transfer>, ContractError>)
    requires
        ({
            &&& old(bet_account).better == better
            &&& old(bet_account).match_id == old(match_account).match_id
            &&& !old(bet_account).claimed
            &&& old(match_account).status is Completed
            &&& team == old(bet_account).team
        }) ==> old(match_account).winner is Some,
    ensures
        claim_winnings_spec(*old(match_account), *old(bet_account), better, vault_lamports, team)
            == (match r {
            Ok(transfers) => Ok((*final(match_account), *final(bet_account), transfers@)),
            Err(e) => Err(e),
        }),
        r is Err ==> *final(match_account) == *old(match_account) && *final(bet_account) == *old(
            bet_account,
        ),
        status_step(old(match_account).status, final(match_account).status),
        old(match_account).wf() ==> final(match_account).wf(),
        old(bet_account).wf() ==> final(bet_account).wf(),
{
    if !keys_equal(&bet_account.better, &better) {
        return Err(ContractError::ConstraintHasOne);
    }
    if !keys_equal(&bet_account.match_id, &match_account.match_id) {
        return Err(ContractError::Program(CricketFiError::InvalidMatch));
    }
    if bet_account.claimed {
        return Err(ContractError::Program(CricketFiError::WinningsAlreadyClaimed));
    }
    if !(match match_account.status { MatchStatus::Completed => true, _ => false }) {
        return Err(ContractError::Program(CricketFiError::InvalidMatchStatus));
    }
    if team != bet_account.team {
        return Err(ContractError::Program(CricketFiError::InvalidTeam));
    }
    let winner_team = if team == 0 {
        match_account.team1
    } else {
        match_account.team2
    };
    let winner = match_account.winner.unwrap();
    if !keys_equal(&winner, &winner_team) {
        return Err(ContractError::Program(CricketFiError::InvalidTeam));
    }
    let overflow = ContractError::Arithmetic(ErrorCode::NumericalOverflow);
    let winnings: u64 = match bet_account.amount.checked_mul(bet_account.odds_at_bet) {
        Some(product) => product / 100,
        None => return Err(overflow),
    };
    if vault_lamports < winnings {
        return Err(ContractError::Program(CricketFiError::InsufficientVaultFunds));
    }
    let excess_payout: u64 = match winnings.checked_sub(bet_account.amount) {
        Some(v) => v,
        None => return Err(overflow),
    };
    let total_pool: u64 = match match_account.total_pool_amount.checked_sub(excess_payout) {
        Some(v) => v,
        None => return Err(overflow),
    };

    bet_account.claimed = true;
    match_account.total_pool_amount = total_pool;

    let mut transfers: Vec<Transfer> = Vec::new();
    transfers.push(Transfer { from: Party::MatchVault, to: Party::Better, lamports: winnings });
    assert(transfers@ =~= seq![
        Transfer { from: Party::MatchVault, to: Party::Better, lamports: winnings },
    ]);
    Ok(transfers)
}

/// Outcome of `refund_bet`: the settled bet and the refund transfer, or
/// the first check that fails.
pub open spec fn refund_bet_spec(m: Match, bet: Bet, better: Key) -> Result<
    (Bet, Seq<Transfer>),
    ContractError,
> {
    if bet.better != better {
        Err(ContractError::ConstraintHasOne)
    } else if !(m.status is Cancelled) {
        Err(program_error(CricketFiError::MatchNotCancelled))
    } else if bet.claimed {
        Err(program_error(CricketFiError::WinningsAlreadyClaimed))
    } else if bet.match_id != m.match_id {
        Err(program_error(CricketFiError::InvalidMatch))
    } else {
        Ok((
            Bet { claimed: true, ..bet },
            seq![Transfer { from: Party::MatchVault, to: Party::Better, lamports: bet.amount }],
        ))
    }
}

/// Refunds the principal of a bet on a cancelled match to its better and
/// marks the bet claimed. The account constraints come first: the bet
/// belongs to the signer `better`, and the match is cancelled.
pub fn refund_bet(match_account: &Match, bet_account: &mut Bet, better: Key) -> (r: Result<
    Vec<Transfer>,
    ContractError,
>)
    ensures
        refund_bet_spec(*match_account, *old(bet_account), better) == (match r {
            Ok(transfers) => Ok((*final(bet_account), transfers@)),
            Err(e) => Err(e),
        }),
        r is Err ==> *final(bet_account) == *old(bet_account),
        old(bet_account).wf() ==> final(bet_account).wf(),
{
    if !keys_equal(&bet_account.better, &better) {
        return Err(ContractError::ConstraintHasOne);
    }
    let cancelled = match match_account.status {
        MatchStatus::Cancelled => true,
        _ => false,
    };
    if !cancelled {
        return Err(ContractError::Program(CricketFiError::MatchNotCancelled));
    }
    if bet_account.claimed {
        return Err(ContractError::Program(CricketFiError::WinningsAlreadyClaimed));
    }
    if !keys_equal(&bet_account.match_id, &match_account.match_id) {
        return Err(ContractError::Program(CricketFiError::InvalidMatch));
    }
    bet_account.claimed = true;
    let mut transfers: Vec<Transfer> = Vec::new();
    transfers.push(
        Transfer { from: Party::MatchVault, to: Party::Better, lamports: bet_account.amount },
    );
    assert(transfers@ =~= seq![
        Transfer { from: Party::MatchVault, to: Party::Better, lamports: bet_account.amount },
    ]);
    Ok(transfers)
}

/// The platform as it is after `initialize`: `authority` as admin, no
/// matches, bets or fees yet, and the default fee.
pub open spec fn initialize_spec(authority: Key) -> CricketFiContract {
    CricketFiContract {
        authority,
        total_matches: 0,
        total_bets: 0,
        treasury_balance: 0,
        fee_percentage: DEFAULT_FEE_PERCENTAGE,
    }
}

/// Sets up the platform with the signer `authority` as its admin and a
/// default fee of 2%.
pub fn initialize(authority: Key) -> (r: CricketFiContract)
    ensures
        r == initialize_spec(authority),
{
    CricketFiContract {
        authority,
        total_matches: 0,
        total_bets: 0,
        treasury_balance: 0,
        fee_percentage: DEFAULT_FEE_PERCENTAGE,
    }
}

/// Outcome of `create_match`: the new platform and the new match, or the
/// first check that fails.
pub open spec fn create_match_spec(
    platform: CricketFiContract,
    authority: Key,
    api_match_id: Key,
    team1: Key,
    team2: Key,
    start_ts: i64,
    min_bet: u64,
    max_bet: u64,
    odds_team1: u64,
    odds_team2: u64,
) -> Result<(CricketFiContract, Match), ContractError> {
    if platform.authority != authority {
        Err(program_error(CricketFiError::UnauthorizedAccess))
    } else if !odds_in_range(odds_team1) || !odds_in_range(odds_team2) {
        Err(program_error(CricketFiError::InvalidOdds))
    } else if platform.total_matches + 1 > u16::MAX {
        Err(overflow_error())
    } else {
        Ok((
            CricketFiContract { total_matches: (platform.total_matches + 1) as u16, ..platform },
            Match {
                match_id: api_match_id,
                team1,
                team2,
                start_time: start_ts,
                end_time: 0,
                total_pool_amount: 0,
                team1_pool_amount: 0,
                team2_pool_amount: 0,
                status: MatchStatus::Created,
                winner: None,
                odds_team1,
                odds_team2,
                min_bet_amount: min_bet,
                max_bet_amount: max_bet,
            },
        ))
    }
}

/// Creates a match, in status `Created`, with empty pools and no winner;
/// only the platform's admin may, and both odds must lie between 1.01x
/// and 10.00x. Counts the match on the platform.
pub fn create_match(
    platform: &mut CricketFiContract,
    authority: Key,
    api_match_id: Key,
    team1: Key,
    team2: Key,
    start_ts: i64,
    min_bet: u64,
    max_bet: u64,
    odds_team1: u64,
    odds_team2: u64,
) -> (r: Result<Match, ContractError>)
    ensures
        create_match_spec(
            *old(platform),
            authority,
            api_match_id,
            team1,
            team2,
            start_ts,
            min_bet,
            max_bet,
            odds_team1,
            odds_team2,
        ) == (match r {
            Ok(m) => Ok((*final(platform), m)),
            Err(e) => Err(e),
        }),
        r is Err ==> *final(platform) == *old(platform),
        r matches Ok(m) ==> m.wf(),
{
    if !keys_equal(&platform.authority, &authority) {
        return Err(ContractError::Program(CricketFiError::UnauthorizedAccess));
    }
    if !(odds_team1 >= MIN_ODDS && odds_team1 <= MAX_ODDS) {
        return Err(ContractError::Program(CricketFiError::InvalidOdds));
    }
    if !(odds_team2 >= MIN_ODDS && odds_team2 <= MAX_ODDS) {
        return Err(ContractError::Program(CricketFiError::InvalidOdds));
    }
    let total_matches: u16 = match platform.total_matches.checked_add(1) {
        Some(v) => v,
        None => return Err(ContractError::Arithmetic(ErrorCode::NumericalOverflow)),
    };
    platform.total_matches = total_matches;
    Ok(
        Match {
            match_id: api_match_id,
            team1,
            team2,
            start_time: start_ts,
            end_time: 0,
            total_pool_amount: 0,
            team1_pool_amount: 0,
            team2_pool_amount: 0,
            status: MatchStatus::Created,
            winner: None,
            odds_team1,
            odds_team2,
            min_bet_amount: min_bet,
            max_bet_amount: max_bet,
        },
    )
}

/// Outcome of `activate_match`.
pub open spec fn activate_match_spec(platform: CricketFiContract, m: Match, authority: Key) -> Result<
    Match,
    ContractError,
> {
    if platform.authority != authority {
        Err(program_error(CricketFiError::UnauthorizedAccess))
    } else if !(m.status is Created) {
        Err(program_error(CricketFiError::InvalidMatchStatus))
    } else {
        Ok(Match { status: MatchStatus::Active, ..m })
    }
}

/// Opens a created match for betting; only the platform's admin may.
pub fn activate_match(platform: &CricketFiContract, match_account: &mut Match, authority: Key) -> (r:
    Result<(), ContractError>)
    ensures
        activate_match_spec(*platform, *old(match_account), authority) == (match r {
            Ok(_) => Ok(*final(match_account)),
            Err(e) => Err(e),
        }),
        r is Err ==> *final(match_account) == *old(match_account),
        status_step(old(match_account).status, final(match_account).status),
        old(match_account).wf() ==> final(match_account).wf(),
{
    if !keys_equal(&platform.authority, &authority) {
        return Err(ContractError::Program(CricketFiError::UnauthorizedAccess));
    }
    match match_account.status {
        MatchStatus::Created => {},
        _ => return Err(ContractError::Program(CricketFiError::InvalidMatchStatus)),
    }
    match_account.status = MatchStatus::Active;
    Ok(())
}

/// Outcome of `set_odds`.
pub open spec fn set_odds_spec(
    platform: CricketFiContract,
    m: Match,
    authority: Key,
    odds_team1: u64,
    odds_team2: u64,
) -> Result<Match, ContractError> {
    if platform.authority != authority {
        Err(program_error(CricketFiError::UnauthorizedAccess))
    } else if !odds_in_range(odds_team1) || !odds_in_range(odds_team2) {
        Err(program_error(CricketFiError::InvalidOdds))
    } else if !(m.status is Created) {
        Err(program_error(CricketFiError::InvalidMatchStatus))
    } else {
        Ok(Match { odds_team1, odds_team2, ..m })
    }
}

/// Changes the odds of a match until it becomes active, that is only
/// while it is `Created`; only the platform's admin may, and both odds
/// must lie between 1.01x and 10.00x.
pub fn set_odds(
    platform: &CricketFiContract,
    match_account: &mut Match,
    authority: Key,
    odds_team1: u64,
    odds_team2: u64,
) -> (r: Result<(), ContractError>)
    ensures
        set_odds_spec(*platform, *old(match_account), authority, odds_team1, odds_team2) == (match r {
            Ok(_) => Ok(*final(match_account)),
            Err(e) => Err(e),
        }),
        r is Err ==> *final(match_account) == *old(match_account),
        status_step(old(match_account).status, final(match_account).status),
        old(match_account).wf() ==> final(match_account).wf(),
{
    if !keys_equal(&platform.authority, &authority) {
        return Err(ContractError::Program(CricketFiError::UnauthorizedAccess));
    }
    if !(odds_team1 >= MIN_ODDS && odds_team1 <= MAX_ODDS) {
        return Err(ContractError::Program(CricketFiError::InvalidOdds));
    }
    if !(odds_team2 >= MIN_ODDS && odds_team2 <= MAX_ODDS) {
        return Err(ContractError::Program(CricketFiError::InvalidOdds));
    }
    match match_account.status {
        MatchStatus::Created => {},
        _ => return Err(ContractError::Program(CricketFiError::InvalidMatchStatus)),
    }
    match_account.odds_team1 = odds_team1;
    match_account.odds_team2 = odds_team2;
    Ok(())
}

/// Outcome of `cancel_match`.
pub open spec fn cancel_match_spec(platform: CricketFiContract, m: Match, authority: Key) -> Result<
    Match,
    ContractError,
> {
    if platform.authority != authority {
        Err(program_error(CricketFiError::UnauthorizedAccess))
    } else if !(m.status is Created || m.status is Active) {
        Err(program_error(CricketFiError::InvalidMatchStatus))
    } else {
        Ok(Match { status: MatchStatus::Cancelled, ..m })
    }
}

/// Cancels a match that is not yet resolved, which opens its bets to
/// refunds; only the platform's admin may.
pub fn cancel_match(platform: &CricketFiContract, match_account: &mut Match, authority: Key) -> (r:
    Result<(), ContractError>)
    ensures
        cancel_match_spec(*platform, *old(match_account), authority) == (match r {
            Ok(_) => Ok(*final(match_account)),
            Err(e) => Err(e),
        }),
        r is Err ==> *final(match_account) == *old(match_account),
        status_step(old(match_account).status, final(match_account).status),
        old(match_account).wf() ==> final(match_account).wf(),
{
    if !keys_equal(&platform.authority, &authority) {
        return Err(ContractError::Program(CricketFiError::UnauthorizedAccess));
    }
    match match_account.status {
        MatchStatus::Created | MatchStatus::Active => {},
        _ => return Err(ContractError::Program(CricketFiError::InvalidMatchStatus)),
    }
    match_account.status = MatchStatus::Cancelled;
    Ok(())
}

/// Outcome of `resolve_match`.
pub open spec fn resolve_match_spec(
    platform: CricketFiContract,
    m: Match,
    authority: Key,
    winner: Key,
) -> Result<Match, ContractError> {
    if platform.authority != authority {
        Err(program_error(CricketFiError::UnauthorizedAccess))
    } else if !(m.status is Active) {
        Err(program_error(CricketFiError::InvalidMatchStatus))
    } else {
        Ok(Match { status: MatchStatus::Completed, winner: Some(winner), ..m })
    }
}

/// Records the winner of an active match and completes it; only the
/// platform's admin may.
pub fn resolve_match(
    platform: &CricketFiContract,
    match_account: &mut Match,
    authority: Key,
    winner: Key,
) -> (r: Result<(), ContractError>)
    ensures
        resolve_match_spec(*platform, *old(match_account), authority, winner) == (match r {
            Ok(_) => Ok(*final(match_account)),
            Err(e) => Err(e),
        }),
        r is Err ==> *final(match_account) == *old(match_account),
        status_step(old(match_account).status, final(match_account).status),
        old(match_account).wf() ==> final(match_account).wf(),
{
    if !keys_equal(&platform.authority, &authority) {
        return Err(ContractError::Program(CricketFiError::UnauthorizedAccess));
    }
    match match_account.status {
        MatchStatus::Active => {},
        _ => return Err(ContractError::Program(CricketFiError::InvalidMatchStatus)),
    }
    match_account.status = MatchStatus::Completed;
    match_account.winner = Some(winner);
    Ok(())
}

/// Outcome of `withdraw_treasury`: the new platform and the transfer of
/// the fees to the admin, or the first check that fails.
pub open spec fn withdraw_treasury_spec(platform: CricketFiContract, authority: Key, amount: u32) -> Result<
    (CricketFiContract, Seq<Transfer>),
    ContractError,
> {
    if platform.authority != authority {
        Err(program_error(CricketFiError::UnauthorizedAccess))
    } else if platform.treasury_balance < amount {
        Err(program_error(CricketFiError::InsufficientVaultFunds))
    } else {
        Ok((
            CricketFiContract {
                treasury_balance: (platform.treasury_balance - amount) as u32,
                ..platform
            },
            seq![Transfer { from: Party::Platform, to: Party::Authority, lamports: amount as u64 }],
        ))
    }
}

/// Withdraws `amount` lamports of accumulated fees to the platform's
/// admin; only the admin may, and no more than the fees held.
pub fn withdraw_treasury(platform: &mut CricketFiContract, authority: Key, amount: u32) -> (r: Result<
    Vec<Transfer>,
    ContractError,
>)
    ensures
        withdraw_treasury_spec(*old(platform), authority, amount) == (match r {
            Ok(transfers) => Ok((*final(platform), transfers@)),
            Err(e) => Err(e),
        }),
        r is Err ==> *final(platform) == *old(platform),
{
    if !keys_equal(&platform.authority, &authority) {
        return Err(ContractError::Program(CricketFiError::UnauthorizedAccess));
    }
    if platform.treasury_balance < amount {
        return Err(ContractError::Program(CricketFiError::InsufficientVaultFunds));
    }
    let treasury: u32 = match platform.treasury_balance.checked_sub(amount) {
        Some(v) => v,
        None => return Err(ContractError::Arithmetic(ErrorCode::NumericalOverflow)),
    };
    platform.treasury_balance = treasury;
    let mut transfers: Vec<Transfer> = Vec::new();
    transfers.push(Transfer { from: Party::Platform, to: Party::Authority, lamports: amount as u64 });
    assert(transfers@ =~= seq![
        Transfer { from: Party::Platform, to: Party::Authority, lamports: amount as u64 },
    ]);
    Ok(transfers)
}

} // verus!
