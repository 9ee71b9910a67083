//! What each instruction does, stated directly in terms of its inputs and
//! results: exactly when it succeeds, what it stores and returns when it
//! does, and which error it gives otherwise. Each statement is proved from
//! the instruction's outcome, which its executable version is proved to
//! produce.

use vstd::prelude::*;

use crate::cricketfi_contracts::{
    activate_match_spec, cancel_match_spec, claim_winnings_spec, create_match_spec,
    initialize_spec, placebet_spec, refund_bet_spec, resolve_match_spec, set_odds_spec,
    withdraw_treasury_spec, Party, Transfer,
};
use crate::errors::{cricketfi_error_index, ContractError, CricketFiError, ErrorCode, ERROR_CODE_OFFSET};
use crate::state::{Bet, CricketFiContract, Key, Match, MatchStatus, UserBetTracker};

verus! {

/// A fresh platform has `authority` as admin, no matches, bets or fees,
/// and a 2% fee.
pub proof fn initialize_behaviour(authority: Key)
    ensures
        initialize_spec(authority).authority == authority,
        initialize_spec(authority).total_matches == 0,
        initialize_spec(authority).total_bets == 0,
        initialize_spec(authority).treasury_balance == 0,
        initialize_spec(authority).fee_percentage == 2,
{
}

/// `placebet` succeeds exactly when the match is the given one, active and
/// not started, the tracker records no bet, the amount is within the
/// match's bounds, the team is 0 or 1, that team's odds lie between 1.01x
/// and 10.00x, and the fee, principal, pools and counters fit their
/// types. Then the bet is recorded on the given team for the given
/// better, match and time, at that team's odds, with the amount less the
/// fee as principal; the principal goes to the vault and to that team's
/// pool and the total pool, the fee to the platform's treasury.
pub proof fn placebet_behaviour(
    platform: CricketFiContract,
    m: Match,
    tracker: UserBetTracker,
    better: Key,
    now: i64,
    match_id: Key,
    amount: u64,
    team: u8,
)
    ensures
        ({
            let r = placebet_spec(platform, m, tracker, better, now, match_id, amount, team);
            let fee = (amount * platform.fee_percentage) / 100;
            let principal = amount - fee;
            let odds = if team == 0 { m.odds_team1 } else { m.odds_team2 };
            let checks_pass = m.match_id == match_id && m.status is Active && now < m.start_time
                && !tracker.has_bet && m.min_bet_amount <= amount && amount <= m.max_bet_amount && (
            team == 0 || team == 1) && 101 <= odds && odds <= 1000;
            let fits = amount * platform.fee_percentage <= u64::MAX && fee <= u32::MAX && fee
                <= amount && (team == 0 ==> m.team1_pool_amount + principal <= u64::MAX) && (team
                == 1 ==> m.team2_pool_amount + principal <= u64::MAX) && m.total_pool_amount
                + principal <= u64::MAX && platform.total_bets + 1 <= u16::MAX
                && platform.treasury_balance + fee <= u32::MAX;
            &&& (r is Ok <==> checks_pass && fits)
            &&& (r matches Ok((p2, m2, t2, bet, ts)) ==> {
                &&& bet.better == better
                &&& bet.match_id == match_id
                &&& bet.team == team
                &&& bet.bet_time == now
                &&& !bet.claimed
                &&& bet.odds_at_bet == odds
                &&& bet.amount == principal
                &&& bet.amount + fee == amount
                &&& t2.user == better && t2.match_id == match_id && t2.has_bet
                &&& p2.authority == platform.authority
                &&& p2.fee_percentage == platform.fee_percentage
                &&& p2.total_matches == platform.total_matches
                &&& p2.total_bets == platform.total_bets + 1
                &&& p2.treasury_balance == platform.treasury_balance + fee
                &&& m2.team1_pool_amount == m.team1_pool_amount + (if team == 0 {
                    principal
                } else {
                    0
                })
                &&& m2.team2_pool_amount == m.team2_pool_amount + (if team == 1 {
                    principal
                } else {
                    0
                })
                &&& m2.total_pool_amount == m.total_pool_amount + principal
                &&& m2.match_id == m.match_id && m2.team1 == m.team1 && m2.team2 == m.team2
                &&& m2.start_time == m.start_time && m2.end_time == m.end_time
                &&& m2.status == m.status && m2.winner == m.winner
                &&& m2.odds_team1 == m.odds_team1 && m2.odds_team2 == m.odds_team2
                &&& m2.min_bet_amount == m.min_bet_amount && m2.max_bet_amount == m.max_bet_amount
                &&& ts.len() == 2
                &&& ts[0] == Transfer {
                    from: Party::Better,
                    to: Party::MatchVault,
                    lamports: principal as u64,
                }
                &&& ts[1] == Transfer { from: Party::Better, to: Party::Platform, lamports: fee as u64 }
            })
            &&& (m.match_id != match_id ==> r is Err && r->Err_0 == ContractError::Program(
                CricketFiError::InvalidMatch,
            ))
            &&& (m.match_id == match_id && !(m.status is Active) ==> r is Err && r->Err_0
                == ContractError::Program(CricketFiError::InvalidMatchStatus))
            &&& (m.match_id == match_id && m.status is Active && now >= m.start_time ==> r is Err
                && r->Err_0 == ContractError::Program(CricketFiError::BettingClosed))
            &&& (m.match_id == match_id && m.status is Active && now < m.start_time
                && tracker.has_bet ==> r is Err && r->Err_0 == ContractError::Program(
                CricketFiError::UserAlreadyBet,
            ))
            &&& (m.match_id == match_id && m.status is Active && now < m.start_time
                && !tracker.has_bet && (amount < m.min_bet_amount || amount > m.max_bet_amount)
                ==> r is Err && r->Err_0 == ContractError::Program(CricketFiError::InvalidBetAmount))
            &&& (m.match_id == match_id && m.status is Active && now < m.start_time
                && !tracker.has_bet && m.min_bet_amount <= amount && amount <= m.max_bet_amount
                && team > 1 ==> r is Err && r->Err_0 == ContractError::Program(
                CricketFiError::InvalidTeam,
            ))
            &&& (m.match_id == match_id && m.status is Active && now < m.start_time
                && !tracker.has_bet && m.min_bet_amount <= amount && amount <= m.max_bet_amount
                && team <= 1 && !(101 <= odds && odds <= 1000) ==> r is Err && r->Err_0
                == ContractError::Program(CricketFiError::InvalidOdds))
            &&& (checks_pass && !fits ==> r is Err && r->Err_0 == ContractError::Arithmetic(
                ErrorCode::NumericalOverflow,
            ))
        }),
{
}

/// `claim_winnings` succeeds exactly when the bet is the signer's and
/// this match's and unclaimed, the match is completed, the claimed team
/// is the bet's team and the recorded winner, the payout (principal
/// times the bet's odds, in hundredths) fits, the vault covers it, it
/// covers the principal and the total pool covers the excess. Then the
/// payout goes from the vault to the better, the bet is marked claimed
/// and the total pool loses the excess; nothing else changes.
pub proof fn claim_winnings_behaviour(
    m: Match,
    bet: Bet,
    better: Key,
    vault_lamports: u64,
    team: u8,
)
    ensures
        ({
            let r = claim_winnings_spec(m, bet, better, vault_lamports, team);
            let product = bet.amount * bet.odds_at_bet;
            let winnings = product / 100;
            let excess = winnings - bet.amount;
            let team_id = if team == 0 { m.team1 } else { m.team2 };
            let owned = bet.better == better && bet.match_id == m.match_id;
            let payable = owned && !bet.claimed && m.status is Completed && team == bet.team
                && m.winner == Some(team_id);
            &&& (r is Ok <==> payable && product <= u64::MAX && winnings <= vault_lamports
                && bet.amount <= winnings && excess <= m.total_pool_amount)
            &&& (r matches Ok((m2, b2, ts)) ==> {
                &&& b2.claimed
                &&& b2.better == bet.better && b2.match_id == bet.match_id
                &&& b2.amount == bet.amount && b2.team == bet.team
                &&& b2.bet_time == bet.bet_time && b2.odds_at_bet == bet.odds_at_bet
                &&& m2.total_pool_amount == m.total_pool_amount - excess
                &&& m2.match_id == m.match_id && m2.team1 == m.team1 && m2.team2 == m.team2
                &&& m2.start_time == m.start_time && m2.end_time == m.end_time
                &&& m2.team1_pool_amount == m.team1_pool_amount
                &&& m2.team2_pool_amount == m.team2_pool_amount
                &&& m2.status == m.status && m2.winner == m.winner
                &&& m2.odds_team1 == m.odds_team1 && m2.odds_team2 == m.odds_team2
                &&& m2.min_bet_amount == m.min_bet_amount && m2.max_bet_amount == m.max_bet_amount
                &&& ts.len() == 1
                &&& ts[0] == Transfer {
                    from: Party::MatchVault,
                    to: Party::Better,
                    lamports: winnings as u64,
                }
            })
            &&& (bet.better != better ==> r is Err && r->Err_0 == ContractError::ConstraintHasOne)
            &&& (bet.better == better && bet.match_id != m.match_id ==> r is Err && r->Err_0
                == ContractError::Program(CricketFiError::InvalidMatch))
            &&& (owned && bet.claimed ==> r is Err && r->Err_0 == ContractError::Program(
                CricketFiError::WinningsAlreadyClaimed,
            ))
            &&& (owned && !bet.claimed && !(m.status is Completed) ==> r is Err && r->Err_0
                == ContractError::Program(CricketFiError::InvalidMatchStatus))
            &&& (owned && !bet.claimed && m.status is Completed && (team != bet.team || m.winner
                != Some(team_id)) ==> r is Err && r->Err_0 == ContractError::Program(
                CricketFiError::InvalidTeam,
            ))
            &&& (payable && product > u64::MAX ==> r is Err && r->Err_0
                == ContractError::Arithmetic(ErrorCode::NumericalOverflow))
            &&& (payable && product <= u64::MAX && winnings > vault_lamports ==> r is Err
                && r->Err_0 == ContractError::Program(CricketFiError::InsufficientVaultFunds))
            &&& (payable && product <= u64::MAX && winnings <= vault_lamports && (bet.amount
                > winnings || excess > m.total_pool_amount) ==> r is Err && r->Err_0
                == ContractError::Arithmetic(ErrorCode::NumericalOverflow))
        }),
{
}

/// `refund_bet` succeeds exactly when the bet is the signer's, the match
/// is cancelled, the bet is unclaimed and belongs to this match, whatever
/// team it is on. Then its principal goes from the vault back to the
/// better and the bet is marked claimed; nothing else changes.
pub proof fn refund_bet_behaviour(m: Match, bet: Bet, better: Key)
    ensures
        ({
            let r = refund_bet_spec(m, bet, better);
            &&& (r is Ok <==> bet.better == better && m.status is Cancelled && !bet.claimed
                && bet.match_id == m.match_id)
            &&& (r matches Ok((b2, ts)) ==> {
                &&& b2.claimed
                &&& b2.better == bet.better && b2.match_id == bet.match_id
                &&& b2.amount == bet.amount && b2.team == bet.team
                &&& b2.bet_time == bet.bet_time && b2.odds_at_bet == bet.odds_at_bet
                &&& ts.len() == 1
                &&& ts[0] == Transfer {
                    from: Party::MatchVault,
                    to: Party::Better,
                    lamports: bet.amount,
                }
            })
            &&& (bet.better != better ==> r is Err && r->Err_0 == ContractError::ConstraintHasOne)
            &&& (bet.better == better && !(m.status is Cancelled) ==> r is Err && r->Err_0
                == ContractError::Program(CricketFiError::MatchNotCancelled))
            &&& (bet.better == better && m.status is Cancelled && bet.claimed ==> r is Err
                && r->Err_0 == ContractError::Program(CricketFiError::WinningsAlreadyClaimed))
            &&& (bet.better == better && m.status is Cancelled && !bet.claimed && bet.match_id
                != m.match_id ==> r is Err && r->Err_0 == ContractError::Program(
                CricketFiError::InvalidMatch,
            ))
        }),
{
}

/// `create_match` succeeds exactly when the signer is the admin, both
/// odds lie between 1.01x and 10.00x and the match counter has room. The
/// new match stores every argument as given, starts `Created` with empty
/// pools and no winner, and the platform counts one more match.
pub proof fn create_match_behaviour(
    platform: CricketFiContract,
    authority: Key,
    api_match_id: Key,
    team1: Key,
    team2: Key,
    start_ts: i64,
    min_bet: u64,
    max_bet: u64,
    odds_team1: u64,
    odds_team2: u64,
)
    ensures
        ({
            let r = create_match_spec(
                platform,
                authority,
                api_match_id,
                team1,
                team2,
                start_ts,
                min_bet,
                max_bet,
                odds_team1,
                odds_team2,
            );
            let odds_ok = 101 <= odds_team1 && odds_team1 <= 1000 && 101 <= odds_team2
                && odds_team2 <= 1000;
            &&& (r is Ok <==> platform.authority == authority && odds_ok && platform.total_matches
                < u16::MAX)
            &&& (r matches Ok((p2, m)) ==> {
                &&& m.match_id == api_match_id && m.team1 == team1 && m.team2 == team2
                &&& m.start_time == start_ts && m.end_time == 0
                &&& m.min_bet_amount == min_bet && m.max_bet_amount == max_bet
                &&& m.odds_team1 == odds_team1 && m.odds_team2 == odds_team2
                &&& m.status is Created && m.winner is None
                &&& m.total_pool_amount == 0 && m.team1_pool_amount == 0
                    && m.team2_pool_amount == 0
                &&& p2.total_matches == platform.total_matches + 1
                &&& p2.authority == platform.authority && p2.total_bets == platform.total_bets
                &&& p2.treasury_balance == platform.treasury_balance
                &&& p2.fee_percentage == platform.fee_percentage
            })
            &&& (platform.authority != authority ==> r is Err && r->Err_0
                == ContractError::Program(CricketFiError::UnauthorizedAccess))
            &&& (platform.authority == authority && !odds_ok ==> r is Err && r->Err_0
                == ContractError::Program(CricketFiError::InvalidOdds))
            &&& (platform.authority == authority && odds_ok && platform.total_matches == u16::MAX
                ==> r is Err && r->Err_0 == ContractError::Arithmetic(ErrorCode::NumericalOverflow))
        }),
{
}

/// The admin instructions on a match: each is refused with
/// `UnauthorizedAccess` unless the signer is the admin, and otherwise
/// - `activate_match` moves `Created` to `Active`,
/// - `set_odds` stores both odds exactly as given on a `Created` match
///   when both lie between 1.01x and 10.00x,
/// - `cancel_match` moves `Created` or `Active` to `Cancelled`,
/// - `resolve_match` moves `Active` to `Completed` and records the winner,
/// changing nothing else, and fails with `InvalidOdds` or
/// `InvalidMatchStatus` exactly when those conditions fail.
pub proof fn match_admin_behaviour(
    platform: CricketFiContract,
    m: Match,
    authority: Key,
    odds_team1: u64,
    odds_team2: u64,
    winner: Key,
)
    ensures
        ({
            let is_admin = platform.authority == authority;
            let odds_ok = 101 <= odds_team1 && odds_team1 <= 1000 && 101 <= odds_team2
                && odds_team2 <= 1000;
            let unauthorized = ContractError::Program(CricketFiError::UnauthorizedAccess);
            let bad_status = ContractError::Program(CricketFiError::InvalidMatchStatus);
            let a = activate_match_spec(platform, m, authority);
            let s = set_odds_spec(platform, m, authority, odds_team1, odds_team2);
            let c = cancel_match_spec(platform, m, authority);
            let v = resolve_match_spec(platform, m, authority, winner);
            &&& (a is Ok <==> is_admin && m.status is Created)
            &&& (a is Ok ==> a->Ok_0 == Match { status: MatchStatus::Active, ..m })
            &&& (!is_admin ==> a is Err && a->Err_0 == unauthorized)
            &&& (is_admin && !(m.status is Created) ==> a is Err && a->Err_0 == bad_status)
            &&& (s is Ok <==> is_admin && odds_ok && m.status is Created)
            &&& (s is Ok ==> s->Ok_0.odds_team1 == odds_team1 && s->Ok_0.odds_team2 == odds_team2
                && s->Ok_0 == Match { odds_team1, odds_team2, ..m })
            &&& (!is_admin ==> s is Err && s->Err_0 == unauthorized)
            &&& (is_admin && !odds_ok ==> s is Err && s->Err_0 == ContractError::Program(
                CricketFiError::InvalidOdds,
            ))
            &&& (is_admin && odds_ok && !(m.status is Created) ==> s is Err && s->Err_0
                == bad_status)
            &&& (c is Ok <==> is_admin && (m.status is Created || m.status is Active))
            &&& (c is Ok ==> c->Ok_0 == Match { status: MatchStatus::Cancelled, ..m })
            &&& (!is_admin ==> c is Err && c->Err_0 == unauthorized)
            &&& (is_admin && !(m.status is Created || m.status is Active) ==> c is Err && c->Err_0
                == bad_status)
            &&& (v is Ok <==> is_admin && m.status is Active)
            &&& (v is Ok ==> v->Ok_0 == Match {
                status: MatchStatus::Completed,
                winner: Some(winner),
                ..m
            })
            &&& (!is_admin ==> v is Err && v->Err_0 == unauthorized)
            &&& (is_admin && !(m.status is Active) ==> v is Err && v->Err_0 == bad_status)
        }),
{
}

/// `withdraw_treasury` succeeds exactly when the signer is the admin and
/// the treasury holds at least `amount`; then the treasury loses exactly
/// `amount`, which goes from the platform to the admin, and nothing else
/// of the platform changes.
pub proof fn withdraw_treasury_behaviour(platform: CricketFiContract, authority: Key, amount: u32)
    ensures
        ({
            let r = withdraw_treasury_spec(platform, authority, amount);
            &&& (r is Ok <==> platform.authority == authority && amount
                <= platform.treasury_balance)
            &&& (r matches Ok((p2, ts)) ==> {
                &&& p2.treasury_balance == platform.treasury_balance - amount
                &&& p2.authority == platform.authority && p2.total_bets == platform.total_bets
                &&& p2.total_matches == platform.total_matches
                &&& p2.fee_percentage == platform.fee_percentage
                &&& ts.len() == 1
                &&& ts[0] == Transfer {
                    from: Party::Platform,
                    to: Party::Authority,
                    lamports: amount as u64,
                }
            })
            &&& (platform.authority != authority ==> r is Err && r->Err_0
                == ContractError::Program(CricketFiError::UnauthorizedAccess))
            &&& (platform.authority == authority && amount > platform.treasury_balance ==> r is Err
                && r->Err_0 == ContractError::Program(CricketFiError::InsufficientVaultFunds))
        }),
{
}

/// Program errors are numbered from 6000 on, one number per error: two
/// different errors never share a number, and the twelve errors take the
/// numbers 6000 to 6011.
pub proof fn error_codes_are_distinct(a: CricketFiError, b: CricketFiError)
    ensures
        ERROR_CODE_OFFSET == 6000,
        cricketfi_error_index(a) < 12,
        a != b ==> cricketfi_error_index(a) != cricketfi_error_index(b),
        cricketfi_error_index(CricketFiError::UnauthorizedAccess) == 0,
        cricketfi_error_index(CricketFiError::InvalidOdds) == 11,
{
}

} // verus!
