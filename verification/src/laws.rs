//! Properties of the program as a whole, proved over the outcomes that
//! the instructions' contracts state.

use vstd::prelude::*;

use crate::cricketfi_contracts::{
    activate_match_spec, bet_fee, cancel_match_spec, claim_winnings_spec, create_match_spec,
    payout, placebet_spec, program_error, refund_bet_spec, resolve_match_spec, set_odds_spec,
    withdraw_treasury_spec, Party,
};
use crate::errors::CricketFiError;
use crate::state::{
    is_final_status, odds_in_range, status_step, Bet, CricketFiContract, Key, Match,
    UserBetTracker,
};

verus! {

/// A completed or cancelled match keeps its status: no step of the life
/// cycle leaves `Completed` or `Cancelled`.
pub proof fn final_status_is_kept(from: crate::state::MatchStatus, to: crate::state::MatchStatus)
    requires
        status_step(from, to),
        is_final_status(from),
    ensures
        to == from,
{
}

/// A placed bet moves exactly the amount staked out of the better: the
/// fee (amount times the fee percentage, rounded down) to the platform
/// treasury and the rest, the principal, to the match vault, where it is
/// added to the chosen team's pool and to the total pool. The platform
/// counts one more bet and the tracker records the bet.
pub proof fn placed_bet_splits_amount(
    platform: CricketFiContract,
    m: Match,
    tracker: UserBetTracker,
    better: Key,
    now: i64,
    match_id: Key,
    amount: u64,
    team: u8,
)
    requires
        placebet_spec(platform, m, tracker, better, now, match_id, amount, team) is Ok,
    ensures
        ({
            let (p2, m2, t2, bet, transfers) = placebet_spec(
                platform,
                m,
                tracker,
                better,
                now,
                match_id,
                amount,
                team,
            )->Ok_0;
            &&& transfers.len() == 2
            &&& transfers[0].from == Party::Better && transfers[0].to == Party::MatchVault
            &&& transfers[1].from == Party::Better && transfers[1].to == Party::Platform
            &&& transfers[0].lamports + transfers[1].lamports == amount
            &&& transfers[1].lamports == bet_fee(amount, platform.fee_percentage)
            &&& bet.amount == transfers[0].lamports
            &&& p2.treasury_balance == platform.treasury_balance + transfers[1].lamports
            &&& p2.total_bets == platform.total_bets + 1
            &&& m2.total_pool_amount == m.total_pool_amount + bet.amount
            &&& m2.team1_pool_amount + m2.team2_pool_amount == m.team1_pool_amount
                + m.team2_pool_amount + bet.amount
            &&& t2.has_bet && t2.user == better && t2.match_id == match_id
        }),
{
}

/// Bets are taken only on an active match before it starts, for an
/// amount between the match's minimum and maximum, on team 0 or 1, and
/// at odds between 1.01x and 10.00x, which the bet keeps.
pub proof fn bets_follow_the_rules(
    platform: CricketFiContract,
    m: Match,
    tracker: UserBetTracker,
    better: Key,
    now: i64,
    match_id: Key,
    amount: u64,
    team: u8,
)
    requires
        placebet_spec(platform, m, tracker, better, now, match_id, amount, team) is Ok,
    ensures
        m.status is Active,
        now < m.start_time,
        m.match_id == match_id,
        !tracker.has_bet,
        m.min_bet_amount <= amount <= m.max_bet_amount,
        team == 0 || team == 1,
        placebet_spec(platform, m, tracker, better, now, match_id, amount, team)->Ok_0.3.odds_at_bet
            == m.odds_for(team),
        odds_in_range(m.odds_for(team)),
{
}

/// A user bets at most once on a match: once a tracker records a bet,
/// every further bet with it is refused, and a successful bet leaves its
/// tracker in that state.
pub proof fn one_bet_per_tracker(
    platform: CricketFiContract,
    m: Match,
    tracker: UserBetTracker,
    better: Key,
    now: i64,
    match_id: Key,
    amount: u64,
    team: u8,
)
    ensures
        tracker.has_bet ==> placebet_spec(platform, m, tracker, better, now, match_id, amount, team)
            is Err,
        placebet_spec(platform, m, tracker, better, now, match_id, amount, team) is Ok
            ==> placebet_spec(platform, m, tracker, better, now, match_id, amount, team)->Ok_0.2.has_bet,
{
}

/// A bet is settled at most once: claiming or refunding it marks it
/// claimed, and a claimed bet is neither paid out nor refunded again,
/// whatever the match, signer or arguments.
pub proof fn bet_is_settled_once(m: Match, bet: Bet, better: Key, vault_lamports: u64, team: u8)
    ensures
        claim_winnings_spec(m, bet, better, vault_lamports, team) is Ok
            ==> claim_winnings_spec(m, bet, better, vault_lamports, team)->Ok_0.1.claimed,
        refund_bet_spec(m, bet, better) is Ok ==> refund_bet_spec(m, bet, better)->Ok_0.0.claimed,
        bet.claimed ==> claim_winnings_spec(m, bet, better, vault_lamports, team) is Err,
        bet.claimed ==> refund_bet_spec(m, bet, better) is Err,
{
}

/// Only the bet's own better is paid, only for a completed match whose
/// recorded winner is the team bet on, and the payout is the principal
/// times the odds fixed at the bet; for a bet placed by the program
/// (odds of at least 1.01x) the payout covers the principal, and the
/// match's total pool loses exactly the part above it.
pub proof fn winnings_go_to_winners(
    m: Match,
    bet: Bet,
    better: Key,
    vault_lamports: u64,
    team: u8,
)
    requires
        claim_winnings_spec(m, bet, better, vault_lamports, team) is Ok,
    ensures
        ({
            let (m2, b2, transfers) = claim_winnings_spec(m, bet, better, vault_lamports, team)->Ok_0;
            &&& better == bet.better
            &&& bet.match_id == m.match_id
            &&& m.status is Completed
            &&& team == bet.team
            &&& m.winner == Some(m.team_id(bet.team))
            &&& transfers.len() == 1
            &&& transfers[0].from == Party::MatchVault && transfers[0].to == Party::Better
            &&& transfers[0].lamports == payout(bet.amount, bet.odds_at_bet)
            &&& transfers[0].lamports <= vault_lamports
            &&& bet.wf() ==> transfers[0].lamports >= bet.amount
            &&& m2.total_pool_amount == m.total_pool_amount - (transfers[0].lamports - bet.amount)
        }),
{
    if bet.wf() {
        assert(bet.amount * bet.odds_at_bet >= bet.amount * 100) by (nonlinear_arith)
            requires
                bet.odds_at_bet >= 101,
        ;
    }
}

/// A refund pays the bet's own better back exactly the principal of the
/// bet, and only for a cancelled match.
pub proof fn refund_returns_principal(m: Match, bet: Bet, better: Key)
    requires
        refund_bet_spec(m, bet, better) is Ok,
    ensures
        better == bet.better,
        m.status is Cancelled,
        bet.match_id == m.match_id,
        refund_bet_spec(m, bet, better)->Ok_0.1.len() == 1,
        refund_bet_spec(m, bet, better)->Ok_0.1[0].lamports == bet.amount,
        refund_bet_spec(m, bet, better)->Ok_0.1[0].to == Party::Better,
{
}

/// A withdrawal never takes more than the fees held, and lowers the
/// treasury by exactly the amount paid to the admin.
pub proof fn withdrawal_is_bounded(platform: CricketFiContract, authority: Key, amount: u32)
    requires
        withdraw_treasury_spec(platform, authority, amount) is Ok,
    ensures
        amount <= platform.treasury_balance,
        withdraw_treasury_spec(platform, authority, amount)->Ok_0.0.treasury_balance + amount
            == platform.treasury_balance,
        withdraw_treasury_spec(platform, authority, amount)->Ok_0.1[0].lamports == amount,
        withdraw_treasury_spec(platform, authority, amount)->Ok_0.1[0].to == Party::Authority,
{
}

/// Every admin instruction refuses a signer that is not the platform's
/// authority, with `UnauthorizedAccess`.
pub proof fn only_the_authority_administers(
    platform: CricketFiContract,
    m: Match,
    signer: Key,
    api_match_id: Key,
    team1: Key,
    team2: Key,
    start_ts: i64,
    min_bet: u64,
    max_bet: u64,
    odds_team1: u64,
    odds_team2: u64,
    winner: Key,
    amount: u32,
)
    requires
        platform.authority != signer,
    ensures
        create_match_spec(
            platform,
            signer,
            api_match_id,
            team1,
            team2,
            start_ts,
            min_bet,
            max_bet,
            odds_team1,
            odds_team2,
        ) == Err::<(CricketFiContract, Match), _>(
            program_error(CricketFiError::UnauthorizedAccess),
        ),
        activate_match_spec(platform, m, signer) == Err::<Match, _>(
            program_error(CricketFiError::UnauthorizedAccess),
        ),
        set_odds_spec(platform, m, signer, odds_team1, odds_team2) == Err::<Match, _>(
            program_error(CricketFiError::UnauthorizedAccess),
        ),
        cancel_match_spec(platform, m, signer) == Err::<Match, _>(
            program_error(CricketFiError::UnauthorizedAccess),
        ),
        resolve_match_spec(platform, m, signer, winner) == Err::<Match, _>(
            program_error(CricketFiError::UnauthorizedAccess),
        ),
        withdraw_treasury_spec(platform, signer, amount) is Err,
        withdraw_treasury_spec(platform, signer, amount)->Err_0 == program_error(
            CricketFiError::UnauthorizedAccess,
        ),
{
}

} // verus!
