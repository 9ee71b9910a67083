//! Properties over whole histories of instructions: the platform's
//! treasury over any sequence of bets, match creations and withdrawals,
//! and a match's invariant over any sequence of instructions on it.
//! A failed instruction changes nothing and moves no lamports, so a
//! history may hold failed calls as well as successful ones.

use vstd::prelude::*;

use crate::cricketfi_contracts::{
    activate_match_spec, cancel_match_spec, claim_winnings_spec, create_match_spec,
    initialize_spec, placebet_spec, refund_bet_spec, resolve_match_spec, set_odds_spec,
    withdraw_treasury_spec, Party, Transfer,
};
use crate::state::{Bet, CricketFiContract, Key, Match, UserBetTracker};

verus! {

/// An instruction that updates the platform account, with its other
/// accounts and arguments.
pub enum PlatformCall {
    PlaceBet {
        match_account: Match,
        user_bet_tracker: UserBetTracker,
        better: Key,
        now: i64,
        match_id: Key,
        amount: u64,
        team: u8,
    },
    CreateMatch {
        authority: Key,
        api_match_id: Key,
        team1: Key,
        team2: Key,
        start_ts: i64,
        min_bet: u64,
        max_bet: u64,
        odds_team1: u64,
        odds_team2: u64,
    },
    WithdrawTreasury { authority: Key, withdrawal: u32 },
}

/// The platform after one call and the transfers the call makes; a
/// failed call leaves the platform as it was and makes none.
pub open spec fn platform_step(p: CricketFiContract, call: PlatformCall) -> (
    CricketFiContract,
    Seq<Transfer>,
) {
    match call {
        PlatformCall::PlaceBet {
            match_account,
            user_bet_tracker,
            better,
            now,
            match_id,
            amount,
            team,
        } => match placebet_spec(
            p,
            match_account,
            user_bet_tracker,
            better,
            now,
            match_id,
            amount,
            team,
        ) {
            Ok((p2, _, _, _, transfers)) => (p2, transfers),
            Err(_) => (p, Seq::empty()),
        },
        PlatformCall::CreateMatch {
            authority,
            api_match_id,
            team1,
            team2,
            start_ts,
            min_bet,
            max_bet,
            odds_team1,
            odds_team2,
        } => match create_match_spec(
            p,
            authority,
            api_match_id,
            team1,
            team2,
            start_ts,
            min_bet,
            max_bet,
            odds_team1,
            odds_team2,
        ) {
            Ok((p2, _)) => (p2, Seq::empty()),
            Err(_) => (p, Seq::empty()),
        },
        PlatformCall::WithdrawTreasury { authority, withdrawal } => match withdraw_treasury_spec(
            p,
            authority,
            withdrawal,
        ) {
            Ok((p2, transfers)) => (p2, transfers),
            Err(_) => (p, Seq::empty()),
        },
    }
}

/// The platform after a sequence of calls, in order, and all the
/// transfers they make.
pub open spec fn platform_run(p: CricketFiContract, calls: Seq<PlatformCall>) -> (
    CricketFiContract,
    Seq<Transfer>,
)
    decreases calls.len(),
{
    if calls.len() == 0 {
        (p, Seq::empty())
    } else {
        let (p1, ts1) = platform_run(p, calls.drop_last());
        let (p2, ts2) = platform_step(p1, calls.last());
        (p2, ts1 + ts2)
    }
}

/// Lamports that the transfers pay into `party`.
pub open spec fn lamports_into(ts: Seq<Transfer>, party: Party) -> int
    decreases ts.len(),
{
    if ts.len() == 0 {
        0
    } else {
        lamports_into(ts.drop_last(), party) + if ts.last().to == party {
            ts.last().lamports as int
        } else {
            0
        }
    }
}

/// Lamports that the transfers take out of `party`.
pub open spec fn lamports_out_of(ts: Seq<Transfer>, party: Party) -> int
    decreases ts.len(),
{
    if ts.len() == 0 {
        0
    } else {
        lamports_out_of(ts.drop_last(), party) + if ts.last().from == party {
            ts.last().lamports as int
        } else {
            0
        }
    }
}

proof fn lemma_lamports_concat(a: Seq<Transfer>, b: Seq<Transfer>, party: Party)
    ensures
        lamports_into(a + b, party) == lamports_into(a, party) + lamports_into(b, party),
        lamports_out_of(a + b, party) == lamports_out_of(a, party) + lamports_out_of(b, party),
    decreases b.len(),
{
    if b.len() == 0 {
        assert(a + b =~= a);
    } else {
        lemma_lamports_concat(a, b.drop_last(), party);
        assert((a + b).drop_last() =~= a + b.drop_last());
        assert((a + b).last() == b.last());
    }
}

proof fn lemma_lamports_one(t: Transfer, party: Party)
    ensures
        lamports_into(seq![t], party) == if t.to == party { t.lamports as int } else { 0 },
        lamports_out_of(seq![t], party) == if t.from == party { t.lamports as int } else { 0 },
{
    let s = seq![t];
    assert(s.drop_last() =~= Seq::<Transfer>::empty());
    assert(s.last() == t);
    assert(lamports_into(s.drop_last(), party) == 0);
    assert(lamports_out_of(s.drop_last(), party) == 0);
}

proof fn lemma_lamports_two(t0: Transfer, t1: Transfer, party: Party)
    ensures
        lamports_into(seq![t0, t1], party) == (if t0.to == party { t0.lamports as int } else { 0 })
            + (if t1.to == party { t1.lamports as int } else { 0 }),
        lamports_out_of(seq![t0, t1], party) == (if t0.from == party { t0.lamports as int } else {
            0
        }) + (if t1.from == party { t1.lamports as int } else { 0 }),
{
    lemma_lamports_one(t0, party);
    assert(seq![t0, t1].drop_last() =~= seq![t0]);
}

/// One call changes the treasury by exactly the lamports it pays into the
/// platform less those it takes out.
proof fn lemma_platform_step_treasury(p: CricketFiContract, call: PlatformCall)
    ensures
        ({
            let (p2, ts) = platform_step(p, call);
            p2.treasury_balance == p.treasury_balance + lamports_into(ts, Party::Platform)
                - lamports_out_of(ts, Party::Platform)
        }),
{
    match call {
        PlatformCall::PlaceBet {
            match_account,
            user_bet_tracker,
            better,
            now,
            match_id,
            amount,
            team,
        } => {
            let r = placebet_spec(
                p,
                match_account,
                user_bet_tracker,
                better,
                now,
                match_id,
                amount,
                team,
            );
            if r is Ok {
                let ts = r->Ok_0.4;
                lemma_lamports_two(ts[0], ts[1], Party::Platform);
                assert(ts =~= seq![ts[0], ts[1]]);
            }
        },
        PlatformCall::CreateMatch { .. } => {},
        PlatformCall::WithdrawTreasury { authority, withdrawal } => {
            let r = withdraw_treasury_spec(p, authority, withdrawal);
            if r is Ok {
                let ts = r->Ok_0.1;
                lemma_lamports_one(ts[0], Party::Platform);
                assert(ts =~= seq![ts[0]]);
            }
        },
    }
}

proof fn lemma_platform_run_treasury(p: CricketFiContract, calls: Seq<PlatformCall>)
    ensures
        ({
            let (p2, ts) = platform_run(p, calls);
            p2.treasury_balance == p.treasury_balance + lamports_into(ts, Party::Platform)
                - lamports_out_of(ts, Party::Platform)
        }),
    decreases calls.len(),
{
    if calls.len() > 0 {
        lemma_platform_run_treasury(p, calls.drop_last());
        let (p1, ts1) = platform_run(p, calls.drop_last());
        let (p2, ts2) = platform_step(p1, calls.last());
        lemma_platform_step_treasury(p1, calls.last());
        lemma_lamports_concat(ts1, ts2, Party::Platform);
    }
}

/// Treasury accounting: after any sequence of bets, match creations and
/// withdrawals on a platform fresh from `initialize`, the treasury holds
/// exactly the fees paid into the platform less the amounts withdrawn
/// from it; so no more than the fees collected is ever withdrawn.
pub proof fn treasury_is_fees_less_withdrawals(authority: Key, calls: Seq<PlatformCall>)
    ensures
        ({
            let (p, ts) = platform_run(initialize_spec(authority), calls);
            &&& p.treasury_balance == lamports_into(ts, Party::Platform) - lamports_out_of(
                ts,
                Party::Platform,
            )
            &&& lamports_out_of(ts, Party::Platform) <= lamports_into(ts, Party::Platform)
        }),
{
    lemma_platform_run_treasury(initialize_spec(authority), calls);
}

/// An instruction that updates a match account, with its other accounts
/// and arguments.
pub enum MatchCall {
    Activate { platform: CricketFiContract, authority: Key },
    SetOdds { platform: CricketFiContract, authority: Key, odds_team1: u64, odds_team2: u64 },
    PlaceBet {
        platform: CricketFiContract,
        user_bet_tracker: UserBetTracker,
        better: Key,
        now: i64,
        match_id: Key,
        amount: u64,
        team: u8,
    },
    Resolve { platform: CricketFiContract, authority: Key, winner: Key },
    Cancel { platform: CricketFiContract, authority: Key },
    Claim { bet: Bet, better: Key, vault_lamports: u64, team: u8 },
    Refund { bet: Bet, better: Key },
}

/// The match after one call; a failed call leaves it as it was.
pub open spec fn match_step(m: Match, call: MatchCall) -> Match {
    match call {
        MatchCall::Activate { platform, authority } => match activate_match_spec(
            platform,
            m,
            authority,
        ) {
            Ok(m2) => m2,
            Err(_) => m,
        },
        MatchCall::SetOdds { platform, authority, odds_team1, odds_team2 } => match set_odds_spec(
            platform,
            m,
            authority,
            odds_team1,
            odds_team2,
        ) {
            Ok(m2) => m2,
            Err(_) => m,
        },
        MatchCall::PlaceBet {
            platform,
            user_bet_tracker,
            better,
            now,
            match_id,
            amount,
            team,
        } => match placebet_spec(
            platform,
            m,
            user_bet_tracker,
            better,
            now,
            match_id,
            amount,
            team,
        ) {
            Ok((_, m2, _, _, _)) => m2,
            Err(_) => m,
        },
        MatchCall::Resolve { platform, authority, winner } => match resolve_match_spec(
            platform,
            m,
            authority,
            winner,
        ) {
            Ok(m2) => m2,
            Err(_) => m,
        },
        MatchCall::Cancel { platform, authority } => match cancel_match_spec(
            platform,
            m,
            authority,
        ) {
            Ok(m2) => m2,
            Err(_) => m,
        },
        MatchCall::Claim { bet, better, vault_lamports, team } => match claim_winnings_spec(
            m,
            bet,
            better,
            vault_lamports,
            team,
        ) {
            Ok((m2, _, _)) => m2,
            Err(_) => m,
        },
        MatchCall::Refund { bet, better } => {
            let _ = refund_bet_spec(m, bet, better);
            m
        },
    }
}

/// The match after a sequence of calls, in order.
pub open spec fn match_run(m: Match, calls: Seq<MatchCall>) -> Match
    decreases calls.len(),
{
    if calls.len() == 0 {
        m
    } else {
        match_step(match_run(m, calls.drop_last()), calls.last())
    }
}

proof fn lemma_match_step_wf(m: Match, call: MatchCall)
    requires
        m.wf(),
    ensures
        match_step(m, call).wf(),
{
}

proof fn lemma_match_run_wf(m: Match, calls: Seq<MatchCall>)
    requires
        m.wf(),
    ensures
        match_run(m, calls).wf(),
    decreases calls.len(),
{
    if calls.len() > 0 {
        lemma_match_run_wf(m, calls.drop_last());
        lemma_match_step_wf(match_run(m, calls.drop_last()), calls.last());
    }
}

/// A match made by `create_match` keeps its invariant after any sequence
/// of instructions on it: in particular a winner is recorded exactly when
/// the match is completed, both odds stay between 1.01x and 10.00x, and
/// the total pool never exceeds the two team pools.
pub proof fn created_match_stays_well_formed(
    platform: CricketFiContract,
    authority: Key,
    api_match_id: Key,
    team1: Key,
    team2: Key,
    start_ts: i64,
    min_bet: u64,
    max_bet: u64,
    odds_team1: u64,
    odds_team2: u64,
    calls: Seq<MatchCall>,
)
    requires
        create_match_spec(
            platform,
            authority,
            api_match_id,
            team1,
            team2,
            start_ts,
            min_bet,
            max_bet,
            odds_team1,
            odds_team2,
        ) is Ok,
    ensures
        ({
            let m0 = create_match_spec(
                platform,
                authority,
                api_match_id,
                team1,
                team2,
                start_ts,
                min_bet,
                max_bet,
                odds_team1,
                odds_team2,
            )->Ok_0.1;
            let m = match_run(m0, calls);
            &&& m.wf()
            &&& (m.winner is Some <==> m.status is Completed)
        }),
{
    let m0 = create_match_spec(
        platform,
        authority,
        api_match_id,
        team1,
        team2,
        start_ts,
        min_bet,
        max_bet,
        odds_team1,
        odds_team2,
    )->Ok_0.1;
    lemma_match_run_wf(m0, calls);
}

} // verus!
