use cricketfi_contracts::cricketfi_contracts::{
    activate_match, cancel_match, claim_winnings, create_match, initialize, placebet,
    refund_bet, resolve_match, set_odds, withdraw_treasury,
};
use cricketfi_contracts::{
    keys_equal, Bet, ContractError, CricketFiContract, CricketFiError, ErrorCode, Key, Match,
    MatchStatus, Party, Transfer, UserBetTracker,
};

const ADMIN: Key = [1u8; 32];
const MATCH_ID: Key = [2u8; 32];
const TEAM1: Key = [3u8; 32];
const TEAM2: Key = [4u8; 32];
const USER: Key = [5u8; 32];
const OTHER: Key = [6u8; 32];

fn program(e: CricketFiError) -> ContractError {
    ContractError::Program(e)
}

fn overflow() -> ContractError {
    ContractError::Arithmetic(ErrorCode::NumericalOverflow)
}

fn fresh_tracker() -> UserBetTracker {
    UserBetTracker { user: [0u8; 32], match_id: [0u8; 32], has_bet: false }
}

/// A platform and an active match (start time 100, bets 10..=10000,
/// odds 1.5x and 2.0x).
fn active_match() -> (CricketFiContract, Match) {
    let mut platform = initialize(ADMIN);
    let mut m = create_match(&mut platform, ADMIN, MATCH_ID, TEAM1, TEAM2, 100, 10, 10_000, 150, 200)
        .unwrap();
    activate_match(&platform, &mut m, ADMIN).unwrap();
    (platform, m)
}

/// A platform, a match and a bet of 1000 by USER on team 0.
fn placed_bet() -> (CricketFiContract, Match, Bet) {
    let (mut platform, mut m) = active_match();
    let mut tracker = fresh_tracker();
    let (bet, _) = placebet(&mut platform, &mut m, &mut tracker, USER, 50, MATCH_ID, 1000, 0).unwrap();
    (platform, m, bet)
}

#[test]
fn initialize_sets_admin_and_default_fee() {
    let p = initialize(ADMIN);
    assert_eq!(
        p,
        CricketFiContract {
            authority: ADMIN,
            total_matches: 0,
            total_bets: 0,
            treasury_balance: 0,
            fee_percentage: 2
        }
    );
}

#[test]
fn create_match_starts_created_and_counts() {
    let mut p = initialize(ADMIN);
    let m = create_match(&mut p, ADMIN, MATCH_ID, TEAM1, TEAM2, 100, 10, 10_000, 101, 1000).unwrap();
    assert_eq!(p.total_matches, 1);
    assert_eq!(m.status, MatchStatus::Created);
    assert_eq!(m.winner, None);
    assert_eq!((m.total_pool_amount, m.team1_pool_amount, m.team2_pool_amount), (0, 0, 0));
    assert_eq!((m.odds_team1, m.odds_team2), (101, 1000));
    assert_eq!(m.end_time, 0);
}

#[test]
fn create_match_refuses_bad_odds_and_strangers() {
    let mut p = initialize(ADMIN);
    let before = p;
    assert_eq!(
        create_match(&mut p, ADMIN, MATCH_ID, TEAM1, TEAM2, 100, 10, 10_000, 100, 200),
        Err(program(CricketFiError::InvalidOdds))
    );
    assert_eq!(
        create_match(&mut p, ADMIN, MATCH_ID, TEAM1, TEAM2, 100, 10, 10_000, 150, 1001),
        Err(program(CricketFiError::InvalidOdds))
    );
    assert_eq!(
        create_match(&mut p, OTHER, MATCH_ID, TEAM1, TEAM2, 100, 10, 10_000, 150, 200),
        Err(program(CricketFiError::UnauthorizedAccess))
    );
    assert_eq!(p, before);
}

#[test]
fn create_match_overflows_match_counter() {
    let mut p = initialize(ADMIN);
    p.total_matches = u16::MAX;
    assert_eq!(
        create_match(&mut p, ADMIN, MATCH_ID, TEAM1, TEAM2, 100, 10, 10_000, 150, 200),
        Err(overflow())
    );
    assert_eq!(p.total_matches, u16::MAX);
}

#[test]
fn bet_takes_two_percent_fee() {
    let (mut p, mut m) = active_match();
    let mut t = fresh_tracker();
    let (bet, transfers) = placebet(&mut p, &mut m, &mut t, USER, 50, MATCH_ID, 1000, 0).unwrap();
    assert_eq!(bet.amount, 980);
    assert_eq!(bet.odds_at_bet, 150);
    assert_eq!(bet.team, 0);
    assert_eq!(bet.bet_time, 50);
    assert!(!bet.claimed);
    assert_eq!(
        transfers,
        vec![
            Transfer { from: Party::Better, to: Party::MatchVault, lamports: 980 },
            Transfer { from: Party::Better, to: Party::Platform, lamports: 20 },
        ]
    );
    assert_eq!(p.treasury_balance, 20);
    assert_eq!(p.total_bets, 1);
    assert_eq!((m.team1_pool_amount, m.team2_pool_amount, m.total_pool_amount), (980, 0, 980));
    assert_eq!(t, UserBetTracker { user: USER, match_id: MATCH_ID, has_bet: true });
}

#[test]
fn bet_on_team_two_uses_its_odds_and_pool() {
    let (mut p, mut m) = active_match();
    let mut t = fresh_tracker();
    let (bet, _) = placebet(&mut p, &mut m, &mut t, USER, 50, MATCH_ID, 149, 1).unwrap();
    // fee = 149 * 2 / 100 = 2, rounded down
    assert_eq!(bet.amount, 147);
    assert_eq!(bet.odds_at_bet, 200);
    assert_eq!((m.team1_pool_amount, m.team2_pool_amount, m.total_pool_amount), (0, 147, 147));
}

#[test]
fn bet_errors_come_in_order_and_change_nothing() {
    let (mut p, mut m) = active_match();
    let mut t = fresh_tracker();
    let (p0, m0, t0) = (p, m, t);
    let cases: Vec<(Key, i64, u64, u8, CricketFiError)> = vec![
        (OTHER, 50, 1000, 0, CricketFiError::InvalidMatch),
        (MATCH_ID, 100, 1000, 0, CricketFiError::BettingClosed),
        (MATCH_ID, 50, 9, 0, CricketFiError::InvalidBetAmount),
        (MATCH_ID, 50, 10_001, 0, CricketFiError::InvalidBetAmount),
        (MATCH_ID, 50, 1000, 2, CricketFiError::InvalidTeam),
    ];
    for (id, now, amount, team, err) in cases {
        assert_eq!(placebet(&mut p, &mut m, &mut t, USER, now, id, amount, team), Err(program(err)));
        assert_eq!((p, m, t), (p0, m0, t0));
    }
}

#[test]
fn bet_refused_when_match_not_active() {
    let mut p = initialize(ADMIN);
    let mut m = create_match(&mut p, ADMIN, MATCH_ID, TEAM1, TEAM2, 100, 10, 10_000, 150, 200).unwrap();
    let mut t = fresh_tracker();
    assert_eq!(
        placebet(&mut p, &mut m, &mut t, USER, 50, MATCH_ID, 1000, 0),
        Err(program(CricketFiError::InvalidMatchStatus))
    );
}

#[test]
fn second_bet_with_same_tracker_refused() {
    let (mut p, mut m) = active_match();
    let mut t = fresh_tracker();
    placebet(&mut p, &mut m, &mut t, USER, 50, MATCH_ID, 1000, 0).unwrap();
    assert_eq!(
        placebet(&mut p, &mut m, &mut t, USER, 50, MATCH_ID, 1000, 1),
        Err(program(CricketFiError::UserAlreadyBet))
    );
    assert_eq!(p.total_bets, 1);
}

#[test]
fn bet_refused_when_odds_out_of_range() {
    let (mut p, mut m) = active_match();
    m.odds_team1 = 100;
    let mut t = fresh_tracker();
    assert_eq!(
        placebet(&mut p, &mut m, &mut t, USER, 50, MATCH_ID, 1000, 0),
        Err(program(CricketFiError::InvalidOdds))
    );
}

#[test]
fn bet_fee_above_amount_overflows() {
    let (mut p, mut m) = active_match();
    p.fee_percentage = 150;
    let mut t = fresh_tracker();
    let before = (p, m, t);
    assert_eq!(placebet(&mut p, &mut m, &mut t, USER, 50, MATCH_ID, 1000, 0), Err(overflow()));
    assert_eq!((p, m, t), before);
}

#[test]
fn bet_product_and_counters_overflow() {
    let (mut p, mut m) = active_match();
    m.max_bet_amount = u64::MAX;
    let mut t = fresh_tracker();
    assert_eq!(placebet(&mut p, &mut m, &mut t, USER, 50, MATCH_ID, u64::MAX, 0), Err(overflow()));
    p.total_bets = u16::MAX;
    assert_eq!(placebet(&mut p, &mut m, &mut t, USER, 50, MATCH_ID, 1000, 0), Err(overflow()));
    p.total_bets = 0;
    p.treasury_balance = u32::MAX;
    assert_eq!(placebet(&mut p, &mut m, &mut t, USER, 50, MATCH_ID, 1000, 0), Err(overflow()));
    assert!(!t.has_bet);
}

#[test]
fn fee_above_u32_overflows() {
    let (mut p, mut m) = active_match();
    m.max_bet_amount = u64::MAX;
    let mut t = fresh_tracker();
    // fee = 300_000_000_000 * 2 / 100 = 6_000_000_000 > u32::MAX
    assert_eq!(
        placebet(&mut p, &mut m, &mut t, USER, 50, MATCH_ID, 300_000_000_000, 0),
        Err(overflow())
    );
}

#[test]
fn winner_claims_amount_times_odds() {
    let (_, mut m, mut bet) = placed_bet();
    let p = initialize(ADMIN);
    resolve_match(&p, &mut m, ADMIN, TEAM1).unwrap();
    assert_eq!(m.status, MatchStatus::Completed);
    assert_eq!(m.winner, Some(TEAM1));
    let transfers = claim_winnings(&mut m, &mut bet, USER, 10_000, 0).unwrap();
    // 980 * 150 / 100 = 1470
    assert_eq!(transfers, vec![Transfer { from: Party::MatchVault, to: Party::Better, lamports: 1470 }]);
    assert!(bet.claimed);
    assert_eq!(m.total_pool_amount, 980 - 490);
    assert_eq!(
        claim_winnings(&mut m, &mut bet, USER, 10_000, 0),
        Err(program(CricketFiError::WinningsAlreadyClaimed))
    );
}

#[test]
fn claim_checks_in_order() {
    let (p, mut m, mut bet) = placed_bet();
    assert_eq!(claim_winnings(&mut m, &mut bet, OTHER, 10_000, 0), Err(ContractError::ConstraintHasOne));
    assert_eq!(
        claim_winnings(&mut m, &mut bet, USER, 10_000, 0),
        Err(program(CricketFiError::InvalidMatchStatus))
    );
    resolve_match(&p, &mut m, ADMIN, TEAM2).unwrap();
    assert_eq!(
        claim_winnings(&mut m, &mut bet, USER, 10_000, 1),
        Err(program(CricketFiError::InvalidTeam))
    );
    // the bet's team lost
    assert_eq!(
        claim_winnings(&mut m, &mut bet, USER, 10_000, 0),
        Err(program(CricketFiError::InvalidTeam))
    );
    let mut other_match = m;
    other_match.match_id = OTHER;
    assert_eq!(
        claim_winnings(&mut other_match, &mut bet, USER, 10_000, 0),
        Err(program(CricketFiError::InvalidMatch))
    );
    assert!(!bet.claimed);
}

#[test]
fn claim_needs_vault_funds() {
    let (p, mut m, mut bet) = placed_bet();
    resolve_match(&p, &mut m, ADMIN, TEAM1).unwrap();
    let m0 = m;
    assert_eq!(
        claim_winnings(&mut m, &mut bet, USER, 1469, 0),
        Err(program(CricketFiError::InsufficientVaultFunds))
    );
    assert_eq!(m, m0);
    assert!(!bet.claimed);
    assert!(claim_winnings(&mut m, &mut bet, USER, 1470, 0).is_ok());
}

#[test]
fn claim_with_low_odds_underflows_excess() {
    let (p, mut m, mut bet) = placed_bet();
    resolve_match(&p, &mut m, ADMIN, TEAM1).unwrap();
    bet.odds_at_bet = 50;
    assert_eq!(claim_winnings(&mut m, &mut bet, USER, 10_000, 0), Err(overflow()));
}

#[test]
fn refund_after_cancel_returns_principal_once() {
    let (p, mut m, mut bet) = placed_bet();
    assert_eq!(refund_bet(&m, &mut bet, USER), Err(program(CricketFiError::MatchNotCancelled)));
    cancel_match(&p, &mut m, ADMIN).unwrap();
    assert_eq!(refund_bet(&m, &mut bet, OTHER), Err(ContractError::ConstraintHasOne));
    let transfers = refund_bet(&m, &mut bet, USER).unwrap();
    assert_eq!(transfers, vec![Transfer { from: Party::MatchVault, to: Party::Better, lamports: 980 }]);
    assert!(bet.claimed);
    assert_eq!(refund_bet(&m, &mut bet, USER), Err(program(CricketFiError::WinningsAlreadyClaimed)));
}

#[test]
fn refund_of_bet_on_other_match_refused() {
    let (p, mut m, mut bet) = placed_bet();
    cancel_match(&p, &mut m, ADMIN).unwrap();
    bet.match_id = OTHER;
    assert_eq!(refund_bet(&m, &mut bet, USER), Err(program(CricketFiError::InvalidMatch)));
}

#[test]
fn life_cycle_transitions() {
    let mut p = initialize(ADMIN);
    let mut m = create_match(&mut p, ADMIN, MATCH_ID, TEAM1, TEAM2, 100, 10, 10_000, 150, 200).unwrap();
    assert_eq!(resolve_match(&p, &mut m, ADMIN, TEAM1), Err(program(CricketFiError::InvalidMatchStatus)));
    assert_eq!(activate_match(&p, &mut m, OTHER), Err(program(CricketFiError::UnauthorizedAccess)));
    activate_match(&p, &mut m, ADMIN).unwrap();
    assert_eq!(m.status, MatchStatus::Active);
    assert_eq!(activate_match(&p, &mut m, ADMIN), Err(program(CricketFiError::InvalidMatchStatus)));
    assert_eq!(resolve_match(&p, &mut m, OTHER, TEAM1), Err(program(CricketFiError::UnauthorizedAccess)));
    resolve_match(&p, &mut m, ADMIN, TEAM2).unwrap();
    assert_eq!(cancel_match(&p, &mut m, ADMIN), Err(program(CricketFiError::InvalidMatchStatus)));
    assert_eq!(set_odds(&p, &mut m, ADMIN, 150, 150), Err(program(CricketFiError::InvalidMatchStatus)));
    assert_eq!(m.status, MatchStatus::Completed);
}

#[test]
fn cancel_from_created_and_active() {
    let mut p = initialize(ADMIN);
    let mut m = create_match(&mut p, ADMIN, MATCH_ID, TEAM1, TEAM2, 100, 10, 10_000, 150, 200).unwrap();
    assert_eq!(cancel_match(&p, &mut m, OTHER), Err(program(CricketFiError::UnauthorizedAccess)));
    cancel_match(&p, &mut m, ADMIN).unwrap();
    assert_eq!(m.status, MatchStatus::Cancelled);
    assert_eq!(activate_match(&p, &mut m, ADMIN), Err(program(CricketFiError::InvalidMatchStatus)));
    let (p2, mut m2) = active_match();
    cancel_match(&p2, &mut m2, ADMIN).unwrap();
    assert_eq!(m2.status, MatchStatus::Cancelled);
    assert_eq!(m2.winner, None);
}

#[test]
fn set_odds_only_before_activation() {
    let mut p = initialize(ADMIN);
    let mut m = create_match(&mut p, ADMIN, MATCH_ID, TEAM1, TEAM2, 100, 10, 10_000, 150, 200).unwrap();
    assert_eq!(set_odds(&p, &mut m, OTHER, 300, 300), Err(program(CricketFiError::UnauthorizedAccess)));
    assert_eq!(set_odds(&p, &mut m, ADMIN, 1001, 300), Err(program(CricketFiError::InvalidOdds)));
    assert_eq!(set_odds(&p, &mut m, ADMIN, 300, 100), Err(program(CricketFiError::InvalidOdds)));
    set_odds(&p, &mut m, ADMIN, 300, 400).unwrap();
    assert_eq!((m.odds_team1, m.odds_team2), (300, 400));
    activate_match(&p, &mut m, ADMIN).unwrap();
    assert_eq!(set_odds(&p, &mut m, ADMIN, 500, 600), Err(program(CricketFiError::InvalidMatchStatus)));
    assert_eq!((m.odds_team1, m.odds_team2), (300, 400));
    let mut t = fresh_tracker();
    let (bet, _) = placebet(&mut p, &mut m, &mut t, OTHER, 60, MATCH_ID, 500, 1).unwrap();
    assert_eq!(bet.odds_at_bet, 400);
}

#[test]
fn treasury_withdrawal() {
    let (mut p, _, _) = placed_bet();
    assert_eq!(p.treasury_balance, 20);
    assert_eq!(withdraw_treasury(&mut p, OTHER, 5), Err(program(CricketFiError::UnauthorizedAccess)));
    assert_eq!(withdraw_treasury(&mut p, ADMIN, 21), Err(program(CricketFiError::InsufficientVaultFunds)));
    assert_eq!(p.treasury_balance, 20);
    let transfers = withdraw_treasury(&mut p, ADMIN, 15).unwrap();
    assert_eq!(transfers, vec![Transfer { from: Party::Platform, to: Party::Authority, lamports: 15 }]);
    assert_eq!(p.treasury_balance, 5);
    withdraw_treasury(&mut p, ADMIN, 5).unwrap();
    assert_eq!(p.treasury_balance, 0);
}

#[test]
fn error_codes_and_messages() {
    assert_eq!(CricketFiError::UnauthorizedAccess.code(), 6000);
    assert_eq!(CricketFiError::InvalidOdds.code(), 6011);
    assert_eq!(CricketFiError::BettingClosed.code(), 6008);
    assert_eq!(ErrorCode::NumericalOverflow.code(), 6000);
    assert_eq!(CricketFiError::WinningsAlreadyClaimed.message(), "Winnings already claimed");
    assert_eq!(CricketFiError::InsufficientVaultFunds.message(), "Insufficient Vault Funds");
    assert_eq!(ErrorCode::NumericalOverflow.message(), "Numerical overflow during calculation");
}

#[test]
fn keys_compare_bytewise() {
    let a: Key = [7u8; 32];
    let mut b: Key = [7u8; 32];
    assert!(keys_equal(&a, &b));
    b[31] = 8;
    assert!(!keys_equal(&a, &b));
}

#[test]
fn treasury_equals_fees_less_withdrawals() {
    let (mut p, mut m) = active_match();
    let mut fees_in: u64 = 0;
    let mut withdrawn: u64 = 0;
    for (i, amount) in [1000u64, 2550, 49].iter().enumerate() {
        let mut t = fresh_tracker();
        let better: Key = [10 + i as u8; 32];
        let (_, transfers) = placebet(&mut p, &mut m, &mut t, better, 50, MATCH_ID, *amount, 0).unwrap();
        fees_in += transfers.iter().filter(|t| t.to == Party::Platform).map(|t| t.lamports).sum::<u64>();
        let out = withdraw_treasury(&mut p, ADMIN, 7).unwrap();
        withdrawn += out.iter().filter(|t| t.from == Party::Platform).map(|t| t.lamports).sum::<u64>();
    }
    // fees: 20 + 51 + 0
    assert_eq!(fees_in, 71);
    assert_eq!(withdrawn, 21);
    assert_eq!(p.treasury_balance as u64, fees_in - withdrawn);
    assert_eq!(
        withdraw_treasury(&mut p, ADMIN, 51),
        Err(program(CricketFiError::InsufficientVaultFunds))
    );
}
