use ore_craps::bet::process_place_craps_bet;
use ore_craps::bindings::{CrapsBetTypeTS, CrapsGameTS, CrapsPositionTS};
use ore_craps::claim::{
    process_claim_craps_debt, process_claim_craps_winnings, process_fund_craps_house,
    process_force_settle_craps,
};
use ore_craps::error::OreError;
use ore_craps::game::CrapsGame;
use ore_craps::payout::MAX_BET_AMOUNT;
use ore_craps::position::CrapsPosition;
use ore_craps::settle::process_settle_craps;

// Squares of the board: (die1 - 1) * 6 + (die2 - 1).
const ONE_ONE: usize = 0;
const ONE_TWO: usize = 1;
const ONE_THREE: usize = 2;
const ONE_SIX: usize = 5;
const TWO_TWO: usize = 7;
const TWO_FOUR: usize = 9;
const FOUR_FOUR: usize = 21;
const FIVE_FIVE: usize = 28;
const FIVE_SIX: usize = 29;
const SIX_SIX: usize = 35;

fn funded(bankroll: u64) -> CrapsGame {
    let mut g = CrapsGame::new();
    g.house_bankroll = bankroll;
    g
}

fn in_point_phase(bankroll: u64, point: u8) -> CrapsGame {
    let mut g = funded(bankroll);
    g.set_point(point);
    g
}

#[test]
fn any_seven_scenario() {
    let mut g = funded(1000);
    let mut p = CrapsPosition::new(g.epoch_id);
    process_place_craps_bet(&mut g, &mut p, 11, 0, 100).unwrap();
    assert_eq!(g.reserved_payouts, 500);
    assert_eq!(g.house_bankroll, 1100);
    process_settle_craps(&mut g, &mut p, 1, ONE_SIX).unwrap();
    assert_eq!(p.pending_winnings, 500);
    assert_eq!(g.reserved_payouts, 0);
    // only the 400 profit leaves the bankroll: 1000 + 100 - 400
    assert_eq!(g.house_bankroll, 700);
    assert_eq!(p.any_seven, 0);
}

#[test]
fn place_six_scenario() {
    let mut g = in_point_phase(10_000, 4);
    let mut p = CrapsPosition::new(g.epoch_id);
    process_place_craps_bet(&mut g, &mut p, 8, 6, 60).unwrap();
    assert!(p.place_working);
    assert_eq!(g.reserved_payouts, 130);
    process_settle_craps(&mut g, &mut p, 1, TWO_FOUR).unwrap();
    assert_eq!(p.pending_winnings, 130);
    assert_eq!(g.reserved_payouts, 0);
    assert_eq!(p.place_bets[2], 0);
    // the point stays: a 6 is not the point 4
    assert_eq!(g.point, 4);
}

#[test]
fn different_doubles_scenario() {
    let mut g = funded(100_000);
    let mut p = CrapsPosition::new(g.epoch_id);
    p.diff_doubles_bet = 100;
    g.reserved_payouts = 10_100;
    process_settle_craps(&mut g, &mut p, 1, TWO_TWO).unwrap();
    assert_eq!(g.point, 4);
    process_settle_craps(&mut g, &mut p, 2, FOUR_FOUR).unwrap();
    process_settle_craps(&mut g, &mut p, 3, FIVE_FIVE).unwrap();
    assert_eq!(p.diff_doubles_count(), 3);
    assert_eq!(p.pending_winnings, 0);
    process_settle_craps(&mut g, &mut p, 4, ONE_SIX).unwrap();
    // 4:1 on three unique doubles
    assert_eq!(p.pending_winnings, 500);
    assert_eq!(g.reserved_payouts, 0);
    assert_eq!(g.epoch_id, 2);
    assert_eq!(p.diff_doubles_bet, 0);
    assert_eq!(p.diff_doubles_count(), 0);
}

#[test]
fn pass_line_then_seven_pays_double() {
    let mut g = funded(1_000);
    let mut p = CrapsPosition::new(g.epoch_id);
    process_place_craps_bet(&mut g, &mut p, 0, 0, 100).unwrap();
    assert_eq!(g.reserved_payouts, 200);
    process_settle_craps(&mut g, &mut p, 1, ONE_SIX).unwrap();
    assert_eq!(p.pending_winnings, 200);
    assert_eq!(g.reserved_payouts, 0);
    assert_eq!(g.house_bankroll, 1_000);
    assert!(g.is_come_out);
    assert_eq!(g.epoch_id, 1);
}

#[test]
fn settling_twice_in_a_round_is_refused() {
    let mut g = funded(1_000);
    let mut p = CrapsPosition::new(g.epoch_id);
    process_place_craps_bet(&mut g, &mut p, 10, 0, 50).unwrap();
    process_place_craps_bet(&mut g, &mut p, 0, 0, 50).unwrap();
    process_settle_craps(&mut g, &mut p, 7, ONE_SIX).unwrap();
    let (g_before, p_before) = (g, p);
    assert_eq!(process_settle_craps(&mut g, &mut p, 7, ONE_SIX), Err(OreError::AlreadySettled));
    assert_eq!(g, g_before);
    assert_eq!(p, p_before);
    assert_eq!(process_settle_craps(&mut g, &mut p, 6, SIX_SIX), Err(OreError::AlreadySettled));
    assert_eq!(p, p_before);
}

#[test]
fn seven_out_starts_the_next_epoch() {
    let mut g = in_point_phase(10_000, 9);
    let mut p = CrapsPosition::new(g.epoch_id);
    process_place_craps_bet(&mut g, &mut p, 9, 8, 10).unwrap();
    process_place_craps_bet(&mut g, &mut p, 27, 9, 30).unwrap();
    process_settle_craps(&mut g, &mut p, 3, ONE_SIX).unwrap();
    assert_eq!(g.epoch_id, 2);
    assert_eq!(g.point, 0);
    assert!(g.is_come_out);
    assert_eq!(g.epoch_start_round, 3);
    assert_eq!(p.epoch_id, 2);
    // hard 8 lost 10; no 9 won 30 + 20
    assert_eq!(p.pending_winnings, 50);
    assert_eq!(g.reserved_payouts, 0);
}

#[test]
fn insolvent_house_records_debt() {
    let mut g = funded(1000);
    let mut p = CrapsPosition::new(g.epoch_id);
    process_place_craps_bet(&mut g, &mut p, 11, 0, 100).unwrap();
    g.house_bankroll = 200;
    process_settle_craps(&mut g, &mut p, 1, ONE_SIX).unwrap();
    // the 400 profit exceeds the 200 bankroll: 200 paid, 200 owed
    assert_eq!(g.house_bankroll, 0);
    assert_eq!(p.unpaid_debt, 200);
    assert_eq!(p.pending_winnings, 300);
    assert_eq!(p.pending_winnings + p.unpaid_debt, 500);
    // an empty bankroll pays nothing and still succeeds
    assert_eq!(process_claim_craps_debt(&mut g, &mut p), Ok(0));
    assert_eq!(p.unpaid_debt, 200);
    process_fund_craps_house(&mut g, 1000).unwrap();
    assert_eq!(process_claim_craps_debt(&mut g, &mut p), Ok(200));
    assert_eq!(p.unpaid_debt, 0);
    assert_eq!(g.house_bankroll, 800);
    assert_eq!(g.total_payouts, 700);
}

#[test]
fn partial_debt_claim() {
    let mut g = funded(50);
    let mut p = CrapsPosition::new(g.epoch_id);
    p.unpaid_debt = 80;
    assert_eq!(process_claim_craps_debt(&mut g, &mut p), Ok(50));
    assert_eq!(p.unpaid_debt, 30);
    assert_eq!(g.house_bankroll, 0);
}

#[test]
fn release_equals_reservation() {
    let mut g = in_point_phase(10_000, 5);
    let mut p = CrapsPosition::new(g.epoch_id);
    process_place_craps_bet(&mut g, &mut p, 8, 6, 60).unwrap();
    process_place_craps_bet(&mut g, &mut p, 26, 3, 40).unwrap();
    assert_eq!(g.reserved_payouts, 130 + 160);
    // a 7 loses both; each releases what it reserved
    process_settle_craps(&mut g, &mut p, 1, ONE_SIX).unwrap();
    assert_eq!(g.reserved_payouts, 0);
    assert_eq!(p.pending_winnings, 0);
    // stakes join the bankroll when placed, and losses are credited again
    assert_eq!(g.house_bankroll, 10_200);
}

#[test]
fn odds_reserve_by_the_game_point() {
    let mut g = funded(10_000);
    let mut p = CrapsPosition::new(g.epoch_id);
    process_place_craps_bet(&mut g, &mut p, 0, 0, 100).unwrap();
    g.set_point(4);
    // the point argument does not size the odds: 4 pays 2:1
    process_place_craps_bet(&mut g, &mut p, 2, 6, 100).unwrap();
    assert_eq!(g.reserved_payouts, 200 + 300);
    process_settle_craps(&mut g, &mut p, 1, ONE_THREE).unwrap();
    assert_eq!(p.pending_winnings, 200 + 300);
    assert_eq!(g.reserved_payouts, 0);
    assert!(g.is_come_out);
}

#[test]
fn release_clamps_at_zero() {
    let mut g = funded(10_000);
    let mut p = CrapsPosition::new(g.epoch_id);
    process_place_craps_bet(&mut g, &mut p, 12, 0, 100).unwrap();
    g.reserved_payouts = 10;
    process_settle_craps(&mut g, &mut p, 1, FIVE_SIX).unwrap();
    assert_eq!(g.reserved_payouts, 0);
}

#[test]
fn bet_amount_limits() {
    let mut g = funded(u64::MAX / 2);
    let mut p = CrapsPosition::new(g.epoch_id);
    assert_eq!(process_place_craps_bet(&mut g, &mut p, 0, 0, 0), Err(OreError::InvalidBetAmount));
    assert_eq!(
        process_place_craps_bet(&mut g, &mut p, 0, 0, MAX_BET_AMOUNT + 1),
        Err(OreError::InvalidBetAmount)
    );
    assert_eq!(process_place_craps_bet(&mut g, &mut p, 0, 0, MAX_BET_AMOUNT), Ok(()));
}

#[test]
fn bankroll_limits_admission() {
    let mut g = funded(499);
    let mut p = CrapsPosition::new(g.epoch_id);
    let before = g;
    assert_eq!(
        process_place_craps_bet(&mut g, &mut p, 11, 0, 100),
        Err(OreError::InsufficientBankroll)
    );
    assert_eq!(g, before);
    assert_eq!(p.any_seven, 0);
    g.house_bankroll = 500;
    assert_eq!(process_place_craps_bet(&mut g, &mut p, 11, 0, 100), Ok(()));
    // nothing left to reserve against
    assert_eq!(
        process_place_craps_bet(&mut g, &mut p, 11, 0, 30),
        Err(OreError::InsufficientBankroll)
    );
}

#[test]
fn bets_not_allowed_here() {
    let mut g = in_point_phase(100_000, 6);
    let mut p = CrapsPosition::new(g.epoch_id);
    let invalid = Err(OreError::InvalidBetType);
    assert_eq!(process_place_craps_bet(&mut g, &mut p, 0, 0, 10), invalid);
    assert_eq!(process_place_craps_bet(&mut g, &mut p, 1, 0, 10), invalid);
    assert_eq!(process_place_craps_bet(&mut g, &mut p, 2, 6, 10), invalid);
    assert_eq!(process_place_craps_bet(&mut g, &mut p, 4, 7, 10), invalid);
    assert_eq!(process_place_craps_bet(&mut g, &mut p, 6, 5, 10), invalid);
    assert_eq!(process_place_craps_bet(&mut g, &mut p, 9, 5, 10), invalid);
    assert_eq!(process_place_craps_bet(&mut g, &mut p, 26, 7, 10), invalid);
    assert_eq!(process_place_craps_bet(&mut g, &mut p, 28, 13, 10), invalid);
    assert_eq!(process_place_craps_bet(&mut g, &mut p, 20, 0, 10), invalid);
    assert_eq!(g.reserved_payouts, 0);
    assert_eq!(p.total_wagered, 0);
    assert_eq!(process_place_craps_bet(&mut g, &mut p, 4, 5, 10), Ok(()));
    assert_eq!(process_place_craps_bet(&mut g, &mut p, 6, 5, 10), Ok(()));
    assert_eq!(p.come_bets[1], 10);
    assert_eq!(p.come_odds[1], 10);
    assert_eq!(p.total_wagered, 20);
}

#[test]
fn come_out_craps_and_push() {
    let mut g = funded(10_000);
    let mut p = CrapsPosition::new(g.epoch_id);
    process_place_craps_bet(&mut g, &mut p, 0, 0, 100).unwrap();
    process_place_craps_bet(&mut g, &mut p, 1, 0, 100).unwrap();
    process_settle_craps(&mut g, &mut p, 1, SIX_SIX).unwrap();
    // pass loses 100, don't pass pushes on 12
    assert_eq!(p.pending_winnings, 100);
    assert_eq!(p.total_lost, 100);
    assert_eq!(g.reserved_payouts, 0);
    assert!(g.is_come_out);
}

#[test]
fn come_out_point_is_established() {
    let mut g = funded(10_000);
    let mut p = CrapsPosition::new(g.epoch_id);
    process_place_craps_bet(&mut g, &mut p, 1, 0, 100).unwrap();
    process_settle_craps(&mut g, &mut p, 1, ONE_THREE).unwrap();
    assert_eq!(g.point, 4);
    assert!(!g.is_come_out);
    assert_eq!(p.dont_pass, 100);
    process_place_craps_bet(&mut g, &mut p, 3, 4, 100).unwrap();
    process_settle_craps(&mut g, &mut p, 2, ONE_SIX).unwrap();
    // don't pass 1:1 and its odds at inverse odds 1:2
    assert_eq!(p.pending_winnings, 200 + 150);
    assert_eq!(g.epoch_id, 2);
    assert_eq!(g.reserved_payouts, 0);
}

#[test]
fn hardway_easy_way_loses() {
    let mut g = funded(10_000);
    let mut p = CrapsPosition::new(g.epoch_id);
    process_place_craps_bet(&mut g, &mut p, 9, 4, 10).unwrap();
    process_settle_craps(&mut g, &mut p, 1, ONE_ONE).unwrap();
    assert_eq!(p.hardways[0], 10);
    process_settle_craps(&mut g, &mut p, 2, ONE_THREE).unwrap();
    assert_eq!(p.hardways[0], 0);
    assert_eq!(p.total_lost, 10);
    process_place_craps_bet(&mut g, &mut p, 9, 4, 10).unwrap();
    process_settle_craps(&mut g, &mut p, 3, TWO_TWO).unwrap();
    assert_eq!(p.pending_winnings, 80);
}

#[test]
fn bonus_small_completes() {
    let mut g = funded(100_000);
    let mut p = CrapsPosition::new(g.epoch_id);
    p.bonus_small = 10;
    g.reserved_payouts = 310;
    let squares = [ONE_ONE, ONE_TWO, ONE_THREE];
    let mut round: u64 = 1;
    for sq in squares {
        process_settle_craps(&mut g, &mut p, round, sq).unwrap();
        round += 1;
    }
    assert_eq!(p.pending_winnings, 0);
    // 5 (1-4) then 6 (1-5)
    process_settle_craps(&mut g, &mut p, round, 3).unwrap();
    process_settle_craps(&mut g, &mut p, round + 1, 4).unwrap();
    assert_eq!(p.pending_winnings, 310);
    assert_eq!(p.bonus_small, 0);
    assert_eq!(g.reserved_payouts, 0);
}

#[test]
fn settle_overflow_changes_nothing() {
    let mut g = funded(10_000);
    let mut p = CrapsPosition::new(g.epoch_id);
    process_place_craps_bet(&mut g, &mut p, 11, 0, 100).unwrap();
    p.pending_winnings = u64::MAX - 10;
    let (g0, p0) = (g, p);
    assert_eq!(process_settle_craps(&mut g, &mut p, 1, ONE_SIX), Err(OreError::ArithmeticOverflow));
    assert_eq!(g, g0);
    assert_eq!(p, p0);
}

#[test]
fn stale_position_is_refunded() {
    let mut g = funded(10_000);
    let mut p = CrapsPosition::new(g.epoch_id);
    process_place_craps_bet(&mut g, &mut p, 10, 0, 40).unwrap();
    process_place_craps_bet(&mut g, &mut p, 8, 8, 60).unwrap();
    g.epoch_id = 5;
    process_settle_craps(&mut g, &mut p, 3, ONE_SIX).unwrap();
    assert_eq!(p.pending_winnings, 100);
    assert_eq!(g.reserved_payouts, 0);
    assert_eq!(p.epoch_id, 5);
    assert_eq!(p.field_bet, 0);
    assert_eq!(p.place_bets[3], 0);
    assert_eq!(p.last_updated_round, 3);
}

#[test]
fn stale_position_is_refunded_on_a_new_bet() {
    let mut g = funded(10_000);
    let mut p = CrapsPosition::new(g.epoch_id);
    process_place_craps_bet(&mut g, &mut p, 10, 0, 40).unwrap();
    g.epoch_id = 2;
    process_place_craps_bet(&mut g, &mut p, 11, 0, 10).unwrap();
    assert_eq!(p.epoch_id, 2);
    assert_eq!(p.pending_winnings, 40);
    assert_eq!(p.field_bet, 0);
    assert_eq!(p.any_seven, 10);
    assert_eq!(p.total_wagered, 10);
    assert_eq!(g.reserved_payouts, 50);
}

#[test]
fn claiming_winnings() {
    let mut p = CrapsPosition::new(1);
    assert_eq!(process_claim_craps_winnings(&mut p), Err(OreError::InvalidArgument));
    p.pending_winnings = 2_000;
    assert_eq!(process_claim_craps_winnings(&mut p), Ok(2_000));
    assert_eq!(p.pending_winnings, 0);
    assert_eq!(process_claim_craps_winnings(&mut p), Err(OreError::InvalidArgument));
}

#[test]
fn claim_after_a_win_needs_no_bankroll() {
    let mut g = funded(1000);
    let mut p = CrapsPosition::new(g.epoch_id);
    process_place_craps_bet(&mut g, &mut p, 11, 0, 100).unwrap();
    process_settle_craps(&mut g, &mut p, 1, ONE_SIX).unwrap();
    g.house_bankroll = 0;
    let before = g;
    assert_eq!(process_claim_craps_winnings(&mut p), Ok(500));
    assert_eq!(g, before);
}

#[test]
fn round_zero_is_settled_once() {
    let mut g = funded(10_000);
    let mut p = CrapsPosition::new(g.epoch_id);
    process_place_craps_bet(&mut g, &mut p, 0, 0, 100).unwrap();
    process_settle_craps(&mut g, &mut p, 0, TWO_FOUR).unwrap();
    assert_eq!(g.point, 6);
    let (g0, p0) = (g, p);
    assert_eq!(process_settle_craps(&mut g, &mut p, 0, TWO_FOUR), Err(OreError::AlreadySettled));
    assert_eq!(g, g0);
    assert_eq!(p, p0);
    assert_eq!(p.pending_winnings, 0);
}

#[test]
fn seven_out_advances_with_no_bets() {
    let mut g = in_point_phase(1_000, 8);
    let mut p = CrapsPosition::new(g.epoch_id);
    process_settle_craps(&mut g, &mut p, 5, ONE_SIX).unwrap();
    assert_eq!(g.epoch_id, 2);
    assert_eq!(g.point, 0);
    assert!(g.is_come_out);
    assert_eq!(p.epoch_id, 2);
}

#[test]
fn players_of_one_round_settle_in_any_order() {
    let mut g = in_point_phase(100_000, 8);
    let mut a = CrapsPosition::new(g.epoch_id);
    let mut b = CrapsPosition::new(g.epoch_id);
    process_place_craps_bet(&mut g, &mut a, 8, 8, 60).unwrap();
    process_place_craps_bet(&mut g, &mut b, 8, 8, 60).unwrap();
    process_settle_craps(&mut g, &mut a, 3, ONE_SIX).unwrap();
    assert_eq!(g.epoch_id, 2);
    // the second player is still settled against the point phase of round 3
    process_settle_craps(&mut g, &mut b, 3, ONE_SIX).unwrap();
    assert_eq!(g.epoch_id, 2);
    assert!(g.is_come_out);
    assert_eq!(a.total_lost, 60);
    assert_eq!(b.total_lost, 60);
    assert_eq!(b.epoch_id, 2);
    assert_eq!(a.place_bets[3], 0);
    assert_eq!(b.place_bets[3], 0);
    assert_eq!(g.reserved_payouts, 0);
    assert_eq!(g.total_collected, 120);
}

#[test]
fn stale_refund_releases_reservations() {
    let mut g = in_point_phase(10_000, 4);
    let mut p = CrapsPosition::new(g.epoch_id);
    g.set_come_out(true);
    g.point = 0;
    process_place_craps_bet(&mut g, &mut p, 0, 0, 100).unwrap();
    g.set_point(4);
    process_place_craps_bet(&mut g, &mut p, 2, 4, 50).unwrap();
    assert_eq!(g.reserved_payouts, 200 + 150);
    g.epoch_id = 9;
    process_settle_craps(&mut g, &mut p, 2, ONE_ONE).unwrap();
    assert_eq!(g.reserved_payouts, 0);
    assert_eq!(p.pending_winnings, 150);
    assert_eq!(p.epoch_id, 9);
}

#[test]
fn force_settle_after_expiry() {
    let mut g = funded(10_000);
    let mut p = CrapsPosition::new(g.epoch_id);
    process_place_craps_bet(&mut g, &mut p, 0, 0, 100).unwrap();
    process_place_craps_bet(&mut g, &mut p, 10, 0, 50).unwrap();
    assert_eq!(g.reserved_payouts, 350);
    assert_eq!(
        process_force_settle_craps(&mut g, &mut p, 4, 100, 100),
        Err(OreError::RoundNotExpired)
    );
    assert_eq!(p.pass_line, 100);
    assert_eq!(process_force_settle_craps(&mut g, &mut p, 4, 100, 101), Ok(150));
    assert_eq!(p.pass_line, 0);
    assert_eq!(p.field_bet, 0);
    assert_eq!(p.total_lost, 150);
    assert_eq!(p.last_updated_round, 4);
    // twice the stakes, clamped at zero
    assert_eq!(g.reserved_payouts, 50);
    assert_eq!(g.total_collected, 150);
    // nothing left: nothing happens
    assert_eq!(process_force_settle_craps(&mut g, &mut p, 5, 100, 200), Ok(0));
}

#[test]
fn funding_the_house() {
    let mut g = CrapsGame::new();
    assert_eq!(process_fund_craps_house(&mut g, 0), Err(OreError::InvalidArgument));
    assert_eq!(process_fund_craps_house(&mut g, 500), Ok(()));
    assert_eq!(g.house_bankroll, 500);
    assert_eq!(process_fund_craps_house(&mut g, u64::MAX), Err(OreError::ArithmeticOverflow));
    assert_eq!(g.house_bankroll, 500);
}

#[test]
fn error_codes() {
    assert_eq!(OreError::AlreadySettled.code(), 1001);
    assert_eq!(OreError::InsufficientBankroll.code(), 1004);
    assert_eq!(OreError::InvalidBetType.code(), 2001);
    assert_eq!(OreError::ArithmeticOverflow.code(), 3001);
}

#[test]
fn client_views() {
    assert_eq!(CrapsBetTypeTS::from_code(9), Some(CrapsBetTypeTS::Hardway));
    assert_eq!(CrapsBetTypeTS::from_code(16), None);
    assert_eq!(CrapsBetTypeTS::Twelve.code(), 15);
    let g = funded(77);
    let v = CrapsGameTS::from_game(&g);
    assert_eq!(v.house_bankroll, 77);
    assert!(v.is_come_out);
    let mut p = CrapsPosition::new(3);
    p.hardways[2] = 9;
    let pv = CrapsPositionTS::from_position(String::from("owner"), &p);
    assert_eq!(pv.authority, "owner");
    assert_eq!(pv.epoch_id, 3);
    assert_eq!(pv.hardways, [0, 0, 9, 0]);
}

#[test]
fn position_trackers() {
    let mut p = CrapsPosition::new(1);
    assert_eq!(p.record_bonus_hit(2), (false, false));
    for t in [3u8, 4, 5] {
        p.record_bonus_hit(t);
    }
    assert_eq!(p.record_bonus_hit(6), (true, false));
    assert!(p.is_small_complete());
    assert!(!p.is_all_complete());
    assert_eq!(p.record_fire_point(4), 1);
    assert_eq!(p.record_fire_point(4), 1);
    assert_eq!(p.record_fire_point(10), 2);
    assert_eq!(p.record_fire_point(7), 2);
    assert_eq!(p.record_replay_point(6), 1);
    assert_eq!(p.record_replay_point(6), 2);
    assert_eq!(p.record_replay_point(7), 0);
    assert_eq!(p.max_replay_count(), 2);
    for t in [2u8, 3, 4, 5, 6, 8, 9, 10, 11] {
        assert!(!p.record_hot_hand_hit(t));
    }
    assert_eq!(p.hot_hand_count(), 9);
    assert!(p.record_hot_hand_hit(12));
    p.ride_wins_count = 255;
    p.record_ride_win();
    assert_eq!(p.ride_wins_count, 255);
    p.mugsy_bet = 5;
    p.set_mugsy_point_phase();
    assert!(p.is_mugsy_point_phase());
    p.field_bet = 3;
    p.next_bets[4] = 2;
    assert_eq!(p.total_active_bets(), 10);
    assert_eq!(p.checked_total_stakes(), Some(10));
    p.reset_for_epoch(2);
    assert_eq!(p.total_active_bets(), 0);
    assert!(!p.has_any_bets());
    assert_eq!(p.epoch_id, 2);
}

#[test]
fn settled_round_never_moves_back() {
    let mut g = funded(10_000);
    let mut p = CrapsPosition::new(g.epoch_id);
    process_place_craps_bet(&mut g, &mut p, 10, 0, 40).unwrap();
    p.last_updated_round = 9;
    g.epoch_id = 3;
    process_settle_craps(&mut g, &mut p, 4, ONE_SIX).unwrap();
    assert_eq!(p.epoch_id, 3);
    assert_eq!(p.pending_winnings, 40);
    assert_eq!(p.last_updated_round, 9);
    process_place_craps_bet(&mut g, &mut p, 10, 0, 40).unwrap();
    assert_eq!(process_force_settle_craps(&mut g, &mut p, 2, 1, 5), Ok(40));
    assert_eq!(p.last_updated_round, 9);
}

#[test]
fn stale_settle_leaves_the_phase_alone() {
    let mut g = in_point_phase(10_000, 4);
    let mut p = CrapsPosition::new(g.epoch_id);
    process_place_craps_bet(&mut g, &mut p, 10, 0, 40).unwrap();
    g.epoch_id = 3;
    process_settle_craps(&mut g, &mut p, 2, ONE_SIX).unwrap();
    // a 7 in the point phase, but the stale position only gets its refund
    assert_eq!(g.epoch_id, 3);
    assert_eq!(g.point, 4);
    assert!(!g.is_come_out);
    assert_eq!(p.epoch_id, 3);
    assert_eq!(p.pending_winnings, 40);
    assert_eq!(g.reserved_payouts, 0);
    // the next position of the current epoch still takes the roll
    let mut q = CrapsPosition::new(g.epoch_id);
    process_settle_craps(&mut g, &mut q, 2, ONE_SIX).unwrap();
    assert_eq!(g.epoch_id, 4);
    assert_eq!(g.point, 0);
}

#[test]
fn stacked_stakes_reserve_what_they_release() {
    let mut g = in_point_phase(10_000, 4);
    let mut p = CrapsPosition::new(g.epoch_id);
    process_place_craps_bet(&mut g, &mut p, 8, 6, 5).unwrap();
    assert_eq!(g.reserved_payouts, 10);
    process_place_craps_bet(&mut g, &mut p, 8, 6, 1).unwrap();
    // 6 on the 6 at 7:6 reserves 6 + 7
    assert_eq!(g.reserved_payouts, 13);
    process_settle_craps(&mut g, &mut p, 1, TWO_FOUR).unwrap();
    assert_eq!(p.pending_winnings, 13);
    assert_eq!(g.reserved_payouts, 0);
}

#[test]
fn legality_before_bankroll() {
    let mut g = in_point_phase(10, 4);
    let mut p = CrapsPosition::new(g.epoch_id);
    assert_eq!(process_place_craps_bet(&mut g, &mut p, 0, 0, 100), Err(OreError::InvalidBetType));
    assert_eq!(
        process_place_craps_bet(&mut g, &mut p, 11, 0, 100),
        Err(OreError::InsufficientBankroll)
    );
}
