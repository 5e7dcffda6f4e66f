use ore_craps::error::OreError;
use ore_craps::payout::{
    calculate_any_craps_payout, calculate_any_seven_payout, calculate_aces_payout,
    calculate_field_payout, calculate_max_payout, calculate_payout, calculate_twelve_payout,
    calculate_yo_payout, checked_return, get_diff_doubles_payout, get_dont_true_odds_payout,
    get_fire_bet_payout, get_no_payout, get_place_payout, get_replay_bet_payout,
    get_ride_the_line_payout, get_true_odds_payout, get_yes_payout, release_amount,
    CrapsPayouts, PayoutRatio,
};

#[test]
fn test_calculate_payout() {
    assert_eq!(calculate_payout(100, 1, 1), 100);
    assert_eq!(calculate_payout(100, 2, 1), 200);
    assert_eq!(calculate_payout(50, 9, 5), 90);
    assert_eq!(calculate_payout(60, 7, 6), 70);
}

#[test]
fn test_field_payout_2_12() {
    let (total, won) = calculate_field_payout(100, 2).unwrap();
    assert!(won);
    assert_eq!(total, 300);

    let (total, won) = calculate_field_payout(100, 12).unwrap();
    assert!(won);
    assert_eq!(total, 300);
}

#[test]
fn test_field_payout_normal() {
    let (total, won) = calculate_field_payout(100, 3).unwrap();
    assert!(won);
    assert_eq!(total, 200);

    let (total, won) = calculate_field_payout(100, 11).unwrap();
    assert!(won);
    assert_eq!(total, 200);
}

#[test]
fn test_field_payout_loss() {
    let (total, won) = calculate_field_payout(100, 7).unwrap();
    assert!(!won);
    assert_eq!(total, 0);
}

#[test]
fn test_any_seven() {
    let (total, won) = calculate_any_seven_payout(100, 7).unwrap();
    assert!(won);
    assert_eq!(total, 500);

    let (total, won) = calculate_any_seven_payout(100, 6).unwrap();
    assert!(!won);
    assert_eq!(total, 0);
}

#[test]
fn test_any_craps() {
    let (total, won) = calculate_any_craps_payout(100, 2).unwrap();
    assert!(won);
    assert_eq!(total, 800);

    let (total, won) = calculate_any_craps_payout(100, 3).unwrap();
    assert!(won);
    assert_eq!(total, 800);

    let (total, won) = calculate_any_craps_payout(100, 12).unwrap();
    assert!(won);
    assert_eq!(total, 800);

    let (total, won) = calculate_any_craps_payout(100, 7).unwrap();
    assert!(!won);
    assert_eq!(total, 0);
}

#[test]
fn test_yo_eleven() {
    let (total, won) = calculate_yo_payout(100, 11).unwrap();
    assert!(won);
    assert_eq!(total, 1600);

    let (total, won) = calculate_yo_payout(100, 7).unwrap();
    assert!(!won);
    assert_eq!(total, 0);
}

#[test]
fn test_aces() {
    let (total, won) = calculate_aces_payout(100, 2).unwrap();
    assert!(won);
    assert_eq!(total, 3100);

    let (total, won) = calculate_aces_payout(100, 3).unwrap();
    assert!(!won);
    assert_eq!(total, 0);
}

#[test]
fn test_twelve() {
    let (total, won) = calculate_twelve_payout(100, 12).unwrap();
    assert!(won);
    assert_eq!(total, 3100);

    let (total, won) = calculate_twelve_payout(100, 11).unwrap();
    assert!(!won);
    assert_eq!(total, 0);
}

#[test]
fn single_roll_win_that_overflows_is_refused() {
    assert_eq!(calculate_twelve_payout(u64::MAX / 2, 12), Err(OreError::ArithmeticOverflow));
    // a loss never overflows
    assert_eq!(calculate_twelve_payout(u64::MAX, 11), Ok((0, false)));
}

#[test]
fn payout_rounds_down() {
    // 7:6 on 10 is 11.67, paid as 11
    assert_eq!(calculate_payout(10, 7, 6), 11);
    assert_eq!(calculate_payout(u64::MAX, 1, 1), u64::MAX);
    assert_eq!(checked_return(10, PayoutRatio { num: 7, den: 6 }), Some(21));
    assert_eq!(checked_return(u64::MAX, PayoutRatio { num: 1, den: 1 }), None);
}

#[test]
fn release_saturates() {
    assert_eq!(release_amount(100, PayoutRatio { num: 4, den: 1 }), 500);
    assert_eq!(release_amount(u64::MAX, PayoutRatio { num: 2, den: 1 }), u64::MAX);
}

#[test]
fn ratio_tables() {
    assert_eq!(get_place_payout(4), PayoutRatio { num: 9, den: 5 });
    assert_eq!(get_place_payout(9), PayoutRatio { num: 7, den: 5 });
    assert_eq!(get_place_payout(6), PayoutRatio { num: 7, den: 6 });
    assert_eq!(get_true_odds_payout(10), PayoutRatio { num: 2, den: 1 });
    assert_eq!(get_true_odds_payout(5), PayoutRatio { num: 3, den: 2 });
    assert_eq!(get_dont_true_odds_payout(8), PayoutRatio { num: 5, den: 6 });
    assert_eq!(get_yes_payout(2), PayoutRatio { num: 6, den: 1 });
    assert_eq!(get_no_payout(11), PayoutRatio { num: 1, den: 3 });
    assert_eq!(get_diff_doubles_payout(3), PayoutRatio { num: 4, den: 1 });
    assert_eq!(get_diff_doubles_payout(2), PayoutRatio { num: 0, den: 1 });
    assert_eq!(get_fire_bet_payout(5), PayoutRatio { num: 249, den: 1 });
    assert_eq!(get_ride_the_line_payout(11), PayoutRatio { num: 150, den: 1 });
    assert_eq!(get_ride_the_line_payout(200), PayoutRatio { num: 150, den: 1 });
    assert_eq!(get_ride_the_line_payout(2), PayoutRatio { num: 0, den: 1 });
}

#[test]
fn replay_takes_the_best_point() {
    assert_eq!(get_replay_bet_payout(&[0, 0, 0, 0, 0, 0]), PayoutRatio { num: 0, den: 1 });
    // 6 made three times: 70:1; 4 made three times: 120:1
    assert_eq!(get_replay_bet_payout(&[0, 0, 3, 0, 0, 0]), PayoutRatio { num: 70, den: 1 });
    assert_eq!(get_replay_bet_payout(&[3, 0, 3, 0, 0, 0]), PayoutRatio { num: 120, den: 1 });
    assert_eq!(get_replay_bet_payout(&[0, 4, 0, 0, 0, 3]), PayoutRatio { num: 500, den: 1 });
}

#[test]
fn worst_case_reservations() {
    // field reserves at 2:1 although most field wins pay 1:1
    assert_eq!(calculate_max_payout(10, 0, 100), Ok(300));
    assert_eq!(calculate_max_payout(0, 0, 100), Ok(200));
    assert_eq!(calculate_max_payout(11, 0, 100), Ok(500));
    assert_eq!(calculate_max_payout(8, 6, 60), Ok(130));
    assert_eq!(calculate_max_payout(28, 6, 50), Ok(360));
    // no ratio: the stake alone
    assert_eq!(calculate_max_payout(99, 0, 100), Ok(100));
    assert_eq!(calculate_max_payout(14, 0, u64::MAX), Err(OreError::ArithmeticOverflow));
}

#[test]
fn published_table() {
    let t = CrapsPayouts::standard();
    assert_eq!(t.pass_line, PayoutRatio { num: 1, den: 1 });
    assert_eq!(t.field_special, PayoutRatio { num: 2, den: 1 });
    assert_eq!(t.place6_8, PayoutRatio { num: 7, den: 6 });
    assert_eq!(t.true_odds5_9, PayoutRatio { num: 3, den: 2 });
    assert_eq!(t.hard6_8, PayoutRatio { num: 9, den: 1 });
}
