//! Payout table: the fixed ratio of every bet family, the floor-division
//! payout, the worst-case reservation used by admission control, and the
//! single-roll payout calculators.

use vstd::prelude::*;
use crate::dice::{spec_is_field, spec_is_craps, is_field_winner, is_craps};
use crate::error::OreError;

verus! {

/// A payout ratio `num : den`: a winning stake `s` is paid `s * num / den`
/// (rounded down) on top of the returned stake.
#[derive(Debug, Clone, Copy, PartialEq, Eq, Structural)]
pub struct PayoutRatio {
    pub num: u64,
    pub den: u64,
}

pub const PASS_LINE_PAYOUT_NUM: u64 = 1;
pub const PASS_LINE_PAYOUT_DEN: u64 = 1;
pub const FIELD_PAYOUT_NORMAL_NUM: u64 = 1;
pub const FIELD_PAYOUT_NORMAL_DEN: u64 = 1;
pub const FIELD_PAYOUT_2_12_NUM: u64 = 2;
pub const FIELD_PAYOUT_2_12_DEN: u64 = 1;
pub const ANY_SEVEN_PAYOUT_NUM: u64 = 4;
pub const ANY_CRAPS_PAYOUT_NUM: u64 = 7;
pub const YO_ELEVEN_PAYOUT_NUM: u64 = 15;
pub const ACES_PAYOUT_NUM: u64 = 30;
pub const TWELVE_PAYOUT_NUM: u64 = 30;
pub const BONUS_SMALL_PAYOUT_NUM: u64 = 30;
pub const BONUS_TALL_PAYOUT_NUM: u64 = 30;
pub const BONUS_ALL_PAYOUT_NUM: u64 = 150;
pub const MUGSY_COMEOUT_7_PAYOUT_NUM: u64 = 2;
pub const MUGSY_POINT_7_PAYOUT_NUM: u64 = 3;
pub const HOT_HAND_9_PAYOUT_NUM: u64 = 20;
pub const HOT_HAND_10_PAYOUT_NUM: u64 = 80;
pub const FIRE_6_POINTS_PAYOUT_NUM: u64 = 999;
pub const DIFF_DOUBLES_6_PAYOUT_NUM: u64 = 100;
pub const RIDE_11_WINS_PAYOUT_NUM: u64 = 150;
pub const REPLAY_4_10_4X_PAYOUT_NUM: u64 = 1000;

/// Maximum single bet amount (100 tokens of nine decimals).
pub const MAX_BET_AMOUNT: u64 = 100_000_000_000;

/// A ratio `num : den`.
pub open spec fn ratio(num: u64, den: u64) -> PayoutRatio {
    PayoutRatio { num, den }
}

/// A ratio `n : 1`.
pub open spec fn to_one(num: u64) -> PayoutRatio {
    PayoutRatio { num, den: 1 }
}

/// The ratio that pays nothing on top of the stake.
pub open spec fn nothing() -> PayoutRatio {
    PayoutRatio { num: 0, den: 1 }
}

/// Winnings on top of the stake: `stake * num / den`, rounded down.
pub open spec fn payout_of(stake: int, r: PayoutRatio) -> int {
    stake * (r.num as int) / (r.den as int)
}

/// What a winning stake returns: the stake itself plus its payout.
pub open spec fn return_of(stake: int, r: PayoutRatio) -> int {
    stake + payout_of(stake, r)
}

/// Every ratio of the table has a positive denominator.
pub open spec fn ratio_ok(r: PayoutRatio) -> bool {
    r.den >= 1 && r.num <= 1000
}

/// Place bet ratio for a point: 9:5 on 4/10, 7:5 on 5/9, 7:6 on 6/8.
pub open spec fn place_ratio(point: int) -> PayoutRatio {
    if point == 4 || point == 10 {
        ratio(9, 5)
    } else if point == 5 || point == 9 {
        ratio(7, 5)
    } else if point == 6 || point == 8 {
        ratio(7, 6)
    } else {
        nothing()
    }
}

/// True odds for a point: 2:1 on 4/10, 3:2 on 5/9, 6:5 on 6/8.
pub open spec fn true_odds_ratio(point: int) -> PayoutRatio {
    if point == 4 || point == 10 {
        ratio(2, 1)
    } else if point == 5 || point == 9 {
        ratio(3, 2)
    } else if point == 6 || point == 8 {
        ratio(6, 5)
    } else {
        nothing()
    }
}

/// Inverse true odds for a point (laying odds): 1:2, 2:3, 5:6.
pub open spec fn lay_odds_ratio(point: int) -> PayoutRatio {
    if point == 4 || point == 10 {
        ratio(1, 2)
    } else if point == 5 || point == 9 {
        ratio(2, 3)
    } else if point == 6 || point == 8 {
        ratio(5, 6)
    } else {
        nothing()
    }
}

/// Hardway ratio: 7:1 on hard 4/10, 9:1 on hard 6/8.
pub open spec fn hardway_ratio(target: int) -> PayoutRatio {
    if target == 4 || target == 10 {
        to_one(7)
    } else if target == 6 || target == 8 {
        to_one(9)
    } else {
        nothing()
    }
}

/// Next (one-roll, true odds) ratio for a sum.
pub open spec fn next_ratio(sum: int) -> PayoutRatio {
    if sum == 2 || sum == 12 {
        to_one(35)
    } else if sum == 3 || sum == 11 {
        to_one(17)
    } else if sum == 4 || sum == 10 {
        to_one(11)
    } else if sum == 5 || sum == 9 {
        to_one(8)
    } else if sum == 6 || sum == 8 {
        ratio(31, 5)
    } else if sum == 7 {
        to_one(5)
    } else {
        nothing()
    }
}

/// Yes (sum before 7, true odds) ratio for a sum other than 7.
pub open spec fn yes_ratio(sum: int) -> PayoutRatio {
    if sum == 2 || sum == 12 {
        to_one(6)
    } else if sum == 3 || sum == 11 {
        to_one(3)
    } else if sum == 4 || sum == 10 {
        to_one(2)
    } else if sum == 5 || sum == 9 {
        ratio(3, 2)
    } else if sum == 6 || sum == 8 {
        ratio(6, 5)
    } else {
        nothing()
    }
}

/// No (7 before sum, inverse true odds) ratio for a sum other than 7.
pub open spec fn no_ratio(sum: int) -> PayoutRatio {
    if sum == 2 || sum == 12 {
        ratio(1, 6)
    } else if sum == 3 || sum == 11 {
        ratio(1, 3)
    } else if sum == 4 || sum == 10 {
        ratio(1, 2)
    } else if sum == 5 || sum == 9 {
        ratio(2, 3)
    } else if sum == 6 || sum == 8 {
        ratio(5, 6)
    } else {
        nothing()
    }
}

/// Field ratio for a winning field sum: 2:1 on 2 and 12, else 1:1.
pub open spec fn field_ratio(sum: int) -> PayoutRatio {
    if sum == 2 || sum == 12 {
        to_one(2)
    } else {
        to_one(1)
    }
}

/// Fielder's choice ratios: 4:1 on {2,3,4}, 2:1 on {4,9,10}, 4:1 on {10,11,12}.
pub open spec fn fielders_ratio(index: int) -> PayoutRatio {
    if index == 1 {
        to_one(2)
    } else {
        to_one(4)
    }
}

/// Different doubles by unique doubles seen: 3 -> 4:1, 4 -> 8:1, 5 -> 15:1, 6 -> 100:1.
pub open spec fn diff_doubles_ratio(count: int) -> PayoutRatio {
    if count == 3 {
        to_one(4)
    } else if count == 4 {
        to_one(8)
    } else if count == 5 {
        to_one(15)
    } else if count == 6 {
        to_one(100)
    } else {
        nothing()
    }
}

/// Fire bet by unique points made: 4 -> 24:1, 5 -> 249:1, 6 -> 999:1.
pub open spec fn fire_ratio(points: int) -> PayoutRatio {
    if points == 4 {
        to_one(24)
    } else if points == 5 {
        to_one(249)
    } else if points == 6 {
        to_one(999)
    } else {
        nothing()
    }
}

/// Ride the line by pass-line wins: 3 -> 2:1 up to 10 -> 40:1, 11 or more -> 150:1.
pub open spec fn ride_ratio(wins: int) -> PayoutRatio {
    if wins == 3 {
        to_one(2)
    } else if wins == 4 {
        to_one(3)
    } else if wins == 5 {
        to_one(5)
    } else if wins == 6 {
        to_one(8)
    } else if wins == 7 {
        to_one(10)
    } else if wins == 8 {
        to_one(15)
    } else if wins == 9 {
        to_one(25)
    } else if wins == 10 {
        to_one(40)
    } else if wins >= 11 {
        to_one(150)
    } else {
        nothing()
    }
}

/// Replay ratio of one point slot made `count` times (nothing below three).
pub open spec fn replay_slot_num(index: int, count: int) -> u64 {
    if count < 3 {
        0
    } else if index == 0 || index == 5 {
        if count >= 4 {
            1000
        } else {
            120
        }
    } else if index == 1 || index == 4 {
        if count >= 4 {
            500
        } else {
            95
        }
    } else {
        if count >= 4 {
            100
        } else {
            70
        }
    }
}

/// The best replay numerator over the first `n` point slots.
pub open spec fn replay_best(counts: Seq<u8>, n: int) -> u64
    decreases n,
{
    if n <= 0 {
        0
    } else {
        let prev = replay_best(counts, n - 1);
        let here = replay_slot_num(n - 1, counts[n - 1] as int);
        if here > prev {
            here
        } else {
            prev
        }
    }
}

/// Worst-case ratio that a new bet of a type reserves against the bankroll.
/// Types and points without a ratio reserve the stake alone.
pub open spec fn reserve_ratio(bet_type: u8, point: u8) -> PayoutRatio {
    let p = point as int;
    if bet_type == 0 || bet_type == 1 || bet_type == 4 || bet_type == 5 {
        to_one(1)
    } else if bet_type == 2 || bet_type == 3 || bet_type == 6 || bet_type == 7 {
        true_odds_ratio(p)
    } else if bet_type == 8 {
        place_ratio(p)
    } else if bet_type == 9 {
        if p == 4 || p == 6 || p == 8 || p == 10 {
            hardway_ratio(p)
        } else {
            nothing()
        }
    } else if bet_type == 10 {
        to_one(2)
    } else if bet_type == 11 {
        to_one(4)
    } else if bet_type == 12 {
        to_one(7)
    } else if bet_type == 13 {
        to_one(15)
    } else if bet_type == 14 || bet_type == 15 {
        to_one(30)
    } else if bet_type == 26 {
        yes_ratio(p)
    } else if bet_type == 27 {
        no_ratio(p)
    } else if bet_type == 28 {
        next_ratio(p)
    } else {
        nothing()
    }
}

/// The amount reserved when a stake is settled: stake plus payout, each
/// step saturating at `u64::MAX`.
pub open spec fn release_of(stake: u64, r: PayoutRatio) -> int {
    let prod = stake as int * r.num as int;
    let capped = if prod > u64::MAX as int { u64::MAX as int } else { prod };
    let den = if r.den == 0 { 1int } else { r.den as int };
    let total = stake as int + capped / den;
    if total > u64::MAX as int { u64::MAX as int } else { total }
}

/// A payout is no less than zero and no more than the stake times the
/// numerator.
pub proof fn lemma_payout_bounds(stake: int, r: PayoutRatio)
    requires
        stake >= 0,
        r.den >= 1,
    ensures
        0 <= payout_of(stake, r) <= stake * r.num,
{
    assert(0 <= stake * r.num) by (nonlinear_arith)
        requires
            stake >= 0,
            r.num >= 0,
    ;
    assert(stake * r.num / (r.den as int) <= stake * r.num) by (nonlinear_arith)
        requires
            stake * r.num >= 0,
            r.den >= 1,
    ;
}

/// The reservation of a larger stake is no smaller.
pub proof fn lemma_release_mono(a: u64, b: u64, r: PayoutRatio)
    requires
        a <= b,
    ensures
        release_of(a, r) <= release_of(b, r),
{
    assert(a as int * r.num as int <= b as int * r.num as int) by (nonlinear_arith)
        requires
            a <= b,
            r.num >= 0,
    ;
    let den = if r.den == 0 {
        1int
    } else {
        r.den as int
    };
    let ca = if a as int * r.num as int > u64::MAX as int {
        u64::MAX as int
    } else {
        a as int * r.num as int
    };
    let cb = if b as int * r.num as int > u64::MAX as int {
        u64::MAX as int
    } else {
        b as int * r.num as int
    };
    assert(ca / den <= cb / den) by (nonlinear_arith)
        requires
            ca <= cb,
            den >= 1,
    ;
}

/// A product of two 64-bit values stays well inside 128 bits.
pub proof fn lemma_wide_product(a: u64, b: u64)
    ensures
        0 <= a as int * b as int <= u64::MAX as int * u64::MAX as int,
        u64::MAX as int * u64::MAX as int + u64::MAX as int <= u128::MAX as int,
{
    assert(0 <= a as int * b as int <= u64::MAX as int * u64::MAX as int) by (nonlinear_arith)
        requires
            a <= u64::MAX,
            b <= u64::MAX,
    ;
}

/// Calculate the payout of a winning bet, not including the returned stake:
/// `bet_amount * payout_num / payout_den`, computed in 128 bits.
pub fn calculate_payout(bet_amount: u64, payout_num: u64, payout_den: u64) -> (r: u64)
    requires
        payout_den > 0,
        bet_amount as int * payout_num as int / payout_den as int <= u64::MAX,
    ensures
        r as int == bet_amount as int * payout_num as int / payout_den as int,
{
    proof {
        lemma_wide_product(bet_amount, payout_num);
    }
    let prod: u128 = bet_amount as u128 * payout_num as u128;
    (prod / payout_den as u128) as u64
}

/// What a winning stake returns (stake plus payout), or `None` when that
/// does not fit in 64 bits.
pub fn checked_return(stake: u64, r: PayoutRatio) -> (out: Option<u64>)
    requires
        r.den >= 1,
    ensures
        out is Some <==> return_of(stake as int, r) <= u64::MAX,
        out is Some ==> out->Some_0 as int == return_of(stake as int, r),
        out is Some ==> out->Some_0 >= stake,
{
    proof {
        lemma_payout_bounds(stake as int, r);
        lemma_wide_product(stake, r.num);
    }
    let prod: u128 = stake as u128 * r.num as u128;
    let payout: u128 = prod / r.den as u128;
    let total: u128 = stake as u128 + payout;
    if total > u64::MAX as u128 {
        None
    } else {
        Some(total as u64)
    }
}

/// The amount released from the reservations when a stake is settled,
/// saturating at `u64::MAX`.
pub fn release_amount(stake: u64, r: PayoutRatio) -> (out: u64)
    ensures
        out as int == release_of(stake, r),
{
    proof {
        lemma_wide_product(stake, r.num);
    }
    let wide: u128 = stake as u128 * r.num as u128;
    let capped: u64 = if wide > u64::MAX as u128 {
        u64::MAX
    } else {
        wide as u64
    };
    let den: u64 = if r.den == 0 {
        1
    } else {
        r.den
    };
    let payout = capped / den;
    if stake as u128 + payout as u128 > u64::MAX as u128 {
        u64::MAX
    } else {
        stake + payout
    }
}

/// Place bet payout ratio for a point.
pub fn get_place_payout(point: u8) -> (r: PayoutRatio)
    ensures
        r == place_ratio(point as int),
{
    match point {
        4 | 10 => PayoutRatio { num: 9, den: 5 },
        5 | 9 => PayoutRatio { num: 7, den: 5 },
        6 | 8 => PayoutRatio { num: 7, den: 6 },
        _ => PayoutRatio { num: 0, den: 1 },
    }
}

/// True odds payout ratio for pass and come odds.
pub fn get_true_odds_payout(point: u8) -> (r: PayoutRatio)
    ensures
        r == true_odds_ratio(point as int),
{
    match point {
        4 | 10 => PayoutRatio { num: 2, den: 1 },
        5 | 9 => PayoutRatio { num: 3, den: 2 },
        6 | 8 => PayoutRatio { num: 6, den: 5 },
        _ => PayoutRatio { num: 0, den: 1 },
    }
}

/// Inverse true odds payout ratio for don't pass and don't come odds.
pub fn get_dont_true_odds_payout(point: u8) -> (r: PayoutRatio)
    ensures
        r == lay_odds_ratio(point as int),
{
    match point {
        4 | 10 => PayoutRatio { num: 1, den: 2 },
        5 | 9 => PayoutRatio { num: 2, den: 3 },
        6 | 8 => PayoutRatio { num: 5, den: 6 },
        _ => PayoutRatio { num: 0, den: 1 },
    }
}

/// Hardway payout ratio for a target.
pub fn get_hardway_payout(target: u8) -> (r: PayoutRatio)
    ensures
        r == hardway_ratio(target as int),
{
    match target {
        4 | 10 => PayoutRatio { num: 7, den: 1 },
        6 | 8 => PayoutRatio { num: 9, den: 1 },
        _ => PayoutRatio { num: 0, den: 1 },
    }
}

/// Next bet payout ratio (one roll, true odds).
pub fn get_next_payout(sum: u8) -> (r: PayoutRatio)
    ensures
        r == next_ratio(sum as int),
{
    match sum {
        2 | 12 => PayoutRatio { num: 35, den: 1 },
        3 | 11 => PayoutRatio { num: 17, den: 1 },
        4 | 10 => PayoutRatio { num: 11, den: 1 },
        5 | 9 => PayoutRatio { num: 8, den: 1 },
        6 | 8 => PayoutRatio { num: 31, den: 5 },
        7 => PayoutRatio { num: 5, den: 1 },
        _ => PayoutRatio { num: 0, den: 1 },
    }
}

/// Yes bet payout ratio (true odds, sum before 7).
pub fn get_yes_payout(sum: u8) -> (r: PayoutRatio)
    ensures
        r == yes_ratio(sum as int),
{
    match sum {
        2 | 12 => PayoutRatio { num: 6, den: 1 },
        3 | 11 => PayoutRatio { num: 3, den: 1 },
        4 | 10 => PayoutRatio { num: 2, den: 1 },
        5 | 9 => PayoutRatio { num: 3, den: 2 },
        6 | 8 => PayoutRatio { num: 6, den: 5 },
        _ => PayoutRatio { num: 0, den: 1 },
    }
}

/// No bet payout ratio (inverse true odds, 7 before sum).
pub fn get_no_payout(sum: u8) -> (r: PayoutRatio)
    ensures
        r == no_ratio(sum as int),
{
    match sum {
        2 | 12 => PayoutRatio { num: 1, den: 6 },
        3 | 11 => PayoutRatio { num: 1, den: 3 },
        4 | 10 => PayoutRatio { num: 1, den: 2 },
        5 | 9 => PayoutRatio { num: 2, den: 3 },
        6 | 8 => PayoutRatio { num: 5, den: 6 },
        _ => PayoutRatio { num: 0, den: 1 },
    }
}

/// Different doubles payout ratio by unique doubles seen.
pub fn get_diff_doubles_payout(count: u8) -> (r: PayoutRatio)
    ensures
        r == diff_doubles_ratio(count as int),
{
    match count {
        3 => PayoutRatio { num: 4, den: 1 },
        4 => PayoutRatio { num: 8, den: 1 },
        5 => PayoutRatio { num: 15, den: 1 },
        6 => PayoutRatio { num: 100, den: 1 },
        _ => PayoutRatio { num: 0, den: 1 },
    }
}

/// Fire bet payout ratio by unique points made.
pub fn get_fire_bet_payout(points: u8) -> (r: PayoutRatio)
    ensures
        r == fire_ratio(points as int),
{
    match points {
        4 => PayoutRatio { num: 24, den: 1 },
        5 => PayoutRatio { num: 249, den: 1 },
        6 => PayoutRatio { num: 999, den: 1 },
        _ => PayoutRatio { num: 0, den: 1 },
    }
}

/// Ride the line payout ratio by pass-line wins.
pub fn get_ride_the_line_payout(wins: u8) -> (r: PayoutRatio)
    ensures
        r == ride_ratio(wins as int),
{
    match wins {
        3 => PayoutRatio { num: 2, den: 1 },
        4 => PayoutRatio { num: 3, den: 1 },
        5 => PayoutRatio { num: 5, den: 1 },
        6 => PayoutRatio { num: 8, den: 1 },
        7 => PayoutRatio { num: 10, den: 1 },
        8 => PayoutRatio { num: 15, den: 1 },
        9 => PayoutRatio { num: 25, den: 1 },
        10 => PayoutRatio { num: 40, den: 1 },
        _ => {
            if wins >= 11 {
                PayoutRatio { num: 150, den: 1 }
            } else {
                PayoutRatio { num: 0, den: 1 }
            }
        },
    }
}

/// Replay payout: the best ratio over the points made three times or more.
pub fn get_replay_bet_payout(counts: &[u8; 6]) -> (r: PayoutRatio)
    ensures
        r == to_one(replay_best(counts@, 6)),
{
    let mut best = PayoutRatio { num: 0, den: 1 };
    let mut idx: usize = 0;
    while idx < 6
        invariant
            0 <= idx <= 6,
            counts@.len() == 6,
            best == to_one(replay_best(counts@, idx as int)),
        decreases 6 - idx,
    {
        let count = counts[idx];
        let num: u64 = if count < 3 {
            0
        } else if idx == 0 || idx == 5 {
            if count >= 4 {
                1000
            } else {
                120
            }
        } else if idx == 1 || idx == 4 {
            if count >= 4 {
                500
            } else {
                95
            }
        } else {
            if count >= 4 {
                100
            } else {
                70
            }
        };
        if num > best.num {
            best = PayoutRatio { num, den: 1 };
        }
        idx = idx + 1;
    }
    best
}

/// The worst-case reservation ratio of a bet type and point.
pub fn get_reserve_ratio(bet_type: u8, point: u8) -> (r: PayoutRatio)
    ensures
        r == reserve_ratio(bet_type, point),
        ratio_ok(r),
{
    match bet_type {
        0 | 1 | 4 | 5 => PayoutRatio { num: 1, den: 1 },
        2 | 3 | 6 | 7 => get_true_odds_payout(point),
        8 => get_place_payout(point),
        9 => {
            if point == 4 || point == 6 || point == 8 || point == 10 {
                get_hardway_payout(point)
            } else {
                PayoutRatio { num: 0, den: 1 }
            }
        },
        10 => PayoutRatio { num: 2, den: 1 },
        11 => PayoutRatio { num: 4, den: 1 },
        12 => PayoutRatio { num: 7, den: 1 },
        13 => PayoutRatio { num: 15, den: 1 },
        14 | 15 => PayoutRatio { num: 30, den: 1 },
        26 => get_yes_payout(point),
        27 => get_no_payout(point),
        28 => get_next_payout(point),
        _ => PayoutRatio { num: 0, den: 1 },
    }
}

/// The worst-case payout (stake included) that a bet reserves; it fails on
/// overflow rather than wrapping.
pub open spec fn max_payout_of(bet_type: u8, point: u8, amount: u64) -> Result<u64, OreError> {
    let r = reserve_ratio(bet_type, point);
    if amount as int * r.num as int > u64::MAX as int {
        Err(OreError::ArithmeticOverflow)
    } else if return_of(amount as int, r) > u64::MAX as int {
        Err(OreError::ArithmeticOverflow)
    } else {
        Ok(return_of(amount as int, r) as u64)
    }
}

/// Calculate the maximum potential payout (stake included) of a bet, which
/// is what admission reserves against the bankroll.
pub fn calculate_max_payout(bet_type: u8, point: u8, amount: u64) -> (r: Result<u64, OreError>)
    ensures
        r == max_payout_of(bet_type, point, amount),
{
    let ratio = get_reserve_ratio(bet_type, point);
    let product = match amount.checked_mul(ratio.num) {
        Some(p) => p,
        None => return Err(OreError::ArithmeticOverflow),
    };
    let payout = product / ratio.den;
    match amount.checked_add(payout) {
        Some(total) => Ok(total),
        None => Err(OreError::ArithmeticOverflow),
    }
}

/// The outcome of a single-roll calculator: the return (stake included)
/// and whether the bet won; `(0, false)` on a loss.
pub open spec fn single_roll_outcome(bet_amount: u64, wins: bool, r: PayoutRatio) -> Result<
    (u64, bool),
    OreError,
> {
    if !wins {
        Ok((0, false))
    } else if return_of(bet_amount as int, r) > u64::MAX as int {
        Err(OreError::ArithmeticOverflow)
    } else {
        Ok((return_of(bet_amount as int, r) as u64, true))
    }
}

fn single_roll(bet_amount: u64, wins: bool, r: PayoutRatio) -> (out: Result<(u64, bool), OreError>)
    requires
        r.den >= 1,
    ensures
        out == single_roll_outcome(bet_amount, wins, r),
{
    if !wins {
        return Ok((0, false));
    }
    match checked_return(bet_amount, r) {
        Some(total) => Ok((total, true)),
        None => Err(OreError::ArithmeticOverflow),
    }
}

/// Field bet: wins on 2, 3, 4, 9, 10, 11, 12; pays 2:1 on 2 and 12, else 1:1.
pub fn calculate_field_payout(bet_amount: u64, dice_sum: u8) -> (r: Result<(u64, bool), OreError>)
    ensures
        r == single_roll_outcome(bet_amount, spec_is_field(dice_sum as int), field_ratio(dice_sum as int)),
{
    let r = if dice_sum == 2 || dice_sum == 12 {
        PayoutRatio { num: FIELD_PAYOUT_2_12_NUM, den: FIELD_PAYOUT_2_12_DEN }
    } else {
        PayoutRatio { num: FIELD_PAYOUT_NORMAL_NUM, den: FIELD_PAYOUT_NORMAL_DEN }
    };
    single_roll(bet_amount, is_field_winner(dice_sum), r)
}

/// Any seven: wins on 7, pays 4:1.
pub fn calculate_any_seven_payout(bet_amount: u64, dice_sum: u8) -> (r: Result<(u64, bool), OreError>)
    ensures
        r == single_roll_outcome(bet_amount, dice_sum == 7, to_one(4)),
{
    single_roll(bet_amount, dice_sum == 7, PayoutRatio { num: ANY_SEVEN_PAYOUT_NUM, den: 1 })
}

/// Any craps: wins on 2, 3 or 12, pays 7:1.
pub fn calculate_any_craps_payout(bet_amount: u64, dice_sum: u8) -> (r: Result<(u64, bool), OreError>)
    ensures
        r == single_roll_outcome(bet_amount, spec_is_craps(dice_sum as int), to_one(7)),
{
    single_roll(bet_amount, is_craps(dice_sum), PayoutRatio { num: ANY_CRAPS_PAYOUT_NUM, den: 1 })
}

/// Yo eleven: wins on 11, pays 15:1.
pub fn calculate_yo_payout(bet_amount: u64, dice_sum: u8) -> (r: Result<(u64, bool), OreError>)
    ensures
        r == single_roll_outcome(bet_amount, dice_sum == 11, to_one(15)),
{
    single_roll(bet_amount, dice_sum == 11, PayoutRatio { num: YO_ELEVEN_PAYOUT_NUM, den: 1 })
}

/// Aces: wins on 2, pays 30:1.
pub fn calculate_aces_payout(bet_amount: u64, dice_sum: u8) -> (r: Result<(u64, bool), OreError>)
    ensures
        r == single_roll_outcome(bet_amount, dice_sum == 2, to_one(30)),
{
    single_roll(bet_amount, dice_sum == 2, PayoutRatio { num: ACES_PAYOUT_NUM, den: 1 })
}

/// Twelve: wins on 12, pays 30:1.
pub fn calculate_twelve_payout(bet_amount: u64, dice_sum: u8) -> (r: Result<(u64, bool), OreError>)
    ensures
        r == single_roll_outcome(bet_amount, dice_sum == 12, to_one(30)),
{
    single_roll(bet_amount, dice_sum == 12, PayoutRatio { num: TWELVE_PAYOUT_NUM, den: 1 })
}

/// All the fixed payout ratios of the table, as published to clients.
#[derive(Debug, Clone, Copy, PartialEq, Eq, Structural)]
pub struct CrapsPayouts {
    pub pass_line: PayoutRatio,
    pub dont_pass: PayoutRatio,
    pub field_normal: PayoutRatio,
    pub field_special: PayoutRatio,
    pub any_seven: PayoutRatio,
    pub any_craps: PayoutRatio,
    pub yo_eleven: PayoutRatio,
    pub aces: PayoutRatio,
    pub twelve: PayoutRatio,
    pub place4_10: PayoutRatio,
    pub place5_9: PayoutRatio,
    pub place6_8: PayoutRatio,
    pub true_odds4_10: PayoutRatio,
    pub true_odds5_9: PayoutRatio,
    pub true_odds6_8: PayoutRatio,
    pub hard4_10: PayoutRatio,
    pub hard6_8: PayoutRatio,
}

impl CrapsPayouts {
    /// The table this engine pays by.
    pub fn standard() -> (r: CrapsPayouts)
        ensures
            r.pass_line == to_one(1) && r.dont_pass == to_one(1),
            r.field_normal == field_ratio(3) && r.field_special == field_ratio(2),
            r.any_seven == to_one(4) && r.any_craps == to_one(7),
            r.yo_eleven == to_one(15) && r.aces == to_one(30) && r.twelve == to_one(30),
            r.place4_10 == place_ratio(4) && r.place5_9 == place_ratio(5),
            r.place6_8 == place_ratio(6),
            r.true_odds4_10 == true_odds_ratio(4) && r.true_odds5_9 == true_odds_ratio(5),
            r.true_odds6_8 == true_odds_ratio(6),
            r.hard4_10 == hardway_ratio(4) && r.hard6_8 == hardway_ratio(6),
    {
        CrapsPayouts {
            pass_line: PayoutRatio { num: PASS_LINE_PAYOUT_NUM, den: PASS_LINE_PAYOUT_DEN },
            dont_pass: PayoutRatio { num: PASS_LINE_PAYOUT_NUM, den: PASS_LINE_PAYOUT_DEN },
            field_normal: PayoutRatio { num: FIELD_PAYOUT_NORMAL_NUM, den: FIELD_PAYOUT_NORMAL_DEN },
            field_special: PayoutRatio { num: FIELD_PAYOUT_2_12_NUM, den: FIELD_PAYOUT_2_12_DEN },
            any_seven: PayoutRatio { num: ANY_SEVEN_PAYOUT_NUM, den: 1 },
            any_craps: PayoutRatio { num: ANY_CRAPS_PAYOUT_NUM, den: 1 },
            yo_eleven: PayoutRatio { num: YO_ELEVEN_PAYOUT_NUM, den: 1 },
            aces: PayoutRatio { num: ACES_PAYOUT_NUM, den: 1 },
            twelve: PayoutRatio { num: TWELVE_PAYOUT_NUM, den: 1 },
            place4_10: get_place_payout(4),
            place5_9: get_place_payout(5),
            place6_8: get_place_payout(6),
            true_odds4_10: get_true_odds_payout(4),
            true_odds5_9: get_true_odds_payout(5),
            true_odds6_8: get_true_odds_payout(6),
            hard4_10: get_hardway_payout(4),
            hard6_8: get_hardway_payout(6),
        }
    }
}

} // verus!
