//! Settlement engine: resolves every bet family of a position against one
//! roll, releases each resolved bet's reservation, advances the line-bet
//! phase machine, and closes the call with one net bankroll adjustment
//! (recording a debt to the player when the house cannot pay).

use vstd::prelude::*;
use vstd::array::spec_array_fill_for_copy_type as filled;
use crate::bet::{
    slot_reserve, slot_reserve_of, BetSlot, slot_value, with_slot, slot_in_range, read_slot,
    write_slot,
};
use crate::dice::{
    BOARD_SIZE, sum_of, die1_of, die2_of, doubles_of, point_at, hardway_at, spec_is_craps,
    spec_is_natural, spec_is_point, spec_is_field, square_to_dice_sum, square_to_dice, is_hardway,
    is_craps, is_natural, is_point_number, is_field_winner,
};
use crate::error::OreError;
use crate::game::{CrapsGame, phase_before, advance_game};
use crate::payout::{
    PayoutRatio, to_one, nothing, return_of, payout_of, release_of, field_ratio, next_ratio, fielders_ratio,
    hardway_ratio, place_ratio, yes_ratio, no_ratio, true_odds_ratio, lay_odds_ratio,
    diff_doubles_ratio, fire_ratio, ride_ratio, replay_best, checked_return, release_amount,
    get_next_payout, get_hardway_payout, get_place_payout, get_yes_payout, get_no_payout,
    get_true_odds_payout, get_dont_true_odds_payout, get_diff_doubles_payout,
    get_fire_bet_payout, get_ride_the_line_payout, get_replay_bet_payout,
};
use crate::position::{
    CrapsPosition, later_round, count_true, all_true, seq_max, has_any_bet, without_bonus, with_bonus_hit,
    with_double, with_hot_hit, with_fire_point, with_replay_point, reset_into,
};

verus! {

/// One roll of the dice.
#[derive(Debug, Clone, Copy, PartialEq, Eq, Structural)]
pub struct Roll {
    pub sum: u8,
    pub die1: u8,
    pub die2: u8,
    /// Whether the dice show doubles.
    pub hard: bool,
}

/// The roll a board square stands for.
pub open spec fn roll_of(square: int) -> Roll {
    Roll {
        sum: sum_of(square) as u8,
        die1: die1_of(square) as u8,
        die2: die2_of(square) as u8,
        hard: doubles_of(square),
    }
}

impl Roll {
    /// The roll of a board square (0..36).
    pub fn from_square(square: usize) -> (r: Roll)
        requires
            square < BOARD_SIZE,
        ensures
            r == roll_of(square as int),
    {
        let sum = square_to_dice_sum(square);
        let (die1, die2) = square_to_dice(square);
        let hard = is_hardway(square);
        Roll { sum, die1, die2, hard }
    }
}

/// How one stake resolves against a roll.
#[derive(Debug, Clone, Copy, PartialEq, Eq, Structural)]
pub enum Verdict {
    /// Pays the stake back with its payout.
    Win,
    /// The house keeps the stake.
    Lose,
    /// The stake comes back without payout.
    Push,
    /// Unresolved; the stake stays.
    Carry,
}

/// A bet that resolves on every roll: it wins or it loses.
pub open spec fn win_or_lose(wins: bool) -> Verdict {
    if wins {
        Verdict::Win
    } else {
        Verdict::Lose
    }
}

/// A settlement in progress: the ledgers as resolved so far, and what this
/// call has accumulated: the winnings (returned stakes included), the
/// profit within them (winnings less returned stakes), and the losses.
#[derive(Debug, Clone, Copy)]
pub struct Settlement {
    pub game: CrapsGame,
    pub position: CrapsPosition,
    pub won: u64,
    pub lost: u64,
    pub profit: u64,
}

/// Reservations less a released amount, clamped at zero.
pub open spec fn less_reserved(reserved: u64, release: int) -> u64 {
    if reserved >= release {
        (reserved - release) as u64
    } else {
        0
    }
}

/// Resolve one stake: a win adds its return to the winnings and its payout
/// to the profit, a loss adds the stake to the losses, a push returns the
/// stake; each releases the stake's reservation (line odds by the point they
/// were placed on) and empties the slot. `None` when a total would overflow.
pub open spec fn slot_step(
    o: Option<Settlement>,
    slot: BetSlot,
    v: Verdict,
    pay: PayoutRatio,
) -> Option<Settlement> {
    match o {
        None => None,
        Some(s) => {
            let stake = slot_value(s.position, slot);
            if v == Verdict::Carry {
                Some(s)
            } else {
                let win = if v == Verdict::Win {
                    return_of(stake as int, pay)
                } else if v == Verdict::Push {
                    stake as int
                } else {
                    0
                };
                let loss = if v == Verdict::Lose {
                    stake as int
                } else {
                    0
                };
                let gain = if v == Verdict::Win {
                    payout_of(stake as int, pay)
                } else {
                    0
                };
                if s.won + win > u64::MAX || s.lost + loss > u64::MAX || s.profit + gain
                    > u64::MAX {
                    None
                } else {
                    Some(
                        Settlement {
                            game: CrapsGame {
                                reserved_payouts: less_reserved(
                                    s.game.reserved_payouts,
                                    release_of(stake, slot_reserve(slot, s.position.odds_point)),
                                ),
                                ..s.game
                            },
                            position: with_slot(s.position, slot, 0),
                            won: (s.won + win) as u64,
                            lost: (s.lost + loss) as u64,
                            profit: (s.profit + gain) as u64,
                        },
                    )
                }
            }
        },
    }
}

fn settle_slot(
    st: &mut Settlement,
    slot: BetSlot,
    v: Verdict,
    pay: PayoutRatio,
) -> (ok: bool)
    requires
        slot_in_range(slot),
        pay.den >= 1,
    ensures
        ok == slot_step(Some(*old(st)), slot, v, pay) is Some,
        ok ==> Some(*final(st)) == slot_step(Some(*old(st)), slot, v, pay),
{
    if v == Verdict::Carry {
        return true;
    }
    let stake = read_slot(&st.position, slot);
    let win: u64 = if v == Verdict::Win {
        match checked_return(stake, pay) {
            Some(a) => a,
            None => return false,
        }
    } else if v == Verdict::Push {
        stake
    } else {
        0
    };
    let gain: u64 = if v == Verdict::Win {
        win - stake
    } else {
        0
    };
    let loss: u64 = if v == Verdict::Lose {
        stake
    } else {
        0
    };
    let won = match st.won.checked_add(win) {
        Some(x) => x,
        None => return false,
    };
    let lost = match st.lost.checked_add(loss) {
        Some(x) => x,
        None => return false,
    };
    let profit = match st.profit.checked_add(gain) {
        Some(x) => x,
        None => return false,
    };
    let reserve = slot_reserve_of(slot, st.position.odds_point);
    let release = release_amount(stake, reserve);
    st.game.reserved_payouts = if st.game.reserved_payouts >= release {
        st.game.reserved_payouts - release
    } else {
        0
    };
    write_slot(&mut st.position, slot, 0);
    st.won = won;
    st.lost = lost;
    st.profit = profit;
    true
}

/// The bet families kept in arrays and resolved slot by slot.
#[derive(Debug, Clone, Copy, PartialEq, Eq, Structural)]
pub enum Family {
    Next,
    Fielders,
    Hardway,
    Place,
    Yes,
    No,
    Come,
    ComeOdds,
    DontCome,
    DontComeOdds,
}

/// How many slots a family has.
pub open spec fn family_len(f: Family) -> int {
    match f {
        Family::Next | Family::Yes | Family::No => 11,
        Family::Fielders => 3,
        Family::Hardway => 4,
        Family::Place | Family::Come | Family::ComeOdds | Family::DontCome | Family::DontComeOdds => 6,
    }
}

/// The slot of a family at an index.
pub open spec fn family_slot(f: Family, i: int) -> BetSlot {
    match f {
        Family::Next => BetSlot::Next(i as usize),
        Family::Fielders => BetSlot::Fielders(i as usize),
        Family::Hardway => BetSlot::Hardway(i as usize),
        Family::Place => BetSlot::Place(i as usize),
        Family::Yes => BetSlot::Yes(i as usize),
        Family::No => BetSlot::No(i as usize),
        Family::Come => BetSlot::Come(i as usize),
        Family::ComeOdds => BetSlot::ComeOdds(i as usize),
        Family::DontCome => BetSlot::DontCome(i as usize),
        Family::DontComeOdds => BetSlot::DontComeOdds(i as usize),
    }
}

/// The ratio a slot of a family pays and reserves.
pub open spec fn family_ratio(f: Family, i: int) -> PayoutRatio {
    match f {
        Family::Next => next_ratio(i + 2),
        Family::Fielders => fielders_ratio(i),
        Family::Hardway => hardway_ratio(hardway_at(i)),
        Family::Place => place_ratio(point_at(i)),
        Family::Yes => yes_ratio(i + 2),
        Family::No => no_ratio(i + 2),
        Family::Come | Family::DontCome => to_one(1),
        Family::ComeOdds => true_odds_ratio(point_at(i)),
        Family::DontComeOdds => lay_odds_ratio(point_at(i)),
    }
}

/// Whether a fielder's choice slot wins on a sum.
pub open spec fn fielders_win(i: int, sum: int) -> bool {
    if i == 0 {
        sum == 2 || sum == 3 || sum == 4
    } else if i == 1 {
        sum == 4 || sum == 9 || sum == 10
    } else {
        sum == 10 || sum == 11 || sum == 12
    }
}

/// How a slot of a family resolves against a roll.
/// Next and fielder's choice resolve on every roll. A hardway wins on its
/// target as doubles and loses on a 7 or on its target the easy way. Place
/// bets, while working, win on their point and lose on a 7. Yes wins on its
/// sum and loses on a 7; No the other way round.
pub open spec fn family_verdict(f: Family, i: int, roll: Roll, working: bool) -> Verdict {
    let s = roll.sum as int;
    match f {
        Family::Next => win_or_lose(s == i + 2),
        Family::Fielders => win_or_lose(fielders_win(i, s)),
        Family::Hardway => {
            let t = hardway_at(i);
            if s == t && roll.hard {
                Verdict::Win
            } else if s == 7 || (s == t && !roll.hard) {
                Verdict::Lose
            } else {
                Verdict::Carry
            }
        },
        Family::Place => {
            if !working {
                Verdict::Carry
            } else if s == point_at(i) {
                Verdict::Win
            } else if s == 7 {
                Verdict::Lose
            } else {
                Verdict::Carry
            }
        },
        Family::Yes => {
            if i == 5 {
                Verdict::Carry
            } else if s == i + 2 {
                Verdict::Win
            } else if s == 7 {
                Verdict::Lose
            } else {
                Verdict::Carry
            }
        },
        Family::No => {
            if i == 5 {
                Verdict::Carry
            } else if s == 7 {
                Verdict::Win
            } else if s == i + 2 {
                Verdict::Lose
            } else {
                Verdict::Carry
            }
        },
        Family::Come | Family::ComeOdds | Family::DontCome | Family::DontComeOdds => Verdict::Carry,
    }
}

/// The first `n` slots of a family resolved in order.
pub open spec fn fold_family(o: Option<Settlement>, f: Family, roll: Roll, n: int) -> Option<
    Settlement,
>
    decreases n,
{
    if n <= 0 {
        o
    } else {
        match fold_family(o, f, roll, n - 1) {
            None => None,
            Some(t) => slot_step(
                Some(t),
                family_slot(f, n - 1),
                family_verdict(f, n - 1, roll, t.position.place_working),
                family_ratio(f, n - 1),
            ),
        }
    }
}

/// A failed settlement stays failed through a family.
pub proof fn lemma_fold_none(f: Family, roll: Roll, n: int)
    ensures
        fold_family(None, f, roll, n) is None,
    decreases n,
{
    if n > 0 {
        lemma_fold_none(f, roll, n - 1);
    }
}

proof fn lemma_fold_none_after(s: Settlement, f: Family, roll: Roll, k: int, n: int)
    requires
        0 <= k <= n,
        fold_family(Some(s), f, roll, k) is None,
    ensures
        fold_family(Some(s), f, roll, n) is None,
    decreases n - k,
{
    if k < n {
        lemma_fold_none_after(s, f, roll, k + 1, n);
    }
}

fn family_size(f: Family) -> (r: usize)
    ensures
        r == family_len(f),
{
    match f {
        Family::Next | Family::Yes | Family::No => 11,
        Family::Fielders => 3,
        Family::Hardway => 4,
        Family::Place | Family::Come | Family::ComeOdds | Family::DontCome | Family::DontComeOdds => 6,
    }
}

fn family_slot_of(f: Family, i: usize) -> (r: BetSlot)
    requires
        i < family_len(f),
    ensures
        r == family_slot(f, i as int),
        slot_in_range(r),
{
    match f {
        Family::Next => BetSlot::Next(i),
        Family::Fielders => BetSlot::Fielders(i),
        Family::Hardway => BetSlot::Hardway(i),
        Family::Place => BetSlot::Place(i),
        Family::Yes => BetSlot::Yes(i),
        Family::No => BetSlot::No(i),
        Family::Come => BetSlot::Come(i),
        Family::ComeOdds => BetSlot::ComeOdds(i),
        Family::DontCome => BetSlot::DontCome(i),
        Family::DontComeOdds => BetSlot::DontComeOdds(i),
    }
}

fn family_ratio_of(f: Family, i: usize) -> (r: PayoutRatio)
    requires
        i < family_len(f),
    ensures
        r == family_ratio(f, i as int),
        r.den >= 1,
{
    match f {
        Family::Next => get_next_payout((i + 2) as u8),
        Family::Fielders => {
            if i == 1 {
                PayoutRatio { num: 2, den: 1 }
            } else {
                PayoutRatio { num: 4, den: 1 }
            }
        },
        Family::Hardway => get_hardway_payout((2 * i + 4) as u8),
        Family::Place => {
            let point: u8 = if i < 3 {
                (i + 4) as u8
            } else {
                (i + 5) as u8
            };
            get_place_payout(point)
        },
        Family::Yes => get_yes_payout((i + 2) as u8),
        Family::No => get_no_payout((i + 2) as u8),
        Family::Come | Family::DontCome => PayoutRatio { num: 1, den: 1 },
        Family::ComeOdds | Family::DontComeOdds => {
            let point: u8 = if i < 3 {
                (i + 4) as u8
            } else {
                (i + 5) as u8
            };
            if f == Family::ComeOdds {
                get_true_odds_payout(point)
            } else {
                get_dont_true_odds_payout(point)
            }
        },
    }
}

fn family_verdict_of(f: Family, i: usize, roll: Roll, working: bool) -> (r: Verdict)
    requires
        i < family_len(f),
    ensures
        r == family_verdict(f, i as int, roll, working),
{
    let s = roll.sum as usize;
    match f {
        Family::Next => {
            if s == i + 2 {
                Verdict::Win
            } else {
                Verdict::Lose
            }
        },
        Family::Fielders => {
            let wins = if i == 0 {
                s == 2 || s == 3 || s == 4
            } else if i == 1 {
                s == 4 || s == 9 || s == 10
            } else {
                s == 10 || s == 11 || s == 12
            };
            if wins {
                Verdict::Win
            } else {
                Verdict::Lose
            }
        },
        Family::Hardway => {
            let t = 2 * i + 4;
            if s == t && roll.hard {
                Verdict::Win
            } else if s == 7 || (s == t && !roll.hard) {
                Verdict::Lose
            } else {
                Verdict::Carry
            }
        },
        Family::Place => {
            let point = if i < 3 {
                i + 4
            } else {
                i + 5
            };
            if !working {
                Verdict::Carry
            } else if s == point {
                Verdict::Win
            } else if s == 7 {
                Verdict::Lose
            } else {
                Verdict::Carry
            }
        },
        Family::Yes => {
            if i == 5 {
                Verdict::Carry
            } else if s == i + 2 {
                Verdict::Win
            } else if s == 7 {
                Verdict::Lose
            } else {
                Verdict::Carry
            }
        },
        Family::No => {
            if i == 5 {
                Verdict::Carry
            } else if s == 7 {
                Verdict::Win
            } else if s == i + 2 {
                Verdict::Lose
            } else {
                Verdict::Carry
            }
        },
        Family::Come | Family::ComeOdds | Family::DontCome | Family::DontComeOdds => Verdict::Carry,
    }
}

/// Resolve every slot of an array family.
fn settle_family(st: &mut Settlement, f: Family, roll: Roll) -> (ok: bool)
    ensures
        ok == fold_family(Some(*old(st)), f, roll, family_len(f)) is Some,
        ok ==> Some(*final(st)) == fold_family(Some(*old(st)), f, roll, family_len(f)),
{
    let n = family_size(f);
    let ghost st0 = *st;
    let mut i: usize = 0;
    while i < n
        invariant
            0 <= i <= n,
            n == family_len(f),
            Some(*st) == fold_family(Some(st0), f, roll, i as int),
            st0 == *old(st),
        decreases n - i,
    {
        let v = family_verdict_of(f, i, roll, st.position.place_working);
        let r = family_ratio_of(f, i);
        let slot = family_slot_of(f, i);
        let ghost before = *st;
        if !settle_slot(st, slot, v, r) {
            proof {
                assert(fold_family(Some(st0), f, roll, i as int + 1) == slot_step(
                    Some(before),
                    family_slot(f, i as int),
                    family_verdict(f, i as int, roll, before.position.place_working),
                    family_ratio(f, i as int),
                ));
                lemma_fold_none_after(st0, f, roll, i as int + 1, n as int);
            }
            return false;
        }
        i = i + 1;
    }
    true
}

/// One-roll bets: field (2:1 on 2 and 12, else 1:1, reserved at 2:1), any
/// seven, any craps, yo eleven, aces, twelve, next and fielder's choice.
/// Each resolves on every roll.
pub open spec fn single_roll_family(o: Option<Settlement>, roll: Roll) -> Option<Settlement> {
    let s = roll.sum as int;
    let o1 = slot_step(o, BetSlot::Field, win_or_lose(spec_is_field(s)), field_ratio(s));
    let o2 = slot_step(o1, BetSlot::AnySeven, win_or_lose(s == 7), to_one(4));
    let o3 = slot_step(o2, BetSlot::AnyCraps, win_or_lose(spec_is_craps(s)), to_one(7));
    let o4 = slot_step(o3, BetSlot::YoEleven, win_or_lose(s == 11), to_one(15));
    let o5 = slot_step(o4, BetSlot::Aces, win_or_lose(s == 2), to_one(30));
    let o6 = slot_step(o5, BetSlot::Twelve, win_or_lose(s == 12), to_one(30));
    let o7 = fold_family(o6, Family::Next, roll, 11);
    fold_family(o7, Family::Fielders, roll, 3)
}

fn win_if(wins: bool) -> (r: Verdict)
    ensures
        r == win_or_lose(wins),
{
    if wins {
        Verdict::Win
    } else {
        Verdict::Lose
    }
}

fn settle_single_roll_bets(st: &mut Settlement, roll: Roll) -> (ok: bool)
    ensures
        ok == single_roll_family(Some(*old(st)), roll) is Some,
        ok ==> Some(*final(st)) == single_roll_family(Some(*old(st)), roll),
{
    let s = roll.sum;
    proof {
        lemma_fold_none(Family::Next, roll, 11);
        lemma_fold_none(Family::Fielders, roll, 3);
    }
    let field_pay = if s == 2 || s == 12 {
        PayoutRatio { num: 2, den: 1 }
    } else {
        PayoutRatio { num: 1, den: 1 }
    };
    if !settle_slot(st, BetSlot::Field, win_if(is_field_winner(s)), field_pay) {
        return false;
    }
    let r = PayoutRatio { num: 4, den: 1 };
    if !settle_slot(st, BetSlot::AnySeven, win_if(s == 7), r) {
        return false;
    }
    let r = PayoutRatio { num: 7, den: 1 };
    if !settle_slot(st, BetSlot::AnyCraps, win_if(is_craps(s)), r) {
        return false;
    }
    let r = PayoutRatio { num: 15, den: 1 };
    if !settle_slot(st, BetSlot::YoEleven, win_if(s == 11), r) {
        return false;
    }
    let r = PayoutRatio { num: 30, den: 1 };
    if !settle_slot(st, BetSlot::Aces, win_if(s == 2), r) {
        return false;
    }
    if !settle_slot(st, BetSlot::Twelve, win_if(s == 12), r) {
        return false;
    }
    if !settle_family(st, Family::Next, roll) {
        return false;
    }
    settle_family(st, Family::Fielders, roll)
}

/// Bonus bets (Small, Tall, All): while any is active, a 7 loses them all
/// and clears their trackers; any other total is recorded, and a bet wins
/// the moment its totals are complete (30:1, 30:1, 150:1).
pub open spec fn bonus_family(o: Option<Settlement>, roll: Roll) -> Option<Settlement> {
    match o {
        None => None,
        Some(s) => {
            let p = s.position;
            if !(p.bonus_small > 0 || p.bonus_tall > 0 || p.bonus_all > 0) {
                Some(s)
            } else if roll.sum == 7 {
                let o1 = slot_step(Some(s), BetSlot::BonusSmall, Verdict::Lose, to_one(30));
                let o2 = slot_step(o1, BetSlot::BonusTall, Verdict::Lose, to_one(30));
                let o3 = slot_step(o2, BetSlot::BonusAll, Verdict::Lose, to_one(150));
                match o3 {
                    None => None,
                    Some(t) => Some(Settlement { position: without_bonus(t.position), ..t }),
                }
            } else {
                let p1 = with_bonus_hit(p, roll.sum);
                let small_now = !all_true(p.small_hits@) && all_true(p1.small_hits@);
                let tall_now = !all_true(p.tall_hits@) && all_true(p1.tall_hits@);
                let s1 = Settlement { position: p1, ..s };
                let o1 = if small_now {
                    slot_step(Some(s1), BetSlot::BonusSmall, Verdict::Win, to_one(30))
                } else {
                    Some(s1)
                };
                let o2 = if tall_now {
                    slot_step(o1, BetSlot::BonusTall, Verdict::Win, to_one(30))
                } else {
                    o1
                };
                if all_true(p1.small_hits@) && all_true(p1.tall_hits@) {
                    slot_step(o2, BetSlot::BonusAll, Verdict::Win, to_one(150))
                } else {
                    o2
                }
            }
        },
    }
}

fn settle_bonus_bets(st: &mut Settlement, roll: Roll) -> (ok: bool)
    ensures
        ok == bonus_family(Some(*old(st)), roll) is Some,
        ok ==> Some(*final(st)) == bonus_family(Some(*old(st)), roll),
{
    if !st.position.has_bonus_bets() {
        return true;
    }
    let small = PayoutRatio { num: 30, den: 1 };
    let all = PayoutRatio { num: 150, den: 1 };
    if roll.sum == 7 {
        if !settle_slot(st, BetSlot::BonusSmall, Verdict::Lose, small) {
            return false;
        }
        if !settle_slot(st, BetSlot::BonusTall, Verdict::Lose, small) {
            return false;
        }
        if !settle_slot(st, BetSlot::BonusAll, Verdict::Lose, all) {
            return false;
        }
        st.position.clear_bonus_bets();
        true
    } else {
        let (small_now, tall_now) = st.position.record_bonus_hit(roll.sum);
        let both = st.position.is_all_complete();
        if small_now {
            if !settle_slot(st, BetSlot::BonusSmall, Verdict::Win, small) {
                return false;
            }
        }
        if tall_now {
            if !settle_slot(st, BetSlot::BonusTall, Verdict::Win, small) {
                return false;
            }
        }
        if both {
            settle_slot(st, BetSlot::BonusAll, Verdict::Win, all)
        } else {
            true
        }
    }
}

/// Different doubles: each double is recorded; all six doubles win 100:1 at
/// once; on a 7 three or more unique doubles win (4:1, 8:1, 15:1), fewer
/// lose. Reserved at 100:1; the tracker clears when the bet resolves.
pub open spec fn diff_doubles_family(o: Option<Settlement>, roll: Roll) -> Option<Settlement> {
    match o {
        None => None,
        Some(s) => {
            let p = s.position;
            if p.diff_doubles_bet == 0 {
                Some(s)
            } else if roll.sum == 7 {
                let c = count_true(p.diff_doubles_hits@) as int;
                match slot_step(
                    Some(s),
                    BetSlot::DiffDoubles,
                    win_or_lose(c >= 3),
                    diff_doubles_ratio(c),
                ) {
                    None => None,
                    Some(t) => Some(
                        Settlement {
                            position: CrapsPosition { diff_doubles_hits: filled(false), ..t.position },
                            ..t
                        },
                    ),
                }
            } else if roll.die1 == roll.die2 {
                let s1 = Settlement { position: with_double(p, roll.die1), ..s };
                if count_true(s1.position.diff_doubles_hits@) == 6 {
                    match slot_step(
                        Some(s1),
                        BetSlot::DiffDoubles,
                        Verdict::Win,
                        to_one(100),
                    ) {
                        None => None,
                        Some(t) => Some(
                            Settlement {
                                position: CrapsPosition {
                                    diff_doubles_hits: filled(false),
                                    ..t.position
                                },
                                ..t
                            },
                        ),
                    }
                } else {
                    Some(s1)
                }
            } else {
                Some(s)
            }
        },
    }
}

fn settle_diff_doubles(st: &mut Settlement, roll: Roll) -> (ok: bool)
    ensures
        ok == diff_doubles_family(Some(*old(st)), roll) is Some,
        ok ==> Some(*final(st)) == diff_doubles_family(Some(*old(st)), roll),
{
    if st.position.diff_doubles_bet == 0 {
        return true;
    }
    let top = PayoutRatio { num: 100, den: 1 };
    if roll.sum == 7 {
        let count = st.position.diff_doubles_count();
        let pay = get_diff_doubles_payout(count);
        if !settle_slot(st, BetSlot::DiffDoubles, win_if(count >= 3), pay) {
            return false;
        }
        st.position.diff_doubles_hits = [false; 6];
        true
    } else if roll.die1 == roll.die2 {
        let count = st.position.record_double(roll.die1);
        if count == 6 {
            if !settle_slot(st, BetSlot::DiffDoubles, Verdict::Win, top) {
                return false;
            }
            st.position.diff_doubles_hits = [false; 6];
        }
        true
    } else {
        true
    }
}

/// Hot hand: totals other than 7 are recorded; all ten win 80:1 at once; on
/// a 7 nine or more win (20:1, or 80:1 for ten), fewer lose. Reserved at
/// 80:1; the tracker clears when the bet resolves.
pub open spec fn hot_hand_family(o: Option<Settlement>, roll: Roll) -> Option<Settlement> {
    match o {
        None => None,
        Some(s) => {
            let p = s.position;
            if p.hot_hand_bet == 0 {
                Some(s)
            } else if roll.sum == 7 {
                let c = count_true(p.hot_hand_hits@) as int;
                let pay = if c >= 10 {
                    to_one(80)
                } else {
                    to_one(20)
                };
                match slot_step(Some(s), BetSlot::HotHand, win_or_lose(c >= 9), pay) {
                    None => None,
                    Some(t) => Some(
                        Settlement {
                            position: CrapsPosition { hot_hand_hits: filled(false), ..t.position },
                            ..t
                        },
                    ),
                }
            } else {
                let s1 = Settlement { position: with_hot_hit(p, roll.sum), ..s };
                if all_true(s1.position.hot_hand_hits@) {
                    match slot_step(Some(s1), BetSlot::HotHand, Verdict::Win, to_one(80)) {
                        None => None,
                        Some(t) => Some(
                            Settlement {
                                position: CrapsPosition {
                                    hot_hand_hits: filled(false),
                                    ..t.position
                                },
                                ..t
                            },
                        ),
                    }
                } else {
                    Some(s1)
                }
            }
        },
    }
}

fn settle_hot_hand(st: &mut Settlement, roll: Roll) -> (ok: bool)
    ensures
        ok == hot_hand_family(Some(*old(st)), roll) is Some,
        ok ==> Some(*final(st)) == hot_hand_family(Some(*old(st)), roll),
{
    if st.position.hot_hand_bet == 0 {
        return true;
    }
    let top = PayoutRatio { num: 80, den: 1 };
    if roll.sum == 7 {
        let count = st.position.hot_hand_count();
        let pay = if count >= 10 {
            top
        } else {
            PayoutRatio { num: 20, den: 1 }
        };
        if !settle_slot(st, BetSlot::HotHand, win_if(count >= 9), pay) {
            return false;
        }
        st.position.hot_hand_hits = [false; 10];
        true
    } else {
        let complete = st.position.record_hot_hand_hit(roll.sum);
        if complete {
            if !settle_slot(st, BetSlot::HotHand, Verdict::Win, top) {
                return false;
            }
            st.position.hot_hand_hits = [false; 10];
        }
        true
    }
}

/// Mugsy's corner wins on any 7: 2:1 in its come-out phase, 3:1 after a
/// point (reserved at 3:1); it then returns to its come-out phase.
pub open spec fn mugsy_family(o: Option<Settlement>, roll: Roll) -> Option<Settlement> {
    match o {
        None => None,
        Some(s) => {
            let p = s.position;
            if p.mugsy_bet > 0 && roll.sum == 7 {
                let pay = if p.mugsy_state == 0 {
                    to_one(2)
                } else {
                    to_one(3)
                };
                match slot_step(Some(s), BetSlot::Mugsy, Verdict::Win, pay) {
                    None => None,
                    Some(t) => Some(
                        Settlement { position: CrapsPosition { mugsy_state: 0, ..t.position }, ..t },
                    ),
                }
            } else {
                Some(s)
            }
        },
    }
}

fn settle_mugsy(st: &mut Settlement, roll: Roll) -> (ok: bool)
    ensures
        ok == mugsy_family(Some(*old(st)), roll) is Some,
        ok ==> Some(*final(st)) == mugsy_family(Some(*old(st)), roll),
{
    if st.position.mugsy_bet > 0 && roll.sum == 7 {
        let pay = if st.position.is_mugsy_comeout() {
            PayoutRatio { num: 2, den: 1 }
        } else {
            PayoutRatio { num: 3, den: 1 }
        };
        if !settle_slot(st, BetSlot::Mugsy, Verdict::Win, pay) {
            return false;
        }
        st.position.mugsy_state = 0;
    }
    true
}

/// Come and don't-come bets with their odds, per travelling point: a come
/// bet wins 1:1 on its point and loses on a 7, its odds paying true odds; a
/// don't-come bet wins 1:1 on a 7 and loses on its point, its odds paying
/// inverse true odds (reserved at true odds). Odds resolve only beside their
/// base bet.
pub open spec fn come_step(o: Option<Settlement>, roll: Roll, i: int) -> Option<Settlement> {
    match o {
        None => None,
        Some(s) => {
            let pt = point_at(i);
            let sum = roll.sum as int;
            let come_v = if sum == pt {
                Verdict::Win
            } else if sum == 7 {
                Verdict::Lose
            } else {
                Verdict::Carry
            };
            let dont_v = if sum == 7 {
                Verdict::Win
            } else if sum == pt {
                Verdict::Lose
            } else {
                Verdict::Carry
            };
            let p = s.position;
            let odds_v = if p.come_bets@[i] > 0 {
                come_v
            } else {
                Verdict::Carry
            };
            let dont_odds_v = if p.dont_come_bets@[i] > 0 {
                dont_v
            } else {
                Verdict::Carry
            };
            let u = i as usize;
            let o1 = slot_step(
                Some(s),
                BetSlot::ComeOdds(u),
                odds_v,
                true_odds_ratio(pt),
            );
            let o2 = slot_step(o1, BetSlot::Come(u), come_v, to_one(1));
            let o3 = slot_step(
                o2,
                BetSlot::DontComeOdds(u),
                dont_odds_v,
                lay_odds_ratio(pt),
            );
            slot_step(o3, BetSlot::DontCome(u), dont_v, to_one(1))
        },
    }
}

/// The come bets of the first `n` points resolved in order.
pub open spec fn come_fold(o: Option<Settlement>, roll: Roll, n: int) -> Option<Settlement>
    decreases n,
{
    if n <= 0 {
        o
    } else {
        come_step(come_fold(o, roll, n - 1), roll, n - 1)
    }
}

proof fn lemma_come_fold_none_after(s: Settlement, roll: Roll, k: int, n: int)
    requires
        0 <= k <= n,
        come_fold(Some(s), roll, k) is None,
    ensures
        come_fold(Some(s), roll, n) is None,
    decreases n - k,
{
    if k < n {
        lemma_come_fold_none_after(s, roll, k + 1, n);
    }
}

fn settle_come_point(st: &mut Settlement, roll: Roll, i: usize) -> (ok: bool)
    requires
        i < 6,
    ensures
        ok == come_step(Some(*old(st)), roll, i as int) is Some,
        ok ==> Some(*final(st)) == come_step(Some(*old(st)), roll, i as int),
{
    let one = PayoutRatio { num: 1, den: 1 };
    let point: u8 = if i < 3 {
        (i + 4) as u8
    } else {
        (i + 5) as u8
    };
    let sum = roll.sum;
    let come_v = if sum == point {
        Verdict::Win
    } else if sum == 7 {
        Verdict::Lose
    } else {
        Verdict::Carry
    };
    let dont_v = if sum == 7 {
        Verdict::Win
    } else if sum == point {
        Verdict::Lose
    } else {
        Verdict::Carry
    };
    let odds_v = if st.position.come_bets[i] > 0 {
        come_v
    } else {
        Verdict::Carry
    };
    let dont_odds_v = if st.position.dont_come_bets[i] > 0 {
        dont_v
    } else {
        Verdict::Carry
    };
    let odds = get_true_odds_payout(point);
    let lay = get_dont_true_odds_payout(point);
    if !settle_slot(st, BetSlot::ComeOdds(i), odds_v, odds) {
        return false;
    }
    if !settle_slot(st, BetSlot::Come(i), come_v, one) {
        return false;
    }
    if !settle_slot(st, BetSlot::DontComeOdds(i), dont_odds_v, lay) {
        return false;
    }
    settle_slot(st, BetSlot::DontCome(i), dont_v, one)
}

fn settle_come_bets(st: &mut Settlement, roll: Roll) -> (ok: bool)
    ensures
        ok == come_fold(Some(*old(st)), roll, 6) is Some,
        ok ==> Some(*final(st)) == come_fold(Some(*old(st)), roll, 6),
{
    let ghost st0 = *st;
    let mut i: usize = 0;
    while i < 6
        invariant
            0 <= i <= 6,
            Some(*st) == come_fold(Some(st0), roll, i as int),
            st0 == *old(st),
        decreases 6 - i,
    {
        let ghost before = *st;
        if !settle_come_point(st, roll, i) {
            proof {
                assert(come_fold(Some(st0), roll, i as int + 1) == come_step(
                    Some(before),
                    roll,
                    i as int,
                ));
                lemma_come_fold_none_after(st0, roll, i as int + 1, 6);
            }
            return false;
        }
        i = i + 1;
    }
    true
}

/// Line bets, resolved against `pre`, the game's phase before this round's
/// roll (the phase itself moves once per round, in `advance_game`).
///
/// Come-out: a natural (7, 11) wins pass and loses don't pass; craps (2, 3,
/// 12) loses pass and wins don't pass, which pushes on 12; a point number
/// moves Mugsy's corner to its point phase.
///
/// Point phase: rolling the point wins pass (and its true odds) and loses
/// don't pass (and its odds), and records the point for the fire and replay
/// bets and a win for ride the line. A 7 (seven-out) loses pass and its
/// odds, wins don't pass and its inverse true odds, settles fire (4+ points),
/// ride the line (3+ wins) and replay (3+ of one point) on their trackers,
/// and resets the position into the next epoch; it fails if the epoch
/// number is exhausted.
pub open spec fn line_family(o: Option<Settlement>, roll: Roll, pre: CrapsGame) -> Option<
    Settlement,
> {
    match o {
        None => None,
        Some(s) => {
            if pre.is_come_out {
                line_come_out(s, roll)
            } else if roll.sum == pre.point {
                line_point_made(s, roll, pre)
            } else if roll.sum == 7 {
                line_seven_out(s, pre)
            } else {
                Some(s)
            }
        },
    }
}

/// The come-out roll of the line bets.
pub open spec fn line_come_out(s: Settlement, roll: Roll) -> Option<Settlement> {
    let p = s.position;
    let sum = roll.sum as int;
    let one = to_one(1);
    if spec_is_natural(sum) {
        slot_step(
            slot_step(Some(s), BetSlot::PassLine, Verdict::Win, one),
            BetSlot::DontPass,
            Verdict::Lose,
            one,
        )
    } else if spec_is_craps(sum) {
        slot_step(
            slot_step(Some(s), BetSlot::PassLine, Verdict::Lose, one),
            BetSlot::DontPass,
            if sum == 12 {
                Verdict::Push
            } else {
                Verdict::Win
            },
            one,
        )
    } else if spec_is_point(sum) && p.mugsy_bet > 0 {
        Some(
            Settlement {
                position: CrapsPosition {
                    mugsy_state: if p.mugsy_state == 0 {
                        1
                    } else {
                        p.mugsy_state
                    },
                    ..p
                },
                ..s
            },
        )
    } else {
        Some(s)
    }
}

/// The point is rolled: pass and its odds win, don't pass and its odds
/// lose, and the shooter-run trackers record the point.
pub open spec fn line_point_made(s: Settlement, roll: Roll, pre: CrapsGame) -> Option<Settlement> {
    let p = s.position;
    let one = to_one(1);
    let odds = true_odds_ratio(pre.point as int);
    let o1 = if p.pass_line > 0 {
        slot_step(
            slot_step(Some(s), BetSlot::PassOdds, Verdict::Win, odds),
            BetSlot::PassLine,
            Verdict::Win,
            one,
        )
    } else {
        Some(s)
    };
    let o2 = if p.dont_pass > 0 {
        slot_step(
            slot_step(o1, BetSlot::DontPassOdds, Verdict::Lose, odds),
            BetSlot::DontPass,
            Verdict::Lose,
            one,
        )
    } else {
        o1
    };
    match o2 {
        None => None,
        Some(t) => {
            let q0 = t.position;
            let q1 = if q0.fire_bet > 0 {
                with_fire_point(q0, roll.sum)
            } else {
                q0
            };
            let q2 = if q1.replay_bet > 0 {
                with_replay_point(q1, roll.sum)
            } else {
                q1
            };
            let q3 = if q2.ride_the_line_bet > 0 {
                CrapsPosition {
                    ride_wins_count: if q2.ride_wins_count < 255 {
                        (q2.ride_wins_count + 1) as u8
                    } else {
                        255
                    },
                    ..q2
                }
            } else {
                q2
            };
            Some(Settlement { position: q3, ..t })
        },
    }
}

/// The seven-out's bets: pass and its odds lose, don't pass and its inverse
/// true odds win, and the fire, ride-the-line and replay bets settle on
/// their trackers.
pub open spec fn seven_out_bets(s: Settlement, pre: CrapsGame) -> Option<Settlement> {
    let p = s.position;
    let pt = pre.point as int;
    let one = to_one(1);
    let odds = true_odds_ratio(pt);
    let o1 = if p.pass_line > 0 {
        slot_step(
            slot_step(Some(s), BetSlot::PassOdds, Verdict::Lose, odds),
            BetSlot::PassLine,
            Verdict::Lose,
            one,
        )
    } else {
        Some(s)
    };
    let o2 = if p.dont_pass > 0 {
        slot_step(
            slot_step(o1, BetSlot::DontPassOdds, Verdict::Win, lay_odds_ratio(pt)),
            BetSlot::DontPass,
            Verdict::Win,
            one,
        )
    } else {
        o1
    };
    let o3 = if p.fire_bet > 0 {
        let c = count_true(p.fire_points_made@) as int;
        slot_step(o2, BetSlot::FireBet, win_or_lose(c >= 4), fire_ratio(c))
    } else {
        o2
    };
    let o4 = if p.ride_the_line_bet > 0 {
        let w = p.ride_wins_count as int;
        slot_step(o3, BetSlot::RideTheLine, win_or_lose(w >= 3), ride_ratio(w))
    } else {
        o3
    };
    if p.replay_bet > 0 {
        let m = seq_max(p.replay_counts@) as int;
        slot_step(
            o4,
            BetSlot::Replay,
            win_or_lose(m >= 3),
            to_one(replay_best(p.replay_counts@, 6)),
        )
    } else {
        o4
    }
}

/// The seven-out: its bets settle, then the position is reset into the
/// next epoch.
pub open spec fn line_seven_out(s: Settlement, pre: CrapsGame) -> Option<Settlement> {
    match seven_out_bets(s, pre) {
        None => None,
        Some(t) => {
            if pre.epoch_id == u64::MAX {
                None
            } else {
                Some(
                    Settlement {
                        position: reset_into(t.position, (pre.epoch_id + 1) as u64),
                        ..t
                    },
                )
            }
        },
    }
}

fn settle_come_out(st: &mut Settlement, roll: Roll) -> (ok: bool)
    ensures
        ok == line_come_out(*old(st), roll) is Some,
        ok ==> Some(*final(st)) == line_come_out(*old(st), roll),
{
    let one = PayoutRatio { num: 1, den: 1 };
    let sum = roll.sum;
    if is_natural(sum) {
        if !settle_slot(st, BetSlot::PassLine, Verdict::Win, one) {
            return false;
        }
        settle_slot(st, BetSlot::DontPass, Verdict::Lose, one)
    } else if is_craps(sum) {
        let dont = if sum == 12 {
            Verdict::Push
        } else {
            Verdict::Win
        };
        if !settle_slot(st, BetSlot::PassLine, Verdict::Lose, one) {
            return false;
        }
        settle_slot(st, BetSlot::DontPass, dont, one)
    } else {
        if is_point_number(sum) && st.position.mugsy_bet > 0 {
            st.position.set_mugsy_point_phase();
        }
        true
    }
}

fn settle_point_made(st: &mut Settlement, roll: Roll, pre: &CrapsGame) -> (ok: bool)
    requires
        roll.sum == pre.point,
    ensures
        ok == line_point_made(*old(st), roll, *pre) is Some,
        ok ==> Some(*final(st)) == line_point_made(*old(st), roll, *pre),
{
    let one = PayoutRatio { num: 1, den: 1 };
    let point = pre.point;
    let odds = get_true_odds_payout(point);
    if st.position.pass_line > 0 {
        if !settle_slot(st, BetSlot::PassOdds, Verdict::Win, odds) {
            return false;
        }
        if !settle_slot(st, BetSlot::PassLine, Verdict::Win, one) {
            return false;
        }
    }
    if st.position.dont_pass > 0 {
        if !settle_slot(st, BetSlot::DontPassOdds, Verdict::Lose, odds) {
            return false;
        }
        if !settle_slot(st, BetSlot::DontPass, Verdict::Lose, one) {
            return false;
        }
    }
    if st.position.fire_bet > 0 {
        st.position.record_fire_point(point);
    }
    if st.position.replay_bet > 0 {
        st.position.record_replay_point(point);
    }
    if st.position.ride_the_line_bet > 0 {
        st.position.record_ride_win();
    }
    true
}

fn settle_seven_out_bets(st: &mut Settlement, pre: &CrapsGame) -> (ok: bool)
    ensures
        ok == seven_out_bets(*old(st), *pre) is Some,
        ok ==> Some(*final(st)) == seven_out_bets(*old(st), *pre),
{
    let one = PayoutRatio { num: 1, den: 1 };
    let point = pre.point;
    let odds = get_true_odds_payout(point);
    let fire = st.position.fire_bet > 0;
    let fire_count = st.position.fire_points_count();
    let ride = st.position.ride_the_line_bet > 0;
    let wins = st.position.ride_wins_count;
    let replay = st.position.replay_bet > 0;
    let most = st.position.max_replay_count();
    let replay_pay = get_replay_bet_payout(&st.position.replay_counts);
    if st.position.pass_line > 0 {
        if !settle_slot(st, BetSlot::PassOdds, Verdict::Lose, odds) {
            return false;
        }
        if !settle_slot(st, BetSlot::PassLine, Verdict::Lose, one) {
            return false;
        }
    }
    if st.position.dont_pass > 0 {
        let lay = get_dont_true_odds_payout(point);
        if !settle_slot(st, BetSlot::DontPassOdds, Verdict::Win, lay) {
            return false;
        }
        if !settle_slot(st, BetSlot::DontPass, Verdict::Win, one) {
            return false;
        }
    }
    if fire {
        let pay = get_fire_bet_payout(fire_count);
        if !settle_slot(st, BetSlot::FireBet, win_if(fire_count >= 4), pay) {
            return false;
        }
    }
    if ride {
        let pay = get_ride_the_line_payout(wins);
        if !settle_slot(st, BetSlot::RideTheLine, win_if(wins >= 3), pay) {
            return false;
        }
    }
    if replay {
        if !settle_slot(st, BetSlot::Replay, win_if(most >= 3), replay_pay) {
            return false;
        }
    }
    true
}

fn settle_seven_out(st: &mut Settlement, pre: &CrapsGame) -> (ok: bool)
    ensures
        ok == line_seven_out(*old(st), *pre) is Some,
        ok ==> Some(*final(st)) == line_seven_out(*old(st), *pre),
{
    if !settle_seven_out_bets(st, pre) {
        return false;
    }
    if pre.epoch_id == u64::MAX {
        return false;
    }
    st.position.reset_for_epoch(pre.epoch_id + 1);
    true
}

fn settle_line_bets(st: &mut Settlement, roll: Roll, pre: &CrapsGame) -> (ok: bool)
    ensures
        ok == line_family(Some(*old(st)), roll, *pre) is Some,
        ok ==> Some(*final(st)) == line_family(Some(*old(st)), roll, *pre),
{
    if pre.is_come_out {
        settle_come_out(st, roll)
    } else if roll.sum == pre.point {
        settle_point_made(st, roll, pre)
    } else if roll.sum == 7 {
        settle_seven_out(st, pre)
    } else {
        true
    }
}

/// Every family of a position resolved against the roll, in order, on the
/// game `g`; the line bets read the pre-roll phase `pre`.
pub open spec fn roll_settlement(g: CrapsGame, p: CrapsPosition, roll: Roll, pre: CrapsGame) -> Option<
    Settlement,
> {
    let s0 = Settlement { game: g, position: p, won: 0, lost: 0, profit: 0 };
    let o1 = single_roll_family(Some(s0), roll);
    let o2 = bonus_family(o1, roll);
    let o3 = diff_doubles_family(o2, roll);
    let o4 = hot_hand_family(o3, roll);
    let o5 = mugsy_family(o4, roll);
    let o6 = fold_family(o5, Family::Hardway, roll, 4);
    let o7 = fold_family(o6, Family::Place, roll, 6);
    let o8 = fold_family(o7, Family::Yes, roll, 11);
    let o9 = fold_family(o8, Family::No, roll, 11);
    let o10 = come_fold(o9, roll, 6);
    line_family(o10, roll, pre)
}

proof fn lemma_come_fold_none(roll: Roll, n: int)
    ensures
        come_fold(None, roll, n) is None,
    decreases n,
{
    if n > 0 {
        lemma_come_fold_none(roll, n - 1);
    }
}

fn settle_roll(st: &mut Settlement, roll: Roll, pre: &CrapsGame) -> (ok: bool)
    requires
        old(st).won == 0 && old(st).lost == 0 && old(st).profit == 0,
    ensures
        ok == roll_settlement(old(st).game, old(st).position, roll, *pre) is Some,
        ok ==> Some(*final(st)) == roll_settlement(old(st).game, old(st).position, roll, *pre),
{
    proof {
        lemma_fold_none(Family::Hardway, roll, 4);
        lemma_fold_none(Family::Place, roll, 6);
        lemma_fold_none(Family::Yes, roll, 11);
        lemma_fold_none(Family::No, roll, 11);
        lemma_come_fold_none(roll, 6);
    }
    settle_single_roll_bets(st, roll) && settle_bonus_bets(st, roll) && settle_diff_doubles(
        st,
        roll,
    ) && settle_hot_hand(st, roll) && settle_mugsy(st, roll) && settle_family(
        st,
        Family::Hardway,
        roll,
    ) && settle_family(st, Family::Place, roll) && settle_family(st, Family::Yes, roll)
        && settle_family(st, Family::No, roll) && settle_come_bets(st, roll) && settle_line_bets(
        st,
        roll,
        pre,
    )
}

/// The first `n` slots of a family pushed back to the player: each stake is
/// returned and its reservation released.
pub open spec fn push_family(o: Option<Settlement>, f: Family, n: int) -> Option<Settlement>
    decreases n,
{
    if n <= 0 {
        o
    } else {
        slot_step(push_family(o, f, n - 1), family_slot(f, n - 1), Verdict::Push, nothing())
    }
}

proof fn lemma_push_none(f: Family, n: int)
    ensures
        push_family(None, f, n) is None,
    decreases n,
{
    if n > 0 {
        lemma_push_none(f, n - 1);
    }
}

proof fn lemma_push_none_after(s: Settlement, f: Family, k: int, n: int)
    requires
        0 <= k <= n,
        push_family(Some(s), f, k) is None,
    ensures
        push_family(Some(s), f, n) is None,
    decreases n - k,
{
    if k < n {
        lemma_push_none_after(s, f, k + 1, n);
    }
}

fn push_out_family(st: &mut Settlement, f: Family) -> (ok: bool)
    ensures
        ok == push_family(Some(*old(st)), f, family_len(f)) is Some,
        ok ==> Some(*final(st)) == push_family(Some(*old(st)), f, family_len(f)),
{
    let n = family_size(f);
    let ghost st0 = *st;
    let none = PayoutRatio { num: 0, den: 1 };
    let mut i: usize = 0;
    while i < n
        invariant
            0 <= i <= n,
            n == family_len(f),
            Some(*st) == push_family(Some(st0), f, i as int),
            st0 == *old(st),
            none == nothing(),
        decreases n - i,
    {
        let slot = family_slot_of(f, i);
        let ghost before = *st;
        if !settle_slot(st, slot, Verdict::Push, none) {
            proof {
                assert(push_family(Some(st0), f, i as int + 1) == slot_step(
                    Some(before),
                    family_slot(f, i as int),
                    Verdict::Push,
                    nothing(),
                ));
                lemma_push_none_after(st0, f, i as int + 1, n as int);
            }
            return false;
        }
        i = i + 1;
    }
    true
}

/// Every single stake of a position pushed back (line, one-roll, bonus and
/// shooter-run bets).
pub open spec fn push_scalars(o: Option<Settlement>) -> Option<Settlement> {
    let z = nothing();
    let o1 = slot_step(o, BetSlot::PassLine, Verdict::Push, z);
    let o2 = slot_step(o1, BetSlot::DontPass, Verdict::Push, z);
    let o3 = slot_step(o2, BetSlot::PassOdds, Verdict::Push, z);
    let o4 = slot_step(o3, BetSlot::DontPassOdds, Verdict::Push, z);
    let o5 = slot_step(o4, BetSlot::Field, Verdict::Push, z);
    let o6 = slot_step(o5, BetSlot::AnySeven, Verdict::Push, z);
    let o7 = slot_step(o6, BetSlot::AnyCraps, Verdict::Push, z);
    let o8 = slot_step(o7, BetSlot::YoEleven, Verdict::Push, z);
    let o9 = slot_step(o8, BetSlot::Aces, Verdict::Push, z);
    let o10 = slot_step(o9, BetSlot::Twelve, Verdict::Push, z);
    let o11 = slot_step(o10, BetSlot::BonusSmall, Verdict::Push, z);
    let o12 = slot_step(o11, BetSlot::BonusTall, Verdict::Push, z);
    let o13 = slot_step(o12, BetSlot::BonusAll, Verdict::Push, z);
    let o14 = slot_step(o13, BetSlot::FireBet, Verdict::Push, z);
    let o15 = slot_step(o14, BetSlot::DiffDoubles, Verdict::Push, z);
    let o16 = slot_step(o15, BetSlot::RideTheLine, Verdict::Push, z);
    let o17 = slot_step(o16, BetSlot::Mugsy, Verdict::Push, z);
    let o18 = slot_step(o17, BetSlot::HotHand, Verdict::Push, z);
    slot_step(o18, BetSlot::Replay, Verdict::Push, z)
}

fn push_out_scalars(st: &mut Settlement) -> (ok: bool)
    ensures
        ok == push_scalars(Some(*old(st))) is Some,
        ok ==> Some(*final(st)) == push_scalars(Some(*old(st))),
{
    let z = PayoutRatio { num: 0, den: 1 };
    settle_slot(st, BetSlot::PassLine, Verdict::Push, z) && settle_slot(
        st,
        BetSlot::DontPass,
        Verdict::Push,
        z,
    ) && settle_slot(st, BetSlot::PassOdds, Verdict::Push, z) && settle_slot(
        st,
        BetSlot::DontPassOdds,
        Verdict::Push,
        z,
    ) && settle_slot(st, BetSlot::Field, Verdict::Push, z) && settle_slot(
        st,
        BetSlot::AnySeven,
        Verdict::Push,
        z,
    ) && settle_slot(st, BetSlot::AnyCraps, Verdict::Push, z) && settle_slot(
        st,
        BetSlot::YoEleven,
        Verdict::Push,
        z,
    ) && settle_slot(st, BetSlot::Aces, Verdict::Push, z) && settle_slot(
        st,
        BetSlot::Twelve,
        Verdict::Push,
        z,
    ) && settle_slot(st, BetSlot::BonusSmall, Verdict::Push, z) && settle_slot(
        st,
        BetSlot::BonusTall,
        Verdict::Push,
        z,
    ) && settle_slot(st, BetSlot::BonusAll, Verdict::Push, z) && settle_slot(
        st,
        BetSlot::FireBet,
        Verdict::Push,
        z,
    ) && settle_slot(st, BetSlot::DiffDoubles, Verdict::Push, z) && settle_slot(
        st,
        BetSlot::RideTheLine,
        Verdict::Push,
        z,
    ) && settle_slot(st, BetSlot::Mugsy, Verdict::Push, z) && settle_slot(
        st,
        BetSlot::HotHand,
        Verdict::Push,
        z,
    ) && settle_slot(st, BetSlot::Replay, Verdict::Push, z)
}

/// Every stake of a position pushed back.
pub open spec fn push_all(o: Option<Settlement>) -> Option<Settlement> {
    let o1 = push_scalars(o);
    let o2 = push_family(o1, Family::Next, 11);
    let o3 = push_family(o2, Family::Fielders, 3);
    let o4 = push_family(o3, Family::Hardway, 4);
    let o5 = push_family(o4, Family::Place, 6);
    let o6 = push_family(o5, Family::Yes, 11);
    let o7 = push_family(o6, Family::No, 11);
    let o8 = push_family(o7, Family::Come, 6);
    let o9 = push_family(o8, Family::ComeOdds, 6);
    let o10 = push_family(o9, Family::DontCome, 6);
    push_family(o10, Family::DontComeOdds, 6)
}

/// A position from an earlier epoch brought into `epoch_id`: every stake
/// refunded into pending winnings and its reservation released, then its
/// bets, trackers and epoch totals cleared. `None` on overflow.
#[verifier::opaque]
pub open spec fn refund_outcome(g: CrapsGame, p: CrapsPosition, epoch_id: u64) -> Option<
    (CrapsGame, CrapsPosition),
> {
    match push_all(Some(Settlement { game: g, position: p, won: 0, lost: 0, profit: 0 })) {
        None => None,
        Some(t) => {
            if p.pending_winnings + t.won > u64::MAX {
                None
            } else {
                Some(
                    (
                        t.game,
                        CrapsPosition {
                            pending_winnings: (p.pending_winnings + t.won) as u64,
                            ..reset_into(t.position, epoch_id)
                        },
                    ),
                )
            }
        },
    }
}

/// Refund a stale position into `epoch_id` (see `refund_outcome`).
pub fn refund_stale(g: &CrapsGame, p: &CrapsPosition, epoch_id: u64) -> (r: Option<
    (CrapsGame, CrapsPosition),
>)
    ensures
        r == refund_outcome(*g, *p, epoch_id),
{
    proof {
        reveal(refund_outcome);
        lemma_push_none(Family::Next, 11);
        lemma_push_none(Family::Fielders, 3);
        lemma_push_none(Family::Hardway, 4);
        lemma_push_none(Family::Place, 6);
        lemma_push_none(Family::Yes, 11);
        lemma_push_none(Family::No, 11);
        lemma_push_none(Family::Come, 6);
        lemma_push_none(Family::ComeOdds, 6);
        lemma_push_none(Family::DontCome, 6);
        lemma_push_none(Family::DontComeOdds, 6);
    }
    let mut st = Settlement { game: *g, position: *p, won: 0, lost: 0, profit: 0 };
    let ok = push_out_scalars(&mut st) && push_out_family(&mut st, Family::Next) && push_out_family(
        &mut st,
        Family::Fielders,
    ) && push_out_family(&mut st, Family::Hardway) && push_out_family(&mut st, Family::Place)
        && push_out_family(&mut st, Family::Yes) && push_out_family(&mut st, Family::No)
        && push_out_family(&mut st, Family::Come) && push_out_family(&mut st, Family::ComeOdds)
        && push_out_family(&mut st, Family::DontCome) && push_out_family(
        &mut st,
        Family::DontComeOdds,
    );
    if !ok {
        return None;
    }
    let pending = match p.pending_winnings.checked_add(st.won) {
        Some(v) => v,
        None => return None,
    };
    let mut q = st.position;
    q.reset_for_epoch(epoch_id);
    q.pending_winnings = pending;
    Some((st.game, q))
}

/// Close a settlement. Winnings (returned stakes included) go to pending
/// winnings. The bankroll moves by the losses less the profit: returned
/// stakes do not leave it. A net profit larger than the bankroll empties the
/// bankroll, and the shortfall is recorded as debt to the player instead of
/// pending winnings. The position is marked settled in the round.
pub open spec fn settle_commit(s: Settlement, round_id: u64) -> Result<
    (CrapsGame, CrapsPosition),
    OreError,
> {
    let g = s.game;
    let p = s.position;
    let won = s.won as int;
    let lost = s.lost as int;
    let profit = s.profit as int;
    if p.pending_winnings + won > u64::MAX || p.total_won + won > u64::MAX || p.total_lost + lost
        > u64::MAX || g.total_payouts + won > u64::MAX || g.total_collected + lost > u64::MAX {
        Err(OreError::ArithmeticOverflow)
    } else {
        let g1 = CrapsGame {
            total_payouts: (g.total_payouts + won) as u64,
            total_collected: (g.total_collected + lost) as u64,
            ..g
        };
        let p1 = CrapsPosition {
            pending_winnings: (p.pending_winnings + won) as u64,
            total_won: (p.total_won + won) as u64,
            total_lost: (p.total_lost + lost) as u64,
            last_updated_round: later_round(p.last_updated_round, round_id),
            ever_settled: true,
            ..p
        };
        if profit > lost {
            let net = profit - lost;
            if g.house_bankroll >= net {
                Ok((CrapsGame { house_bankroll: (g.house_bankroll - net) as u64, ..g1 }, p1))
            } else {
                let debt = net - g.house_bankroll;
                if p.unpaid_debt + debt > u64::MAX || debt > p1.pending_winnings {
                    Err(OreError::ArithmeticOverflow)
                } else {
                    Ok(
                        (
                            CrapsGame { house_bankroll: 0, ..g1 },
                            CrapsPosition {
                                pending_winnings: (p1.pending_winnings - debt) as u64,
                                unpaid_debt: (p.unpaid_debt + debt) as u64,
                                ..p1
                            },
                        ),
                    )
                }
            }
        } else {
            if g.house_bankroll + (lost - profit) > u64::MAX {
                Err(OreError::ArithmeticOverflow)
            } else {
                Ok(
                    (
                        CrapsGame {
                            house_bankroll: (g.house_bankroll + (lost - profit)) as u64,
                            ..g1
                        },
                        p1,
                    ),
                )
            }
        }
    }
}

fn close_settlement(s: &Settlement, round_id: u64) -> (r: Result<
    (CrapsGame, CrapsPosition),
    OreError,
>)
    ensures
        r == settle_commit(*s, round_id),
        r is Ok ==> ({
            let (g2, p2) = r->Ok_0;
            let profit = s.profit as int;
            let lost = s.lost as int;
            let bankroll = s.game.house_bankroll as int;
            &&& profit <= lost ==> g2.house_bankroll == bankroll + (lost - profit)
            &&& (profit > lost && bankroll >= profit - lost) ==> g2.house_bankroll == bankroll - (
            profit - lost) && p2.pending_winnings == s.position.pending_winnings + s.won
                && p2.unpaid_debt == s.position.unpaid_debt
            &&& (profit > lost && bankroll < profit - lost) ==> g2.house_bankroll == 0
                && p2.pending_winnings + p2.unpaid_debt == s.position.pending_winnings
                + s.position.unpaid_debt + s.won && p2.unpaid_debt == s.position.unpaid_debt + (
            profit - lost - bankroll)
        }),
{
    let won = s.won;
    let lost = s.lost;
    let profit = s.profit;
    let mut g = s.game;
    let mut p = s.position;
    let pending = match p.pending_winnings.checked_add(won) {
        Some(v) => v,
        None => return Err(OreError::ArithmeticOverflow),
    };
    let total_won = match p.total_won.checked_add(won) {
        Some(v) => v,
        None => return Err(OreError::ArithmeticOverflow),
    };
    let total_lost = match p.total_lost.checked_add(lost) {
        Some(v) => v,
        None => return Err(OreError::ArithmeticOverflow),
    };
    let payouts = match g.total_payouts.checked_add(won) {
        Some(v) => v,
        None => return Err(OreError::ArithmeticOverflow),
    };
    let collected = match g.total_collected.checked_add(lost) {
        Some(v) => v,
        None => return Err(OreError::ArithmeticOverflow),
    };
    g.total_payouts = payouts;
    g.total_collected = collected;
    p.pending_winnings = pending;
    p.total_won = total_won;
    p.total_lost = total_lost;
    if round_id > p.last_updated_round {
        p.last_updated_round = round_id;
    }
    p.ever_settled = true;
    if profit > lost {
        let net = profit - lost;
        if g.house_bankroll >= net {
            g.house_bankroll = g.house_bankroll - net;
        } else {
            let debt = net - g.house_bankroll;
            let unpaid = match p.unpaid_debt.checked_add(debt) {
                Some(v) => v,
                None => return Err(OreError::ArithmeticOverflow),
            };
            if debt > p.pending_winnings {
                return Err(OreError::ArithmeticOverflow);
            }
            g.house_bankroll = 0;
            p.unpaid_debt = unpaid;
            p.pending_winnings = p.pending_winnings - debt;
        }
    } else {
        let gain = lost - profit;
        g.house_bankroll = match g.house_bankroll.checked_add(gain) {
            Some(v) => v,
            None => return Err(OreError::ArithmeticOverflow),
        };
    }
    Ok((g, p))
}

/// Whether a position may be settled in a round: never settled yet, or last
/// settled in an earlier round.
pub open spec fn may_settle(p: CrapsPosition, round_id: u64) -> bool {
    !p.ever_settled || p.last_updated_round < round_id
}

/// The ledgers after settling a position in a round whose winning square is
/// `square`, or the error that refuses it.
///
/// A repeat in a round the position was already settled in is refused. A
/// position from an epoch other than the one the round's roll was made in
/// is refunded into the current epoch and the call returns early: the phase
/// does not move. Otherwise the game's phase takes the round's roll (once
/// per round, see `advance_game`), whatever the position holds; a position
/// without bets is only moved into the game's epoch; otherwise every bet is
/// resolved against the roll and the pre-roll phase, and the call closes
/// with one net bankroll adjustment.
pub open spec fn settle_outcome(g: CrapsGame, p: CrapsPosition, round_id: u64, square: int) -> Result<
    (CrapsGame, CrapsPosition),
    OreError,
> {
    let roll = roll_of(square);
    let pre = phase_before(g, round_id);
    if !may_settle(p, round_id) {
        Err(OreError::AlreadySettled)
    } else if p.epoch_id != pre.epoch_id {
        match refund_outcome(g, p, g.epoch_id) {
            None => Err(OreError::ArithmeticOverflow),
            Some((g2, q)) => Ok(
                (
                    g2,
                    CrapsPosition {
                        last_updated_round: later_round(p.last_updated_round, round_id),
                        ever_settled: true,
                        ..q
                    },
                ),
            ),
        }
    } else {
        match advance_game(g, roll.sum, round_id) {
            None => Err(OreError::ArithmeticOverflow),
            Some(g1) => {
                if !has_any_bet(p) {
                    Ok(
                        (
                            g1,
                            CrapsPosition {
                                epoch_id: g1.epoch_id,
                                last_updated_round: later_round(p.last_updated_round, round_id),
                                ever_settled: true,
                                ..p
                            },
                        ),
                    )
                } else {
                    match roll_settlement(g1, p, roll, pre) {
                        None => Err(OreError::ArithmeticOverflow),
                        Some(s) => settle_commit(s, round_id),
                    }
                }
            },
        }
    }
}

/// Settle a player's position for a round whose winning square is
/// `winning_square` (0..36); see `settle_outcome`. The call is all or
/// nothing: on an error neither ledger changes.
pub fn process_settle_craps(
    game: &mut CrapsGame,
    position: &mut CrapsPosition,
    round_id: u64,
    winning_square: usize,
) -> (r: Result<(), OreError>)
    requires
        winning_square < BOARD_SIZE,
    ensures
        match settle_outcome(*old(game), *old(position), round_id, winning_square as int) {
            Ok((g, p)) => r is Ok && *final(game) == g && *final(position) == p,
            Err(e) => r == Err::<(), OreError>(e) && *final(game) == *old(game) && *final(position)
                == *old(position),
        },
{
    if position.ever_settled && position.last_updated_round >= round_id {
        return Err(OreError::AlreadySettled);
    }
    let roll = Roll::from_square(winning_square);
    let rolled = game.has_rolled && game.rolled_round == round_id;
    let pre_epoch = if rolled {
        game.prior_epoch_id
    } else {
        game.epoch_id
    };
    let pre = CrapsGame {
        epoch_id: pre_epoch,
        point: if rolled {
            game.prior_point
        } else {
            game.point
        },
        is_come_out: if rolled {
            game.prior_come_out
        } else {
            game.is_come_out
        },
        ..*game
    };
    let later = if round_id > position.last_updated_round {
        round_id
    } else {
        position.last_updated_round
    };
    if position.epoch_id != pre.epoch_id {
        return match refund_stale(game, position, game.epoch_id) {
            None => Err(OreError::ArithmeticOverflow),
            Some((g2, q)) => {
                let mut q = q;
                q.last_updated_round = later;
                q.ever_settled = true;
                *game = g2;
                *position = q;
                Ok(())
            },
        };
    }
    let mut g1 = *game;
    if !g1.advance_phase(roll.sum, round_id) {
        return Err(OreError::ArithmeticOverflow);
    }
    if !position.has_any_bets() {
        *game = g1;
        position.epoch_id = g1.epoch_id;
        position.last_updated_round = later;
        position.ever_settled = true;
        return Ok(());
    }
    let mut st = Settlement { game: g1, position: *position, won: 0, lost: 0, profit: 0 };
    if !settle_roll(&mut st, roll, &pre) {
        return Err(OreError::ArithmeticOverflow);
    }
    match close_settlement(&st, round_id) {
        Err(e) => Err(e),
        Ok((g, p)) => {
            *game = g;
            *position = p;
            Ok(())
        },
    }
}

} // verus!
