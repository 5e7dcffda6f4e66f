//! Bet admission: validates a new wager, reserves its worst-case payout
//! against the bankroll and records it in the player's position.

use vstd::prelude::*;
use vstd::array::spec_array_update as updated;
use crate::dice::{
    point_at, hardway_at, point_to_index, sum_to_index, is_valid_yes_no_sum, hardway_to_index,
    spec_is_point, spec_is_yes_no_sum,
};
use crate::error::OreError;
use crate::game::CrapsGame;
use crate::payout::{
    release_of, release_amount, lemma_release_mono, MAX_BET_AMOUNT, PayoutRatio, to_one, true_odds_ratio,
    place_ratio, hardway_ratio, yes_ratio, no_ratio, next_ratio, fielders_ratio,
    get_true_odds_payout, get_place_payout, get_hardway_payout, get_yes_payout, get_no_payout,
    get_next_payout,
};
use crate::position::CrapsPosition;
use crate::settle::{refund_outcome, refund_stale};

verus! {

/// A stake of a position: where a bet is added at admission, and what a
/// bet family resolves at settlement.
#[derive(Debug, Clone, Copy, PartialEq, Eq, Structural)]
pub enum BetSlot {
    PassLine,
    DontPass,
    PassOdds,
    DontPassOdds,
    Come(usize),
    DontCome(usize),
    ComeOdds(usize),
    DontComeOdds(usize),
    Place(usize),
    Hardway(usize),
    Field,
    AnySeven,
    AnyCraps,
    YoEleven,
    Aces,
    Twelve,
    Yes(usize),
    No(usize),
    Next(usize),
    Fielders(usize),
    BonusSmall,
    BonusTall,
    BonusAll,
    FireBet,
    DiffDoubles,
    RideTheLine,
    Mugsy,
    HotHand,
    Replay,
}

/// Slot of a point number (4, 5, 6, 8, 9, 10 on 0..=5).
pub open spec fn point_slot(point: int) -> usize {
    (if point <= 6 {
        point - 4
    } else {
        point - 5
    }) as usize
}

/// The ratio a stake in a slot reserves against the bankroll: its worst-case
/// payout. Line odds depend on the game's point.
pub open spec fn slot_reserve(s: BetSlot, game_point: u8) -> PayoutRatio {
    match s {
        BetSlot::PassLine | BetSlot::DontPass | BetSlot::Come(_) | BetSlot::DontCome(_) => to_one(1),
        BetSlot::PassOdds | BetSlot::DontPassOdds => true_odds_ratio(game_point as int),
        BetSlot::ComeOdds(i) | BetSlot::DontComeOdds(i) => true_odds_ratio(point_at(i as int)),
        BetSlot::Place(i) => place_ratio(point_at(i as int)),
        BetSlot::Hardway(i) => hardway_ratio(hardway_at(i as int)),
        BetSlot::Field => to_one(2),
        BetSlot::AnySeven => to_one(4),
        BetSlot::AnyCraps => to_one(7),
        BetSlot::YoEleven => to_one(15),
        BetSlot::Aces | BetSlot::Twelve => to_one(30),
        BetSlot::Yes(i) => yes_ratio(i + 2),
        BetSlot::No(i) => no_ratio(i + 2),
        BetSlot::Next(i) => next_ratio(i + 2),
        BetSlot::Fielders(i) => fielders_ratio(i as int),
        BetSlot::BonusSmall | BetSlot::BonusTall => to_one(30),
        BetSlot::BonusAll => to_one(150),
        BetSlot::FireBet => to_one(999),
        BetSlot::DiffDoubles => to_one(100),
        BetSlot::RideTheLine => to_one(150),
        BetSlot::Mugsy => to_one(3),
        BetSlot::HotHand => to_one(80),
        BetSlot::Replay => to_one(1000),
    }
}

/// The reservation ratio of a slot (see `slot_reserve`).
pub fn slot_reserve_of(s: BetSlot, game_point: u8) -> (r: PayoutRatio)
    requires
        slot_in_range(s),
    ensures
        r == slot_reserve(s, game_point),
{
    match s {
        BetSlot::PassLine | BetSlot::DontPass | BetSlot::Come(_) | BetSlot::DontCome(_) => {
            PayoutRatio { num: 1, den: 1 }
        },
        BetSlot::PassOdds | BetSlot::DontPassOdds => get_true_odds_payout(game_point),
        BetSlot::ComeOdds(i) | BetSlot::DontComeOdds(i) => {
            get_true_odds_payout(if i < 3 {
                (i + 4) as u8
            } else {
                (i + 5) as u8
            })
        },
        BetSlot::Place(i) => get_place_payout(
            if i < 3 {
                (i + 4) as u8
            } else {
                (i + 5) as u8
            },
        ),
        BetSlot::Hardway(i) => get_hardway_payout((2 * i + 4) as u8),
        BetSlot::Field => PayoutRatio { num: 2, den: 1 },
        BetSlot::AnySeven => PayoutRatio { num: 4, den: 1 },
        BetSlot::AnyCraps => PayoutRatio { num: 7, den: 1 },
        BetSlot::YoEleven => PayoutRatio { num: 15, den: 1 },
        BetSlot::Aces | BetSlot::Twelve => PayoutRatio { num: 30, den: 1 },
        BetSlot::Yes(i) => get_yes_payout((i + 2) as u8),
        BetSlot::No(i) => get_no_payout((i + 2) as u8),
        BetSlot::Next(i) => get_next_payout((i + 2) as u8),
        BetSlot::Fielders(i) => {
            if i == 1 {
                PayoutRatio { num: 2, den: 1 }
            } else {
                PayoutRatio { num: 4, den: 1 }
            }
        },
        BetSlot::BonusSmall | BetSlot::BonusTall => PayoutRatio { num: 30, den: 1 },
        BetSlot::BonusAll => PayoutRatio { num: 150, den: 1 },
        BetSlot::FireBet => PayoutRatio { num: 999, den: 1 },
        BetSlot::DiffDoubles => PayoutRatio { num: 100, den: 1 },
        BetSlot::RideTheLine => PayoutRatio { num: 150, den: 1 },
        BetSlot::Mugsy => PayoutRatio { num: 3, den: 1 },
        BetSlot::HotHand => PayoutRatio { num: 80, den: 1 },
        BetSlot::Replay => PayoutRatio { num: 1000, den: 1 },
    }
}

/// The point whose ratio sizes a new bet's reservation: the game's point for
/// line odds, else the bet's own point or sum.
pub open spec fn reserve_point(g: CrapsGame, bet_type: u8, point: u8) -> u8 {
    if bet_type == 2 || bet_type == 3 {
        g.point
    } else {
        point
    }
}

/// Where a bet of a type on a point or sum goes, given the phase and the
/// bets already on the position; `InvalidBetType` when it is not allowed.
pub open spec fn slot_for(p: CrapsPosition, g: CrapsGame, bet_type: u8, point: u8) -> Result<
    BetSlot,
    OreError,
> {
    let pt = point as int;
    if bet_type == 0 {
        if g.is_come_out {
            Ok(BetSlot::PassLine)
        } else {
            Err(OreError::InvalidBetType)
        }
    } else if bet_type == 1 {
        if g.is_come_out {
            Ok(BetSlot::DontPass)
        } else {
            Err(OreError::InvalidBetType)
        }
    } else if bet_type == 2 {
        if g.point != 0 && p.pass_line > 0 {
            Ok(BetSlot::PassOdds)
        } else {
            Err(OreError::InvalidBetType)
        }
    } else if bet_type == 3 {
        if g.point != 0 && p.dont_pass > 0 {
            Ok(BetSlot::DontPassOdds)
        } else {
            Err(OreError::InvalidBetType)
        }
    } else if 4 <= bet_type <= 8 {
        if !spec_is_point(pt) {
            Err(OreError::InvalidBetType)
        } else if bet_type == 4 {
            Ok(BetSlot::Come(point_slot(pt)))
        } else if bet_type == 5 {
            Ok(BetSlot::DontCome(point_slot(pt)))
        } else if bet_type == 6 {
            if p.come_bets@[point_slot(pt) as int] > 0 {
                Ok(BetSlot::ComeOdds(point_slot(pt)))
            } else {
                Err(OreError::InvalidBetType)
            }
        } else if bet_type == 7 {
            if p.dont_come_bets@[point_slot(pt) as int] > 0 {
                Ok(BetSlot::DontComeOdds(point_slot(pt)))
            } else {
                Err(OreError::InvalidBetType)
            }
        } else {
            Ok(BetSlot::Place(point_slot(pt)))
        }
    } else if bet_type == 9 {
        if pt == 4 || pt == 6 || pt == 8 || pt == 10 {
            Ok(BetSlot::Hardway(((pt - 4) / 2) as usize))
        } else {
            Err(OreError::InvalidBetType)
        }
    } else if bet_type == 10 {
        Ok(BetSlot::Field)
    } else if bet_type == 11 {
        Ok(BetSlot::AnySeven)
    } else if bet_type == 12 {
        Ok(BetSlot::AnyCraps)
    } else if bet_type == 13 {
        Ok(BetSlot::YoEleven)
    } else if bet_type == 14 {
        Ok(BetSlot::Aces)
    } else if bet_type == 15 {
        Ok(BetSlot::Twelve)
    } else if bet_type == 26 || bet_type == 27 {
        if spec_is_yes_no_sum(pt) {
            if bet_type == 26 {
                Ok(BetSlot::Yes((pt - 2) as usize))
            } else {
                Ok(BetSlot::No((pt - 2) as usize))
            }
        } else {
            Err(OreError::InvalidBetType)
        }
    } else if bet_type == 28 {
        if 2 <= pt <= 12 {
            Ok(BetSlot::Next((pt - 2) as usize))
        } else {
            Err(OreError::InvalidBetType)
        }
    } else {
        Err(OreError::InvalidBetType)
    }
}

/// A slot's index is inside its array.
pub open spec fn slot_in_range(s: BetSlot) -> bool {
    match s {
        BetSlot::Come(i) | BetSlot::DontCome(i) | BetSlot::ComeOdds(i) | BetSlot::DontComeOdds(i)
        | BetSlot::Place(i) => i < 6,
        BetSlot::Hardway(i) => i < 4,
        BetSlot::Yes(i) | BetSlot::No(i) | BetSlot::Next(i) => i < 11,
        BetSlot::Fielders(i) => i < 3,
        _ => true,
    }
}

/// The stake currently in a slot.
pub open spec fn slot_value(p: CrapsPosition, s: BetSlot) -> u64 {
    match s {
        BetSlot::PassLine => p.pass_line,
        BetSlot::DontPass => p.dont_pass,
        BetSlot::PassOdds => p.pass_odds,
        BetSlot::DontPassOdds => p.dont_pass_odds,
        BetSlot::Come(i) => p.come_bets@[i as int],
        BetSlot::DontCome(i) => p.dont_come_bets@[i as int],
        BetSlot::ComeOdds(i) => p.come_odds@[i as int],
        BetSlot::DontComeOdds(i) => p.dont_come_odds@[i as int],
        BetSlot::Place(i) => p.place_bets@[i as int],
        BetSlot::Hardway(i) => p.hardways@[i as int],
        BetSlot::Field => p.field_bet,
        BetSlot::AnySeven => p.any_seven,
        BetSlot::AnyCraps => p.any_craps,
        BetSlot::YoEleven => p.yo_eleven,
        BetSlot::Aces => p.aces,
        BetSlot::Twelve => p.twelve,
        BetSlot::Yes(i) => p.yes_bets@[i as int],
        BetSlot::No(i) => p.no_bets@[i as int],
        BetSlot::Next(i) => p.next_bets@[i as int],
        BetSlot::Fielders(i) => p.fielders_choice@[i as int],
        BetSlot::BonusSmall => p.bonus_small,
        BetSlot::BonusTall => p.bonus_tall,
        BetSlot::BonusAll => p.bonus_all,
        BetSlot::FireBet => p.fire_bet,
        BetSlot::DiffDoubles => p.diff_doubles_bet,
        BetSlot::RideTheLine => p.ride_the_line_bet,
        BetSlot::Mugsy => p.mugsy_bet,
        BetSlot::HotHand => p.hot_hand_bet,
        BetSlot::Replay => p.replay_bet,
    }
}

/// The position with a slot set to `v`; a place bet also turns place bets on.
pub open spec fn with_slot(p: CrapsPosition, s: BetSlot, v: u64) -> CrapsPosition {
    match s {
        BetSlot::PassLine => CrapsPosition { pass_line: v, ..p },
        BetSlot::DontPass => CrapsPosition { dont_pass: v, ..p },
        BetSlot::PassOdds => CrapsPosition { pass_odds: v, ..p },
        BetSlot::DontPassOdds => CrapsPosition { dont_pass_odds: v, ..p },
        BetSlot::Come(i) => CrapsPosition { come_bets: updated(p.come_bets, i as int, v), ..p },
        BetSlot::DontCome(i) => CrapsPosition {
            dont_come_bets: updated(p.dont_come_bets, i as int, v),
            ..p
        },
        BetSlot::ComeOdds(i) => CrapsPosition { come_odds: updated(p.come_odds, i as int, v), ..p },
        BetSlot::DontComeOdds(i) => CrapsPosition {
            dont_come_odds: updated(p.dont_come_odds, i as int, v),
            ..p
        },
        BetSlot::Place(i) => CrapsPosition {
            place_bets: updated(p.place_bets, i as int, v),
            place_working: true,
            ..p
        },
        BetSlot::Hardway(i) => CrapsPosition { hardways: updated(p.hardways, i as int, v), ..p },
        BetSlot::Field => CrapsPosition { field_bet: v, ..p },
        BetSlot::AnySeven => CrapsPosition { any_seven: v, ..p },
        BetSlot::AnyCraps => CrapsPosition { any_craps: v, ..p },
        BetSlot::YoEleven => CrapsPosition { yo_eleven: v, ..p },
        BetSlot::Aces => CrapsPosition { aces: v, ..p },
        BetSlot::Twelve => CrapsPosition { twelve: v, ..p },
        BetSlot::Yes(i) => CrapsPosition { yes_bets: updated(p.yes_bets, i as int, v), ..p },
        BetSlot::No(i) => CrapsPosition { no_bets: updated(p.no_bets, i as int, v), ..p },
        BetSlot::Next(i) => CrapsPosition { next_bets: updated(p.next_bets, i as int, v), ..p },
        BetSlot::Fielders(i) => CrapsPosition {
            fielders_choice: updated(p.fielders_choice, i as int, v),
            ..p
        },
        BetSlot::BonusSmall => CrapsPosition { bonus_small: v, ..p },
        BetSlot::BonusTall => CrapsPosition { bonus_tall: v, ..p },
        BetSlot::BonusAll => CrapsPosition { bonus_all: v, ..p },
        BetSlot::FireBet => CrapsPosition { fire_bet: v, ..p },
        BetSlot::DiffDoubles => CrapsPosition { diff_doubles_bet: v, ..p },
        BetSlot::RideTheLine => CrapsPosition { ride_the_line_bet: v, ..p },
        BetSlot::Mugsy => CrapsPosition { mugsy_bet: v, ..p },
        BetSlot::HotHand => CrapsPosition { hot_hand_bet: v, ..p },
        BetSlot::Replay => CrapsPosition { replay_bet: v, ..p },
    }
}

/// The position with a stake added to a slot; line odds also record the
/// point they are placed on.
pub open spec fn with_stake(q: CrapsPosition, s: BetSlot, v: u64, game_point: u8) -> CrapsPosition {
    let q2 = with_slot(q, s, v);
    if s == BetSlot::PassOdds || s == BetSlot::DontPassOdds {
        CrapsPosition { odds_point: game_point, ..q2 }
    } else {
        q2
    }
}

/// What a slot's reservation grows by when `amount` joins its stake `old`:
/// the reservation of the new stake less that of the old one, so that a
/// slot always holds exactly the reservation of its summed stake.
pub open spec fn added_reservation(old: u64, amount: u64, r: PayoutRatio) -> int {
    release_of((old + amount) as u64, r) - release_of(old, r)
}

/// The ledgers after admitting a bet, or the error that refuses it. A
/// position from an earlier epoch is first refunded into the current one
/// (see `refund_outcome`). The bet must be legal before the bankroll is
/// looked at.
pub open spec fn place_bet_outcome(
    g: CrapsGame,
    p: CrapsPosition,
    bet_type: u8,
    point: u8,
    amount: u64,
) -> Result<(CrapsGame, CrapsPosition), OreError> {
    let fresh = if p.epoch_id != g.epoch_id {
        refund_outcome(g, p, g.epoch_id)
    } else {
        Some((g, p))
    };
    if amount == 0 || amount > MAX_BET_AMOUNT {
        Err(OreError::InvalidBetAmount)
    } else if fresh is None {
        Err(OreError::ArithmeticOverflow)
    } else {
        let (g0, q) = fresh->Some_0;
        match slot_for(q, g0, bet_type, point) {
            Err(e) => Err(e),
            Ok(s) => {
                let old = slot_value(q, s);
                if old + amount > u64::MAX {
                    Err(OreError::ArithmeticOverflow)
                } else {
                    let reserve = added_reservation(old, amount, slot_reserve(s, g0.point));
                    if g0.reserved_payouts > g0.house_bankroll {
                        Err(OreError::InsufficientBankroll)
                    } else if reserve > g0.house_bankroll - g0.reserved_payouts {
                        Err(OreError::InsufficientBankroll)
                    } else if q.total_wagered + amount > u64::MAX || g0.reserved_payouts + reserve
                        > u64::MAX || g0.house_bankroll + amount > u64::MAX {
                        Err(OreError::ArithmeticOverflow)
                    } else {
                        let q2 = with_stake(q, s, (old + amount) as u64, g0.point);
                        Ok(
                            (
                                CrapsGame {
                                    reserved_payouts: (g0.reserved_payouts + reserve) as u64,
                                    house_bankroll: (g0.house_bankroll + amount) as u64,
                                    ..g0
                                },
                                CrapsPosition {
                                    total_wagered: (q.total_wagered + amount) as u64,
                                    ..q2
                                },
                            ),
                        )
                    }
                }
            },
        }
    }
}

/// Where a bet goes (see `slot_for`).
pub fn find_slot(p: &CrapsPosition, g: &CrapsGame, bet_type: u8, point: u8) -> (r: Result<
    BetSlot,
    OreError,
>)
    ensures
        r == slot_for(*p, *g, bet_type, point),
        r is Ok ==> slot_in_range(r->Ok_0),
{
    match bet_type {
        0 => {
            if g.is_come_out {
                Ok(BetSlot::PassLine)
            } else {
                Err(OreError::InvalidBetType)
            }
        },
        1 => {
            if g.is_come_out {
                Ok(BetSlot::DontPass)
            } else {
                Err(OreError::InvalidBetType)
            }
        },
        2 => {
            if g.point != 0 && p.pass_line > 0 {
                Ok(BetSlot::PassOdds)
            } else {
                Err(OreError::InvalidBetType)
            }
        },
        3 => {
            if g.point != 0 && p.dont_pass > 0 {
                Ok(BetSlot::DontPassOdds)
            } else {
                Err(OreError::InvalidBetType)
            }
        },
        4..=8 => {
            match point_to_index(point) {
                None => Err(OreError::InvalidBetType),
                Some(idx) => {
                    if bet_type == 4 {
                        Ok(BetSlot::Come(idx))
                    } else if bet_type == 5 {
                        Ok(BetSlot::DontCome(idx))
                    } else if bet_type == 6 {
                        if p.come_bets[idx] > 0 {
                            Ok(BetSlot::ComeOdds(idx))
                        } else {
                            Err(OreError::InvalidBetType)
                        }
                    } else if bet_type == 7 {
                        if p.dont_come_bets[idx] > 0 {
                            Ok(BetSlot::DontComeOdds(idx))
                        } else {
                            Err(OreError::InvalidBetType)
                        }
                    } else {
                        Ok(BetSlot::Place(idx))
                    }
                },
            }
        },
        9 => match hardway_to_index(point) {
            Some(idx) => Ok(BetSlot::Hardway(idx)),
            None => Err(OreError::InvalidBetType),
        },
        10 => Ok(BetSlot::Field),
        11 => Ok(BetSlot::AnySeven),
        12 => Ok(BetSlot::AnyCraps),
        13 => Ok(BetSlot::YoEleven),
        14 => Ok(BetSlot::Aces),
        15 => Ok(BetSlot::Twelve),
        26 | 27 => {
            if is_valid_yes_no_sum(point) {
                match sum_to_index(point) {
                    Some(idx) => {
                        if bet_type == 26 {
                            Ok(BetSlot::Yes(idx))
                        } else {
                            Ok(BetSlot::No(idx))
                        }
                    },
                    None => Err(OreError::InvalidBetType),
                }
            } else {
                Err(OreError::InvalidBetType)
            }
        },
        28 => match sum_to_index(point) {
            Some(idx) => Ok(BetSlot::Next(idx)),
            None => Err(OreError::InvalidBetType),
        },
        _ => Err(OreError::InvalidBetType),
    }
}

/// The stake in a slot.
pub fn read_slot(p: &CrapsPosition, s: BetSlot) -> (r: u64)
    requires
        slot_in_range(s),
    ensures
        r == slot_value(*p, s),
{
    match s {
        BetSlot::PassLine => p.pass_line,
        BetSlot::DontPass => p.dont_pass,
        BetSlot::PassOdds => p.pass_odds,
        BetSlot::DontPassOdds => p.dont_pass_odds,
        BetSlot::Come(i) => p.come_bets[i],
        BetSlot::DontCome(i) => p.dont_come_bets[i],
        BetSlot::ComeOdds(i) => p.come_odds[i],
        BetSlot::DontComeOdds(i) => p.dont_come_odds[i],
        BetSlot::Place(i) => p.place_bets[i],
        BetSlot::Hardway(i) => p.hardways[i],
        BetSlot::Field => p.field_bet,
        BetSlot::AnySeven => p.any_seven,
        BetSlot::AnyCraps => p.any_craps,
        BetSlot::YoEleven => p.yo_eleven,
        BetSlot::Aces => p.aces,
        BetSlot::Twelve => p.twelve,
        BetSlot::Yes(i) => p.yes_bets[i],
        BetSlot::No(i) => p.no_bets[i],
        BetSlot::Next(i) => p.next_bets[i],
        BetSlot::Fielders(i) => p.fielders_choice[i],
        BetSlot::BonusSmall => p.bonus_small,
        BetSlot::BonusTall => p.bonus_tall,
        BetSlot::BonusAll => p.bonus_all,
        BetSlot::FireBet => p.fire_bet,
        BetSlot::DiffDoubles => p.diff_doubles_bet,
        BetSlot::RideTheLine => p.ride_the_line_bet,
        BetSlot::Mugsy => p.mugsy_bet,
        BetSlot::HotHand => p.hot_hand_bet,
        BetSlot::Replay => p.replay_bet,
    }
}

/// Set the stake in a slot; a place bet also turns place bets on.
pub fn write_slot(p: &mut CrapsPosition, s: BetSlot, v: u64)
    requires
        slot_in_range(s),
    ensures
        *final(p) == with_slot(*old(p), s, v),
{
    match s {
        BetSlot::PassLine => p.pass_line = v,
        BetSlot::DontPass => p.dont_pass = v,
        BetSlot::PassOdds => p.pass_odds = v,
        BetSlot::DontPassOdds => p.dont_pass_odds = v,
        BetSlot::Come(i) => p.come_bets[i] = v,
        BetSlot::DontCome(i) => p.dont_come_bets[i] = v,
        BetSlot::ComeOdds(i) => p.come_odds[i] = v,
        BetSlot::DontComeOdds(i) => p.dont_come_odds[i] = v,
        BetSlot::Place(i) => {
            p.place_bets[i] = v;
            p.place_working = true;
        },
        BetSlot::Hardway(i) => p.hardways[i] = v,
        BetSlot::Field => p.field_bet = v,
        BetSlot::AnySeven => p.any_seven = v,
        BetSlot::AnyCraps => p.any_craps = v,
        BetSlot::YoEleven => p.yo_eleven = v,
        BetSlot::Aces => p.aces = v,
        BetSlot::Twelve => p.twelve = v,
        BetSlot::Yes(i) => p.yes_bets[i] = v,
        BetSlot::No(i) => p.no_bets[i] = v,
        BetSlot::Next(i) => p.next_bets[i] = v,
        BetSlot::Fielders(i) => p.fielders_choice[i] = v,
        BetSlot::BonusSmall => p.bonus_small = v,
        BetSlot::BonusTall => p.bonus_tall = v,
        BetSlot::BonusAll => p.bonus_all = v,
        BetSlot::FireBet => p.fire_bet = v,
        BetSlot::DiffDoubles => p.diff_doubles_bet = v,
        BetSlot::RideTheLine => p.ride_the_line_bet = v,
        BetSlot::Mugsy => p.mugsy_bet = v,
        BetSlot::HotHand => p.hot_hand_bet = v,
        BetSlot::Replay => p.replay_bet = v,
    }
}

/// Place a craps bet of `amount` on `bet_type` (wire code 0..=28) and
/// `point` (a point, hardway target or sum, as the type needs); see
/// `place_bet_outcome`.
///
/// Either the whole bet is admitted — the stake added to its slot and to the
/// epoch's wagered total, the slot's reservation grown to that of its new
/// stake (the worst-case payout of a bet on an empty slot), the stake added
/// to the bankroll — or nothing changes and the reason is returned. A position
/// from an earlier epoch is first brought into the current one, its stakes
/// refunded into pending winnings, their reservations released.
pub fn process_place_craps_bet(
    game: &mut CrapsGame,
    position: &mut CrapsPosition,
    bet_type: u8,
    point: u8,
    amount: u64,
) -> (r: Result<(), OreError>)
    ensures
        match place_bet_outcome(*old(game), *old(position), bet_type, point, amount) {
            Ok((g, p)) => r is Ok && *final(game) == g && *final(position) == p,
            Err(e) => r == Err::<(), OreError>(e) && *final(game) == *old(game) && *final(position)
                == *old(position),
        },
{
    if amount == 0 || amount > MAX_BET_AMOUNT {
        return Err(OreError::InvalidBetAmount);
    }
    let (mut g0, mut q) = if position.epoch_id != game.epoch_id {
        match refund_stale(game, position, game.epoch_id) {
            Some(fresh) => fresh,
            None => return Err(OreError::ArithmeticOverflow),
        }
    } else {
        (*game, *position)
    };
    let slot = find_slot(&q, &g0, bet_type, point)?;
    let current = read_slot(&q, slot);
    let new_stake = match current.checked_add(amount) {
        Some(v) => v,
        None => return Err(OreError::ArithmeticOverflow),
    };
    let ratio = slot_reserve_of(slot, g0.point);
    let before = release_amount(current, ratio);
    let after = release_amount(new_stake, ratio);
    proof {
        lemma_release_mono(current, new_stake, ratio);
    }
    let reserve = after - before;
    if g0.reserved_payouts > g0.house_bankroll {
        return Err(OreError::InsufficientBankroll);
    }
    let available = g0.house_bankroll - g0.reserved_payouts;
    if reserve > available {
        return Err(OreError::InsufficientBankroll);
    }
    let wagered = match q.total_wagered.checked_add(amount) {
        Some(v) => v,
        None => return Err(OreError::ArithmeticOverflow),
    };
    let reserved = match g0.reserved_payouts.checked_add(reserve) {
        Some(v) => v,
        None => return Err(OreError::ArithmeticOverflow),
    };
    let bankroll = match g0.house_bankroll.checked_add(amount) {
        Some(v) => v,
        None => return Err(OreError::ArithmeticOverflow),
    };
    write_slot(&mut q, slot, new_stake);
    if bet_type == 2 || bet_type == 3 {
        q.odds_point = g0.point;
    }
    q.total_wagered = wagered;
    g0.reserved_payouts = reserved;
    g0.house_bankroll = bankroll;
    *game = g0;
    *position = q;
    Ok(())
}

} // verus!
