//! Laws of the engine that relate several calls or hold of every input,
//! each proved from the contracts of the functions it speaks of.

use vstd::prelude::*;
use vstd::array::spec_array_update as updated;
use crate::bet::{
    BetSlot, slot_for, slot_value, with_slot, slot_in_range, slot_reserve, reserve_point,
    place_bet_outcome, point_slot,
};
use crate::claim::force_settle_outcome;
use crate::dice::{sum_of, spec_is_point, spec_is_field, spec_is_craps, point_at, hardway_at};
use crate::error::OreError;
use crate::game::{CrapsGame, rolled_in, phase_before, advance_game};
use crate::payout::{
    PayoutRatio, max_payout_of, reserve_ratio, release_of, return_of, payout_of, MAX_BET_AMOUNT,
    to_one, nothing, field_ratio, true_odds_ratio, lay_odds_ratio, fire_ratio, ride_ratio,
    replay_best,
};
use crate::position::{
    CrapsPosition, stake_total, seq_sum, lemma_seq_sum_nonneg, has_any_bet, count_true, seq_max,
};
use crate::settle::{
    Settlement, Family, Verdict, Roll, roll_of, slot_step, less_reserved, fold_family, come_fold,
    single_roll_family, bonus_family, diff_doubles_family, hot_hand_family, mugsy_family,
    line_family, seven_out_bets, roll_settlement, settle_commit, settle_outcome, may_settle,
    family_slot, family_len, family_verdict, family_ratio, win_or_lose, push_family,
    push_scalars, push_all, refund_outcome,
};

verus! {

// ---------------------------------------------------------------------------
// Reservations: what settlement releases is what admission reserved.
// ---------------------------------------------------------------------------

/// The ratio admission sizes a bet by is the ratio its slot releases by.
proof fn lemma_reserve_ratio_of_slot(p: CrapsPosition, g: CrapsGame, bet_type: u8, point: u8)
    requires
        slot_for(p, g, bet_type, point) is Ok,
    ensures
        reserve_ratio(bet_type, reserve_point(g, bet_type, point)) == slot_reserve(
            slot_for(p, g, bet_type, point)->Ok_0,
            g.point,
        ),
{
    let pt = point as int;
    if 4 <= bet_type <= 8 {
        assert(spec_is_point(pt));
        assert(point_at(point_slot(pt) as int) == pt);
    }
    if bet_type == 9 {
        assert(hardway_at(((pt - 4) / 2) as usize as int) == pt);
    }
}

/// Arithmetic of a table ratio on a stake within the table maximum.
proof fn lemma_small_stake(amount: u64, r: PayoutRatio)
    requires
        amount <= MAX_BET_AMOUNT,
        r.num <= 1000,
        r.den >= 1,
    ensures
        amount as int * r.num as int <= 100_000_000_000_000,
        0 <= payout_of(amount as int, r) <= amount as int * r.num as int,
{
    assert(amount as int * r.num as int <= 100_000_000_000 * 1000) by (nonlinear_arith)
        requires
            amount <= 100_000_000_000,
            r.num <= 1000,
    ;
    assert(0 <= amount as int * r.num as int) by (nonlinear_arith)
        requires
            amount >= 0,
            r.num >= 0,
    ;
    assert(amount as int * r.num as int / r.den as int <= amount as int * r.num as int) by (
    nonlinear_arith)
        requires
            amount as int * r.num as int >= 0,
            r.den >= 1,
    ;
}

/// Admission keeps each slot's reservation equal to what settling the
/// slot's summed stake releases: a bet grows the reservations by the release
/// of the slot's new stake less that of its old stake (line odds at the
/// point recorded for them). Summed over the bets of a slot this is the
/// release of the slot's whole stake. On an empty slot it is the bet's
/// worst-case payout from the payout table.
pub proof fn law_release_matches_reservation(
    p: CrapsPosition,
    g: CrapsGame,
    bet_type: u8,
    point: u8,
    amount: u64,
)
    requires
        g.wf(),
        p.epoch_id == g.epoch_id,
        place_bet_outcome(g, p, bet_type, point, amount) is Ok,
    ensures
        slot_for(p, g, bet_type, point) is Ok,
        ({
            let (g1, p1) = place_bet_outcome(g, p, bet_type, point, amount)->Ok_0;
            let slot = slot_for(p, g, bet_type, point)->Ok_0;
            let r = slot_reserve(slot, p1.odds_point);
            &&& slot_value(p1, slot) == slot_value(p, slot) + amount
            &&& g1.reserved_payouts + release_of(slot_value(p, slot), r) == g.reserved_payouts
                + release_of(slot_value(p1, slot), r)
            &&& slot_value(p, slot) == 0 ==> max_payout_of(
                bet_type,
                reserve_point(g, bet_type, point),
                amount,
            ) == Ok::<u64, OreError>(release_of(amount, r) as u64)
        }),
{
    let (g1, p1) = place_bet_outcome(g, p, bet_type, point, amount)->Ok_0;
    let slot = slot_for(p, g, bet_type, point)->Ok_0;
    assert(slot_in_range(slot));
    crate::payout::lemma_release_mono(
        slot_value(p, slot),
        (slot_value(p, slot) + amount) as u64,
        slot_reserve(slot, g.point),
    );
    assert(slot_value(p1, slot) == slot_value(p, slot) + amount);
    assert(slot_reserve(slot, p1.odds_point) == slot_reserve(slot, g.point));
    lemma_reserve_ratio_of_slot(p, g, bet_type, point);
    let r = reserve_ratio(bet_type, reserve_point(g, bet_type, point));
    assert(r.num <= 1000 && r.den >= 1);
    lemma_small_stake(amount, r);
}

/// Whenever a slot's stake resolves or is refunded (any verdict but carrying
/// it), the reservations fall by `release_of` of that stake at its slot's
/// ratio, clamped at zero: the reservation admission built up for it.
pub proof fn law_resolution_releases_reservation(
    s: Settlement,
    slot: BetSlot,
    v: Verdict,
    pay: PayoutRatio,
)
    requires
        v != Verdict::Carry,
        slot_step(Some(s), slot, v, pay) is Some,
    ensures
        slot_step(Some(s), slot, v, pay)->Some_0.game.reserved_payouts == less_reserved(
            s.game.reserved_payouts,
            release_of(slot_value(s.position, slot), slot_reserve(slot, s.position.odds_point)),
        ),
{
}

/// Admission never overcommits the bankroll: if the reservations were
/// covered by the bankroll before a bet, they still are after it.
pub proof fn law_admission_keeps_reservations_covered(
    g: CrapsGame,
    p: CrapsPosition,
    bet_type: u8,
    point: u8,
    amount: u64,
)
    requires
        g.reserved_payouts <= g.house_bankroll,
        p.epoch_id == g.epoch_id,
        place_bet_outcome(g, p, bet_type, point, amount) is Ok,
    ensures
        place_bet_outcome(g, p, bet_type, point, amount)->Ok_0.0.reserved_payouts
            <= place_bet_outcome(g, p, bet_type, point, amount)->Ok_0.0.house_bankroll,
{
    let slot = slot_for(p, g, bet_type, point)->Ok_0;
    assert(slot_for(p, g, bet_type, point) is Ok);
    let old = slot_value(p, slot);
    let r = slot_reserve(slot, g.point);
    crate::payout::lemma_release_mono(old, (old + amount) as u64, r);
}

// ---------------------------------------------------------------------------
// Settling a position leaves the game ledger alone but for releases; only
// the once-per-round phase advance moves the phase.
// ---------------------------------------------------------------------------

/// `b` follows `a` with the game ledger unchanged but for reservations,
/// which only went down, and the position's last settled round unchanged.
pub open spec fn steady(a: Settlement, b: Settlement) -> bool {
    &&& b.game == (CrapsGame { reserved_payouts: b.game.reserved_payouts, ..a.game })
    &&& b.game.reserved_payouts <= a.game.reserved_payouts
    &&& b.position.last_updated_round == a.position.last_updated_round
}

/// `o`, if the settlement did not fail, follows `a` steadily.
pub open spec fn steady_from(a: Settlement, o: Option<Settlement>) -> bool {
    o is Some ==> steady(a, o->Some_0)
}

proof fn lemma_step_steady(
    a: Settlement,
    o: Option<Settlement>,
    slot: BetSlot,
    v: Verdict,
    pay: PayoutRatio,
)
    requires
        steady_from(a, o),
    ensures
        steady_from(a, slot_step(o, slot, v, pay)),
{
}

proof fn lemma_fold_steady(a: Settlement, o: Option<Settlement>, f: Family, roll: Roll, n: int)
    requires
        steady_from(a, o),
    ensures
        steady_from(a, fold_family(o, f, roll, n)),
    decreases n,
{
    if n > 0 {
        lemma_fold_steady(a, o, f, roll, n - 1);
    }
}

proof fn lemma_push_steady(a: Settlement, o: Option<Settlement>, f: Family, n: int)
    requires
        steady_from(a, o),
    ensures
        steady_from(a, push_family(o, f, n)),
    decreases n,
{
    if n > 0 {
        lemma_push_steady(a, o, f, n - 1);
    }
}

proof fn lemma_push_all_steady(a: Settlement)
    ensures
        steady_from(a, push_all(Some(a))),
{
    let z = nothing();
    let o1 = slot_step(Some(a), BetSlot::PassLine, Verdict::Push, z);
    let o2 = slot_step(o1, BetSlot::DontPass, Verdict::Push, z);
    let o3 = slot_step(o2, BetSlot::PassOdds, Verdict::Push, z);
    let o4 = slot_step(o3, BetSlot::DontPassOdds, Verdict::Push, z);
    let o5 = slot_step(o4, BetSlot::Field, Verdict::Push, z);
    let o6 = slot_step(o5, BetSlot::AnySeven, Verdict::Push, z);
    let o7 = slot_step(o6, BetSlot::AnyCraps, Verdict::Push, z);
    let o8 = slot_step(o7, BetSlot::YoEleven, Verdict::Push, z);
    let o9 = slot_step(o8, BetSlot::Aces, Verdict::Push, z);
    let o10 = slot_step(o9, BetSlot::Twelve, Verdict::Push, z);
    let o11 = slot_step(o10, BetSlot::BonusSmall, Verdict::Push, z);
    let o12 = slot_step(o11, BetSlot::BonusTall, Verdict::Push, z);
    let o13 = slot_step(o12, BetSlot::BonusAll, Verdict::Push, z);
    let o14 = slot_step(o13, BetSlot::FireBet, Verdict::Push, z);
    let o15 = slot_step(o14, BetSlot::DiffDoubles, Verdict::Push, z);
    let o16 = slot_step(o15, BetSlot::RideTheLine, Verdict::Push, z);
    let o17 = slot_step(o16, BetSlot::Mugsy, Verdict::Push, z);
    let o18 = slot_step(o17, BetSlot::HotHand, Verdict::Push, z);
    lemma_step_steady(a, Some(a), BetSlot::PassLine, Verdict::Push, z);
    lemma_step_steady(a, o1, BetSlot::DontPass, Verdict::Push, z);
    lemma_step_steady(a, o2, BetSlot::PassOdds, Verdict::Push, z);
    lemma_step_steady(a, o3, BetSlot::DontPassOdds, Verdict::Push, z);
    lemma_step_steady(a, o4, BetSlot::Field, Verdict::Push, z);
    lemma_step_steady(a, o5, BetSlot::AnySeven, Verdict::Push, z);
    lemma_step_steady(a, o6, BetSlot::AnyCraps, Verdict::Push, z);
    lemma_step_steady(a, o7, BetSlot::YoEleven, Verdict::Push, z);
    lemma_step_steady(a, o8, BetSlot::Aces, Verdict::Push, z);
    lemma_step_steady(a, o9, BetSlot::Twelve, Verdict::Push, z);
    lemma_step_steady(a, o10, BetSlot::BonusSmall, Verdict::Push, z);
    lemma_step_steady(a, o11, BetSlot::BonusTall, Verdict::Push, z);
    lemma_step_steady(a, o12, BetSlot::BonusAll, Verdict::Push, z);
    lemma_step_steady(a, o13, BetSlot::FireBet, Verdict::Push, z);
    lemma_step_steady(a, o14, BetSlot::DiffDoubles, Verdict::Push, z);
    lemma_step_steady(a, o15, BetSlot::RideTheLine, Verdict::Push, z);
    lemma_step_steady(a, o16, BetSlot::Mugsy, Verdict::Push, z);
    lemma_step_steady(a, o17, BetSlot::HotHand, Verdict::Push, z);
    lemma_step_steady(a, o18, BetSlot::Replay, Verdict::Push, z);
    let q1 = push_scalars(Some(a));
    assert(steady_from(a, q1));
    let q2 = push_family(q1, Family::Next, 11);
    lemma_push_steady(a, q1, Family::Next, 11);
    let q3 = push_family(q2, Family::Fielders, 3);
    lemma_push_steady(a, q2, Family::Fielders, 3);
    let q4 = push_family(q3, Family::Hardway, 4);
    lemma_push_steady(a, q3, Family::Hardway, 4);
    let q5 = push_family(q4, Family::Place, 6);
    lemma_push_steady(a, q4, Family::Place, 6);
    let q6 = push_family(q5, Family::Yes, 11);
    lemma_push_steady(a, q5, Family::Yes, 11);
    let q7 = push_family(q6, Family::No, 11);
    lemma_push_steady(a, q6, Family::No, 11);
    let q8 = push_family(q7, Family::Come, 6);
    lemma_push_steady(a, q7, Family::Come, 6);
    let q9 = push_family(q8, Family::ComeOdds, 6);
    lemma_push_steady(a, q8, Family::ComeOdds, 6);
    let q10 = push_family(q9, Family::DontCome, 6);
    lemma_push_steady(a, q9, Family::DontCome, 6);
    lemma_push_steady(a, q10, Family::DontComeOdds, 6);
}

proof fn lemma_come_fold_steady(a: Settlement, o: Option<Settlement>, roll: Roll, n: int)
    requires
        steady_from(a, o),
    ensures
        steady_from(a, come_fold(o, roll, n)),
    decreases n,
{
    if n > 0 {
        lemma_come_fold_steady(a, o, roll, n - 1);
        let prev = come_fold(o, roll, n - 1);
        if prev is Some {
            let s = prev->Some_0;
            let i = n - 1;
            let u = i as usize;
            let pt = point_at(i);
            let sum = roll.sum as int;
            let come_v = if sum == pt {
                Verdict::Win
            } else if sum == 7 {
                Verdict::Lose
            } else {
                Verdict::Carry
            };
            let dont_v = if sum == 7 {
                Verdict::Win
            } else if sum == pt {
                Verdict::Lose
            } else {
                Verdict::Carry
            };
            let odds_v = if s.position.come_bets@[i] > 0 {
                come_v
            } else {
                Verdict::Carry
            };
            let dont_odds_v = if s.position.dont_come_bets@[i] > 0 {
                dont_v
            } else {
                Verdict::Carry
            };
            let o1 = slot_step(Some(s), BetSlot::ComeOdds(u), odds_v, true_odds_ratio(pt));
            let o2 = slot_step(o1, BetSlot::Come(u), come_v, to_one(1));
            let o3 = slot_step(o2, BetSlot::DontComeOdds(u), dont_odds_v, lay_odds_ratio(pt));
            lemma_step_steady(a, Some(s), BetSlot::ComeOdds(u), odds_v, true_odds_ratio(pt));
            lemma_step_steady(a, o1, BetSlot::Come(u), come_v, to_one(1));
            lemma_step_steady(a, o2, BetSlot::DontComeOdds(u), dont_odds_v, lay_odds_ratio(pt));
            lemma_step_steady(a, o3, BetSlot::DontCome(u), dont_v, to_one(1));
        }
    }
}

proof fn lemma_single_roll_steady(a: Settlement, roll: Roll)
    ensures
        steady_from(a, single_roll_family(Some(a), roll)),
{
    let s = roll.sum as int;
    let o1 = slot_step(Some(a), BetSlot::Field, win_or_lose(spec_is_field(s)), field_ratio(s));
    let o2 = slot_step(o1, BetSlot::AnySeven, win_or_lose(s == 7), to_one(4));
    let o3 = slot_step(o2, BetSlot::AnyCraps, win_or_lose(spec_is_craps(s)), to_one(7));
    let o4 = slot_step(o3, BetSlot::YoEleven, win_or_lose(s == 11), to_one(15));
    let o5 = slot_step(o4, BetSlot::Aces, win_or_lose(s == 2), to_one(30));
    let o6 = slot_step(o5, BetSlot::Twelve, win_or_lose(s == 12), to_one(30));
    let o7 = fold_family(o6, Family::Next, roll, 11);
    lemma_step_steady(a, Some(a), BetSlot::Field, win_or_lose(spec_is_field(s)), field_ratio(s));
    lemma_step_steady(a, o1, BetSlot::AnySeven, win_or_lose(s == 7), to_one(4));
    lemma_step_steady(a, o2, BetSlot::AnyCraps, win_or_lose(spec_is_craps(s)), to_one(7));
    lemma_step_steady(a, o3, BetSlot::YoEleven, win_or_lose(s == 11), to_one(15));
    lemma_step_steady(a, o4, BetSlot::Aces, win_or_lose(s == 2), to_one(30));
    lemma_step_steady(a, o5, BetSlot::Twelve, win_or_lose(s == 12), to_one(30));
    lemma_fold_steady(a, o6, Family::Next, roll, 11);
    lemma_fold_steady(a, o7, Family::Fielders, roll, 3);
}

proof fn lemma_bonus_steady(a: Settlement, o: Option<Settlement>, roll: Roll)
    requires
        steady_from(a, o),
    ensures
        steady_from(a, bonus_family(o, roll)),
{
}

proof fn lemma_doubles_steady(a: Settlement, o: Option<Settlement>, roll: Roll)
    requires
        steady_from(a, o),
    ensures
        steady_from(a, diff_doubles_family(o, roll)),
{
}

proof fn lemma_hot_steady(a: Settlement, o: Option<Settlement>, roll: Roll)
    requires
        steady_from(a, o),
    ensures
        steady_from(a, hot_hand_family(o, roll)),
{
}

proof fn lemma_mugsy_steady(a: Settlement, o: Option<Settlement>, roll: Roll)
    requires
        steady_from(a, o),
    ensures
        steady_from(a, mugsy_family(o, roll)),
{
}

proof fn lemma_seven_out_bets_steady(a: Settlement, s: Settlement, pre: CrapsGame)
    requires
        steady(a, s),
    ensures
        steady_from(a, seven_out_bets(s, pre)),
{
    let p = s.position;
    let pt = pre.point as int;
    let one = to_one(1);
    let odds = true_odds_ratio(pt);
    let a1 = slot_step(Some(s), BetSlot::PassOdds, Verdict::Lose, odds);
    lemma_step_steady(a, Some(s), BetSlot::PassOdds, Verdict::Lose, odds);
    lemma_step_steady(a, a1, BetSlot::PassLine, Verdict::Lose, one);
    let o1 = if p.pass_line > 0 {
        slot_step(a1, BetSlot::PassLine, Verdict::Lose, one)
    } else {
        Some(s)
    };
    let lay = lay_odds_ratio(pt);
    let b1 = slot_step(o1, BetSlot::DontPassOdds, Verdict::Win, lay);
    lemma_step_steady(a, o1, BetSlot::DontPassOdds, Verdict::Win, lay);
    lemma_step_steady(a, b1, BetSlot::DontPass, Verdict::Win, one);
    let o2 = if p.dont_pass > 0 {
        slot_step(b1, BetSlot::DontPass, Verdict::Win, one)
    } else {
        o1
    };
    let c = count_true(p.fire_points_made@) as int;
    let fv = win_or_lose(c >= 4);
    lemma_step_steady(a, o2, BetSlot::FireBet, fv, fire_ratio(c));
    let o3 = if p.fire_bet > 0 {
        slot_step(o2, BetSlot::FireBet, fv, fire_ratio(c))
    } else {
        o2
    };
    let w = p.ride_wins_count as int;
    let rv = win_or_lose(w >= 3);
    lemma_step_steady(a, o3, BetSlot::RideTheLine, rv, ride_ratio(w));
    let o4 = if p.ride_the_line_bet > 0 {
        slot_step(o3, BetSlot::RideTheLine, rv, ride_ratio(w))
    } else {
        o3
    };
    let m = seq_max(p.replay_counts@) as int;
    let pv = win_or_lose(m >= 3);
    let pr = to_one(replay_best(p.replay_counts@, 6));
    lemma_step_steady(a, o4, BetSlot::Replay, pv, pr);
    assert(seven_out_bets(s, pre) == if p.replay_bet > 0 {
        slot_step(o4, BetSlot::Replay, pv, pr)
    } else {
        o4
    });
}

proof fn lemma_line_steady(a: Settlement, o: Option<Settlement>, roll: Roll, pre: CrapsGame)
    requires
        steady_from(a, o),
    ensures
        steady_from(a, line_family(o, roll, pre)),
{
    if o is Some {
        let s = o->Some_0;
        let one = to_one(1);
        if pre.is_come_out {
            let w = slot_step(Some(s), BetSlot::PassLine, Verdict::Win, one);
            let l = slot_step(Some(s), BetSlot::PassLine, Verdict::Lose, one);
            lemma_step_steady(a, Some(s), BetSlot::PassLine, Verdict::Win, one);
            lemma_step_steady(a, Some(s), BetSlot::PassLine, Verdict::Lose, one);
            lemma_step_steady(a, w, BetSlot::DontPass, Verdict::Lose, one);
            lemma_step_steady(a, l, BetSlot::DontPass, Verdict::Push, one);
            lemma_step_steady(a, l, BetSlot::DontPass, Verdict::Win, one);
        } else if roll.sum == pre.point {
            let odds = true_odds_ratio(pre.point as int);
            let a1 = slot_step(Some(s), BetSlot::PassOdds, Verdict::Win, odds);
            lemma_step_steady(a, Some(s), BetSlot::PassOdds, Verdict::Win, odds);
            lemma_step_steady(a, a1, BetSlot::PassLine, Verdict::Win, one);
            let o1 = if s.position.pass_line > 0 {
                slot_step(a1, BetSlot::PassLine, Verdict::Win, one)
            } else {
                Some(s)
            };
            let b1 = slot_step(o1, BetSlot::DontPassOdds, Verdict::Lose, odds);
            lemma_step_steady(a, o1, BetSlot::DontPassOdds, Verdict::Lose, odds);
            lemma_step_steady(a, b1, BetSlot::DontPass, Verdict::Lose, one);
        } else if roll.sum == 7 {
            lemma_seven_out_bets_steady(a, s, pre);
        }
    }
}

/// Resolving a position's bets against a roll only releases reservations.
proof fn lemma_roll_steady(g: CrapsGame, p: CrapsPosition, roll: Roll, pre: CrapsGame)
    ensures
        steady_from(
            Settlement { game: g, position: p, won: 0, lost: 0, profit: 0 },
            roll_settlement(g, p, roll, pre),
        ),
{
    let a = Settlement { game: g, position: p, won: 0, lost: 0, profit: 0 };
    let o1 = single_roll_family(Some(a), roll);
    lemma_single_roll_steady(a, roll);
    let o2 = bonus_family(o1, roll);
    lemma_bonus_steady(a, o1, roll);
    let o3 = diff_doubles_family(o2, roll);
    lemma_doubles_steady(a, o2, roll);
    let o4 = hot_hand_family(o3, roll);
    lemma_hot_steady(a, o3, roll);
    let o5 = mugsy_family(o4, roll);
    lemma_mugsy_steady(a, o4, roll);
    let o6 = fold_family(o5, Family::Hardway, roll, 4);
    lemma_fold_steady(a, o5, Family::Hardway, roll, 4);
    let o7 = fold_family(o6, Family::Place, roll, 6);
    lemma_fold_steady(a, o6, Family::Place, roll, 6);
    let o8 = fold_family(o7, Family::Yes, roll, 11);
    lemma_fold_steady(a, o7, Family::Yes, roll, 11);
    let o9 = fold_family(o8, Family::No, roll, 11);
    lemma_fold_steady(a, o8, Family::No, roll, 11);
    let o10 = come_fold(o9, roll, 6);
    lemma_come_fold_steady(a, o9, roll, 6);
    lemma_line_steady(a, o10, roll, pre);
}

/// The game a settle call works on before closing: the game itself for a
/// stale position (which returns early), else the game after the round's
/// roll moved the phase.
pub open spec fn game_after_roll(g: CrapsGame, p: CrapsPosition, round_id: u64, square: int) -> CrapsGame {
    if p.epoch_id != phase_before(g, round_id).epoch_id {
        g
    } else {
        advance_game(g, roll_of(square).sum, round_id)->Some_0
    }
}

/// What a successful settle does to the game ledger: at most the
/// once-per-round phase advance, reservations only released, and a
/// bankroll and totals that only the closing step moves.
#[verifier::rlimit(40)]
proof fn lemma_settle_game(g: CrapsGame, p: CrapsPosition, round_id: u64, square: int)
    requires
        0 <= square < 36,
        settle_outcome(g, p, round_id, square) is Ok,
    ensures
        p.epoch_id == phase_before(g, round_id).epoch_id ==> advance_game(
            g,
            roll_of(square).sum,
            round_id,
        ) is Some,
        ({
            let g1 = game_after_roll(g, p, round_id, square);
            let g2 = settle_outcome(g, p, round_id, square)->Ok_0.0;
            &&& g1.reserved_payouts == g.reserved_payouts
            &&& g2.reserved_payouts <= g1.reserved_payouts
            &&& g2.epoch_id == g1.epoch_id && g2.point == g1.point && g2.is_come_out
                == g1.is_come_out
            &&& g2.epoch_start_round == g1.epoch_start_round && g2.has_rolled == g1.has_rolled
            &&& g2.rolled_round == g1.rolled_round && g2.prior_epoch_id == g1.prior_epoch_id
            &&& g2.prior_point == g1.prior_point && g2.prior_come_out == g1.prior_come_out
        }),
{
    let roll = roll_of(square);
    let pre = phase_before(g, round_id);
    if p.epoch_id != pre.epoch_id {
        reveal(refund_outcome);
        lemma_push_all_steady(Settlement { game: g, position: p, won: 0, lost: 0, profit: 0 });
    } else {
        let g1 = advance_game(g, roll.sum, round_id)->Some_0;
        if has_any_bet(p) {
            lemma_roll_steady(g1, p, roll, pre);
            let t = roll_settlement(g1, p, roll, pre)->Some_0;
            assert(settle_commit(t, round_id) is Ok);
        }
    }
}

/// Settlement only releases reservations: they never grow, and a release
/// larger than what is reserved clamps at zero instead of wrapping.
pub proof fn law_settle_only_releases(g: CrapsGame, p: CrapsPosition, round_id: u64, square: int)
    requires
        0 <= square < 36,
        settle_outcome(g, p, round_id, square) is Ok,
    ensures
        settle_outcome(g, p, round_id, square)->Ok_0.0.reserved_payouts <= g.reserved_payouts,
{
    lemma_settle_game(g, p, round_id, square);
}

/// Settling a second time in the same round is refused with
/// `AlreadySettled`, whatever the square and in every round, round 0
/// included; the refusal changes nothing (see `process_settle_craps`).
pub proof fn law_settle_twice_is_refused(
    g: CrapsGame,
    p: CrapsPosition,
    round_id: u64,
    square: int,
    again: int,
)
    requires
        0 <= square < 36,
        settle_outcome(g, p, round_id, square) is Ok,
    ensures
        ({
            let (g2, p2) = settle_outcome(g, p, round_id, square)->Ok_0;
            settle_outcome(g2, p2, round_id, again) == Err::<(CrapsGame, CrapsPosition), OreError>(
                OreError::AlreadySettled,
            )
        }),
{
    let roll = roll_of(square);
    let pre = phase_before(g, round_id);
    let g1 = advance_game(g, roll.sum, round_id)->Some_0;
    if p.epoch_id == pre.epoch_id && has_any_bet(p) {
        let s = roll_settlement(g1, p, roll, pre)->Some_0;
        assert(settle_commit(s, round_id) is Ok);
    }
}

/// A seven-out (a 7 in the point phase) advances the epoch by exactly one,
/// returns the game to the come-out with no point, and moves the settling
/// position into the new epoch, whatever bets it holds, none included. The
/// phase takes each round's roll once, from the first settlement of the
/// round by a position of the current epoch.
pub proof fn law_seven_out_starts_next_epoch(
    g: CrapsGame,
    p: CrapsPosition,
    round_id: u64,
    square: int,
)
    requires
        g.wf(),
        !g.is_come_out,
        !rolled_in(g, round_id),
        p.epoch_id == g.epoch_id,
        0 <= square < 36,
        sum_of(square) == 7,
        settle_outcome(g, p, round_id, square) is Ok,
    ensures
        ({
            let (g2, p2) = settle_outcome(g, p, round_id, square)->Ok_0;
            &&& g2.epoch_id == g.epoch_id + 1 && g2.point == 0 && g2.is_come_out
            &&& p2.epoch_id == g2.epoch_id
        }),
{
    lemma_settle_game(g, p, round_id, square);
    let roll = roll_of(square);
    let g1 = advance_game(g, roll.sum, round_id)->Some_0;
    if has_any_bet(p) {
        let t = roll_settlement(g1, p, roll, g)->Some_0;
        assert(t.position.epoch_id == g.epoch_id + 1);
        assert(settle_commit(t, round_id) is Ok);
    }
}

/// The phase moves once per round: once a position of the roll's epoch has
/// settled the round, a later settlement in the same round, by any position
/// and with any square, leaves the phase where the first one put it, and
/// still sees the same pre-roll phase. So positions of one round may be
/// settled in any order.
pub proof fn law_phase_moves_once_per_round(
    g: CrapsGame,
    p: CrapsPosition,
    q: CrapsPosition,
    round_id: u64,
    square: int,
    again: int,
)
    requires
        0 <= square < 36,
        0 <= again < 36,
        p.epoch_id == phase_before(g, round_id).epoch_id,
        settle_outcome(g, p, round_id, square) is Ok,
        settle_outcome(settle_outcome(g, p, round_id, square)->Ok_0.0, q, round_id, again) is Ok,
    ensures
        ({
            let g2 = settle_outcome(g, p, round_id, square)->Ok_0.0;
            let g3 = settle_outcome(g2, q, round_id, again)->Ok_0.0;
            &&& g3.epoch_id == g2.epoch_id && g3.point == g2.point
            &&& g3.is_come_out == g2.is_come_out
            &&& phase_before(g3, round_id).epoch_id == phase_before(g, round_id).epoch_id
            &&& phase_before(g3, round_id).point == phase_before(g, round_id).point
            &&& phase_before(g3, round_id).is_come_out == phase_before(g, round_id).is_come_out
        }),
{
    lemma_settle_game(g, p, round_id, square);
    let g2 = settle_outcome(g, p, round_id, square)->Ok_0.0;
    lemma_settle_game(g2, q, round_id, again);
}

/// Under insolvency (a net profit larger than the bankroll) the player's
/// pending winnings and unpaid debt together grow by the full winnings, and
/// the bankroll is driven to exactly zero.
pub proof fn law_insolvency_records_debt(s: Settlement, round_id: u64)
    requires
        s.profit > s.lost,
        (s.game.house_bankroll as int) < s.profit - s.lost,
        settle_commit(s, round_id) is Ok,
    ensures
        ({
            let (g2, p2) = settle_commit(s, round_id)->Ok_0;
            &&& p2.pending_winnings + p2.unpaid_debt == s.position.pending_winnings
                + s.position.unpaid_debt + s.won
            &&& g2.house_bankroll == 0
        }),
{
}

// ---------------------------------------------------------------------------
// Empty slots: resolving a stake of zero changes nothing.
// ---------------------------------------------------------------------------

/// Stakes that sum to zero are all zero.
pub proof fn lemma_seq_sum_zero(s: Seq<u64>)
    requires
        seq_sum(s) == 0,
    ensures
        forall|i: int| 0 <= i < s.len() ==> s[i] == 0,
    decreases s.len(),
{
    if s.len() > 0 {
        lemma_seq_sum_nonneg(s.drop_last());
        lemma_seq_sum_zero(s.drop_last());
        assert forall|i: int| 0 <= i < s.len() implies s[i] == 0 by {
            if i < s.len() - 1 {
                assert(s.drop_last()[i] == s[i]);
            }
        }
    }
}

/// Every stake but the two line bets is zero.
pub open spec fn only_line_bets(p: CrapsPosition) -> bool {
    &&& p.field_bet == 0 && p.any_seven == 0 && p.any_craps == 0 && p.yo_eleven == 0
    &&& p.aces == 0 && p.twelve == 0
    &&& p.bonus_small == 0 && p.bonus_tall == 0 && p.bonus_all == 0
    &&& p.fire_bet == 0 && p.diff_doubles_bet == 0 && p.ride_the_line_bet == 0
    &&& p.mugsy_bet == 0 && p.hot_hand_bet == 0 && p.replay_bet == 0
    &&& p.pass_odds == 0 && p.dont_pass_odds == 0
    &&& forall|i: int| 0 <= i < 11 ==> p.next_bets@[i] == 0
    &&& forall|i: int| 0 <= i < 3 ==> p.fielders_choice@[i] == 0
    &&& forall|i: int| 0 <= i < 4 ==> p.hardways@[i] == 0
    &&& forall|i: int| 0 <= i < 6 ==> p.place_bets@[i] == 0
    &&& forall|i: int| 0 <= i < 11 ==> p.yes_bets@[i] == 0
    &&& forall|i: int| 0 <= i < 11 ==> p.no_bets@[i] == 0
    &&& forall|i: int| 0 <= i < 6 ==> p.come_bets@[i] == 0
    &&& forall|i: int| 0 <= i < 6 ==> p.come_odds@[i] == 0
    &&& forall|i: int| 0 <= i < 6 ==> p.dont_come_bets@[i] == 0
    &&& forall|i: int| 0 <= i < 6 ==> p.dont_come_odds@[i] == 0
}

proof fn lemma_no_stakes(p: CrapsPosition)
    requires
        stake_total(p) == 0,
    ensures
        only_line_bets(p),
        p.pass_line == 0 && p.dont_pass == 0,
{
    lemma_seq_sum_nonneg(p.fielders_choice@);
    lemma_seq_sum_nonneg(p.come_bets@);
    lemma_seq_sum_nonneg(p.come_odds@);
    lemma_seq_sum_nonneg(p.dont_come_bets@);
    lemma_seq_sum_nonneg(p.dont_come_odds@);
    lemma_seq_sum_nonneg(p.place_bets@);
    lemma_seq_sum_nonneg(p.hardways@);
    lemma_seq_sum_nonneg(p.yes_bets@);
    lemma_seq_sum_nonneg(p.no_bets@);
    lemma_seq_sum_nonneg(p.next_bets@);
    lemma_seq_sum_zero(p.fielders_choice@);
    lemma_seq_sum_zero(p.come_bets@);
    lemma_seq_sum_zero(p.come_odds@);
    lemma_seq_sum_zero(p.dont_come_bets@);
    lemma_seq_sum_zero(p.dont_come_odds@);
    lemma_seq_sum_zero(p.place_bets@);
    lemma_seq_sum_zero(p.hardways@);
    lemma_seq_sum_zero(p.yes_bets@);
    lemma_seq_sum_zero(p.no_bets@);
    lemma_seq_sum_zero(p.next_bets@);
}

/// Emptying an empty slot leaves the position as it is (a place slot also
/// needs place bets already working).
proof fn lemma_with_zero(p: CrapsPosition, slot: BetSlot)
    requires
        slot_in_range(slot),
        slot_value(p, slot) == 0,
        slot is Place ==> p.place_working,
    ensures
        with_slot(p, slot, 0) == p,
{
    match slot {
        BetSlot::Come(i) => assert(updated(p.come_bets, i as int, 0) =~= p.come_bets),
        BetSlot::DontCome(i) => assert(updated(p.dont_come_bets, i as int, 0) =~= p.dont_come_bets),
        BetSlot::ComeOdds(i) => assert(updated(p.come_odds, i as int, 0) =~= p.come_odds),
        BetSlot::DontComeOdds(i) => {
            assert(updated(p.dont_come_odds, i as int, 0) =~= p.dont_come_odds)
        },
        BetSlot::Place(i) => assert(updated(p.place_bets, i as int, 0) =~= p.place_bets),
        BetSlot::Hardway(i) => assert(updated(p.hardways, i as int, 0) =~= p.hardways),
        BetSlot::Yes(i) => assert(updated(p.yes_bets, i as int, 0) =~= p.yes_bets),
        BetSlot::No(i) => assert(updated(p.no_bets, i as int, 0) =~= p.no_bets),
        BetSlot::Next(i) => assert(updated(p.next_bets, i as int, 0) =~= p.next_bets),
        BetSlot::Fielders(i) => {
            assert(updated(p.fielders_choice, i as int, 0) =~= p.fielders_choice)
        },
        _ => {},
    }
}

/// Resolving an empty slot changes nothing.
proof fn lemma_zero_step(s: Settlement, slot: BetSlot, v: Verdict, pay: PayoutRatio)
    requires
        slot_in_range(slot),
        slot_value(s.position, slot) == 0,
        pay.den >= 1,
        (slot is Place && v != Verdict::Carry) ==> s.position.place_working,
    ensures
        slot_step(Some(s), slot, v, pay) == Some(s),
{
    if v != Verdict::Carry {
        lemma_with_zero(s.position, slot);
        assert(return_of(0, pay) == 0);
    }
}

proof fn lemma_fold_zero(s: Settlement, f: Family, roll: Roll, n: int)
    requires
        0 <= n <= family_len(f),
        forall|i: int|
            0 <= i < family_len(f) ==> slot_value(s.position, #[trigger] family_slot(f, i)) == 0,
    ensures
        fold_family(Some(s), f, roll, n) == Some(s),
    decreases n,
{
    if n > 0 {
        lemma_fold_zero(s, f, roll, n - 1);
        let i = n - 1;
        assert(slot_value(s.position, family_slot(f, i)) == 0);
        assert(family_ratio(f, i).den >= 1);
        lemma_zero_step(
            s,
            family_slot(f, i),
            family_verdict(f, i, roll, s.position.place_working),
            family_ratio(f, i),
        );
    }
}

proof fn lemma_come_fold_zero(s: Settlement, roll: Roll, n: int)
    requires
        0 <= n <= 6,
        only_line_bets(s.position),
    ensures
        come_fold(Some(s), roll, n) == Some(s),
    decreases n,
{
    if n > 0 {
        lemma_come_fold_zero(s, roll, n - 1);
        let i = n - 1;
        let u = i as usize;
        let pt = point_at(i);
        let sum = roll.sum as int;
        let come_v = if sum == pt {
            Verdict::Win
        } else if sum == 7 {
            Verdict::Lose
        } else {
            Verdict::Carry
        };
        let dont_v = if sum == 7 {
            Verdict::Win
        } else if sum == pt {
            Verdict::Lose
        } else {
            Verdict::Carry
        };
        lemma_zero_step(s, BetSlot::ComeOdds(u), Verdict::Carry, true_odds_ratio(pt));
        lemma_zero_step(s, BetSlot::Come(u), come_v, to_one(1));
        lemma_zero_step(s, BetSlot::DontComeOdds(u), Verdict::Carry, lay_odds_ratio(pt));
        lemma_zero_step(s, BetSlot::DontCome(u), dont_v, to_one(1));
    }
}

/// With only line bets on the position, every family before the line bets
/// leaves the settlement as it is.
proof fn lemma_quiet_before_line(g: CrapsGame, p: CrapsPosition, roll: Roll)
    requires
        only_line_bets(p),
    ensures
        forall|pre: CrapsGame|
            roll_settlement(g, p, roll, pre) == line_family(
                Some(Settlement { game: g, position: p, won: 0, lost: 0, profit: 0 }),
                roll,
                pre,
            ),
{
    let a = Settlement { game: g, position: p, won: 0, lost: 0, profit: 0 };
    let s = roll.sum as int;
    lemma_zero_step(a, BetSlot::Field, win_or_lose(spec_is_field(s)), field_ratio(s));
    lemma_zero_step(a, BetSlot::AnySeven, win_or_lose(s == 7), to_one(4));
    lemma_zero_step(a, BetSlot::AnyCraps, win_or_lose(spec_is_craps(s)), to_one(7));
    lemma_zero_step(a, BetSlot::YoEleven, win_or_lose(s == 11), to_one(15));
    lemma_zero_step(a, BetSlot::Aces, win_or_lose(s == 2), to_one(30));
    lemma_zero_step(a, BetSlot::Twelve, win_or_lose(s == 12), to_one(30));
    assert forall|i: int|
        0 <= i < family_len(Family::Next)
        implies slot_value(a.position, #[trigger] family_slot(Family::Next, i)) == 0 by {}
    assert forall|i: int|
        0 <= i < family_len(Family::Fielders)
        implies slot_value(a.position, #[trigger] family_slot(Family::Fielders, i)) == 0 by {}
    assert forall|i: int|
        0 <= i < family_len(Family::Hardway)
        implies slot_value(a.position, #[trigger] family_slot(Family::Hardway, i)) == 0 by {}
    assert forall|i: int|
        0 <= i < family_len(Family::Place)
        implies slot_value(a.position, #[trigger] family_slot(Family::Place, i)) == 0 by {}
    assert forall|i: int|
        0 <= i < family_len(Family::Yes)
        implies slot_value(a.position, #[trigger] family_slot(Family::Yes, i)) == 0 by {}
    assert forall|i: int|
        0 <= i < family_len(Family::No)
        implies slot_value(a.position, #[trigger] family_slot(Family::No, i)) == 0 by {}
    lemma_fold_zero(a, Family::Next, roll, 11);
    lemma_fold_zero(a, Family::Fielders, roll, 3);
    assert(single_roll_family(Some(a), roll) == Some(a));
    assert(bonus_family(Some(a), roll) == Some(a));
    assert(diff_doubles_family(Some(a), roll) == Some(a));
    assert(hot_hand_family(Some(a), roll) == Some(a));
    assert(mugsy_family(Some(a), roll) == Some(a));
    lemma_fold_zero(a, Family::Hardway, roll, 4);
    lemma_fold_zero(a, Family::Place, roll, 6);
    lemma_fold_zero(a, Family::Yes, roll, 11);
    lemma_fold_zero(a, Family::No, roll, 11);
    lemma_come_fold_zero(a, roll, 6);
}

/// Admitting a pass-line bet on a position with no stakes.
proof fn lemma_admit_pass_line(g: CrapsGame, p: CrapsPosition, point: u8, stake: u64)
    requires
        p.epoch_id == g.epoch_id,
        stake_total(p) == 0,
        place_bet_outcome(g, p, 0, point, stake) is Ok,
    ensures
        ({
            let (g1, p1) = place_bet_outcome(g, p, 0, point, stake)->Ok_0;
            &&& g1.reserved_payouts == g.reserved_payouts + 2 * stake
            &&& g1.house_bankroll == g.house_bankroll + stake
            &&& g1 == (CrapsGame {
                reserved_payouts: g1.reserved_payouts,
                house_bankroll: g1.house_bankroll,
                ..g
            })
            &&& p1.pass_line == stake && stake > 0 && p1.dont_pass == 0
            &&& only_line_bets(p1)
            &&& p1.pending_winnings == p.pending_winnings
            &&& p1.epoch_id == p.epoch_id
        }),
{
    lemma_no_stakes(p);
    crate::payout::lemma_release_mono(0, stake, to_one(1));
    assert(stake <= MAX_BET_AMOUNT);
    assert(release_of(stake, to_one(1)) == 2 * stake);
}

/// Settling a come-out 7 on a position holding only a pass-line bet.
#[verifier::rlimit(60)]
proof fn lemma_settle_pass_line(
    g1: CrapsGame,
    p1: CrapsPosition,
    stake: u64,
    round_id: u64,
    square: int,
)
    requires
        g1.is_come_out,
        !rolled_in(g1, round_id),
        p1.epoch_id == g1.epoch_id,
        only_line_bets(p1),
        p1.pass_line == stake && stake > 0 && p1.dont_pass == 0,
        g1.reserved_payouts >= 2 * stake,
        g1.house_bankroll >= stake,
        0 <= square < 36,
        sum_of(square) == 7,
        settle_outcome(g1, p1, round_id, square) is Ok,
    ensures
        ({
            let (g2, p2) = settle_outcome(g1, p1, round_id, square)->Ok_0;
            &&& p2.pending_winnings == p1.pending_winnings + 2 * stake
            &&& g2.reserved_payouts == g1.reserved_payouts - 2 * stake
        }),
{
    assert(has_any_bet(p1));
    let roll = roll_of(square);
    let pre = phase_before(g1, round_id);
    assert(pre == g1);
    lemma_quiet_before_line(advance_game(g1, roll.sum, round_id)->Some_0, p1, roll);
    let g2 = advance_game(g1, roll.sum, round_id)->Some_0;
    let a = Settlement { game: g2, position: p1, won: 0, lost: 0, profit: 0 };
    let w = slot_step(Some(a), BetSlot::PassLine, Verdict::Win, to_one(1));
    assert(w is Some);
    let b = w->Some_0;
    assert(b.position.dont_pass == 0);
    lemma_zero_step(b, BetSlot::DontPass, Verdict::Lose, to_one(1));
}

/// A pass-line bet of `stake` placed on the come-out, with no other bet on
/// the position, followed by a 7 in a fresh round: pending winnings grow by
/// exactly twice the stake, and the reservation the bet added (twice the
/// stake) is released.
pub proof fn law_pass_line_then_seven(
    g: CrapsGame,
    p: CrapsPosition,
    point: u8,
    stake: u64,
    round_id: u64,
    square: int,
)
    requires
        g.is_come_out,
        p.epoch_id == g.epoch_id,
        stake_total(p) == 0,
        place_bet_outcome(g, p, 0, point, stake) is Ok,
        0 <= square < 36,
        sum_of(square) == 7,
        !rolled_in(g, round_id),
        settle_outcome(
            place_bet_outcome(g, p, 0, point, stake)->Ok_0.0,
            place_bet_outcome(g, p, 0, point, stake)->Ok_0.1,
            round_id,
            square,
        ) is Ok,
    ensures
        ({
            let (g1, p1) = place_bet_outcome(g, p, 0, point, stake)->Ok_0;
            let (g2, p2) = settle_outcome(g1, p1, round_id, square)->Ok_0;
            &&& g1.reserved_payouts == g.reserved_payouts + 2 * stake
            &&& p2.pending_winnings == p.pending_winnings + 2 * stake
            &&& g2.reserved_payouts == g1.reserved_payouts - 2 * stake
        }),
{
    lemma_admit_pass_line(g, p, point, stake);
    let (g1, p1) = place_bet_outcome(g, p, 0, point, stake)->Ok_0;
    lemma_settle_pass_line(g1, p1, stake, round_id, square);
}

// ---------------------------------------------------------------------------
// Rounds: a position's last settled round never moves back.
// ---------------------------------------------------------------------------

/// Settling never moves a position's last settled round back.
#[verifier::rlimit(60)]
pub proof fn law_settled_round_never_decreases(
    g: CrapsGame,
    p: CrapsPosition,
    round_id: u64,
    square: int,
)
    requires
        settle_outcome(g, p, round_id, square) is Ok,
    ensures
        settle_outcome(g, p, round_id, square)->Ok_0.1.last_updated_round >= p.last_updated_round,
{
    let roll = roll_of(square);
    let pre = phase_before(g, round_id);
    if may_settle(p, round_id) && advance_game(g, roll.sum, round_id) is Some {
        let g1 = advance_game(g, roll.sum, round_id)->Some_0;
        if p.epoch_id == pre.epoch_id && has_any_bet(p) {
            lemma_roll_steady(g1, p, roll, pre);
            let s = roll_settlement(g1, p, roll, pre)->Some_0;
            assert(settle_commit(s, round_id) is Ok);
        }
    }
}

/// Force-settling never moves a position's last settled round back.
pub proof fn law_force_settle_keeps_round_order(
    g: CrapsGame,
    p: CrapsPosition,
    round_id: u64,
    expires_at: u64,
    now: u64,
)
    requires
        force_settle_outcome(g, p, round_id, expires_at, now) is Ok,
    ensures
        force_settle_outcome(g, p, round_id, expires_at, now)->Ok_0.1.last_updated_round
            >= p.last_updated_round,
{
}

// ---------------------------------------------------------------------------
// Different doubles.
// ---------------------------------------------------------------------------

/// A different-doubles bet that has seen exactly three unique doubles pays
/// 4:1 on the next 7: its stake and four times it join the winnings, its
/// 100:1 reservation is released (clamped at zero), and the bet and its
/// tracker are cleared.
pub proof fn law_different_doubles_three_pay_four_to_one(s: Settlement, roll: Roll)
    requires
        s.position.diff_doubles_bet > 0,
        count_true(s.position.diff_doubles_hits@) == 3,
        roll.sum == 7,
        diff_doubles_family(Some(s), roll) is Some,
    ensures
        ({
            let t = diff_doubles_family(Some(s), roll)->Some_0;
            let stake = s.position.diff_doubles_bet;
            &&& t.won == s.won + 5 * stake
            &&& t.profit == s.profit + 4 * stake
            &&& t.lost == s.lost
            &&& t.game.reserved_payouts == less_reserved(
                s.game.reserved_payouts,
                release_of(stake, to_one(100)),
            )
            &&& t.position.diff_doubles_bet == 0
            &&& count_true(t.position.diff_doubles_hits@) == 0
        }),
{
    let t = diff_doubles_family(Some(s), roll)->Some_0;
    assert(t.position.diff_doubles_hits@ =~= Seq::new(6, |i: int| false));
    reveal_with_fuel(count_true, 7);
}

} // verus!
