//! Claims and recovery: paying out pending winnings, paying down debt
//! recorded during insolvency, force-settling expired positions, and
//! funding the house.

use vstd::prelude::*;
use crate::error::OreError;
use crate::game::CrapsGame;
use crate::position::{CrapsPosition, stake_total, has_any_bet, without_bets, later_round};

verus! {

/// Claim a player's pending winnings. They were already taken from the
/// bankroll when they were won, so the claim touches only the position:
/// it fails exactly when nothing is pending; otherwise it zeroes the
/// pending winnings and returns their amount, to be transferred.
pub fn process_claim_craps_winnings(position: &mut CrapsPosition) -> (r: Result<u64, OreError>)
    ensures
        old(position).pending_winnings == 0 ==> r == Err::<u64, OreError>(
            OreError::InvalidArgument,
        ) && *final(position) == *old(position),
        old(position).pending_winnings > 0 ==> r == Ok::<u64, OreError>(
            old(position).pending_winnings,
        ) && *final(position) == (CrapsPosition { pending_winnings: 0, ..*old(position) }),
{
    let amount = position.pending_winnings;
    if amount == 0 {
        return Err(OreError::InvalidArgument);
    }
    position.pending_winnings = 0;
    Ok(amount)
}

/// What a debt claim pays: the debt, or the whole bankroll when that is less.
pub open spec fn debt_payable(g: CrapsGame, p: CrapsPosition) -> u64 {
    if g.house_bankroll >= p.unpaid_debt {
        p.unpaid_debt
    } else {
        g.house_bankroll
    }
}

/// Claim unpaid debt: pays `min(unpaid_debt, bankroll)`, taking it from both
/// and counting it as paid out. An empty bankroll or no debt pays nothing and
/// still succeeds, so the claim can be retried once the house is funded.
/// Returns the amount to transfer to the player.
pub fn process_claim_craps_debt(game: &mut CrapsGame, position: &mut CrapsPosition) -> (r: Result<
    u64,
    OreError,
>)
    ensures
        old(game).total_payouts + debt_payable(*old(game), *old(position)) > u64::MAX ==> r
            == Err::<u64, OreError>(OreError::ArithmeticOverflow) && *final(game) == *old(game)
            && *final(position) == *old(position),
        old(game).total_payouts + debt_payable(*old(game), *old(position)) <= u64::MAX ==> {
            let a = debt_payable(*old(game), *old(position));
            &&& r == Ok::<u64, OreError>(a)
            &&& *final(game) == (CrapsGame {
                house_bankroll: (old(game).house_bankroll - a) as u64,
                total_payouts: (old(game).total_payouts + a) as u64,
                ..*old(game)
            })
            &&& *final(position) == (CrapsPosition {
                unpaid_debt: (old(position).unpaid_debt - a) as u64,
                ..*old(position)
            })
        },
{
    let debt = position.unpaid_debt;
    let amount = if game.house_bankroll >= debt {
        debt
    } else {
        game.house_bankroll
    };
    let payouts = match game.total_payouts.checked_add(amount) {
        Some(v) => v,
        None => return Err(OreError::ArithmeticOverflow),
    };
    game.house_bankroll = game.house_bankroll - amount;
    position.unpaid_debt = position.unpaid_debt - amount;
    game.total_payouts = payouts;
    Ok(amount)
}

/// `a + b`, saturating at `u64::MAX`.
pub open spec fn sat_add(a: int, b: int) -> u64 {
    if a + b > u64::MAX {
        u64::MAX
    } else {
        (a + b) as u64
    }
}

/// `a - b`, saturating at zero.
pub open spec fn sat_sub(a: int, b: int) -> u64 {
    if a - b < 0 {
        0
    } else {
        (a - b) as u64
    }
}

/// Every stake of a position, saturating at `u64::MAX`.
pub open spec fn forfeit_of(p: CrapsPosition) -> u64 {
    sat_add(stake_total(p), 0)
}

/// The ledgers after a force-settlement at slot `now` of a round that
/// expires at `expires_at`, with the amount forfeited.
pub open spec fn force_settle_outcome(
    g: CrapsGame,
    p: CrapsPosition,
    round_id: u64,
    expires_at: u64,
    now: u64,
) -> Result<(CrapsGame, CrapsPosition, u64), OreError> {
    if now <= expires_at {
        Err(OreError::RoundNotExpired)
    } else if !has_any_bet(p) {
        Ok((g, p, 0))
    } else {
        let f = forfeit_of(p);
        Ok(
            (
                CrapsGame {
                    reserved_payouts: sat_sub(g.reserved_payouts as int, sat_add(f as int, f as int) as int),
                    total_collected: sat_add(g.total_collected as int, f as int),
                    ..g
                },
                CrapsPosition {
                    total_lost: sat_add(p.total_lost as int, f as int),
                    last_updated_round: later_round(p.last_updated_round, round_id),
                    ever_settled: true,
                    ..without_bets(p)
                },
                f,
            ),
        )
    }
}

/// Force-settle a position that was not settled before its round expired;
/// anyone may call it. Every outstanding stake is forfeited to the house,
/// and twice the forfeited amount is released from the reservations (an
/// approximation of what those bets reserved), so that an abandoned position
/// cannot hold bankroll capacity forever. Returns the amount forfeited.
pub fn process_force_settle_craps(
    game: &mut CrapsGame,
    position: &mut CrapsPosition,
    round_id: u64,
    expires_at: u64,
    now: u64,
) -> (r: Result<u64, OreError>)
    ensures
        match force_settle_outcome(*old(game), *old(position), round_id, expires_at, now) {
            Ok((g, p, f)) => r == Ok::<u64, OreError>(f) && *final(game) == g && *final(position)
                == p,
            Err(e) => r == Err::<u64, OreError>(e) && *final(game) == *old(game)
                && *final(position) == *old(position),
        },
{
    if now <= expires_at {
        return Err(OreError::RoundNotExpired);
    }
    if !position.has_any_bets() {
        return Ok(0);
    }
    let forfeited = match position.checked_total_stakes() {
        Some(t) => t,
        None => u64::MAX,
    };
    position.clear_all_bets();
    position.total_lost = position.total_lost.saturating_add(forfeited);
    if round_id > position.last_updated_round {
        position.last_updated_round = round_id;
    }
    position.ever_settled = true;
    let release = forfeited.saturating_add(forfeited);
    game.reserved_payouts = game.reserved_payouts.saturating_sub(release);
    game.total_collected = game.total_collected.saturating_add(forfeited);
    Ok(forfeited)
}

/// Fund the house: adds `amount` to the bankroll. Fails on a zero amount or
/// on overflow, changing nothing.
pub fn process_fund_craps_house(game: &mut CrapsGame, amount: u64) -> (r: Result<(), OreError>)
    ensures
        amount == 0 ==> r == Err::<(), OreError>(OreError::InvalidArgument) && *final(game)
            == *old(game),
        amount > 0 && old(game).house_bankroll + amount > u64::MAX ==> r == Err::<(), OreError>(
            OreError::ArithmeticOverflow,
        ) && *final(game) == *old(game),
        amount > 0 && old(game).house_bankroll + amount <= u64::MAX ==> r is Ok && *final(game)
            == (CrapsGame {
                house_bankroll: (old(game).house_bankroll + amount) as u64,
                ..*old(game)
            }),
{
    if amount == 0 {
        return Err(OreError::InvalidArgument);
    }
    match game.house_bankroll.checked_add(amount) {
        Some(v) => {
            game.house_bankroll = v;
            Ok(())
        },
        None => Err(OreError::ArithmeticOverflow),
    }
}

} // verus!
