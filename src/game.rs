//! The game ledger: the one shared record of epoch, point, phase and the
//! house bankroll with its reservations and lifetime totals.

use vstd::prelude::*;
use crate::dice::spec_is_point;

verus! {

/// Global craps game state.
#[derive(Debug, Clone, Copy, PartialEq, Eq, Structural)]
pub struct CrapsGame {
    /// The current epoch (one shooter's turn); it ends when a 7 is rolled
    /// in the point phase.
    pub epoch_id: u64,
    /// The current point: 0 in the come-out phase, else 4/5/6/8/9/10.
    pub point: u8,
    /// Whether the game is in the come-out phase.
    pub is_come_out: bool,
    /// The round in which this epoch started.
    pub epoch_start_round: u64,
    /// The house bankroll available for fixed-odds payouts.
    pub house_bankroll: u64,
    /// Total paid out in winnings.
    pub total_payouts: u64,
    /// Total collected from losing bets.
    pub total_collected: u64,
    /// Worst-case payouts reserved for pending bets.
    pub reserved_payouts: u64,
    /// Whether any roll has moved the phase yet.
    pub has_rolled: bool,
    /// The round whose roll last moved the phase.
    pub rolled_round: u64,
    /// The epoch before that roll.
    pub prior_epoch_id: u64,
    /// The point before that roll.
    pub prior_point: u8,
    /// The come-out flag before that roll.
    pub prior_come_out: bool,
}

impl CrapsGame {
    /// Phase invariant: no point exactly in the come-out phase, and a point
    /// is always a point number.
    pub open spec fn wf(&self) -> bool {
        (self.point == 0 <==> self.is_come_out) && (self.point == 0 || spec_is_point(
            self.point as int,
        ))
    }

    /// A fresh game: epoch 1, come-out phase, empty bankroll.
    pub fn new() -> (r: CrapsGame)
        ensures
            r.wf(),
            r == (CrapsGame {
                epoch_id: 1,
                point: 0,
                is_come_out: true,
                epoch_start_round: 0,
                house_bankroll: 0,
                total_payouts: 0,
                total_collected: 0,
                reserved_payouts: 0,
                has_rolled: false,
                rolled_round: 0,
                prior_epoch_id: 1,
                prior_point: 0,
                prior_come_out: true,
            }),
    {
        CrapsGame {
            epoch_id: 1,
            point: 0,
            is_come_out: true,
            epoch_start_round: 0,
            house_bankroll: 0,
            total_payouts: 0,
            total_collected: 0,
            reserved_payouts: 0,
            has_rolled: false,
            rolled_round: 0,
            prior_epoch_id: 1,
            prior_point: 0,
            prior_come_out: true,
        }
    }

    /// Check if we are in the come-out phase.
    pub fn is_coming_out(&self) -> (r: bool)
        ensures
            r == self.is_come_out,
    {
        self.is_come_out
    }

    /// Set the come-out flag.
    pub fn set_come_out(&mut self, is_come_out: bool)
        ensures
            *final(self) == (CrapsGame { is_come_out, ..*old(self) }),
    {
        self.is_come_out = is_come_out;
    }

    /// Check if a point is established.
    pub fn has_point(&self) -> (r: bool)
        ensures
            r == (self.point != 0),
    {
        self.point != 0
    }

    /// The point, if one is established.
    pub fn get_point(&self) -> (r: Option<u8>)
        ensures
            self.point == 0 ==> r is None,
            self.point != 0 ==> r == Some(self.point),
    {
        if self.point == 0 {
            None
        } else {
            Some(self.point)
        }
    }

    /// Establish a point, which leaves the come-out phase.
    pub fn set_point(&mut self, point: u8)
        ensures
            *final(self) == (CrapsGame { point, is_come_out: false, ..*old(self) }),
    {
        self.point = point;
        self.is_come_out = false;
    }

    /// Clear the point, which returns to the come-out phase.
    pub fn clear_point(&mut self)
        ensures
            *final(self) == (CrapsGame { point: 0, is_come_out: true, ..*old(self) }),
            final(self).wf(),
    {
        self.point = 0;
        self.is_come_out = true;
    }

    /// Start a new epoch at `round_id`: next epoch number, come-out phase.
    pub fn start_new_epoch(&mut self, round_id: u64)
        requires
            old(self).epoch_id < u64::MAX,
        ensures
            *final(self) == (CrapsGame {
                epoch_id: (old(self).epoch_id + 1) as u64,
                epoch_start_round: round_id,
                point: 0,
                is_come_out: true,
                ..*old(self)
            }),
            final(self).wf(),
    {
        self.epoch_id = self.epoch_id + 1;
        self.epoch_start_round = round_id;
        self.clear_point();
    }
}

/// Whether the roll of round `round_id` has already moved the phase.
pub open spec fn rolled_in(g: CrapsGame, round_id: u64) -> bool {
    g.has_rolled && g.rolled_round == round_id
}

/// The game's phase as it stood before the roll of round `round_id`: the
/// recorded prior phase once that roll has moved it, else the current one.
pub open spec fn phase_before(g: CrapsGame, round_id: u64) -> CrapsGame {
    if rolled_in(g, round_id) {
        CrapsGame {
            epoch_id: g.prior_epoch_id,
            point: g.prior_point,
            is_come_out: g.prior_come_out,
            ..g
        }
    } else {
        g
    }
}

/// The game after the roll of round `round_id`, whose dice total `sum`. The
/// phase moves once per round, whoever settles first: on the come-out a
/// point number establishes the point; in the point phase the point returns
/// to the come-out, and a 7 (seven-out) starts the next epoch in the
/// come-out. `None` when the epoch number is exhausted.
pub open spec fn advance_game(g: CrapsGame, sum: u8, round_id: u64) -> Option<CrapsGame> {
    if rolled_in(g, round_id) {
        Some(g)
    } else {
        let marked = CrapsGame {
            has_rolled: true,
            rolled_round: round_id,
            prior_epoch_id: g.epoch_id,
            prior_point: g.point,
            prior_come_out: g.is_come_out,
            ..g
        };
        if g.is_come_out {
            if spec_is_point(sum as int) {
                Some(CrapsGame { point: sum, is_come_out: false, ..marked })
            } else {
                Some(marked)
            }
        } else if sum == g.point {
            Some(CrapsGame { point: 0, is_come_out: true, ..marked })
        } else if sum == 7 {
            if g.epoch_id == u64::MAX {
                None
            } else {
                Some(
                    CrapsGame {
                        epoch_id: (g.epoch_id + 1) as u64,
                        epoch_start_round: round_id,
                        point: 0,
                        is_come_out: true,
                        ..marked
                    },
                )
            }
        } else {
            Some(marked)
        }
    }
}

impl CrapsGame {
    /// Apply the roll of round `round_id` (dice total `sum`) to the phase,
    /// once per round (see `advance_game`). Returns false, changing nothing,
    /// when the epoch number is exhausted.
    pub fn advance_phase(&mut self, sum: u8, round_id: u64) -> (ok: bool)
        ensures
            ok == advance_game(*old(self), sum, round_id) is Some,
            ok ==> Some(*final(self)) == advance_game(*old(self), sum, round_id),
            !ok ==> *final(self) == *old(self),
    {
        if self.has_rolled && self.rolled_round == round_id {
            return true;
        }
        if !self.is_come_out && sum != self.point && sum == 7 && self.epoch_id == u64::MAX {
            return false;
        }
        self.prior_epoch_id = self.epoch_id;
        self.prior_point = self.point;
        self.prior_come_out = self.is_come_out;
        self.has_rolled = true;
        self.rolled_round = round_id;
        if self.is_come_out {
            if sum == 4 || sum == 5 || sum == 6 || sum == 8 || sum == 9 || sum == 10 {
                self.set_point(sum);
            }
        } else if sum == self.point {
            self.clear_point();
        } else if sum == 7 {
            self.start_new_epoch(round_id);
        }
        true
    }
}

} // verus!
