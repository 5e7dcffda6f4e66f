//! The position ledger: one player's outstanding stakes in every bet
//! family, the shooter-run trackers, and the player's running totals.

use vstd::prelude::*;
use vstd::array::spec_array_fill_for_copy_type as filled;
use vstd::array::spec_array_update as updated;
use crate::dice::{point_to_index, spec_is_point};

verus! {

/// Number of point numbers (4, 5, 6, 8, 9, 10).
pub const NUM_POINTS: usize = 6;

/// Number of hardway bets (hard 4, 6, 8, 10).
pub const NUM_HARDWAYS: usize = 4;

/// How many entries of a sequence are set.
pub open spec fn count_true(s: Seq<bool>) -> nat
    decreases s.len(),
{
    if s.len() == 0 {
        0
    } else {
        count_true(s.drop_last()) + if s.last() {
            1nat
        } else {
            0nat
        }
    }
}

/// Whether every entry of a sequence is set.
pub open spec fn all_true(s: Seq<bool>) -> bool {
    forall|i: int| 0 <= i < s.len() ==> s[i]
}

/// The sum of a sequence of stakes.
pub open spec fn seq_sum(s: Seq<u64>) -> int
    decreases s.len(),
{
    if s.len() == 0 {
        0
    } else {
        seq_sum(s.drop_last()) + s.last()
    }
}

/// The largest entry of a sequence of counters (0 when empty).
pub open spec fn seq_max(s: Seq<u8>) -> u8
    decreases s.len(),
{
    if s.len() == 0 {
        0
    } else {
        let m = seq_max(s.drop_last());
        if s.last() > m {
            s.last()
        } else {
            m
        }
    }
}

/// The later of two rounds.
pub open spec fn later_round(a: u64, b: u64) -> u64 {
    if a >= b {
        a
    } else {
        b
    }
}

/// Bit of a total in the hot hand tracker: 2..=6 on 0..=4, 8..=12 on 5..=9.
pub open spec fn hot_slot(total: int) -> int {
    if total <= 6 {
        total - 2
    } else {
        total - 3
    }
}

/// No more entries are set than there are entries.
pub proof fn lemma_count_true_bound(s: Seq<bool>)
    ensures
        count_true(s) <= s.len(),
    decreases s.len(),
{
    if s.len() > 0 {
        lemma_count_true_bound(s.drop_last());
    }
}

/// Stakes sum to zero or more.
pub proof fn lemma_seq_sum_nonneg(s: Seq<u64>)
    ensures
        seq_sum(s) >= 0,
    decreases s.len(),
{
    if s.len() > 0 {
        lemma_seq_sum_nonneg(s.drop_last());
    }
}

/// Count the set entries of a tracker.
pub fn count_set<const N: usize>(a: &[bool; N]) -> (r: u8)
    requires
        N <= 255,
    ensures
        r == count_true(a@),
{
    let mut count: u8 = 0;
    let mut i: usize = 0;
    while i < N
        invariant
            0 <= i <= N <= 255,
            a@.len() == N,
            count == count_true(a@.take(i as int)),
        decreases N - i,
    {
        proof {
            assert(a@.take(i as int + 1).drop_last() =~= a@.take(i as int));
            lemma_count_true_bound(a@.take(i as int));
        }
        if a[i] {
            count = count + 1;
        }
        i = i + 1;
    }
    proof {
        assert(a@.take(N as int) =~= a@);
    }
    count
}

/// Whether every entry of a tracker is set.
pub fn all_set<const N: usize>(a: &[bool; N]) -> (r: bool)
    ensures
        r == all_true(a@),
{
    let mut i: usize = 0;
    while i < N
        invariant
            0 <= i <= N,
            a@.len() == N,
            forall|j: int| 0 <= j < i ==> a@[j],
        decreases N - i,
    {
        if !a[i] {
            return false;
        }
        i = i + 1;
    }
    true
}

/// `acc` plus the sum of `a`, or `None` when that does not fit in 64 bits.
pub fn checked_sum<const N: usize>(acc: u64, a: &[u64; N]) -> (r: Option<u64>)
    ensures
        r is Some <==> acc + seq_sum(a@) <= u64::MAX,
        r is Some ==> r->Some_0 == acc + seq_sum(a@),
{
    let mut total: u64 = acc;
    let mut i: usize = 0;
    while i < N
        invariant
            0 <= i <= N,
            a@.len() == N,
            total == acc + seq_sum(a@.take(i as int)),
        decreases N - i,
    {
        proof {
            assert(a@.take(i as int + 1).drop_last() =~= a@.take(i as int));
        }
        match total.checked_add(a[i]) {
            Some(t) => {
                total = t;
            },
            None => {
                proof {
                    lemma_sum_take_mono(a@, i as int + 1);
                }
                return None;
            },
        }
        i = i + 1;
    }
    proof {
        assert(a@.take(N as int) =~= a@);
    }
    Some(total)
}

/// A prefix sums to no more than the whole.
pub proof fn lemma_sum_take_mono(s: Seq<u64>, n: int)
    requires
        0 <= n <= s.len(),
    ensures
        seq_sum(s.take(n)) <= seq_sum(s),
    decreases s.len(),
{
    if n < s.len() {
        assert(s.drop_last().take(n) =~= s.take(n));
        lemma_sum_take_mono(s.drop_last(), n);
    } else {
        assert(s.take(n) =~= s);
    }
}

/// Whether any stake of an array is positive.
pub fn any_positive<const N: usize>(a: &[u64; N]) -> (r: bool)
    ensures
        r == exists|i: int| 0 <= i < N && a@[i] > 0,
{
    let mut i: usize = 0;
    while i < N
        invariant
            0 <= i <= N,
            a@.len() == N,
            forall|j: int| 0 <= j < i ==> a@[j] == 0,
        decreases N - i,
    {
        if a[i] > 0 {
            return true;
        }
        i = i + 1;
    }
    false
}

/// One player's craps bets for the current epoch.
#[derive(Debug, Clone, Copy, PartialEq, Eq)]
pub struct CrapsPosition {
    /// The epoch these bets belong to.
    pub epoch_id: u64,
    pub pass_line: u64,
    pub dont_pass: u64,
    pub pass_odds: u64,
    pub dont_pass_odds: u64,
    /// Come bets per travelling point (slot order 4, 5, 6, 8, 9, 10).
    pub come_bets: [u64; 6],
    pub come_odds: [u64; 6],
    pub dont_come_bets: [u64; 6],
    pub dont_come_odds: [u64; 6],
    /// Place bets per point (slot order 4, 5, 6, 8, 9, 10).
    pub place_bets: [u64; 6],
    /// Whether place bets are working.
    pub place_working: bool,
    /// Yes bets per sum 2..=12 (the slot of 7 stays empty).
    pub yes_bets: [u64; 11],
    /// No bets per sum 2..=12 (the slot of 7 stays empty).
    pub no_bets: [u64; 11],
    /// Next (one-roll) bets per sum 2..=12.
    pub next_bets: [u64; 11],
    /// Hardways: hard 4, 6, 8, 10.
    pub hardways: [u64; 4],
    pub field_bet: u64,
    pub any_seven: u64,
    pub any_craps: u64,
    pub yo_eleven: u64,
    pub aces: u64,
    pub twelve: u64,
    /// Small: 2..=6 all before a 7.
    pub bonus_small: u64,
    /// Tall: 8..=12 all before a 7.
    pub bonus_tall: u64,
    /// All: every total but 7 before a 7.
    pub bonus_all: u64,
    /// Small totals hit so far (2, 3, 4, 5, 6).
    pub small_hits: [bool; 5],
    /// Tall totals hit so far (8, 9, 10, 11, 12).
    pub tall_hits: [bool; 5],
    /// Fire bet: unique points made before the seven-out.
    pub fire_bet: u64,
    /// Points made for the fire bet (slot order 4, 5, 6, 8, 9, 10).
    pub fire_points_made: [bool; 6],
    /// Different doubles bet.
    pub diff_doubles_bet: u64,
    /// Doubles seen (1-1 through 6-6).
    pub diff_doubles_hits: [bool; 6],
    /// Ride the line bet: pass-line wins before the seven-out.
    pub ride_the_line_bet: u64,
    pub ride_wins_count: u8,
    /// Mugsy's corner bet: wins on any 7.
    pub mugsy_bet: u64,
    /// 0 = come-out, 1 = point phase.
    pub mugsy_state: u8,
    /// Hot hand bet: all ten totals but 7 before a 7.
    pub hot_hand_bet: u64,
    /// Totals hit for the hot hand (2..=6, then 8..=12).
    pub hot_hand_hits: [bool; 10],
    /// Replay bet: one point made several times.
    pub replay_bet: u64,
    /// Times each point was made (slot order 4, 5, 6, 8, 9, 10).
    pub replay_counts: [u8; 6],
    /// Fielder's choice: {2,3,4}, {4,9,10}, {10,11,12}.
    pub fielders_choice: [u64; 3],
    /// Winnings waiting to be claimed.
    pub pending_winnings: u64,
    pub total_wagered: u64,
    pub total_won: u64,
    pub total_lost: u64,
    /// The last round this position was settled in.
    pub last_updated_round: u64,
    /// Whether this position was ever settled (its last round is then
    /// meaningful, round 0 included).
    pub ever_settled: bool,
    /// The point the line odds were placed on, which sizes their reservation.
    pub odds_point: u8,
    /// Winnings the house could not pay when they were won.
    pub unpaid_debt: u64,
}

/// Every outstanding stake of a position.
pub open spec fn stake_total(p: CrapsPosition) -> int {
    p.pass_line + p.dont_pass + p.pass_odds + p.dont_pass_odds + p.field_bet + p.any_seven
        + p.any_craps + p.yo_eleven + p.aces + p.twelve + p.bonus_small + p.bonus_tall
        + p.bonus_all + p.fire_bet + p.diff_doubles_bet + p.ride_the_line_bet + p.mugsy_bet
        + p.hot_hand_bet + p.replay_bet + seq_sum(p.fielders_choice@) + seq_sum(p.come_bets@)
        + seq_sum(p.come_odds@) + seq_sum(p.dont_come_bets@) + seq_sum(p.dont_come_odds@)
        + seq_sum(p.place_bets@) + seq_sum(p.hardways@) + seq_sum(p.yes_bets@) + seq_sum(
        p.no_bets@,
    ) + seq_sum(p.next_bets@)
}

/// A position with no bets, no trackers and no totals, in an epoch.
pub open spec fn empty_position(epoch_id: u64) -> CrapsPosition {
    CrapsPosition {
        epoch_id,
        pass_line: 0,
        dont_pass: 0,
        pass_odds: 0,
        dont_pass_odds: 0,
        come_bets: filled(0u64),
        come_odds: filled(0u64),
        dont_come_bets: filled(0u64),
        dont_come_odds: filled(0u64),
        place_bets: filled(0u64),
        place_working: false,
        yes_bets: filled(0u64),
        no_bets: filled(0u64),
        next_bets: filled(0u64),
        hardways: filled(0u64),
        field_bet: 0,
        any_seven: 0,
        any_craps: 0,
        yo_eleven: 0,
        aces: 0,
        twelve: 0,
        bonus_small: 0,
        bonus_tall: 0,
        bonus_all: 0,
        small_hits: filled(false),
        tall_hits: filled(false),
        fire_bet: 0,
        fire_points_made: filled(false),
        diff_doubles_bet: 0,
        diff_doubles_hits: filled(false),
        ride_the_line_bet: 0,
        ride_wins_count: 0,
        mugsy_bet: 0,
        mugsy_state: 0,
        hot_hand_bet: 0,
        hot_hand_hits: filled(false),
        replay_bet: 0,
        replay_counts: filled(0u8),
        fielders_choice: filled(0u64),
        pending_winnings: 0,
        total_wagered: 0,
        total_won: 0,
        total_lost: 0,
        last_updated_round: 0,
        ever_settled: false,
        odds_point: 0,
        unpaid_debt: 0,
    }
}

/// The position with its one-roll bets cleared.
pub open spec fn without_single_roll(p: CrapsPosition) -> CrapsPosition {
    CrapsPosition {
        field_bet: 0,
        any_seven: 0,
        any_craps: 0,
        yo_eleven: 0,
        aces: 0,
        twelve: 0,
        fielders_choice: filled(0u64),
        next_bets: filled(0u64),
        ..p
    }
}

/// The position with its bonus bets and their trackers cleared.
pub open spec fn without_bonus(p: CrapsPosition) -> CrapsPosition {
    CrapsPosition {
        bonus_small: 0,
        bonus_tall: 0,
        bonus_all: 0,
        small_hits: filled(false),
        tall_hits: filled(false),
        ..p
    }
}

/// The position with its shooter-run bets and their trackers cleared.
pub open spec fn without_shooter(p: CrapsPosition) -> CrapsPosition {
    CrapsPosition {
        fire_bet: 0,
        fire_points_made: filled(false),
        diff_doubles_bet: 0,
        diff_doubles_hits: filled(false),
        ride_the_line_bet: 0,
        ride_wins_count: 0,
        mugsy_bet: 0,
        mugsy_state: 0,
        hot_hand_bet: 0,
        hot_hand_hits: filled(false),
        replay_bet: 0,
        replay_counts: filled(0u8),
        ..p
    }
}

/// The position with every bet and tracker cleared.
pub open spec fn without_bets(p: CrapsPosition) -> CrapsPosition {
    without_shooter(
        without_bonus(
            without_single_roll(
                CrapsPosition {
                    pass_line: 0,
                    dont_pass: 0,
                    pass_odds: 0,
                    dont_pass_odds: 0,
                    come_bets: filled(0u64),
                    come_odds: filled(0u64),
                    dont_come_bets: filled(0u64),
                    dont_come_odds: filled(0u64),
                    place_bets: filled(0u64),
                    yes_bets: filled(0u64),
                    no_bets: filled(0u64),
                    hardways: filled(0u64),
                    ..p
                },
            ),
        ),
    )
}

/// The position reset into an epoch: no bets, and the epoch's totals zeroed.
pub open spec fn reset_into(p: CrapsPosition, epoch_id: u64) -> CrapsPosition {
    CrapsPosition {
        epoch_id,
        total_wagered: 0,
        total_won: 0,
        total_lost: 0,
        ..without_bets(p)
    }
}

/// Whether a position has any positive stake.
pub open spec fn has_any_bet(p: CrapsPosition) -> bool {
    p.pass_line > 0 || p.dont_pass > 0 || p.pass_odds > 0 || p.dont_pass_odds > 0 || p.field_bet
        > 0 || p.any_seven > 0 || p.any_craps > 0 || p.yo_eleven > 0 || p.aces > 0 || p.twelve
        > 0 || p.bonus_small > 0 || p.bonus_tall > 0 || p.bonus_all > 0 || p.fire_bet > 0
        || p.diff_doubles_bet > 0 || p.ride_the_line_bet > 0 || p.mugsy_bet > 0 || p.hot_hand_bet
        > 0 || p.replay_bet > 0 || (exists|i: int| 0 <= i < 3 && p.fielders_choice@[i] > 0)
        || (exists|i: int| 0 <= i < 4 && p.hardways@[i] > 0) || (exists|i: int|
        0 <= i < 6 && p.place_bets@[i] > 0) || (exists|i: int| 0 <= i < 11 && p.yes_bets@[i] > 0)
        || (exists|i: int| 0 <= i < 11 && p.no_bets@[i] > 0) || (exists|i: int|
        0 <= i < 11 && p.next_bets@[i] > 0) || (exists|i: int| 0 <= i < 6 && p.come_bets@[i] > 0)
        || (exists|i: int| 0 <= i < 6 && p.come_odds@[i] > 0) || (exists|i: int|
        0 <= i < 6 && p.dont_come_bets@[i] > 0) || (exists|i: int|
        0 <= i < 6 && p.dont_come_odds@[i] > 0)
}

/// The position with a total recorded in the bonus trackers.
pub open spec fn with_bonus_hit(p: CrapsPosition, total: u8) -> CrapsPosition {
    CrapsPosition {
        small_hits: if 2 <= total <= 6 {
            updated(p.small_hits, total - 2, true)
        } else {
            p.small_hits
        },
        tall_hits: if 8 <= total <= 12 {
            updated(p.tall_hits, total - 8, true)
        } else {
            p.tall_hits
        },
        ..p
    }
}

/// The position with a point recorded as made for the fire bet.
pub open spec fn with_fire_point(p: CrapsPosition, point: u8) -> CrapsPosition {
    CrapsPosition {
        fire_points_made: if spec_is_point(point as int) {
            updated(p.fire_points_made, fire_slot(point as int), true)
        } else {
            p.fire_points_made
        },
        ..p
    }
}

/// The position with a double of `die` recorded for different doubles.
pub open spec fn with_double(p: CrapsPosition, die: u8) -> CrapsPosition {
    CrapsPosition {
        diff_doubles_hits: if 1 <= die <= 6 {
            updated(p.diff_doubles_hits, die - 1, true)
        } else {
            p.diff_doubles_hits
        },
        ..p
    }
}

/// The position with a total recorded for the hot hand.
pub open spec fn with_hot_hit(p: CrapsPosition, total: u8) -> CrapsPosition {
    CrapsPosition {
        hot_hand_hits: if 2 <= total <= 6 || 8 <= total <= 12 {
            updated(p.hot_hand_hits, hot_slot(total as int), true)
        } else {
            p.hot_hand_hits
        },
        ..p
    }
}

/// The position with a point counted once more for the replay bet
/// (saturating at 255).
pub open spec fn with_replay_point(p: CrapsPosition, point: u8) -> CrapsPosition {
    CrapsPosition {
        replay_counts: if spec_is_point(point as int) {
            let c = p.replay_counts@[fire_slot(point as int)];
            updated(
                p.replay_counts,
                fire_slot(point as int),
                if c < 255 {
                    (c + 1) as u8
                } else {
                    255u8
                },
            )
        } else {
            p.replay_counts
        },
        ..p
    }
}

impl CrapsPosition {
    /// A position with no bets in an epoch.
    pub fn new(epoch_id: u64) -> (r: CrapsPosition)
        ensures
            r == empty_position(epoch_id),
    {
        CrapsPosition {
            epoch_id,
            pass_line: 0,
            dont_pass: 0,
            pass_odds: 0,
            dont_pass_odds: 0,
            come_bets: [0u64; 6],
            come_odds: [0u64; 6],
            dont_come_bets: [0u64; 6],
            dont_come_odds: [0u64; 6],
            place_bets: [0u64; 6],
            place_working: false,
            yes_bets: [0u64; 11],
            no_bets: [0u64; 11],
            next_bets: [0u64; 11],
            hardways: [0u64; 4],
            field_bet: 0,
            any_seven: 0,
            any_craps: 0,
            yo_eleven: 0,
            aces: 0,
            twelve: 0,
            bonus_small: 0,
            bonus_tall: 0,
            bonus_all: 0,
            small_hits: [false; 5],
            tall_hits: [false; 5],
            fire_bet: 0,
            fire_points_made: [false; 6],
            diff_doubles_bet: 0,
            diff_doubles_hits: [false; 6],
            ride_the_line_bet: 0,
            ride_wins_count: 0,
            mugsy_bet: 0,
            mugsy_state: 0,
            hot_hand_bet: 0,
            hot_hand_hits: [false; 10],
            replay_bet: 0,
            replay_counts: [0u8; 6],
            fielders_choice: [0u64; 3],
            pending_winnings: 0,
            total_wagered: 0,
            total_won: 0,
            total_lost: 0,
            last_updated_round: 0,
            ever_settled: false,
            odds_point: 0,
            unpaid_debt: 0,
        }
    }

    /// Check if place bets are working.
    pub fn are_place_bets_working(&self) -> (r: bool)
        ensures
            r == self.place_working,
    {
        self.place_working
    }

    /// Turn place bets on or off.
    pub fn set_place_working(&mut self, working: bool)
        ensures
            *final(self) == (CrapsPosition { place_working: working, ..*old(self) }),
    {
        self.place_working = working;
    }

    /// Every outstanding stake, or `None` when the sum does not fit in 64 bits.
    pub fn checked_total_stakes(&self) -> (r: Option<u64>)
        ensures
            r is Some <==> stake_total(*self) <= u64::MAX,
            r is Some ==> r->Some_0 == stake_total(*self),
    {
        proof {
            lemma_seq_sum_nonneg(self.fielders_choice@);
            lemma_seq_sum_nonneg(self.come_bets@);
            lemma_seq_sum_nonneg(self.come_odds@);
            lemma_seq_sum_nonneg(self.dont_come_bets@);
            lemma_seq_sum_nonneg(self.dont_come_odds@);
            lemma_seq_sum_nonneg(self.place_bets@);
            lemma_seq_sum_nonneg(self.hardways@);
            lemma_seq_sum_nonneg(self.yes_bets@);
            lemma_seq_sum_nonneg(self.no_bets@);
            lemma_seq_sum_nonneg(self.next_bets@);
        }
        let scalars: [u64; 19] = [
            self.pass_line,
            self.dont_pass,
            self.pass_odds,
            self.dont_pass_odds,
            self.field_bet,
            self.any_seven,
            self.any_craps,
            self.yo_eleven,
            self.aces,
            self.twelve,
            self.bonus_small,
            self.bonus_tall,
            self.bonus_all,
            self.fire_bet,
            self.diff_doubles_bet,
            self.ride_the_line_bet,
            self.mugsy_bet,
            self.hot_hand_bet,
            self.replay_bet,
        ];
        proof {
            reveal_with_fuel(seq_sum, 20);
            assert(seq_sum(scalars@) == self.pass_line + self.dont_pass + self.pass_odds
                + self.dont_pass_odds + self.field_bet + self.any_seven + self.any_craps
                + self.yo_eleven + self.aces + self.twelve + self.bonus_small + self.bonus_tall
                + self.bonus_all + self.fire_bet + self.diff_doubles_bet + self.ride_the_line_bet
                + self.mugsy_bet + self.hot_hand_bet + self.replay_bet);
        }
        let t = checked_sum(0, &scalars)?;
        let t = checked_sum(t, &self.fielders_choice)?;
        let t = checked_sum(t, &self.come_bets)?;
        let t = checked_sum(t, &self.come_odds)?;
        let t = checked_sum(t, &self.dont_come_bets)?;
        let t = checked_sum(t, &self.dont_come_odds)?;
        let t = checked_sum(t, &self.place_bets)?;
        let t = checked_sum(t, &self.hardways)?;
        let t = checked_sum(t, &self.yes_bets)?;
        let t = checked_sum(t, &self.no_bets)?;
        checked_sum(t, &self.next_bets)
    }

    /// Get the total of all active bets.
    pub fn total_active_bets(&self) -> (r: u64)
        requires
            stake_total(*self) <= u64::MAX,
        ensures
            r == stake_total(*self),
    {
        match self.checked_total_stakes() {
            Some(t) => t,
            None => 0,
        }
    }

    /// Whether any bet is outstanding.
    pub fn has_any_bets(&self) -> (r: bool)
        ensures
            r == has_any_bet(*self),
    {
        self.pass_line > 0 || self.dont_pass > 0 || self.pass_odds > 0 || self.dont_pass_odds > 0
            || self.field_bet > 0 || self.any_seven > 0 || self.any_craps > 0 || self.yo_eleven
            > 0 || self.aces > 0 || self.twelve > 0 || self.bonus_small > 0 || self.bonus_tall > 0
            || self.bonus_all > 0 || self.fire_bet > 0 || self.diff_doubles_bet > 0
            || self.ride_the_line_bet > 0 || self.mugsy_bet > 0 || self.hot_hand_bet > 0
            || self.replay_bet > 0 || any_positive(&self.fielders_choice) || any_positive(
            &self.hardways,
        ) || any_positive(&self.place_bets) || any_positive(&self.yes_bets) || any_positive(
            &self.no_bets,
        ) || any_positive(&self.next_bets) || any_positive(&self.come_bets) || any_positive(
            &self.come_odds,
        ) || any_positive(&self.dont_come_bets) || any_positive(&self.dont_come_odds)
    }

    /// Clear the one-roll bets.
    pub fn clear_single_roll_bets(&mut self)
        ensures
            *final(self) == without_single_roll(*old(self)),
    {
        self.field_bet = 0;
        self.any_seven = 0;
        self.any_craps = 0;
        self.yo_eleven = 0;
        self.aces = 0;
        self.twelve = 0;
        self.fielders_choice = [0u64; 3];
        self.next_bets = [0u64; 11];
    }

    /// Clear every bet and tracker (for a new epoch).
    pub fn clear_all_bets(&mut self)
        ensures
            *final(self) == without_bets(*old(self)),
    {
        self.pass_line = 0;
        self.dont_pass = 0;
        self.pass_odds = 0;
        self.dont_pass_odds = 0;
        self.come_bets = [0u64; 6];
        self.come_odds = [0u64; 6];
        self.dont_come_bets = [0u64; 6];
        self.dont_come_odds = [0u64; 6];
        self.place_bets = [0u64; 6];
        self.yes_bets = [0u64; 11];
        self.no_bets = [0u64; 11];
        self.hardways = [0u64; 4];
        self.clear_single_roll_bets();
        self.clear_bonus_bets();
        self.clear_shooter_bets();
    }

    /// Clear the bonus bets and their trackers.
    pub fn clear_bonus_bets(&mut self)
        ensures
            *final(self) == without_bonus(*old(self)),
    {
        self.bonus_small = 0;
        self.bonus_tall = 0;
        self.bonus_all = 0;
        self.small_hits = [false; 5];
        self.tall_hits = [false; 5];
    }

    /// Record a total for the bonus trackers. Returns whether Small and
    /// whether Tall became complete with this total.
    pub fn record_bonus_hit(&mut self, total: u8) -> (r: (bool, bool))
        ensures
            *final(self) == with_bonus_hit(*old(self), total),
            r.0 == (!all_true(old(self).small_hits@) && all_true(final(self).small_hits@)),
            r.1 == (!all_true(old(self).tall_hits@) && all_true(final(self).tall_hits@)),
    {
        let small_was = all_set(&self.small_hits);
        let tall_was = all_set(&self.tall_hits);
        if total >= 2 && total <= 6 {
            self.small_hits[(total - 2) as usize] = true;
        }
        if total >= 8 && total <= 12 {
            self.tall_hits[(total - 8) as usize] = true;
        }
        let small_now = all_set(&self.small_hits);
        let tall_now = all_set(&self.tall_hits);
        (!small_was && small_now, !tall_was && tall_now)
    }

    /// Check if Small is complete (2, 3, 4, 5, 6 all hit).
    pub fn is_small_complete(&self) -> (r: bool)
        ensures
            r == all_true(self.small_hits@),
    {
        all_set(&self.small_hits)
    }

    /// Check if Tall is complete (8, 9, 10, 11, 12 all hit).
    pub fn is_tall_complete(&self) -> (r: bool)
        ensures
            r == all_true(self.tall_hits@),
    {
        all_set(&self.tall_hits)
    }

    /// Check if All is complete (Small and Tall both complete).
    pub fn is_all_complete(&self) -> (r: bool)
        ensures
            r == (all_true(self.small_hits@) && all_true(self.tall_hits@)),
    {
        self.is_small_complete() && self.is_tall_complete()
    }

    /// Check if any bonus bet is active.
    pub fn has_bonus_bets(&self) -> (r: bool)
        ensures
            r == (self.bonus_small > 0 || self.bonus_tall > 0 || self.bonus_all > 0),
    {
        self.bonus_small > 0 || self.bonus_tall > 0 || self.bonus_all > 0
    }

    /// Clear the shooter-run bets and their trackers (on a seven-out).
    pub fn clear_shooter_bets(&mut self)
        ensures
            *final(self) == without_shooter(*old(self)),
    {
        self.fire_bet = 0;
        self.fire_points_made = [false; 6];
        self.diff_doubles_bet = 0;
        self.diff_doubles_hits = [false; 6];
        self.ride_the_line_bet = 0;
        self.ride_wins_count = 0;
        self.mugsy_bet = 0;
        self.mugsy_state = 0;
        self.hot_hand_bet = 0;
        self.hot_hand_hits = [false; 10];
        self.replay_bet = 0;
        self.replay_counts = [0u8; 6];
    }

    /// Check if any shooter-run bet is active.
    pub fn has_shooter_bets(&self) -> (r: bool)
        ensures
            r == (self.fire_bet > 0 || self.diff_doubles_bet > 0 || self.ride_the_line_bet > 0
                || self.mugsy_bet > 0 || self.hot_hand_bet > 0 || self.replay_bet > 0),
    {
        self.fire_bet > 0 || self.diff_doubles_bet > 0 || self.ride_the_line_bet > 0
            || self.mugsy_bet > 0 || self.hot_hand_bet > 0 || self.replay_bet > 0
    }

    /// Record a point made for the fire bet. Returns the unique points made.
    pub fn record_fire_point(&mut self, point: u8) -> (r: u8)
        ensures
            *final(self) == with_fire_point(*old(self), point),
            r == count_true(final(self).fire_points_made@),
    {
        if let Some(idx) = point_to_index(point) {
            self.fire_points_made[idx] = true;
        }
        count_set(&self.fire_points_made)
    }

    /// Unique points made for the fire bet.
    pub fn fire_points_count(&self) -> (r: u8)
        ensures
            r == count_true(self.fire_points_made@),
    {
        count_set(&self.fire_points_made)
    }

    /// Record a double of `die_value` for different doubles. Returns the
    /// unique doubles seen.
    pub fn record_double(&mut self, die_value: u8) -> (r: u8)
        ensures
            *final(self) == with_double(*old(self), die_value),
            r == count_true(final(self).diff_doubles_hits@),
    {
        if die_value >= 1 && die_value <= 6 {
            self.diff_doubles_hits[(die_value - 1) as usize] = true;
        }
        count_set(&self.diff_doubles_hits)
    }

    /// Unique doubles seen.
    pub fn diff_doubles_count(&self) -> (r: u8)
        ensures
            r == count_true(self.diff_doubles_hits@),
    {
        count_set(&self.diff_doubles_hits)
    }

    /// Record a pass-line win for ride the line (saturating at 255).
    pub fn record_ride_win(&mut self)
        ensures
            *final(self) == (CrapsPosition {
                ride_wins_count: if old(self).ride_wins_count < 255 {
                    (old(self).ride_wins_count + 1) as u8
                } else {
                    255
                },
                ..*old(self)
            }),
    {
        if self.ride_wins_count < 255 {
            self.ride_wins_count = self.ride_wins_count + 1;
        }
    }

    /// Record a total for the hot hand. Returns whether all ten totals are hit.
    pub fn record_hot_hand_hit(&mut self, total: u8) -> (r: bool)
        ensures
            *final(self) == with_hot_hit(*old(self), total),
            r == all_true(final(self).hot_hand_hits@),
    {
        if total >= 2 && total <= 6 {
            self.hot_hand_hits[(total - 2) as usize] = true;
        }
        if total >= 8 && total <= 12 {
            self.hot_hand_hits[(total - 3) as usize] = true;
        }
        all_set(&self.hot_hand_hits)
    }

    /// Totals hit for the hot hand.
    pub fn hot_hand_count(&self) -> (r: u8)
        ensures
            r == count_true(self.hot_hand_hits@),
    {
        count_set(&self.hot_hand_hits)
    }

    /// Check if the hot hand is complete (all ten totals hit).
    pub fn is_hot_hand_complete(&self) -> (r: bool)
        ensures
            r == all_true(self.hot_hand_hits@),
    {
        all_set(&self.hot_hand_hits)
    }

    /// Record a point made for the replay bet (saturating at 255). Returns
    /// the new count for that point, or 0 for a number that is not a point.
    pub fn record_replay_point(&mut self, point: u8) -> (r: u8)
        ensures
            *final(self) == with_replay_point(*old(self), point),
            r == (if spec_is_point(point as int) {
                final(self).replay_counts@[fire_slot(point as int)]
            } else {
                0u8
            }),
    {
        if let Some(idx) = point_to_index(point) {
            let c = self.replay_counts[idx];
            let n: u8 = if c < 255 {
                c + 1
            } else {
                255
            };
            self.replay_counts[idx] = n;
            n
        } else {
            0
        }
    }

    /// The largest replay count of any point.
    pub fn max_replay_count(&self) -> (r: u8)
        ensures
            r == seq_max(self.replay_counts@),
    {
        let mut best: u8 = 0;
        let mut i: usize = 0;
        while i < 6
            invariant
                0 <= i <= 6,
                self.replay_counts@.len() == 6,
                best == seq_max(self.replay_counts@.take(i as int)),
            decreases 6 - i,
        {
            proof {
                assert(self.replay_counts@.take(i as int + 1).drop_last() =~= self.replay_counts@.take(
                    i as int,
                ));
            }
            if self.replay_counts[i] > best {
                best = self.replay_counts[i];
            }
            i = i + 1;
        }
        proof {
            assert(self.replay_counts@.take(6) =~= self.replay_counts@);
        }
        best
    }

    /// Move Mugsy's corner from come-out to point phase.
    pub fn set_mugsy_point_phase(&mut self)
        ensures
            *final(self) == (CrapsPosition {
                mugsy_state: if old(self).mugsy_state == 0 {
                    1
                } else {
                    old(self).mugsy_state
                },
                ..*old(self)
            }),
    {
        if self.mugsy_state == 0 {
            self.mugsy_state = 1;
        }
    }

    /// Check if Mugsy's corner is in its come-out phase.
    pub fn is_mugsy_comeout(&self) -> (r: bool)
        ensures
            r == (self.mugsy_state == 0),
    {
        self.mugsy_state == 0
    }

    /// Check if Mugsy's corner is in its point phase.
    pub fn is_mugsy_point_phase(&self) -> (r: bool)
        ensures
            r == (self.mugsy_state == 1),
    {
        self.mugsy_state == 1
    }

    /// Reset for a new epoch: every bet cleared, the epoch's totals zeroed.
    pub fn reset_for_epoch(&mut self, epoch_id: u64)
        ensures
            *final(self) == reset_into(*old(self), epoch_id),
    {
        self.epoch_id = epoch_id;
        self.clear_all_bets();
        self.total_wagered = 0;
        self.total_won = 0;
        self.total_lost = 0;
    }
}

/// Slot of a point number (4, 5, 6, 8, 9, 10 on 0..=5).
pub open spec fn fire_slot(point: int) -> int {
    if point <= 6 {
        point - 4
    } else {
        point - 5
    }
}

} // verus!
