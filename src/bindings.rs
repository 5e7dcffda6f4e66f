//! Plain views of the ledgers and bet types, as published to clients.

use vstd::prelude::*;
use crate::game::CrapsGame;
use crate::position::CrapsPosition;

verus! {

/// The bet types a client can place, in wire-code order (0 through 15).
#[derive(Debug, Clone, Copy, PartialEq, Eq, Structural)]
pub enum CrapsBetTypeTS {
    PassLine,
    DontPass,
    PassOdds,
    DontPassOdds,
    Come,
    DontCome,
    ComeOdds,
    DontComeOdds,
    Place,
    Hardway,
    Field,
    AnySeven,
    AnyCraps,
    YoEleven,
    Aces,
    Twelve,
}

/// The wire code of a bet type.
pub open spec fn bet_type_code(t: CrapsBetTypeTS) -> u8 {
    match t {
        CrapsBetTypeTS::PassLine => 0,
        CrapsBetTypeTS::DontPass => 1,
        CrapsBetTypeTS::PassOdds => 2,
        CrapsBetTypeTS::DontPassOdds => 3,
        CrapsBetTypeTS::Come => 4,
        CrapsBetTypeTS::DontCome => 5,
        CrapsBetTypeTS::ComeOdds => 6,
        CrapsBetTypeTS::DontComeOdds => 7,
        CrapsBetTypeTS::Place => 8,
        CrapsBetTypeTS::Hardway => 9,
        CrapsBetTypeTS::Field => 10,
        CrapsBetTypeTS::AnySeven => 11,
        CrapsBetTypeTS::AnyCraps => 12,
        CrapsBetTypeTS::YoEleven => 13,
        CrapsBetTypeTS::Aces => 14,
        CrapsBetTypeTS::Twelve => 15,
    }
}

impl CrapsBetTypeTS {
    /// The wire code of this bet type.
    pub fn code(&self) -> (r: u8)
        ensures
            r == bet_type_code(*self),
    {
        match self {
            CrapsBetTypeTS::PassLine => 0,
            CrapsBetTypeTS::DontPass => 1,
            CrapsBetTypeTS::PassOdds => 2,
            CrapsBetTypeTS::DontPassOdds => 3,
            CrapsBetTypeTS::Come => 4,
            CrapsBetTypeTS::DontCome => 5,
            CrapsBetTypeTS::ComeOdds => 6,
            CrapsBetTypeTS::DontComeOdds => 7,
            CrapsBetTypeTS::Place => 8,
            CrapsBetTypeTS::Hardway => 9,
            CrapsBetTypeTS::Field => 10,
            CrapsBetTypeTS::AnySeven => 11,
            CrapsBetTypeTS::AnyCraps => 12,
            CrapsBetTypeTS::YoEleven => 13,
            CrapsBetTypeTS::Aces => 14,
            CrapsBetTypeTS::Twelve => 15,
        }
    }

    /// The bet type of a wire code, if it is one of these.
    pub fn from_code(code: u8) -> (r: Option<CrapsBetTypeTS>)
        ensures
            r is Some <==> code < 16,
            r is Some ==> bet_type_code(r->Some_0) == code,
    {
        match code {
            0 => Some(CrapsBetTypeTS::PassLine),
            1 => Some(CrapsBetTypeTS::DontPass),
            2 => Some(CrapsBetTypeTS::PassOdds),
            3 => Some(CrapsBetTypeTS::DontPassOdds),
            4 => Some(CrapsBetTypeTS::Come),
            5 => Some(CrapsBetTypeTS::DontCome),
            6 => Some(CrapsBetTypeTS::ComeOdds),
            7 => Some(CrapsBetTypeTS::DontComeOdds),
            8 => Some(CrapsBetTypeTS::Place),
            9 => Some(CrapsBetTypeTS::Hardway),
            10 => Some(CrapsBetTypeTS::Field),
            11 => Some(CrapsBetTypeTS::AnySeven),
            12 => Some(CrapsBetTypeTS::AnyCraps),
            13 => Some(CrapsBetTypeTS::YoEleven),
            14 => Some(CrapsBetTypeTS::Aces),
            15 => Some(CrapsBetTypeTS::Twelve),
            _ => None,
        }
    }
}

/// The game ledger as clients see it.
#[derive(Debug, Clone, Copy, PartialEq, Eq, Structural)]
pub struct CrapsGameTS {
    pub epoch_id: u64,
    pub point: u8,
    pub is_come_out: bool,
    pub epoch_start_round: u64,
    pub house_bankroll: u64,
    pub total_payouts: u64,
    pub total_collected: u64,
    pub reserved_payouts: u64,
}

impl CrapsGameTS {
    /// The client view of a game ledger.
    pub fn from_game(g: &CrapsGame) -> (r: CrapsGameTS)
        ensures
            r == (CrapsGameTS {
                epoch_id: g.epoch_id,
                point: g.point,
                is_come_out: g.is_come_out,
                epoch_start_round: g.epoch_start_round,
                house_bankroll: g.house_bankroll,
                total_payouts: g.total_payouts,
                total_collected: g.total_collected,
                reserved_payouts: g.reserved_payouts,
            }),
    {
        CrapsGameTS {
            epoch_id: g.epoch_id,
            point: g.point,
            is_come_out: g.is_come_out,
            epoch_start_round: g.epoch_start_round,
            house_bankroll: g.house_bankroll,
            total_payouts: g.total_payouts,
            total_collected: g.total_collected,
            reserved_payouts: g.reserved_payouts,
        }
    }
}

/// A position as clients see it: the owner, and the bet types they can place.
#[derive(Debug, Clone)]
pub struct CrapsPositionTS {
    /// The owner, as text.
    pub authority: String,
    pub epoch_id: u64,
    pub pass_line: u64,
    pub dont_pass: u64,
    pub pass_odds: u64,
    pub dont_pass_odds: u64,
    pub come_bets: [u64; 6],
    pub come_odds: [u64; 6],
    pub dont_come_bets: [u64; 6],
    pub dont_come_odds: [u64; 6],
    pub place_bets: [u64; 6],
    pub place_working: bool,
    pub hardways: [u64; 4],
    pub field_bet: u64,
    pub any_seven: u64,
    pub any_craps: u64,
    pub yo_eleven: u64,
    pub aces: u64,
    pub twelve: u64,
    pub pending_winnings: u64,
    pub total_wagered: u64,
    pub total_won: u64,
    pub total_lost: u64,
    pub last_updated_round: u64,
}

impl CrapsPositionTS {
    /// The client view of a position owned by `authority`.
    pub fn from_position(authority: String, p: &CrapsPosition) -> (r: CrapsPositionTS)
        ensures
            r.authority@ == authority@,
            r.epoch_id == p.epoch_id,
            r.pass_line == p.pass_line && r.dont_pass == p.dont_pass,
            r.pass_odds == p.pass_odds && r.dont_pass_odds == p.dont_pass_odds,
            r.come_bets == p.come_bets && r.come_odds == p.come_odds,
            r.dont_come_bets == p.dont_come_bets && r.dont_come_odds == p.dont_come_odds,
            r.place_bets == p.place_bets && r.place_working == p.place_working,
            r.hardways == p.hardways,
            r.field_bet == p.field_bet && r.any_seven == p.any_seven && r.any_craps == p.any_craps,
            r.yo_eleven == p.yo_eleven && r.aces == p.aces && r.twelve == p.twelve,
            r.pending_winnings == p.pending_winnings && r.total_wagered == p.total_wagered,
            r.total_won == p.total_won && r.total_lost == p.total_lost,
            r.last_updated_round == p.last_updated_round,
    {
        CrapsPositionTS {
            authority,
            epoch_id: p.epoch_id,
            pass_line: p.pass_line,
            dont_pass: p.dont_pass,
            pass_odds: p.pass_odds,
            dont_pass_odds: p.dont_pass_odds,
            come_bets: p.come_bets,
            come_odds: p.come_odds,
            dont_come_bets: p.dont_come_bets,
            dont_come_odds: p.dont_come_odds,
            place_bets: p.place_bets,
            place_working: p.place_working,
            hardways: p.hardways,
            field_bet: p.field_bet,
            any_seven: p.any_seven,
            any_craps: p.any_craps,
            yo_eleven: p.yo_eleven,
            aces: p.aces,
            twelve: p.twelve,
            pending_winnings: p.pending_winnings,
            total_wagered: p.total_wagered,
            total_won: p.total_won,
            total_lost: p.total_lost,
            last_updated_round: p.last_updated_round,
        }
    }
}

} // verus!
