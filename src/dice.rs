//! Dice outcome resolver: maps a board square (0..36) to the two dice, and
//! the small classification predicates and index maps that the bets use.

use vstd::prelude::*;

verus! {

/// Number of squares on the board: one per ordered pair of dice.
pub const BOARD_SIZE: usize = 36;

/// First die shown by a square (1..=6).
pub open spec fn die1_of(square: int) -> int {
    square / 6 + 1
}

/// Second die shown by a square (1..=6).
pub open spec fn die2_of(square: int) -> int {
    square % 6 + 1
}

/// Total of the two dice shown by a square.
pub open spec fn sum_of(square: int) -> int {
    die1_of(square) + die2_of(square)
}

/// A square shows doubles exactly when both dice agree.
pub open spec fn doubles_of(square: int) -> bool {
    die1_of(square) == die2_of(square)
}

/// Craps: 2, 3 or 12.
pub open spec fn spec_is_craps(sum: int) -> bool {
    sum == 2 || sum == 3 || sum == 12
}

/// A natural: 7 or 11.
pub open spec fn spec_is_natural(sum: int) -> bool {
    sum == 7 || sum == 11
}

/// A point number: 4, 5, 6, 8, 9 or 10.
pub open spec fn spec_is_point(sum: int) -> bool {
    sum == 4 || sum == 5 || sum == 6 || sum == 8 || sum == 9 || sum == 10
}

/// A field winner: 2, 3, 4, 9, 10, 11 or 12.
pub open spec fn spec_is_field(sum: int) -> bool {
    sum == 2 || sum == 3 || sum == 4 || sum == 9 || sum == 10 || sum == 11 || sum == 12
}

/// The six point numbers in slot order: 4, 5, 6, 8, 9, 10.
pub open spec fn point_at(index: int) -> int {
    if index < 3 {
        index + 4
    } else {
        index + 5
    }
}

/// The four hardway targets in slot order: 4, 6, 8, 10.
pub open spec fn hardway_at(index: int) -> int {
    2 * index + 4
}

/// Convert a board square index (0-35) to the dice sum (2-12); 0 off the board.
pub fn square_to_dice_sum(square: usize) -> (r: u8)
    ensures
        square < BOARD_SIZE ==> r as int == sum_of(square as int),
        square >= BOARD_SIZE ==> r == 0,
{
    if square >= BOARD_SIZE {
        return 0;
    }
    let die1 = (square / 6) + 1;
    let die2 = (square % 6) + 1;
    (die1 + die2) as u8
}

/// Get the individual dice values from a square.
pub fn square_to_dice(square: usize) -> (r: (u8, u8))
    requires
        square < BOARD_SIZE,
    ensures
        r.0 as int == die1_of(square as int),
        r.1 as int == die2_of(square as int),
        1 <= r.0 <= 6,
        1 <= r.1 <= 6,
{
    let die1 = ((square / 6) + 1) as u8;
    let die2 = ((square % 6) + 1) as u8;
    (die1, die2)
}

/// Check if a square shows doubles (1-1, 2-2, ..., 6-6): squares 0, 7, ..., 35.
pub fn is_hardway(square: usize) -> (r: bool)
    ensures
        r == (square < BOARD_SIZE && doubles_of(square as int)),
{
    square < BOARD_SIZE && square % 7 == 0
}

/// Check if a dice sum is "craps" (2, 3 or 12).
pub fn is_craps(sum: u8) -> (r: bool)
    ensures
        r == spec_is_craps(sum as int),
{
    sum == 2 || sum == 3 || sum == 12
}

/// Check if a dice sum is a "natural" (7 or 11).
pub fn is_natural(sum: u8) -> (r: bool)
    ensures
        r == spec_is_natural(sum as int),
{
    sum == 7 || sum == 11
}

/// Check if a dice sum is a point number (4, 5, 6, 8, 9, 10).
pub fn is_point_number(sum: u8) -> (r: bool)
    ensures
        r == spec_is_point(sum as int),
{
    matches!(sum, 4 | 5 | 6 | 8 | 9 | 10)
}

/// Check if a dice sum wins a field bet (2, 3, 4, 9, 10, 11, 12).
pub fn is_field_winner(sum: u8) -> (r: bool)
    ensures
        r == spec_is_field(sum as int),
{
    matches!(sum, 2 | 3 | 4 | 9 | 10 | 11 | 12)
}

/// The total shown by a doubles square (0 -> 2, 7 -> 4, ..., 35 -> 12).
pub fn hardway_square_to_sum(square: usize) -> (r: Option<u8>)
    ensures
        r is Some <==> (square < BOARD_SIZE && doubles_of(square as int)),
        r is Some ==> r->Some_0 as int == sum_of(square as int),
{
    match square {
        0 => Some(2),
        7 => Some(4),
        14 => Some(6),
        21 => Some(8),
        28 => Some(10),
        35 => Some(12),
        _ => None,
    }
}

/// Check if a roll hit a given hardway target: the target total, as doubles.
pub fn hit_hardway(square: usize, hardway_num: u8) -> (r: bool)
    ensures
        r == (square < BOARD_SIZE && sum_of(square as int) == hardway_num as int && doubles_of(
            square as int,
        )),
{
    let sum = square_to_dice_sum(square);
    if sum != hardway_num {
        return false;
    }
    is_hardway(square)
}

/// The sum a square stands for: 0 off the board.
pub open spec fn board_sum(square: int) -> int {
    if 0 <= square < 36 {
        sum_of(square)
    } else {
        0
    }
}

/// Check if a hardway bet on `hardway_num` loses: on a 7, or on the easy way
/// (the target total without doubles). Off the board the sum is 0.
pub fn hardway_loses(square: usize, hardway_num: u8) -> (r: bool)
    ensures
        r == (board_sum(square as int) == 7 || (board_sum(square as int) == hardway_num as int
            && !(square < BOARD_SIZE && doubles_of(square as int)))),
{
    let sum = square_to_dice_sum(square);
    if sum == 7 {
        return true;
    }
    if sum == hardway_num && !is_hardway(square) {
        return true;
    }
    false
}

/// Get all squares that produce a given sum, in increasing order.
pub fn sum_to_squares(sum: u8) -> (r: Vec<usize>)
    ensures
        forall|i: int, j: int| 0 <= i < j < r@.len() ==> r@[i] < r@[j],
        forall|sq: usize|
            #[trigger] r@.contains(sq) <==> (sq < BOARD_SIZE && sum_of(sq as int) == sum as int),
{
    let mut squares: Vec<usize> = Vec::new();
    let mut d1: u8 = 1;
    while d1 <= 6
        invariant
            1 <= d1 <= 7,
            forall|i: int, j: int| 0 <= i < j < squares@.len() ==> squares@[i] < squares@[j],
            forall|i: int|
                0 <= i < squares@.len() ==> squares@[i] < 6 * (d1 - 1) && squares@[i]
                    < BOARD_SIZE,
            forall|sq: usize|
                squares@.contains(sq) <==> (sq < 6 * (d1 - 1) && sq < BOARD_SIZE && sum_of(
                    sq as int,
                ) == sum as int),
        decreases 7 - d1,
    {
        let d2: u8 = if sum > d1 {
            sum - d1
        } else {
            0
        };
        if d2 >= 1 && d2 <= 6 {
            let square = ((d1 - 1) as usize) * 6 + ((d2 - 1) as usize);
            assert(square / 6 == d1 - 1 && square % 6 == d2 - 1);
            let ghost old_sq = squares@;
            squares.push(square);
            assert forall|sq: usize|
                squares@.contains(sq) <==> (sq < 6 * d1 && sq < BOARD_SIZE && sum_of(sq as int)
                    == sum as int) by {
                assert(squares@ == old_sq.push(square));
                assert(squares@[old_sq.len() as int] == square);
                assert(sum_of(square as int) == sum as int);
                if sq < 6 * d1 && sq >= 6 * (d1 - 1) && sum_of(sq as int) == sum as int {
                    assert(sq / 6 == d1 - 1);
                    assert(sum_of(sq as int) == d1 + sq % 6 + 1);
                    assert(sq % 6 == d2 - 1);
                    assert(sq == 6 * (sq / 6) + sq % 6);
                    assert(sq == square);
                }
                if squares@.contains(sq) && sq != square {
                    let k = choose|k: int| 0 <= k < squares@.len() && squares@[k] == sq;
                    assert(k < old_sq.len());
                    assert(old_sq[k] == sq);
                    assert(old_sq.contains(sq));
                }
                if old_sq.contains(sq) {
                    let k = choose|k: int| 0 <= k < old_sq.len() && old_sq[k] == sq;
                    assert(squares@[k] == sq);
                }
            }
        } else {
            assert forall|sq: usize|
                squares@.contains(sq) <==> (sq < 6 * d1 && sq < BOARD_SIZE && sum_of(sq as int)
                    == sum as int) by {
                if sq < 6 * d1 && sq >= 6 * (d1 - 1) && sq < BOARD_SIZE {
                    assert(sq / 6 == d1 - 1);
                    assert(sum_of(sq as int) == d1 + sq % 6 + 1);
                    assert(0 <= sq % 6 < 6);
                }
            }
        }
        d1 = d1 + 1;
    }
    squares
}

/// Convert a point number (4,5,6,8,9,10) to its slot (0-5).
pub fn point_to_index(point: u8) -> (r: Option<usize>)
    ensures
        r is Some <==> spec_is_point(point as int),
        r is Some ==> r->Some_0 < 6 && point_at(r->Some_0 as int) == point as int,
{
    match point {
        4 => Some(0),
        5 => Some(1),
        6 => Some(2),
        8 => Some(3),
        9 => Some(4),
        10 => Some(5),
        _ => None,
    }
}

/// Convert a slot (0-5) to its point number (4,5,6,8,9,10).
pub fn index_to_point(index: usize) -> (r: Option<u8>)
    ensures
        r is Some <==> index < 6,
        r is Some ==> r->Some_0 as int == point_at(index as int),
{
    match index {
        0 => Some(4),
        1 => Some(5),
        2 => Some(6),
        3 => Some(8),
        4 => Some(9),
        5 => Some(10),
        _ => None,
    }
}

/// Convert a hardway target (4,6,8,10) to its slot (0-3).
pub fn hardway_to_index(hardway: u8) -> (r: Option<usize>)
    ensures
        r is Some <==> (hardway == 4 || hardway == 6 || hardway == 8 || hardway == 10),
        r is Some ==> r->Some_0 < 4 && hardway_at(r->Some_0 as int) == hardway as int,
{
    match hardway {
        4 => Some(0),
        6 => Some(1),
        8 => Some(2),
        10 => Some(3),
        _ => None,
    }
}

/// Convert a dice sum (2-12) to its slot (0-10) for Yes/No/Next bets.
pub fn sum_to_index(sum: u8) -> (r: Option<usize>)
    ensures
        r is Some <==> (2 <= sum <= 12),
        r is Some ==> r->Some_0 as int == sum as int - 2,
{
    if sum >= 2 && sum <= 12 {
        Some((sum - 2) as usize)
    } else {
        None
    }
}

/// Convert a slot (0-10) to its dice sum (2-12).
pub fn index_to_sum(index: usize) -> (r: Option<u8>)
    ensures
        r is Some <==> index <= 10,
        r is Some ==> r->Some_0 as int == index as int + 2,
{
    if index <= 10 {
        Some((index + 2) as u8)
    } else {
        None
    }
}

/// A Yes/No target is a dice sum other than 7.
pub open spec fn spec_is_yes_no_sum(sum: int) -> bool {
    2 <= sum <= 12 && sum != 7
}

/// Check if a sum is valid for Yes/No bets (2-12 except 7).
pub fn is_valid_yes_no_sum(sum: u8) -> (r: bool)
    ensures
        r == spec_is_yes_no_sum(sum as int),
{
    sum >= 2 && sum <= 12 && sum != 7
}

} // verus!
