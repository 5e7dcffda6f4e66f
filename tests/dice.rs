use ore_craps::dice::{
    hardway_loses, hardway_square_to_sum, hardway_to_index, hit_hardway, index_to_point,
    index_to_sum, is_craps, is_field_winner, is_hardway, is_natural, is_point_number,
    is_valid_yes_no_sum, point_to_index, square_to_dice, square_to_dice_sum, sum_to_index,
    sum_to_squares,
};

#[test]
fn test_square_to_dice_sum() {
    assert_eq!(square_to_dice_sum(0), 2);
    assert_eq!(square_to_dice_sum(1), 3);
    assert_eq!(square_to_dice_sum(5), 7);
    assert_eq!(square_to_dice_sum(6), 3);
    assert_eq!(square_to_dice_sum(7), 4);
    assert_eq!(square_to_dice_sum(35), 12);
}

#[test]
fn test_is_hardway() {
    assert!(is_hardway(0));
    assert!(is_hardway(7));
    assert!(is_hardway(14));
    assert!(is_hardway(21));
    assert!(is_hardway(28));
    assert!(is_hardway(35));
    assert!(!is_hardway(1));
    assert!(!is_hardway(6));
}

#[test]
fn test_is_craps() {
    assert!(is_craps(2));
    assert!(is_craps(3));
    assert!(is_craps(12));
    assert!(!is_craps(7));
    assert!(!is_craps(11));
}

#[test]
fn test_is_natural() {
    assert!(is_natural(7));
    assert!(is_natural(11));
    assert!(!is_natural(2));
    assert!(!is_natural(6));
}

#[test]
fn square_off_the_board_has_no_sum() {
    assert_eq!(square_to_dice_sum(36), 0);
    assert!(!is_hardway(42));
}

#[test]
fn squares_map_to_both_dice() {
    assert_eq!(square_to_dice(0), (1, 1));
    assert_eq!(square_to_dice(5), (1, 6));
    assert_eq!(square_to_dice(6), (2, 1));
    assert_eq!(square_to_dice(35), (6, 6));
    for square in 0..36usize {
        let (d1, d2) = square_to_dice(square);
        assert_eq!(d1 + d2, square_to_dice_sum(square));
        assert_eq!(is_hardway(square), d1 == d2);
    }
}

#[test]
fn point_and_field_numbers() {
    for sum in 0u8..=13 {
        assert_eq!(is_point_number(sum), [4, 5, 6, 8, 9, 10].contains(&sum));
        assert_eq!(is_field_winner(sum), [2, 3, 4, 9, 10, 11, 12].contains(&sum));
    }
}

#[test]
fn hardway_targets() {
    assert_eq!(hardway_square_to_sum(0), Some(2));
    assert_eq!(hardway_square_to_sum(21), Some(8));
    assert_eq!(hardway_square_to_sum(35), Some(12));
    assert_eq!(hardway_square_to_sum(1), None);
    // 2-2 hits hard 4; 1-3 is the easy way
    assert!(hit_hardway(7, 4));
    assert!(!hit_hardway(2, 4));
    assert!(hardway_loses(2, 4));
    assert!(!hardway_loses(7, 4));
    // any 7 loses every hardway
    assert!(hardway_loses(5, 10));
    // another total leaves it standing
    assert!(!hardway_loses(0, 4));
    // off the board there is no roll
    assert!(!hardway_loses(36, 4));
}

#[test]
fn squares_of_a_sum() {
    assert_eq!(sum_to_squares(2), vec![0]);
    assert_eq!(sum_to_squares(7), vec![5, 10, 15, 20, 25, 30]);
    assert_eq!(sum_to_squares(12), vec![35]);
    assert_eq!(sum_to_squares(4), vec![2, 7, 12]);
    assert!(sum_to_squares(1).is_empty());
    assert!(sum_to_squares(13).is_empty());
}

#[test]
fn slot_maps_round_trip() {
    for (i, p) in [4u8, 5, 6, 8, 9, 10].iter().enumerate() {
        assert_eq!(point_to_index(*p), Some(i));
        assert_eq!(index_to_point(i), Some(*p));
    }
    assert_eq!(point_to_index(7), None);
    assert_eq!(index_to_point(6), None);
    assert_eq!(hardway_to_index(4), Some(0));
    assert_eq!(hardway_to_index(10), Some(3));
    assert_eq!(hardway_to_index(5), None);
    assert_eq!(sum_to_index(2), Some(0));
    assert_eq!(sum_to_index(12), Some(10));
    assert_eq!(sum_to_index(13), None);
    assert_eq!(index_to_sum(10), Some(12));
    assert_eq!(index_to_sum(11), None);
    assert!(is_valid_yes_no_sum(2));
    assert!(!is_valid_yes_no_sum(7));
    assert!(!is_valid_yes_no_sum(13));
}
