use dice5::calchand::{
    VALUE_DICE5, VALUE_FULL_HOUSE, VALUE_LARGE_STRAIGHT, VALUE_SMALL_STRAIGHT,
};
use dice5::hand::{Dice, DieFace};
use dice5::line::LineId as L;
use dice5::scorecard;

#[test]
fn calchand_test_ace_all_aces() {
    let test_dice: Vec<DieFace> = vec![1, 1, 1, 1, 1];
    let hand = Dice::roll_fake(test_dice);

    let scorecard = scorecard::get_new_scorecard_data();
    let score = scorecard.get_scoreable_by_id(L::Ace).calc(&hand, false);
    assert_eq!(score, 1 * 5);
}

#[test]
fn calchand_test_ace_two_aces() {
    let test_dice: Vec<DieFace> = vec![1, 1, 2, 3, 2];
    let hand = Dice::roll_fake(test_dice);

    let scorecard = scorecard::get_new_scorecard_data();
    let score = scorecard.get_scoreable_by_id(L::Ace).calc(&hand, false);
    assert_eq!(score, 1 * 2);
}

#[test]
fn calchand_test_two_all_twos() {
    let test_dice: Vec<DieFace> = vec![2, 2, 2, 2, 2];
    let hand = Dice::roll_fake(test_dice);

    let scorecard = scorecard::get_new_scorecard_data();
    let score = scorecard.get_scoreable_by_id(L::Two).calc(&hand, false);
    assert_eq!(score, 2 * 5);
}

#[test]
fn calchand_test_two_two_twos() {
    let test_dice: Vec<DieFace> = vec![2, 2, 3, 4, 5];
    let hand = Dice::roll_fake(test_dice);

    let scorecard = scorecard::get_new_scorecard_data();
    let score = scorecard.get_scoreable_by_id(L::Two).calc(&hand, false);
    assert_eq!(score, 2 * 2);
}

#[test]
fn calchand_test_three_all_threes() {
    let test_dice: Vec<DieFace> = vec![3, 3, 3, 3, 3];
    let hand = Dice::roll_fake(test_dice);

    let scorecard = scorecard::get_new_scorecard_data();
    let score = scorecard.get_scoreable_by_id(L::Three).calc(&hand, false);
    assert_eq!(score, 3 * 5);
}

#[test]
fn calchand_test_three_four_threes() {
    let test_dice: Vec<DieFace> = vec![3, 3, 3, 3, 1];
    let hand = Dice::roll_fake(test_dice);

    let scorecard = scorecard::get_new_scorecard_data();
    let score = scorecard.get_scoreable_by_id(L::Three).calc(&hand, false);
    assert_eq!(score, 3 * 4);
}

#[test]
fn calchand_test_four_all_fours() {
    let test_dice: Vec<DieFace> = vec![4, 4, 4, 4, 4];
    let hand = Dice::roll_fake(test_dice);

    let scorecard = scorecard::get_new_scorecard_data();
    let score = scorecard.get_scoreable_by_id(L::Four).calc(&hand, false);
    assert_eq!(score, 4 * 5);
}

#[test]
fn calchand_test_four_zero_fours() {
    let test_dice: Vec<DieFace> = vec![1, 2, 3, 5, 5];
    let hand = Dice::roll_fake(test_dice);

    let scorecard = scorecard::get_new_scorecard_data();
    let score = scorecard.get_scoreable_by_id(L::Four).calc(&hand, false);
    assert_eq!(score, 4 * 0);
}

#[test]
fn calchand_test_fives_all_aces() {
    let test_dice: Vec<DieFace> = vec![5, 5, 5, 5, 5];
    let hand = Dice::roll_fake(test_dice);

    let scorecard = scorecard::get_new_scorecard_data();
    let score = scorecard.get_scoreable_by_id(L::Five).calc(&hand, false);
    assert_eq!(score, 5 * 5);
}

#[test]
fn calchand_test_six_all_sixes() {
    let test_dice: Vec<DieFace> = vec![6, 6, 6, 6, 6];
    let hand = Dice::roll_fake(test_dice);

    let scorecard = scorecard::get_new_scorecard_data();
    let score = scorecard.get_scoreable_by_id(L::Six).calc(&hand, false);
    assert_eq!(score, 6 * 5);
}

#[test]
fn calchand_test_3k_three_sixes() {
    let test_dice: Vec<DieFace> = vec![6, 6, 6, 1, 2];
    let hand = Dice::roll_fake(test_dice);

    let scorecard = scorecard::get_new_scorecard_data();
    let score = scorecard.get_scoreable_by_id(L::ThreeKind).calc(&hand, false);
    assert_eq!(score, (6 * 3) + 1 + 2);
}

#[test]
fn calchand_test_3k_five_aces() {
    let test_dice: Vec<DieFace> = vec![1, 1, 1, 1, 1];
    let hand = Dice::roll_fake(test_dice);

    let scorecard = scorecard::get_new_scorecard_data();
    let score = scorecard.get_scoreable_by_id(L::ThreeKind).calc(&hand, false);
    assert_eq!(score, 5);
}

#[test]
fn calchand_test_3k_four_threes() {
    let test_dice: Vec<DieFace> = vec![3, 3, 3, 3, 1];
    let hand = Dice::roll_fake(test_dice);

    let scorecard = scorecard::get_new_scorecard_data();
    let score = scorecard.get_scoreable_by_id(L::ThreeKind).calc(&hand, false);
    assert_eq!(score, 3 * 4 + 1);
}

#[test]
fn calchand_test_3k_no_3k() {
    let test_dice: Vec<DieFace> = vec![1, 1, 2, 2, 3];
    let hand = Dice::roll_fake(test_dice);

    let scorecard = scorecard::get_new_scorecard_data();
    let score = scorecard.get_scoreable_by_id(L::ThreeKind).calc(&hand, false);
    assert_eq!(score, 0);
}

#[test]
fn calchand_test_4k_four_sixes() {
    let test_dice: Vec<DieFace> = vec![6, 6, 6, 6, 2];
    let hand = Dice::roll_fake(test_dice);

    let scorecard = scorecard::get_new_scorecard_data();
    let score = scorecard.get_scoreable_by_id(L::FourKind).calc(&hand, false);
    assert_eq!(score, (6 * 4) + 2);
}

#[test]
fn calchand_test_4k_five_aces() {
    let test_dice: Vec<DieFace> = vec![1, 1, 1, 1, 1];
    let hand = Dice::roll_fake(test_dice);

    let scorecard = scorecard::get_new_scorecard_data();
    let score = scorecard.get_scoreable_by_id(L::FourKind).calc(&hand, false);
    assert_eq!(score, 5);
}

#[test]
fn calchand_test_4k_no_4k() {
    let test_dice: Vec<DieFace> = vec![1, 1, 1, 2, 2];
    let hand = Dice::roll_fake(test_dice);

    let scorecard = scorecard::get_new_scorecard_data();
    let score = scorecard.get_scoreable_by_id(L::FourKind).calc(&hand, false);
    assert_eq!(score, 0);
}

#[test]
fn calchand_test_small_straight_low_straight() {
    let test_dice: Vec<DieFace> = vec![1, 4, 3, 2, 1];
    let hand = Dice::roll_fake(test_dice);

    let scorecard = scorecard::get_new_scorecard_data();
    let score = scorecard.get_scoreable_by_id(L::SmallStraight).calc(&hand, false);
    assert_eq!(score, VALUE_SMALL_STRAIGHT);
}

#[test]
fn calchand_test_small_straight_mid_straight() {
    let test_dice: Vec<DieFace> = vec![2, 4, 3, 2, 5];
    let hand = Dice::roll_fake(test_dice);

    let scorecard = scorecard::get_new_scorecard_data();
    let score = scorecard.get_scoreable_by_id(L::SmallStraight).calc(&hand, false);
    assert_eq!(score, VALUE_SMALL_STRAIGHT);
}

#[test]
fn calchand_test_small_straight_high_straight() {
    let test_dice: Vec<DieFace> = vec![6, 3, 4, 6, 5];
    let hand = Dice::roll_fake(test_dice);

    let scorecard = scorecard::get_new_scorecard_data();
    let score = scorecard.get_scoreable_by_id(L::SmallStraight).calc(&hand, false);
    assert_eq!(score, VALUE_SMALL_STRAIGHT);
}

#[test]
fn calchand_test_small_straight_large_straight() {
    let test_dice: Vec<DieFace> = vec![6, 3, 4, 2, 5];
    let hand = Dice::roll_fake(test_dice);

    let scorecard = scorecard::get_new_scorecard_data();
    let score = scorecard.get_scoreable_by_id(L::SmallStraight).calc(&hand, false);
    assert_eq!(score, VALUE_SMALL_STRAIGHT);
}

#[test]
fn calchand_test_small_straight_no_straight() {
    let test_dice: Vec<DieFace> = vec![6, 3, 3, 2, 5];
    let hand = Dice::roll_fake(test_dice);

    let scorecard = scorecard::get_new_scorecard_data();
    let score = scorecard.get_scoreable_by_id(L::SmallStraight).calc(&hand, false);
    assert_eq!(score, 0);
}

#[test]
fn calchand_test_small_straight_dice5_special() {
    let test_dice: Vec<DieFace> = vec![3, 3, 3, 3, 3];
    let hand = Dice::roll_fake(test_dice);

    let scorecard = scorecard::get_new_scorecard_data();
    let score = scorecard.get_scoreable_by_id(L::SmallStraight).calc(&hand, true);
    assert_eq!(score, VALUE_SMALL_STRAIGHT);
}

#[test]
fn calchand_test_large_straight_high_straight() {
    let test_dice: Vec<DieFace> = vec![6, 3, 4, 2, 5];
    let hand = Dice::roll_fake(test_dice);

    let scorecard = scorecard::get_new_scorecard_data();
    let score = scorecard.get_scoreable_by_id(L::LargeStraight).calc(&hand, false);
    assert_eq!(score, VALUE_LARGE_STRAIGHT);
}

#[test]
fn calchand_test_large_straight_no_straight() {
    let test_dice: Vec<DieFace> = vec![6, 2, 2, 2, 5];
    let hand = Dice::roll_fake(test_dice);

    let scorecard = scorecard::get_new_scorecard_data();
    let score = scorecard.get_scoreable_by_id(L::LargeStraight).calc(&hand, false);
    assert_eq!(score, 0);
}

#[test]
fn calchand_test_large_straight_dice5_special() {
    let test_dice: Vec<DieFace> = vec![1, 1, 1, 1, 1];
    let hand = Dice::roll_fake(test_dice);

    let scorecard = scorecard::get_new_scorecard_data();
    let score = scorecard.get_scoreable_by_id(L::LargeStraight).calc(&hand, true);
    assert_eq!(score, VALUE_LARGE_STRAIGHT);
}

#[test]
fn calchand_test_large_straight_low_straight() {
    let test_dice: Vec<DieFace> = vec![1, 3, 4, 2, 5];
    let hand = Dice::roll_fake(test_dice);

    let scorecard = scorecard::get_new_scorecard_data();
    let score = scorecard.get_scoreable_by_id(L::LargeStraight).calc(&hand, false);
    assert_eq!(score, VALUE_LARGE_STRAIGHT);
}

#[test]
fn calchand_test_full_house_no_full_house() {
    let test_dice: Vec<DieFace> = vec![6, 3, 3, 2, 5];
    let hand = Dice::roll_fake(test_dice);

    let scorecard = scorecard::get_new_scorecard_data();
    let score = scorecard.get_scoreable_by_id(L::FullHouse).calc(&hand, false);
    assert_eq!(score, 0);
}

#[test]
fn calchand_test_full_house_full_house() {
    let test_dice: Vec<DieFace> = vec![6, 3, 3, 6, 3];
    let hand = Dice::roll_fake(test_dice);

    let scorecard = scorecard::get_new_scorecard_data();
    let score = scorecard.get_scoreable_by_id(L::FullHouse).calc(&hand, false);
    assert_eq!(score, VALUE_FULL_HOUSE);
}

#[test]
fn calchand_test_full_house_dice5_special() {
    let test_dice: Vec<DieFace> = vec![2, 2, 2, 2, 2];
    let hand = Dice::roll_fake(test_dice);

    let scorecard = scorecard::get_new_scorecard_data();
    let score = scorecard.get_scoreable_by_id(L::FullHouse).calc(&hand, true);
    assert_eq!(score, VALUE_FULL_HOUSE);
}

#[test]
fn calchand_test_chance() {
    let test_dice: Vec<DieFace> = vec![1, 2, 3, 4, 5];
    let hand = Dice::roll_fake(test_dice);

    let scorecard = scorecard::get_new_scorecard_data();
    let score = scorecard.get_scoreable_by_id(L::Chance).calc(&hand, false);
    assert_eq!(score, 1 + 2 + 3 + 4 + 5);
}

#[test]
fn calchand_test_dice5_has_dice5() {
    let test_dice: Vec<DieFace> = vec![1, 1, 1, 1, 1];
    let hand = Dice::roll_fake(test_dice);

    let scorecard = scorecard::get_new_scorecard_data();
    let score = scorecard.get_scoreable_by_id(L::Dice5).calc(&hand, false);
    assert_eq!(score, VALUE_DICE5);
}

#[test]
fn calchand_test_dice5_has_no_dice5() {
    let test_dice: Vec<DieFace> = vec![2, 1, 1, 1, 1];
    let hand = Dice::roll_fake(test_dice);

    let scorecard = scorecard::get_new_scorecard_data();
    let score = scorecard.get_scoreable_by_id(L::Dice5).calc(&hand, false);
    assert_eq!(score, 0);
}

#[test]
fn calchand_test_aces_all_zeros() {
    let test_dice: Vec<DieFace> = vec![0, 0, 0, 0, 0];
    let hand = Dice::roll_fake(test_dice);

    let scorecard = scorecard::get_new_scorecard_data();
    let score = scorecard.get_scoreable_by_id(L::Ace).calc(&hand, false);
    assert_eq!(score, 0);
}
