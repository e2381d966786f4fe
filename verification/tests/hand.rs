use dice5::hand::Dice;

#[test]
fn first_roll_correct_number_of_dice() {
    let hand = Dice::first_roll();

    assert_eq!(hand.dice.len(), Dice::NUMBER_OF_DICE);
    assert_eq!(hand.rolls_left, Dice::ROLLS_PER_TURN - 1);
}

#[test]
fn re_roll_correct_number_of_dice() {
    let hand = Dice::first_roll();
    let reroll_flags: Vec<bool> = hand.dice.iter().map(|_i| true).collect();

    assert_eq!(hand.dice.len(), Dice::NUMBER_OF_DICE);
    assert_eq!(hand.rolls_left, Dice::ROLLS_PER_TURN - 1);

    let hand2 = Dice::reroll_hand(hand, &reroll_flags);
    assert_eq!(hand2.dice.len(), Dice::NUMBER_OF_DICE);
    assert_eq!(hand2.rolls_left, Dice::ROLLS_PER_TURN - 2);
}

#[test]
fn hand_roll_die_face_in_range() {
    for _i in 0..1000 {
        let die = Dice::roll_die();
        assert!(!(die > 6), "die value too high {}", die);
        assert!(!(die < 1), "die value too low {}", die);
    }
}

#[test]
fn dice_roll_die_face_in_range() {
    for _i in 0..1000 {
        let die = Dice::roll_die();
        assert!(!(die > 6), "die value too high {}", die);
        assert!(!(die < 1), "die value too low {}", die);
    }
}

#[test]
fn roll_all_correct_number_of_dice() {
    let hand = Dice::roll_all();

    assert_eq!(hand.dice.len(), Dice::NUMBER_OF_DICE);
}

#[test]
fn get_empty_hand_correct_number_of_dice() {
    let hand = Dice::get_empty_hand();

    assert_eq!(hand.dice.len(), Dice::NUMBER_OF_DICE);
}

#[test]
fn empty_hand_shows_no_face_and_has_every_roll_left() {
    let hand = Dice::get_empty_hand();

    assert_eq!(hand.dice, vec![0, 0, 0, 0, 0]);
    assert_eq!(hand.rolls_left, 3);
}

#[test]
fn roll_fake_keeps_the_faces_and_leaves_two_rerolls() {
    let hand = Dice::roll_fake(vec![6, 1, 4, 4, 2]);

    assert_eq!(hand.dice, vec![6, 1, 4, 4, 2]);
    assert_eq!(hand.rolls_left, 2);
}

#[test]
fn first_roll_and_roll_all_show_rolled_faces_only() {
    for _i in 0..200 {
        let hand = Dice::first_roll();
        assert!(hand.dice.iter().all(|&face| 1 <= face && face <= 6));
        let hand = Dice::roll_all();
        assert!(hand.dice.iter().all(|&face| 1 <= face && face <= 6));
        assert_eq!(hand.rolls_left, 2);
    }
}

#[test]
fn roll_die_shows_more_than_one_face() {
    let first = Dice::roll_die();
    let mut other_seen = false;
    for _i in 0..1000 {
        if Dice::roll_die() != first {
            other_seen = true;
        }
    }
    assert!(other_seen);
}

#[test]
fn reroll_with_given_throws_replaces_flagged_dice_only() {
    let hand = Dice::roll_fake(vec![1, 2, 3, 4, 5]);
    let flags = [true, false, true, false, false];
    let rolled = [6, 0, 5, 0, 0];

    let next = Dice::reroll_hand_with(hand, &flags, &rolled);

    assert_eq!(next.dice, vec![6, 2, 5, 4, 5]);
    assert_eq!(next.rolls_left, 1);
}

#[test]
fn reroll_with_no_flag_set_still_costs_a_reroll() {
    let hand = Dice::roll_fake(vec![1, 2, 3, 4, 5]);
    let flags = [false; 5];
    let rolled = [6, 6, 6, 6, 6];

    let next = Dice::reroll_hand_with(hand, &flags, &rolled);

    assert_eq!(next.dice, vec![1, 2, 3, 4, 5]);
    assert_eq!(next.rolls_left, 1);
}

#[test]
fn reroll_keeps_unflagged_dice() {
    for _i in 0..100 {
        let hand = Dice::roll_fake(vec![1, 2, 3, 4, 5]);
        let next = Dice::reroll_hand(hand, &[false, true, false, true, false]);

        assert_eq!(next.dice[0], 1);
        assert_eq!(next.dice[2], 3);
        assert_eq!(next.dice[4], 5);
        assert!(1 <= next.dice[1] && next.dice[1] <= 6);
        assert!(1 <= next.dice[3] && next.dice[3] <= 6);
        assert_eq!(next.rolls_left, 1);
    }
}

#[test]
fn two_rerolls_use_up_the_turn() {
    let hand = Dice::first_roll();
    assert_eq!(hand.rolls_left, 2);
    let hand = Dice::reroll_hand(hand, &[true, true, false, false, false]);
    assert_eq!(hand.rolls_left, 1);
    let hand = Dice::reroll_hand(hand, &[false, false, false, false, false]);
    assert_eq!(hand.rolls_left, 0);
}
