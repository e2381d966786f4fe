//! What a hand scores on each line that a hand can be played on.

use crate::hand::{is_hand, Dice, DieFace};
use vstd::prelude::*;
use vstd::string::*;

verus! {

/// What a small straight scores.
pub const VALUE_SMALL_STRAIGHT: i16 = 30;

/// What a large straight scores.
pub const VALUE_LARGE_STRAIGHT: i16 = 40;

/// What a full house scores.
pub const VALUE_FULL_HOUSE: i16 = 25;

/// What five of a kind scores.
pub const VALUE_DICE5: i16 = 50;

/// How many of the dice show `face`.
pub open spec fn count_face(faces: Seq<DieFace>, face: int) -> nat
    decreases faces.len(),
{
    if faces.len() == 0 {
        0
    } else {
        count_face(faces.drop_last(), face) + if faces.last() == face {
            1nat
        } else {
            0nat
        }
    }
}

/// What the dice show, added up.
pub open spec fn total_of_faces(faces: Seq<DieFace>) -> int
    decreases faces.len(),
{
    if faces.len() == 0 {
        0
    } else {
        total_of_faces(faces.drop_last()) + faces.last()
    }
}

/// Some face from 1 to 6 is shown by `n` dice or more.
pub open spec fn has_pile_of_at_least(faces: Seq<DieFace>, n: int) -> bool {
    exists|face: int| 1 <= face <= Dice::NUMBER_OF_FACES && count_face(faces, face) >= n
}

/// Some face from 1 to 6 is shown by `n` dice, no more and no fewer.
pub open spec fn has_pile_of_exactly(faces: Seq<DieFace>, n: int) -> bool {
    exists|face: int| 1 <= face <= Dice::NUMBER_OF_FACES && count_face(faces, face) == n
}

/// Each of the `length` faces that start at `first` is shown by some die.
pub open spec fn has_run(faces: Seq<DieFace>, first: int, length: int) -> bool {
    forall|face: int| first <= face < first + length ==> count_face(faces, face) >= 1
}

/// The dice show `length` faces in a row, somewhere from 1 to 6.
pub open spec fn has_straight(faces: Seq<DieFace>, length: int) -> bool {
    exists|first: int|
        1 <= first && first + length <= Dice::NUMBER_OF_FACES + 1 && #[trigger] has_run(
            faces,
            first,
            length,
        )
}

/// All five dice show one face, the hand that the last line of the card
/// asks for.
pub open spec fn is_five_alike(faces: Seq<DieFace>) -> bool {
    has_pile_of_at_least(faces, 5)
}

/// The faces that come before place `n` show `face` as often as the dice
/// before them do, and once more if die `n - 1` shows it.
pub proof fn lemma_count_face_step(faces: Seq<DieFace>, face: int, n: int)
    requires
        0 < n <= faces.len(),
    ensures
        count_face(faces.take(n), face) == count_face(faces.take(n - 1), face) + if faces[n - 1]
            == face {
            1nat
        } else {
            0nat
        },
{
    assert(faces.take(n).drop_last() == faces.take(n - 1));
}

/// The faces before place `n` add up to those before place `n - 1` and die
/// `n - 1`.
pub proof fn lemma_total_step(faces: Seq<DieFace>, n: int)
    requires
        0 < n <= faces.len(),
    ensures
        total_of_faces(faces.take(n)) == total_of_faces(faces.take(n - 1)) + faces[n - 1],
{
    assert(faces.take(n).drop_last() == faces.take(n - 1));
}

/// In a hand of five dice, counting a face is looking at each die once.
pub proof fn lemma_count_face_of_five(faces: Seq<DieFace>, face: int)
    requires
        faces.len() == 5,
    ensures
        count_face(faces, face) == (if faces[0] == face {
            1nat
        } else {
            0nat
        }) + (if faces[1] == face {
            1nat
        } else {
            0nat
        }) + (if faces[2] == face {
            1nat
        } else {
            0nat
        }) + (if faces[3] == face {
            1nat
        } else {
            0nat
        }) + (if faces[4] == face {
            1nat
        } else {
            0nat
        }),
{
    assert(faces.take(5) == faces);
    lemma_count_face_step(faces, face, 5);
    lemma_count_face_step(faces, face, 4);
    lemma_count_face_step(faces, face, 3);
    lemma_count_face_step(faces, face, 2);
    lemma_count_face_step(faces, face, 1);
    assert(count_face(faces.take(0), face) == 0);
}

/// A hand of five dice adds up to the sum of its five faces.
pub proof fn lemma_total_of_five(faces: Seq<DieFace>)
    requires
        faces.len() == 5,
    ensures
        total_of_faces(faces) == faces[0] + faces[1] + faces[2] + faces[3] + faces[4],
{
    assert(faces.take(5) == faces);
    lemma_total_step(faces, 5);
    lemma_total_step(faces, 4);
    lemma_total_step(faces, 3);
    lemma_total_step(faces, 2);
    lemma_total_step(faces, 1);
    assert(total_of_faces(faces.take(0)) == 0);
}

/// The dice that show `face`, added up.
pub fn sum_faces(hand: &Dice, face: DieFace) -> (sum: i16)
    requires
        hand.wf(),
    ensures
        sum == face * count_face(hand.dice@, face as int),
{
    let mut sum: i16 = 0;
    let n = hand.dice.len();
    proof {
        assert(hand.dice@.take(0).len() == 0);
        assert(face * 0 == 0) by (nonlinear_arith);
    }
    for i in 0..n
        invariant
            n == hand.dice@.len(),
            hand.wf(),
            sum == face * count_face(hand.dice@.take(i as int), face as int),
            0 <= sum <= Dice::NUMBER_OF_FACES * i,
    {
        proof {
            lemma_count_face_step(hand.dice@, face as int, i + 1);
            let before = count_face(hand.dice@.take(i as int), face as int);
            assert(face * (before + 1) == face * before + face) by (nonlinear_arith);
        }
        if hand.dice[i] == face {
            sum = sum + face as i16;
        }
    }
    proof {
        assert(hand.dice@.take(n as int) == hand.dice@);
    }
    sum
}

/// `tally` holds, for each face from 1 to 6 in turn, how many dice show it.
pub open spec fn is_tally_of(tally: Seq<usize>, faces: Seq<DieFace>) -> bool {
    &&& tally.len() == Dice::NUMBER_OF_FACES
    &&& forall|k: int| 0 <= k < tally.len() ==> #[trigger] tally[k] == count_face(faces, k + 1)
}

/// Counts the dice face by face: the first entry for the ones, the last for
/// the sixes.
pub fn sort_faces(hand: &Dice) -> (tally: Vec<usize>)
    ensures
        is_tally_of(tally@, hand.dice@),
{
    let mut tally: Vec<usize> = Vec::new();
    let n = hand.dice.len();
    let mut face: DieFace = 1;
    while face <= Dice::NUMBER_OF_FACES
        invariant
            n == hand.dice@.len(),
            1 <= face <= Dice::NUMBER_OF_FACES + 1,
            tally@.len() == face - 1,
            forall|k: int| 0 <= k < tally@.len() ==> #[trigger] tally@[k] == count_face(hand.dice@, k + 1),
        decreases Dice::NUMBER_OF_FACES + 1 - face,
    {
        let mut count: usize = 0;
        proof {
            assert(hand.dice@.take(0).len() == 0);
        }
        for i in 0..n
            invariant
                n == hand.dice@.len(),
                count == count_face(hand.dice@.take(i as int), face as int),
                count <= i,
        {
            proof {
                lemma_count_face_step(hand.dice@, face as int, i + 1);
            }
            if hand.dice[i] == face {
                count = count + 1;
            }
        }
        proof {
            assert(hand.dice@.take(n as int) == hand.dice@);
        }
        tally.push(count);
        face = face + 1;
    }
    tally
}

/// One sign for each face from 1 to 6: `+` where some die shows the face,
/// `-` where none does.
pub open spec fn signs_of_faces(faces: Seq<DieFace>) -> Seq<char> {
    Seq::new(
        Dice::NUMBER_OF_FACES as nat,
        |k: int|
            if count_face(faces, k + 1) >= 1 {
                '+'
            } else {
                '-'
            },
    )
}

/// Which faces the hand shows, as a text of six signs.
pub fn hand_to_string(hand: &Dice) -> (text: String)
    ensures
        text@ == signs_of_faces(hand.dice@),
{
    let faces_count = sort_faces(hand);
    let mut text = String::new();
    proof {
        reveal_strlit("+");
        reveal_strlit("-");
    }
    for k in 0..faces_count.len()
        invariant
            is_tally_of(faces_count@, hand.dice@),
            "+"@ == seq!['+'],
            "-"@ == seq!['-'],
            text@.len() == k,
            forall|j: int| 0 <= j < k ==> #[trigger] text@[j] == signs_of_faces(hand.dice@)[j],
    {
        if faces_count[k] >= 1 {
            text.append("+");
        } else {
            text.append("-");
        }
    }
    text
}

/// All five dice of the hand, added up.
pub fn sum_all_dice(hand: &Dice) -> (sum: i16)
    requires
        hand.wf(),
    ensures
        sum == total_of_faces(hand.dice@),
{
    let mut sum: i16 = 0;
    let n = hand.dice.len();
    proof {
        assert(hand.dice@.take(0).len() == 0);
    }
    for i in 0..n
        invariant
            n == hand.dice@.len(),
            hand.wf(),
            sum == total_of_faces(hand.dice@.take(i as int)),
            0 <= sum <= Dice::NUMBER_OF_FACES * i,
    {
        proof {
            lemma_total_step(hand.dice@, i + 1);
        }
        sum = sum + hand.dice[i] as i16;
    }
    proof {
        assert(hand.dice@.take(n as int) == hand.dice@);
    }
    sum
}

/// Looks for a face that `n` dice or more show.
fn pile_of_at_least(hand: &Dice, n: usize) -> (found: bool)
    ensures
        found == has_pile_of_at_least(hand.dice@, n as int),
{
    let faces_count = sort_faces(hand);
    let mut found = false;
    for k in 0..faces_count.len()
        invariant
            is_tally_of(faces_count@, hand.dice@),
            found == exists|face: int| 1 <= face <= k && count_face(hand.dice@, face) >= n,
    {
        if faces_count[k] >= n {
            proof {
                assert(count_face(hand.dice@, k + 1) >= n);
            }
            found = true;
        }
    }
    found
}

/// Looks for a face that `n` dice show, no more and no fewer.
fn pile_of_exactly(hand: &Dice, n: usize) -> (found: bool)
    ensures
        found == has_pile_of_exactly(hand.dice@, n as int),
{
    let faces_count = sort_faces(hand);
    let mut found = false;
    for k in 0..faces_count.len()
        invariant
            is_tally_of(faces_count@, hand.dice@),
            found == exists|face: int| 1 <= face <= k && count_face(hand.dice@, face) == n,
    {
        if faces_count[k] == n {
            proof {
                assert(count_face(hand.dice@, k + 1) == n);
            }
            found = true;
        }
    }
    found
}

/// Looks for `length` faces in a row that the hand shows.
fn straight_of(hand: &Dice, length: usize) -> (found: bool)
    requires
        1 <= length <= Dice::NUMBER_OF_FACES,
    ensures
        found == has_straight(hand.dice@, length as int),
{
    let faces_count = sort_faces(hand);
    let mut found = false;
    let mut first: usize = 0;
    while first + length <= faces_count.len()
        invariant
            1 <= length <= Dice::NUMBER_OF_FACES,
            is_tally_of(faces_count@, hand.dice@),
            first <= Dice::NUMBER_OF_FACES,
            found == exists|start: int|
                1 <= start <= first && start + length <= Dice::NUMBER_OF_FACES + 1
                    && #[trigger] has_run(hand.dice@, start, length as int),
        decreases Dice::NUMBER_OF_FACES + 1 - first,
    {
        let mut unbroken = true;
        let mut k: usize = first;
        while k < first + length
            invariant
                is_tally_of(faces_count@, hand.dice@),
                first <= k <= first + length <= Dice::NUMBER_OF_FACES,
                unbroken == forall|face: int|
                    first + 1 <= face < k + 1 ==> count_face(hand.dice@, face) >= 1,
            decreases first + length - k,
        {
            if faces_count[k] == 0 {
                proof {
                    assert(count_face(hand.dice@, k + 1) == 0);
                }
                unbroken = false;
            } else {
                proof {
                    assert(count_face(hand.dice@, k + 1) >= 1);
                }
            }
            k = k + 1;
        }
        proof {
            assert(unbroken == has_run(hand.dice@, first + 1, length as int));
        }
        if unbroken {
            found = true;
        }
        first = first + 1;
    }
    found
}

/// Whether all five dice show one face.
pub fn is_dice5(hand: &Dice) -> (alike: bool)
    ensures
        alike == is_five_alike(hand.dice@),
{
    pile_of_at_least(hand, 5)
}

/// The score on one of the six upper lines: the dice that show `face`,
/// added up.
pub open spec fn score_of_face(faces: Seq<DieFace>, face: int) -> int {
    face * count_face(faces, face)
}

/// The score for `n` of a kind: all the dice added up if some face is shown
/// by `n` dice or more, else nothing.
pub open spec fn score_of_kind(faces: Seq<DieFace>, n: int) -> int {
    if has_pile_of_at_least(faces, n) {
        total_of_faces(faces)
    } else {
        0
    }
}

/// The score for the small straight: four faces in a row. With `special`
/// set the hand counts as a straight whatever it shows.
pub open spec fn score_of_small_straight(faces: Seq<DieFace>, special: bool) -> int {
    if special || has_straight(faces, 4) {
        VALUE_SMALL_STRAIGHT as int
    } else {
        0
    }
}

/// The score for the large straight: five faces in a row. With `special`
/// set the hand counts as a straight whatever it shows.
pub open spec fn score_of_large_straight(faces: Seq<DieFace>, special: bool) -> int {
    if special || has_straight(faces, 5) {
        VALUE_LARGE_STRAIGHT as int
    } else {
        0
    }
}

/// Three of the dice show one face and the other two show another.
pub open spec fn is_full_house(faces: Seq<DieFace>) -> bool {
    exists|three: int, two: int|
        1 <= three <= Dice::NUMBER_OF_FACES && 1 <= two <= Dice::NUMBER_OF_FACES && three != two
            && count_face(faces, three) == 3 && count_face(faces, two) == 2
}

/// The score for the full house: three dice of one face and two of another.
/// With `special` set the hand counts as a full house whatever it shows.
pub open spec fn score_of_full_house(faces: Seq<DieFace>, special: bool) -> int {
    if special || is_full_house(faces) {
        VALUE_FULL_HOUSE as int
    } else {
        0
    }
}

/// The score for five of a kind.
pub open spec fn score_of_dice5(faces: Seq<DieFace>) -> int {
    if is_five_alike(faces) {
        VALUE_DICE5 as int
    } else {
        0
    }
}

/// Where `n` dice or more of a hand show one face from 1 to 6, the hand
/// adds up to `n` at the least.
pub proof fn lemma_pile_weighs(faces: Seq<DieFace>, n: int)
    requires
        is_hand(faces),
        has_pile_of_at_least(faces, n),
    ensures
        total_of_faces(faces) >= n,
{
    let face = choose|face: int| 1 <= face <= Dice::NUMBER_OF_FACES && count_face(faces, face) >= n;
    lemma_count_face_of_five(faces, face);
    lemma_total_of_five(faces);
    assert(faces[0] >= 0 && faces[1] >= 0 && faces[2] >= 0 && faces[3] >= 0 && faces[4] >= 0);
}

/// Aces: the dice that show 1, added up.
pub fn calc_ace(hand: &Dice, _special_dice5: bool) -> (score: i16)
    requires
        hand.wf(),
    ensures
        score == score_of_face(hand.dice@, 1),
        score == count_face(hand.dice@, 1),
{
    sum_faces(hand, 1)
}

/// Twos: the dice that show 2, added up.
pub fn calc_two(hand: &Dice, _special_dice5: bool) -> (score: i16)
    requires
        hand.wf(),
    ensures
        score == score_of_face(hand.dice@, 2),
{
    sum_faces(hand, 2)
}

/// Threes: the dice that show 3, added up.
pub fn calc_three(hand: &Dice, _special_dice5: bool) -> (score: i16)
    requires
        hand.wf(),
    ensures
        score == score_of_face(hand.dice@, 3),
{
    sum_faces(hand, 3)
}

/// Fours: the dice that show 4, added up.
pub fn calc_four(hand: &Dice, _special_dice5: bool) -> (score: i16)
    requires
        hand.wf(),
    ensures
        score == score_of_face(hand.dice@, 4),
{
    sum_faces(hand, 4)
}

/// Fives: the dice that show 5, added up.
pub fn calc_five(hand: &Dice, _special_dice5: bool) -> (score: i16)
    requires
        hand.wf(),
    ensures
        score == score_of_face(hand.dice@, 5),
{
    sum_faces(hand, 5)
}

/// Sixes: the dice that show 6, added up.
pub fn calc_six(hand: &Dice, _special_dice5: bool) -> (score: i16)
    requires
        hand.wf(),
    ensures
        score == score_of_face(hand.dice@, 6),
{
    sum_faces(hand, 6)
}

/// Three of a kind: scores all five dice, and so more than nothing, exactly
/// when three dice or more show one face.
pub fn calc_3k(hand: &Dice, _special_dice5: bool) -> (score: i16)
    requires
        hand.wf(),
    ensures
        score == score_of_kind(hand.dice@, 3),
        score > 0 <==> has_pile_of_at_least(hand.dice@, 3),
        score > 0 ==> score == total_of_faces(hand.dice@),
{
    let piles_of_at_least_three = pile_of_at_least(hand, 3);
    if piles_of_at_least_three {
        proof {
            lemma_pile_weighs(hand.dice@, 3);
        }
        sum_all_dice(hand)
    } else {
        0
    }
}

/// Four of a kind: scores all five dice, and so more than nothing, exactly
/// when four dice or more show one face.
pub fn calc_4k(hand: &Dice, _special_dice5: bool) -> (score: i16)
    requires
        hand.wf(),
    ensures
        score == score_of_kind(hand.dice@, 4),
        score > 0 <==> has_pile_of_at_least(hand.dice@, 4),
        score > 0 ==> score == total_of_faces(hand.dice@),
{
    let piles_of_at_least_four = pile_of_at_least(hand, 4);
    if piles_of_at_least_four {
        proof {
            lemma_pile_weighs(hand.dice@, 4);
        }
        sum_all_dice(hand)
    } else {
        0
    }
}

/// Small straight. `special_dice5` may be set only for a hand of five
/// alike, which then scores as a straight.
pub fn calc_ss(hand: &Dice, special_dice5: bool) -> (score: i16)
    requires
        hand.wf(),
        special_dice5 ==> is_five_alike(hand.dice@),
    ensures
        score == score_of_small_straight(hand.dice@, special_dice5),
{
    if special_dice5 {
        return VALUE_SMALL_STRAIGHT;
    }
    if straight_of(hand, 4) {
        VALUE_SMALL_STRAIGHT
    } else {
        0
    }
}

/// Large straight. `special_dice5` may be set only for a hand of five
/// alike, which then scores as a straight.
pub fn calc_ls(hand: &Dice, special_dice5: bool) -> (score: i16)
    requires
        hand.wf(),
        special_dice5 ==> is_five_alike(hand.dice@),
    ensures
        score == score_of_large_straight(hand.dice@, special_dice5),
{
    if special_dice5 {
        return VALUE_LARGE_STRAIGHT;
    }
    if straight_of(hand, 5) {
        VALUE_LARGE_STRAIGHT
    } else {
        0
    }
}

/// Five of a kind.
pub fn calc_dice5(hand: &Dice, _special_dice5: bool) -> (score: i16)
    requires
        hand.wf(),
    ensures
        score == score_of_dice5(hand.dice@),
{
    if is_dice5(hand) {
        VALUE_DICE5
    } else {
        0
    }
}

/// Full house. `special_dice5` may be set only for a hand of five alike,
/// which then scores as a full house.
pub fn calc_fh(hand: &Dice, special_dice5: bool) -> (score: i16)
    requires
        hand.wf(),
        special_dice5 ==> is_five_alike(hand.dice@),
    ensures
        score == score_of_full_house(hand.dice@, special_dice5),
        score == VALUE_FULL_HOUSE <==> special_dice5 || is_full_house(hand.dice@),
{
    if special_dice5 {
        return VALUE_FULL_HOUSE;
    }
    let piles_of_exactly_3 = pile_of_exactly(hand, 3);
    let piles_of_exactly_2 = pile_of_exactly(hand, 2);
    proof {
        let faces = hand.dice@;
        if piles_of_exactly_3 && piles_of_exactly_2 {
            let three = choose|face: int|
                1 <= face <= Dice::NUMBER_OF_FACES && count_face(faces, face) == 3;
            let two = choose|face: int|
                1 <= face <= Dice::NUMBER_OF_FACES && count_face(faces, face) == 2;
            assert(three != two && count_face(faces, three) == 3 && count_face(faces, two) == 2);
        }
    }
    if piles_of_exactly_3 && piles_of_exactly_2 {
        VALUE_FULL_HOUSE
    } else {
        0
    }
}

/// Chance: whatever the hand shows, added up.
pub fn calc_chance(hand: &Dice, _special_dice5: bool) -> (score: i16)
    requires
        hand.wf(),
    ensures
        score == total_of_faces(hand.dice@),
        score == hand.dice@[0] + hand.dice@[1] + hand.dice@[2] + hand.dice@[3] + hand.dice@[4],
{
    proof {
        lemma_total_of_five(hand.dice@);
    }
    sum_all_dice(hand)
}

} // verus!
