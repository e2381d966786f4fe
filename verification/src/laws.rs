//! What holds of every hand and of every score card, whatever the game
//! has been so far.

use crate::calchand::{
    count_face, has_pile_of_at_least, has_run, has_straight, is_five_alike,
    lemma_count_face_of_five, lemma_pile_weighs, lemma_total_of_five, score_of_kind,
    signs_of_faces, VALUE_FULL_HOUSE, VALUE_LARGE_STRAIGHT, VALUE_SMALL_STRAIGHT,
};
use crate::hand::{is_hand, Dice, DieFace};
use crate::line::{LineId, SetError, NUMBER_OF_SCOREABLE_LINES};
use crate::scorecard::ScoreCardData;
use crate::state::{fits_i16, highest_score, line_score, CardState};
use vstd::prelude::*;

verus! {

/// A hand shows five alike exactly when its first die has been rolled and
/// the other four show what it shows.
pub proof fn lemma_five_alike_is_one_face(faces: Seq<DieFace>)
    requires
        is_hand(faces),
    ensures
        is_five_alike(faces) <==> 1 <= faces[0] && faces[1] == faces[0] && faces[2] == faces[0]
            && faces[3] == faces[0] && faces[4] == faces[0],
{
    if is_five_alike(faces) {
        let face = choose|face: int|
            1 <= face <= Dice::NUMBER_OF_FACES && count_face(faces, face) >= 5;
        lemma_count_face_of_five(faces, face);
    }
    if 1 <= faces[0] && faces[1] == faces[0] && faces[2] == faces[0] && faces[3] == faces[0]
        && faces[4] == faces[0] {
        lemma_count_face_of_five(faces, faces[0] as int);
        assert(count_face(faces, faces[0] as int) >= 5);
    }
}

/// A hand scores on three or four of a kind exactly when it shows that many
/// of one face, and what it then scores is all of its dice.
pub proof fn lemma_kind_scores_with_its_pile(faces: Seq<DieFace>, n: int)
    requires
        is_hand(faces),
        n >= 1,
    ensures
        score_of_kind(faces, n) > 0 <==> has_pile_of_at_least(faces, n),
        score_of_kind(faces, n) > 0 ==> score_of_kind(faces, n) == faces[0] + faces[1] + faces[2]
            + faces[3] + faces[4],
{
    lemma_total_of_five(faces);
    if has_pile_of_at_least(faces, n) {
        lemma_pile_weighs(faces, n);
    }
}

/// A hand holds a straight exactly where the text of its faces shows that
/// many `+` in a row.
pub proof fn lemma_straight_is_row_of_signs(faces: Seq<DieFace>, length: int)
    requires
        length >= 1,
    ensures
        has_straight(faces, length) <==> exists|at: int|
            0 <= at && at + length <= Dice::NUMBER_OF_FACES && #[trigger] row_of_signs(
                faces,
                at,
                length,
            ),
{
    if has_straight(faces, length) {
        let first = choose|first: int|
            1 <= first && first + length <= Dice::NUMBER_OF_FACES + 1 && #[trigger] has_run(
                faces,
                first,
                length,
            );
        assert forall|k: int| first - 1 <= k < first - 1 + length implies signs_of_faces(faces)[k]
            == '+' by {
            assert(count_face(faces, k + 1) >= 1);
        }
        assert(row_of_signs(faces, first - 1, length));
    }
    if exists|at: int|
        0 <= at && at + length <= Dice::NUMBER_OF_FACES && #[trigger] row_of_signs(
            faces,
            at,
            length,
        ) {
        let at = choose|at: int|
            0 <= at && at + length <= Dice::NUMBER_OF_FACES && #[trigger] row_of_signs(
                faces,
                at,
                length,
            );
        assert forall|face: int| at + 1 <= face < at + 1 + length implies count_face(faces, face)
            >= 1 by {
            assert(signs_of_faces(faces)[face - 1] == '+');
        }
        assert(has_run(faces, at + 1, length));
    }
}

/// The text of the faces shows `+` at each of the `length` places from
/// `at` on.
pub open spec fn row_of_signs(faces: Seq<DieFace>, at: int, length: int) -> bool {
    forall|k: int| at <= k < at + length ==> signs_of_faces(faces)[k] == '+'
}

/// A hand of five alike shows no two faces in a row, let alone four, and is
/// no full house: without the special grant it scores nothing on those
/// lines.
pub proof fn lemma_five_alike_scores_nothing_unaided(faces: Seq<DieFace>)
    requires
        is_hand(faces),
        is_five_alike(faces),
    ensures
        line_score(LineId::SmallStraight, faces, false) == 0,
        line_score(LineId::LargeStraight, faces, false) == 0,
        line_score(LineId::FullHouse, faces, false) == 0,
{
    lemma_five_alike_is_one_face(faces);
    assert forall|first: int, length: int| length >= 2 && #[trigger] has_run(
        faces,
        first,
        length,
    ) implies false by {
        lemma_count_face_of_five(faces, first);
        lemma_count_face_of_five(faces, first + 1);
        assert(count_face(faces, first) >= 1);
        assert(count_face(faces, first + 1) >= 1);
    }
    assert(!has_straight(faces, 4));
    assert(!has_straight(faces, 5));
    assert forall|three: int, two: int|
        !(count_face(faces, three) == 3 && count_face(faces, two) == 2) by {
        lemma_count_face_of_five(faces, three);
    }
}

/// No hand scores less than nothing on a line, nor more than the line
/// allows.
pub proof fn lemma_line_score_range(id: LineId, faces: Seq<DieFace>, special: bool)
    requires
        is_hand(faces),
    ensures
        0 <= line_score(id, faces, special) <= highest_score(id),
{
    lemma_total_of_five(faces);
    lemma_count_face_of_five(faces, 1);
    lemma_count_face_of_five(faces, 2);
    lemma_count_face_of_five(faces, 3);
    lemma_count_face_of_five(faces, 4);
    lemma_count_face_of_five(faces, 5);
    lemma_count_face_of_five(faces, 6);
}

/// The rule of the further five alike: on a card where five of a kind has
/// been played, a hand of five alike that is played on a free line is
/// granted the small straight, the large straight and the full house at
/// their full value, and earns the bonus once, whatever the line.
pub proof fn lemma_further_five_alike(state: CardState, id: LineId, faces: Seq<DieFace>)
    requires
        state.wf(),
        is_hand(faces),
        state.played(LineId::Dice5),
        is_five_alike(faces),
        state.set_result(id) is Ok,
    ensures
        state.play_result(id, faces) is Ok,
        id == LineId::SmallStraight ==> state.play_result(id, faces) == Ok::<i16, SetError>(
            VALUE_SMALL_STRAIGHT,
        ),
        id == LineId::LargeStraight ==> state.play_result(id, faces) == Ok::<i16, SetError>(
            VALUE_LARGE_STRAIGHT,
        ),
        id == LineId::FullHouse ==> state.play_result(id, faces) == Ok::<i16, SetError>(
            VALUE_FULL_HOUSE,
        ),
        state.after_play(id, faces).bonus == state.bonus + 1,
        state.after_play(id, faces).score_of(id) == Some(state.score_for(id, faces)),
{
}

/// The bonus is earned by nothing else: a play counts for it exactly when
/// it goes through with a hand of five alike on a card where five of a
/// kind has been played. Any other play leaves the count as it was.
pub proof fn lemma_bonus_only_for_further_five_alike(
    state: CardState,
    id: LineId,
    faces: Seq<DieFace>,
)
    ensures
        state.after_play(id, faces).bonus == if state.play_result(id, faces) is Ok
            && state.played(LineId::Dice5) && is_five_alike(faces) {
            state.bonus + 1
        } else {
            state.bonus
        },
{
}

/// A line is played once: after a play that went through, a second hand on
/// the same line is refused as already set, and the card stays as the first
/// play left it, with the first score on the line.
pub proof fn lemma_second_play_refused(
    state: CardState,
    id: LineId,
    first: Seq<DieFace>,
    second: Seq<DieFace>,
)
    requires
        state.play_result(id, first) is Ok,
    ensures
        state.after_play(id, first).play_result(id, second) == Err::<i16, SetError>(
            SetError::AlreadySet,
        ),
        state.after_play(id, first).after_play(id, second) == state.after_play(id, first),
        state.after_play(id, first).score_of(id) == Some(state.play_result(id, first)->Ok_0),
{
}

/// What a line holds it keeps: no play and no recording changes or clears
/// the score of a line that has one.
pub proof fn lemma_scores_are_kept(
    state: CardState,
    held: LineId,
    id: LineId,
    faces: Seq<DieFace>,
    value: i16,
)
    requires
        state.played(held),
    ensures
        state.after_play(id, faces).score_of(held) == state.score_of(held),
        state.after_set(id, value).score_of(held) == state.score_of(held),
{
}

/// A play that is refused changes nothing, and a play that goes through
/// changes the one line and no other.
pub proof fn lemma_play_touches_one_line(
    state: CardState,
    id: LineId,
    other: LineId,
    faces: Seq<DieFace>,
)
    ensures
        state.play_result(id, faces) is Err ==> state.after_play(id, faces) == state,
        other != id ==> state.after_play(id, faces).score_of(other) == state.score_of(other),
        state.play_result(id, faces) is Ok ==> state.after_play(id, faces).score_of(id) == Some(
            state.play_result(id, faces)->Ok_0,
        ),
{
}

/// The totals follow from what the card has recorded and from nothing else:
/// two cards that have recorded the same show the same on every line, and
/// so does one card asked twice.
pub proof fn lemma_totals_follow_from_record(first: ScoreCardData, second: ScoreCardData, id: LineId)
    requires
        first@ == second@,
    ensures
        first@.total(id) == second@.total(id),
        first@.can_total(id) == second@.can_total(id),
        first@.is_game_over() == second@.is_game_over(),
{
}

/// A new card has nothing played and is not over.
pub proof fn lemma_new_card_is_open()
    ensures
        CardState::empty().wf(),
        CardState::empty().played_lines() == 0,
        !CardState::empty().is_game_over(),
        forall|id: LineId| CardState::empty().score_of(id) is None,
{
    reveal(CardState::played_lines);
    assert(LineId::Ace.is_scoreable());
    assert(!CardState::empty().played(LineId::Ace));
}

/// Each play that goes through makes one more line played, and a play that
/// is refused makes none.
pub proof fn lemma_play_counts_one_line(state: CardState, id: LineId, faces: Seq<DieFace>)
    requires
        state.wf(),
    ensures
        state.after_play(id, faces).wf(),
        state.after_play(id, faces).played_lines() == state.played_lines() + if state.play_result(
            id,
            faces,
        ) is Ok {
            1int
        } else {
            0int
        },
{
    if state.set_result(id) is Ok {
        state.lemma_play_records(id, faces);
        state.lemma_set_counts(id, state.score_for(id, faces));
        assert(state.after_play(id, faces).played_lines() == state.after_set(
            id,
            state.score_for(id, faces),
        ).played_lines()) by {
            reveal(CardState::played_lines);
        }
    }
}

/// The game is over when thirteen lines have been played, and not before.
/// Once it is over no hand can be played: there is no fourteenth line.
pub proof fn lemma_game_ends_with_last_line(state: CardState, id: LineId, faces: Seq<DieFace>)
    requires
        state.wf(),
    ensures
        0 <= state.played_lines() <= NUMBER_OF_SCOREABLE_LINES,
        state.is_game_over() <==> state.played_lines() == NUMBER_OF_SCOREABLE_LINES,
        state.is_game_over() ==> state.play_result(id, faces) is Err,
        state.is_game_over() ==> state.after_play(id, faces) == state,
{
    state.lemma_played_lines_bounds();
}

/// A card that holds only what hands have scored keeps doing so when a hand
/// is played on it.
pub proof fn lemma_play_keeps_limits(state: CardState, id: LineId, faces: Seq<DieFace>)
    requires
        state.within_limits(),
        is_hand(faces),
    ensures
        state.after_play(id, faces).within_limits(),
        CardState::empty().within_limits(),
{
    lemma_line_score_range(id, faces, state.earns_bonus(faces));
}

/// On a card that holds only what hands have scored, every total can be
/// held in 16 bits.
pub proof fn lemma_limits_bound_totals(state: CardState, id: LineId)
    requires
        state.wf(),
        state.within_limits(),
    ensures
        0 <= state.upper_subtotal() <= 105,
        0 <= state.lower_subtotal() <= 235,
        0 <= state.dice5_bonus() <= 1300,
        state.can_total(id),
        fits_i16(state.total(id)),
{
    state.lemma_played_lines_bounds();
    assert(state.points(LineId::Ace) <= 5);
    assert(state.points(LineId::Two) <= 10);
    assert(state.points(LineId::Three) <= 15);
    assert(state.points(LineId::Four) <= 20);
    assert(state.points(LineId::Five) <= 25);
    assert(state.points(LineId::Six) <= 30);
    assert(state.points(LineId::ThreeKind) <= 30);
    assert(state.points(LineId::FourKind) <= 30);
    assert(state.points(LineId::SmallStraight) <= 30);
    assert(state.points(LineId::LargeStraight) <= 40);
    assert(state.points(LineId::FullHouse) <= 25);
    assert(state.points(LineId::Chance) <= 30);
    assert(state.points(LineId::Dice5) <= 50);
}

} // verus!
