//! What a score card records, and how a play changes it: the card as a
//! mathematical value, apart from how it is held in memory.

use crate::calchand::{
    is_five_alike, score_of_dice5, score_of_face, score_of_full_house, score_of_kind,
    score_of_large_straight, score_of_small_straight, total_of_faces,
};
use crate::hand::DieFace;
use crate::line::{LineId, SetError, NUMBER_OF_LINES, NUMBER_OF_SCOREABLE_LINES};
use vstd::prelude::*;

verus! {

/// What a hand scores on a line. With `special` set, a small straight, a
/// large straight and a full house are granted whatever the hand shows; the
/// other lines take no notice of it. A line that the card works out takes no
/// hand and scores nothing.
pub open spec fn line_score(id: LineId, faces: Seq<DieFace>, special: bool) -> int {
    match id {
        LineId::Ace => score_of_face(faces, 1),
        LineId::Two => score_of_face(faces, 2),
        LineId::Three => score_of_face(faces, 3),
        LineId::Four => score_of_face(faces, 4),
        LineId::Five => score_of_face(faces, 5),
        LineId::Six => score_of_face(faces, 6),
        LineId::ThreeKind => score_of_kind(faces, 3),
        LineId::FourKind => score_of_kind(faces, 4),
        LineId::SmallStraight => score_of_small_straight(faces, special),
        LineId::LargeStraight => score_of_large_straight(faces, special),
        LineId::FullHouse => score_of_full_house(faces, special),
        LineId::Chance => total_of_faces(faces),
        LineId::Dice5 => score_of_dice5(faces),
        _ => 0,
    }
}

/// Whether the score of the line can be granted to a hand of five alike.
pub open spec fn heeds_special(id: LineId) -> bool {
    id == LineId::SmallStraight || id == LineId::LargeStraight || id == LineId::FullHouse
}

/// The most that a hand can score on a line.
pub open spec fn highest_score(id: LineId) -> int {
    match id {
        LineId::Ace => 5,
        LineId::Two => 10,
        LineId::Three => 15,
        LineId::Four => 20,
        LineId::Five => 25,
        LineId::Six => 30,
        LineId::ThreeKind => 30,
        LineId::FourKind => 30,
        LineId::SmallStraight => 30,
        LineId::LargeStraight => 40,
        LineId::FullHouse => 25,
        LineId::Chance => 30,
        LineId::Dice5 => 50,
        _ => 0,
    }
}

/// Whether a number can be held in 16 bits.
pub open spec fn fits_i16(n: int) -> bool {
    i16::MIN <= n <= i16::MAX
}

/// What a score card has recorded: the score of each line played so far,
/// and how often a further hand of five alike has earned its bonus.
pub struct CardState {
    pub scores: Map<LineId, i16>,
    pub bonus: int,
}

impl CardState {
    /// Whether a hand has been played on the line.
    pub open spec fn played(self, id: LineId) -> bool {
        self.scores.dom().contains(id)
    }

    /// The score recorded on the line, if any.
    pub open spec fn score_of(self, id: LineId) -> Option<i16> {
        if self.played(id) {
            Some(self.scores[id])
        } else {
            None
        }
    }

    /// What the line counts for in a total: its score, or nothing while it
    /// has not been played.
    pub open spec fn points(self, id: LineId) -> int {
        if self.played(id) {
            self.scores[id] as int
        } else {
            0
        }
    }

    /// 1 for a line that has been played, 0 for one that has not.
    pub open spec fn one_if_played(self, id: LineId) -> int {
        if self.played(id) {
            1
        } else {
            0
        }
    }

    /// How many lines have been played.
    #[verifier::opaque]
    pub open spec fn played_lines(self) -> int {
        self.one_if_played(LineId::Ace) + self.one_if_played(LineId::Two) + self.one_if_played(
            LineId::Three,
        ) + self.one_if_played(LineId::Four) + self.one_if_played(LineId::Five)
            + self.one_if_played(LineId::Six) + self.one_if_played(LineId::ThreeKind)
            + self.one_if_played(LineId::FourKind) + self.one_if_played(LineId::SmallStraight)
            + self.one_if_played(LineId::LargeStraight) + self.one_if_played(LineId::FullHouse)
            + self.one_if_played(LineId::Chance) + self.one_if_played(LineId::Dice5)
    }

    /// Only lines that take a hand hold a score, and the bonus has been
    /// earned at most once for each line played.
    pub open spec fn wf(self) -> bool {
        &&& forall|id: LineId| self.played(id) ==> id.is_scoreable()
        &&& 0 <= self.bonus <= self.played_lines()
    }

    /// The card of a game that has not begun.
    pub open spec fn empty() -> CardState {
        CardState { scores: Map::empty(), bonus: 0 }
    }

    /// The game is over once every line that takes a hand has been played.
    pub open spec fn is_game_over(self) -> bool {
        forall|id: LineId| id.is_scoreable() ==> self.played(id)
    }

    /// How many of the lines before place `slot` of the card have been
    /// played.
    pub open spec fn played_before(self, slot: int) -> int
        decreases slot,
    {
        if slot <= 0 {
            0
        } else {
            self.played_before(slot - 1) + self.one_if_played(LineId::at(slot - 1))
        }
    }

    /// Counting the played lines place by place over the whole card gives
    /// their number.
    pub proof fn lemma_played_before_all(self)
        requires
            self.wf(),
        ensures
            self.played_before(NUMBER_OF_LINES as int) == self.played_lines(),
    {
        reveal(CardState::played_lines);
        reveal(LineId::at);
        assert(self.played_before(0) == 0);
        assert(self.played_before(1) == self.played_before(0) + self.one_if_played(LineId::Ace));
        assert(self.played_before(2) == self.played_before(1) + self.one_if_played(LineId::Two));
        assert(self.played_before(3) == self.played_before(2) + self.one_if_played(LineId::Three));
        assert(self.played_before(4) == self.played_before(3) + self.one_if_played(LineId::Four));
        assert(self.played_before(5) == self.played_before(4) + self.one_if_played(LineId::Five));
        assert(self.played_before(6) == self.played_before(5) + self.one_if_played(LineId::Six));
        assert(self.played_before(7) == self.played_before(6) + self.one_if_played(
            LineId::UpperSubtotal,
        ));
        assert(self.played_before(8) == self.played_before(7) + self.one_if_played(
            LineId::UpperBonus,
        ));
        assert(self.played_before(9) == self.played_before(8) + self.one_if_played(
            LineId::UpperTotal,
        ));
        assert(self.played_before(10) == self.played_before(9) + self.one_if_played(
            LineId::ThreeKind,
        ));
        assert(self.played_before(11) == self.played_before(10) + self.one_if_played(
            LineId::FourKind,
        ));
        assert(self.played_before(12) == self.played_before(11) + self.one_if_played(
            LineId::SmallStraight,
        ));
        assert(self.played_before(13) == self.played_before(12) + self.one_if_played(
            LineId::LargeStraight,
        ));
        assert(self.played_before(14) == self.played_before(13) + self.one_if_played(
            LineId::FullHouse,
        ));
        assert(self.played_before(15) == self.played_before(14) + self.one_if_played(
            LineId::Chance,
        ));
        assert(self.played_before(16) == self.played_before(15) + self.one_if_played(
            LineId::Dice5,
        ));
        assert(self.played_before(17) == self.played_before(16) + self.one_if_played(
            LineId::BottomSubtotal,
        ));
        assert(self.played_before(18) == self.played_before(17) + self.one_if_played(
            LineId::Dice5Bonus,
        ));
        assert(self.played_before(19) == self.played_before(18) + self.one_if_played(
            LineId::GrandTotal,
        ));
        assert(!LineId::UpperSubtotal.is_scoreable() && !LineId::UpperBonus.is_scoreable()
            && !LineId::UpperTotal.is_scoreable() && !LineId::BottomSubtotal.is_scoreable()
            && !LineId::Dice5Bonus.is_scoreable() && !LineId::GrandTotal.is_scoreable());
    }

    /// No more lines are played than there are lines to play, and the game
    /// is over exactly when all of them are.
    pub proof fn lemma_played_lines_bounds(self)
        ensures
            0 <= self.played_lines() <= NUMBER_OF_SCOREABLE_LINES,
            self.played_lines() == NUMBER_OF_SCOREABLE_LINES <==> self.is_game_over(),
    {
        reveal(CardState::played_lines);
        if self.played_lines() == NUMBER_OF_SCOREABLE_LINES {
            assert forall|id: LineId| id.is_scoreable() implies self.played(id) by {
                match id {
                    LineId::Ace => {},
                    LineId::Two => {},
                    LineId::Three => {},
                    LineId::Four => {},
                    LineId::Five => {},
                    LineId::Six => {},
                    LineId::ThreeKind => {},
                    LineId::FourKind => {},
                    LineId::SmallStraight => {},
                    LineId::LargeStraight => {},
                    LineId::FullHouse => {},
                    LineId::Chance => {},
                    LineId::Dice5 => {},
                    _ => {},
                }
            }
        }
        if self.is_game_over() {
            assert(LineId::Ace.is_scoreable() && LineId::Two.is_scoreable()
                && LineId::Three.is_scoreable() && LineId::Four.is_scoreable()
                && LineId::Five.is_scoreable() && LineId::Six.is_scoreable()
                && LineId::ThreeKind.is_scoreable() && LineId::FourKind.is_scoreable()
                && LineId::SmallStraight.is_scoreable() && LineId::LargeStraight.is_scoreable()
                && LineId::FullHouse.is_scoreable() && LineId::Chance.is_scoreable()
                && LineId::Dice5.is_scoreable());
        }
    }

    /// The points of the given lines, added up.
    pub open spec fn sum_of(self, ids: Seq<LineId>) -> int
        decreases ids.len(),
    {
        if ids.len() == 0 {
            0
        } else {
            self.sum_of(ids.drop_last()) + self.points(ids.last())
        }
    }

    /// The six upper lines, added up.
    pub open spec fn upper_subtotal(self) -> int {
        self.points(LineId::Ace) + self.points(LineId::Two) + self.points(LineId::Three)
            + self.points(LineId::Four) + self.points(LineId::Five) + self.points(LineId::Six)
    }

    /// 35 once the upper lines have reached 63.
    pub open spec fn upper_bonus(self) -> int {
        if self.upper_subtotal() >= 63 {
            35
        } else {
            0
        }
    }

    /// The upper lines with their bonus.
    pub open spec fn upper_total(self) -> int {
        self.upper_subtotal() + self.upper_bonus()
    }

    /// The seven lower lines, added up.
    pub open spec fn lower_subtotal(self) -> int {
        self.points(LineId::ThreeKind) + self.points(LineId::FourKind) + self.points(
            LineId::SmallStraight,
        ) + self.points(LineId::LargeStraight) + self.points(LineId::FullHouse) + self.points(
            LineId::Chance,
        ) + self.points(LineId::Dice5)
    }

    /// 100 for each time the bonus for five alike was earned.
    pub open spec fn dice5_bonus(self) -> int {
        self.bonus * 100
    }

    /// The upper lines, the lower lines and the bonus for five alike. The
    /// bonus of the upper lines is not part of it.
    pub open spec fn grand_total(self) -> int {
        self.upper_subtotal() + self.lower_subtotal() + self.dice5_bonus()
    }

    /// What stands on a line: the total that the card works out for it, or
    /// the points of a line that takes a hand.
    pub open spec fn total(self, id: LineId) -> int {
        match id {
            LineId::UpperSubtotal => self.upper_subtotal(),
            LineId::UpperBonus => self.upper_bonus(),
            LineId::UpperTotal => self.upper_total(),
            LineId::BottomSubtotal => self.lower_subtotal(),
            LineId::Dice5Bonus => self.dice5_bonus(),
            LineId::GrandTotal => self.grand_total(),
            _ => self.points(id),
        }
    }

    /// Whether the total of a line, and the sums that it is made of, can be
    /// held in 16 bits.
    pub open spec fn can_total(self, id: LineId) -> bool {
        match id {
            LineId::UpperSubtotal | LineId::UpperBonus => fits_i16(self.upper_subtotal()),
            LineId::UpperTotal => fits_i16(self.upper_subtotal()) && fits_i16(self.upper_total()),
            LineId::BottomSubtotal => fits_i16(self.lower_subtotal()),
            LineId::GrandTotal => fits_i16(self.upper_subtotal()) && fits_i16(
                self.lower_subtotal(),
            ) && fits_i16(self.grand_total()),
            _ => true,
        }
    }

    /// Adding one more line to a sum adds its points.
    pub proof fn lemma_sum_of_push(self, ids: Seq<LineId>, id: LineId)
        ensures
            self.sum_of(ids.push(id)) == self.sum_of(ids) + self.points(id),
    {
        assert(ids.push(id).drop_last() == ids);
    }

    /// What comes of recording a score on a line: a line that the card
    /// works out takes none, and a line that holds a score keeps it.
    pub open spec fn set_result(self, id: LineId) -> Result<(), SetError> {
        if !id.is_scoreable() {
            Err(SetError::NotFound)
        } else if self.played(id) {
            Err(SetError::AlreadySet)
        } else {
            Ok(())
        }
    }

    /// The card after `value` was offered for a line: recorded where the
    /// line was free, and nothing changed where it was not.
    pub open spec fn after_set(self, id: LineId, value: i16) -> CardState {
        if self.set_result(id) is Ok {
            CardState { scores: self.scores.insert(id, value), bonus: self.bonus }
        } else {
            self
        }
    }

    /// A score that is recorded makes one more line played, and leaves the
    /// card in order.
    pub proof fn lemma_set_counts(self, id: LineId, value: i16)
        requires
            self.wf(),
            self.set_result(id) is Ok,
        ensures
            self.after_set(id, value).played_lines() == self.played_lines() + 1,
            self.after_set(id, value).played_lines() <= NUMBER_OF_SCOREABLE_LINES,
            self.after_set(id, value).wf(),
    {
        let after = self.after_set(id, value);
        assert(self.played_lines() < NUMBER_OF_SCOREABLE_LINES) by {
            reveal(CardState::played_lines);
        }
        assert(after.scores == self.scores.insert(id, value));
        assert(after.one_if_played(id) == 1 && self.one_if_played(id) == 0);
        assert forall|other: LineId| other != id implies #[trigger] after.one_if_played(other)
            == self.one_if_played(other) by {}
        assert(after.played_lines() == self.played_lines() + 1) by {
            reveal(CardState::played_lines);
            match id {
                LineId::Ace => {},
                LineId::Two => {},
                LineId::Three => {},
                LineId::Four => {},
                LineId::Five => {},
                LineId::Six => {},
                LineId::ThreeKind => {},
                LineId::FourKind => {},
                LineId::SmallStraight => {},
                LineId::LargeStraight => {},
                LineId::FullHouse => {},
                LineId::Chance => {},
                LineId::Dice5 => {},
                _ => {},
            }
        }
    }

    /// Whether a hand earns the bonus on this card: it shows five alike,
    /// and the line for five of a kind has been played already.
    pub open spec fn earns_bonus(self, faces: Seq<DieFace>) -> bool {
        self.played(LineId::Dice5) && is_five_alike(faces)
    }

    /// What a hand scores on a line of this card: a hand that earns the
    /// bonus is scored with the special grant.
    pub open spec fn score_for(self, id: LineId, faces: Seq<DieFace>) -> i16 {
        line_score(id, faces, self.earns_bonus(faces)) as i16
    }

    /// What comes of playing a hand on a line: its score, unless the line
    /// takes no hand or has been played before.
    pub open spec fn play_result(self, id: LineId, faces: Seq<DieFace>) -> Result<i16, SetError> {
        match self.set_result(id) {
            Ok(_) => Ok(self.score_for(id, faces)),
            Err(error) => Err(error),
        }
    }

    /// A play that goes through records the score as `after_set` does, and
    /// leaves the card in order.
    pub proof fn lemma_play_records(self, id: LineId, faces: Seq<DieFace>)
        requires
            self.wf(),
            self.set_result(id) is Ok,
        ensures
            self.after_play(id, faces).scores == self.after_set(id, self.score_for(id, faces)).scores,
            self.after_play(id, faces).wf(),
            self.bonus < NUMBER_OF_SCOREABLE_LINES,
    {
        let points = self.score_for(id, faces);
        self.lemma_set_counts(id, points);
        assert(self.after_play(id, faces).played_lines() == self.after_set(id, points).played_lines())
            by {
            reveal(CardState::played_lines);
        }
    }

    /// The card after a hand was played on a line: where the play went
    /// through, the score is recorded and a hand that earns the bonus is
    /// counted; where it did not, nothing has changed.
    pub open spec fn after_play(self, id: LineId, faces: Seq<DieFace>) -> CardState {
        if self.set_result(id) is Ok {
            CardState {
                scores: self.scores.insert(id, self.score_for(id, faces)),
                bonus: if self.earns_bonus(faces) {
                    self.bonus + 1
                } else {
                    self.bonus
                },
            }
        } else {
            self
        }
    }

    /// Every score on the card is one that a hand can have scored on its
    /// line.
    pub open spec fn within_limits(self) -> bool {
        forall|id: LineId| self.played(id) ==> 0 <= #[trigger] self.scores[id] <= highest_score(id)
    }
}

} // verus!
