//! The score card: one score for each line played, set once and never
//! changed, and the totals that follow from the scores.

use crate::calchand::{
    calc_3k, calc_4k, calc_ace, calc_chance, calc_dice5, calc_fh, calc_five, calc_four, calc_ls,
    calc_six, calc_ss, calc_three, calc_two, is_dice5, is_five_alike, VALUE_DICE5,
    VALUE_FULL_HOUSE, VALUE_LARGE_STRAIGHT, VALUE_SMALL_STRAIGHT,
};
use crate::hand::Dice;
use crate::line::{
    lemma_slots_number_the_lines, LineId, SetError, NUMBER_OF_LINES, NUMBER_OF_SCOREABLE_LINES,
};
use crate::state::{fits_i16, heeds_special, highest_score, line_score, CardState};
use vstd::prelude::*;

verus! {

/// A line that a hand can be played on, and the score it holds once one
/// has been.
#[derive(Copy, Clone, Debug)]
pub struct PlayerScoreable {
    pub id: LineId,
    pub value: Option<i16>,
}

/// A line that the card works out from the scores recorded on it.
#[derive(Copy, Clone, Debug)]
pub struct GameCalculates {
    pub id: LineId,
}

/// One line of the card.
#[derive(Copy, Clone, Debug)]
pub enum Data {
    Scoreable(PlayerScoreable),
    Calculated(GameCalculates),
}

impl Data {
    /// Which line this is.
    pub open spec fn id(self) -> LineId {
        match self {
            Data::Scoreable(line) => line.id,
            Data::Calculated(line) => line.id,
        }
    }

    /// The score recorded on the line, if it is one that takes a score and
    /// has been played.
    pub open spec fn value(self) -> Option<i16> {
        match self {
            Data::Scoreable(line) => line.value,
            Data::Calculated(_) => None,
        }
    }

    /// The line is of the kind that its name asks for.
    pub open spec fn wf(self) -> bool {
        self is Scoreable <==> self.id().is_scoreable()
    }

    /// The score on the line, if it holds one, is one that a hand can have
    /// made there.
    pub open spec fn within_limit(self) -> bool {
        self.value() matches Some(value) ==> 0 <= value <= highest_score(self.id())
    }
}

/// The most that a hand can score on the line `zid`.
pub fn highest_score_of(zid: LineId) -> (score: i16)
    ensures
        score == highest_score(zid),
{
    match zid {
        LineId::Ace => 5,
        LineId::Two => 10,
        LineId::Three => 15,
        LineId::Four => 20,
        LineId::Five => 25,
        LineId::Six => 30,
        LineId::ThreeKind => 30,
        LineId::FourKind => 30,
        LineId::SmallStraight => VALUE_SMALL_STRAIGHT,
        LineId::LargeStraight => VALUE_LARGE_STRAIGHT,
        LineId::FullHouse => VALUE_FULL_HOUSE,
        LineId::Chance => 30,
        LineId::Dice5 => VALUE_DICE5,
        _ => 0,
    }
}

impl PlayerScoreable {
    /// What `dice` scores on this line. `special_dice` may be set on a line
    /// that heeds it only for a hand of five alike.
    pub fn calc(&self, dice: &Dice, special_dice: bool) -> (score: i16)
        requires
            self.id.is_scoreable(),
            dice.wf(),
            special_dice && heeds_special(self.id) ==> is_five_alike(dice.dice@),
        ensures
            score == line_score(self.id, dice.dice@, special_dice),
    {
        match self.id {
            LineId::Ace => calc_ace(dice, special_dice),
            LineId::Two => calc_two(dice, special_dice),
            LineId::Three => calc_three(dice, special_dice),
            LineId::Four => calc_four(dice, special_dice),
            LineId::Five => calc_five(dice, special_dice),
            LineId::Six => calc_six(dice, special_dice),
            LineId::ThreeKind => calc_3k(dice, special_dice),
            LineId::FourKind => calc_4k(dice, special_dice),
            LineId::SmallStraight => calc_ss(dice, special_dice),
            LineId::LargeStraight => calc_ls(dice, special_dice),
            LineId::FullHouse => calc_fh(dice, special_dice),
            LineId::Chance => calc_chance(dice, special_dice),
            _ => calc_dice5(dice, special_dice),
        }
    }
}

/// The score card of one game.
pub struct ScoreCardData {
    pub line_data: Vec<Data>,
    bonus_dice5: i8,
}

impl View for ScoreCardData {
    type V = CardState;

    closed spec fn view(&self) -> CardState {
        CardState {
            scores: Map::new(
                |id: LineId| self.line_data@[id.slot()].value() is Some,
                |id: LineId| self.line_data@[id.slot()].value()->0,
            ),
            bonus: self.bonus_count(),
        }
    }
}

impl ScoreCardData {
    /// How often the bonus for a further hand of five alike has been earned.
    pub closed spec fn bonus_count(&self) -> int {
        self.bonus_dice5 as int
    }

    /// The card holds each of its lines once, in their order.
    pub closed spec fn lines_in_order(&self) -> bool {
        &&& self.line_data@.len() == NUMBER_OF_LINES
        &&& forall|slot: int|
            0 <= slot < NUMBER_OF_LINES ==> (#[trigger] self.line_data@[slot]).id() == LineId::at(
                slot,
            ) && self.line_data@[slot].wf()
    }

    /// The card holds each of its lines once, in their order, and what it
    /// has recorded hangs together.
    pub closed spec fn wf(&self) -> bool {
        &&& self.lines_in_order()
        &&& self@.wf()
    }

    /// On a card that holds its lines in order, each line is found at its
    /// place.
    proof fn lemma_line_at_slot(&self, id: LineId)
        requires
            self.lines_in_order(),
        ensures
            0 <= id.slot() < NUMBER_OF_LINES,
            self.line_data@[id.slot()].id() == id,
            self.line_data@[id.slot()] is Scoreable <==> id.is_scoreable(),
            self@.score_of(id) == self.line_data@[id.slot()].value(),
    {
        lemma_slots_number_the_lines();
    }

    /// The line `zid`, which must be one that takes a hand.
    pub fn get_scoreable_by_id(&self, zid: LineId) -> (line: &PlayerScoreable)
        requires
            self.wf(),
            zid.is_scoreable(),
        ensures
            line.id == zid,
            line.value == self@.score_of(zid),
    {
        proof {
            self.lemma_line_at_slot(zid);
        }
        match &self.line_data[zid.index()] {
            Data::Scoreable(line) => line,
            Data::Calculated(_) => vstd::pervasive::unreached(),
        }
    }

    /// A well-formed card has recorded nothing but what a game can record.
    pub proof fn lemma_wf_state(&self)
        requires
            self.wf(),
        ensures
            self@.wf(),
    {
    }

    /// The line `zid`, which must be one that the card works out.
    pub fn get_subtotal_by_id(&self, zid: LineId) -> (line: &GameCalculates)
        requires
            self.wf(),
            !zid.is_scoreable(),
        ensures
            line.id == zid,
    {
        proof {
            self.lemma_line_at_slot(zid);
        }
        match &self.line_data[zid.index()] {
            Data::Calculated(line) => line,
            Data::Scoreable(_) => vstd::pervasive::unreached(),
        }
    }

    /// Plays a hand on a line. The hand is scored, with the special grant
    /// where it shows five alike and five of a kind has been played before;
    /// the score is recorded, and such a hand is counted for the bonus. A
    /// line that takes no hand, or that has been played, refuses the hand
    /// and leaves the card as it was.
    pub fn play(&mut self, zid: LineId, hand: &Dice) -> (result: Result<i16, SetError>)
        requires
            old(self).wf(),
            hand.wf(),
        ensures
            final(self).wf(),
            result == old(self)@.play_result(zid, hand.dice@),
            final(self)@ == old(self)@.after_play(zid, hand.dice@),
    {
        if !zid.takes_score() {
            return Err(SetError::NotFound);
        }
        let already_has_dice5 = self.get_scoreable_by_id(LineId::Dice5).value.is_some();
        let is_dice5 = is_dice5(hand);
        let special_handling = already_has_dice5 && is_dice5;

        let point_result = self.get_points(zid, hand, special_handling);
        match point_result {
            Ok(points) => {
                match self.set_val(zid, points) {
                    Ok(_) => {},
                    Err(error) => {
                        return Err(error);
                    },
                }
                proof {
                    old(self)@.lemma_play_records(zid, hand.dice@);
                }
                if special_handling {
                    self.bonus_dice5 = self.bonus_dice5 + 1;
                }
                Ok(points)
            },
            Err(error) => Err(error),
        }
    }

    /// Records `value` on the line `zid`, if the line takes a score and
    /// holds none yet. Otherwise the card stays as it was.
    pub fn set_val(&mut self, zid: LineId, value: i16) -> (result: Result<(), SetError>)
        requires
            old(self).wf(),
        ensures
            final(self).wf(),
            result == old(self)@.set_result(zid),
            final(self)@ == old(self)@.after_set(zid, value),
    {
        let slot = zid.index();
        proof {
            self.lemma_line_at_slot(zid);
        }
        match self.line_data[slot] {
            Data::Scoreable(line_data) => match line_data.value {
                None => {
                    self.line_data.set(
                        slot,
                        Data::Scoreable(PlayerScoreable { id: zid, value: Some(value) }),
                    );
                    proof {
                        lemma_slots_number_the_lines();
                        assert(self.lines_in_order());
                        assert(self@.scores =~= old(self)@.scores.insert(zid, value));
                        old(self)@.lemma_set_counts(zid, value);
                    }
                    Ok(())
                },
                _ => Err(SetError::AlreadySet),
            },
            Data::Calculated(_) => Err(SetError::NotFound),
        }
    }

    /// What `hand` would score on the line `zid`, with the special grant if
    /// `dice5_bonus` is set. Nothing is recorded. `dice5_bonus` may be set
    /// on a line that heeds it only for a hand of five alike.
    pub fn get_points(&self, zid: LineId, hand: &Dice, dice5_bonus: bool) -> (result: Result<
        i16,
        SetError,
    >)
        requires
            self.wf(),
            hand.wf(),
            dice5_bonus && heeds_special(zid) ==> is_five_alike(hand.dice@),
        ensures
            zid.is_scoreable() ==> result == Ok::<i16, SetError>(
                line_score(zid, hand.dice@, dice5_bonus) as i16,
            ),
            !zid.is_scoreable() ==> result == Err::<i16, SetError>(SetError::NotFound),
    {
        if !zid.takes_score() {
            return Err(SetError::NotFound);
        }
        let line = self.get_scoreable_by_id(zid);
        Ok(line.calc(hand, dice5_bonus))
    }

    /// How many lines are no longer empty: the number of lines played.
    pub fn count_empty_slots(&self) -> (count: i8)
        requires
            self.wf(),
        ensures
            count == self@.played_lines(),
            0 <= count <= NUMBER_OF_SCOREABLE_LINES,
    {
        let mut count: i8 = 0;
        let n = self.line_data.len();
        for slot in 0..n
            invariant
                n == NUMBER_OF_LINES,
                self.wf(),
                count == self@.played_before(slot as int),
                0 <= count <= slot,
        {
            proof {
                lemma_slots_number_the_lines();
                assert(LineId::at(slot as int).slot() == slot);
                assert(self.line_data@[slot as int].id() == LineId::at(slot as int));
                assert(self@.played(LineId::at(slot as int)) == (self.line_data@[slot as int].value()
                    is Some));
            }
            if let Data::Scoreable(c) = &self.line_data[slot] {
                if c.value.is_some() {
                    count = count + 1;
                }
            }
        }
        proof {
            self@.lemma_played_before_all();
            self@.lemma_played_lines_bounds();
        }
        count
    }

    /// Whether every score on the card is one that a hand can have made on
    /// its line. On such a card every total can be worked out.
    pub fn holds_scores_of_hands(&self) -> (within: bool)
        requires
            self.wf(),
        ensures
            within == self@.within_limits(),
    {
        let mut within = true;
        let n = self.line_data.len();
        for slot in 0..n
            invariant
                n == NUMBER_OF_LINES,
                self.wf(),
                within == forall|at: int| 0 <= at < slot ==> (#[trigger] self.line_data@[at]).within_limit(),
        {
            if let Data::Scoreable(line) = &self.line_data[slot] {
                if let Some(value) = line.value {
                    if value < 0 || value > highest_score_of(line.id) {
                        within = false;
                    }
                }
            }
        }
        proof {
            lemma_slots_number_the_lines();
            if within {
                assert forall|id: LineId| self@.played(id) implies 0 <= #[trigger] self@.scores[id]
                    <= highest_score(id) by {
                    self.lemma_line_at_slot(id);
                    assert(self.line_data@[id.slot()].within_limit());
                }
            } else {
                let at = choose|at: int|
                    0 <= at < NUMBER_OF_LINES && !(#[trigger] self.line_data@[at]).within_limit();
                let id = LineId::at(at);
                self.lemma_line_at_slot(id);
                assert(self@.played(id));
                assert(!(0 <= self@.scores[id] <= highest_score(id)));
            }
        }
        within
    }

    /// Whether every line that takes a hand has been played.
    pub fn game_over(&self) -> (over: bool)
        requires
            self.wf(),
        ensures
            over == self@.is_game_over(),
    {
        proof {
            self@.lemma_played_lines_bounds();
        }
        self.count_empty_slots() == 13
    }
}

impl GameCalculates {
    /// Works out the line from what `scorecard` has recorded.
    pub fn calc(&self, scorecard: &ScoreCardData) -> (total: i16)
        requires
            scorecard.wf(),
            !self.id.is_scoreable(),
            scorecard@.can_total(self.id),
        ensures
            total == scorecard@.total(self.id),
    {
        match self.id {
            LineId::UpperSubtotal => calc_upper_subtotal(scorecard),
            LineId::UpperBonus => calc_upper_bonus(scorecard),
            LineId::UpperTotal => calc_upper_total(scorecard),
            LineId::BottomSubtotal => calc_lower_subtotal(scorecard),
            LineId::Dice5Bonus => calc_dice5_bonus(scorecard),
            _ => calc_grand_total(scorecard),
        }
    }
}

/// The points of the lines `a`, added up. Each of them must be a line that
/// takes a hand.
pub fn calc_subtotal(scorecard: &ScoreCardData, a: Vec<LineId>) -> (sum: i16)
    requires
        scorecard.wf(),
        forall|i: int| 0 <= i < a@.len() ==> (#[trigger] a@[i]).is_scoreable(),
        fits_i16(scorecard@.sum_of(a@)),
    ensures
        sum == scorecard@.sum_of(a@),
{
    let mut sum: i128 = 0;
    let n = a.len();
    proof {
        assert(a@.take(0).len() == 0);
    }
    for i in 0..n
        invariant
            n == a@.len(),
            scorecard.wf(),
            forall|j: int| 0 <= j < a@.len() ==> (#[trigger] a@[j]).is_scoreable(),
            sum == scorecard@.sum_of(a@.take(i as int)),
            i16::MIN * i <= sum <= i16::MAX * i,
    {
        proof {
            assert(a@.take(i + 1).drop_last() == a@.take(i as int));
        }
        let line = scorecard.get_scoreable_by_id(a[i]);
        if let Some(value) = line.value {
            sum = sum + value as i128;
        }
    }
    proof {
        assert(a@.take(n as int) == a@);
    }
    sum as i16
}

/// The six upper lines, added up.
pub fn calc_upper_subtotal(scorecard: &ScoreCardData) -> (total: i16)
    requires
        scorecard.wf(),
        fits_i16(scorecard@.upper_subtotal()),
    ensures
        total == scorecard@.upper_subtotal(),
{
    let a = vec![
        LineId::Ace,
        LineId::Two,
        LineId::Three,
        LineId::Four,
        LineId::Five,
        LineId::Six,
    ];
    proof {
        let state = scorecard@;
        let s0 = Seq::<LineId>::empty();
        let s1 = s0.push(LineId::Ace);
        let s2 = s1.push(LineId::Two);
        let s3 = s2.push(LineId::Three);
        let s4 = s3.push(LineId::Four);
        let s5 = s4.push(LineId::Five);
        let s6 = s5.push(LineId::Six);
        state.lemma_sum_of_push(s0, LineId::Ace);
        state.lemma_sum_of_push(s1, LineId::Two);
        state.lemma_sum_of_push(s2, LineId::Three);
        state.lemma_sum_of_push(s3, LineId::Four);
        state.lemma_sum_of_push(s4, LineId::Five);
        state.lemma_sum_of_push(s5, LineId::Six);
        assert(a@ == s6);
    }
    calc_subtotal(scorecard, a)
}

/// The bonus of the upper lines: 35 once they have reached 63.
pub fn calc_upper_bonus(scorecard: &ScoreCardData) -> (total: i16)
    requires
        scorecard.wf(),
        fits_i16(scorecard@.upper_subtotal()),
    ensures
        total == scorecard@.upper_bonus(),
{
    let upper_score = calc_upper_subtotal(scorecard);
    if upper_score >= 63 {
        35
    } else {
        0
    }
}

/// The upper lines with their bonus.
pub fn calc_upper_total(scorecard: &ScoreCardData) -> (total: i16)
    requires
        scorecard.wf(),
        fits_i16(scorecard@.upper_subtotal()),
        fits_i16(scorecard@.upper_total()),
    ensures
        total == scorecard@.upper_total(),
{
    calc_upper_subtotal(scorecard) + calc_upper_bonus(scorecard)
}

/// The seven lower lines, added up.
pub fn calc_lower_subtotal(scorecard: &ScoreCardData) -> (total: i16)
    requires
        scorecard.wf(),
        fits_i16(scorecard@.lower_subtotal()),
    ensures
        total == scorecard@.lower_subtotal(),
{
    let a = vec![
        LineId::ThreeKind,
        LineId::FourKind,
        LineId::SmallStraight,
        LineId::LargeStraight,
        LineId::FullHouse,
        LineId::Chance,
        LineId::Dice5,
    ];
    proof {
        let state = scorecard@;
        let s0 = Seq::<LineId>::empty();
        let s1 = s0.push(LineId::ThreeKind);
        let s2 = s1.push(LineId::FourKind);
        let s3 = s2.push(LineId::SmallStraight);
        let s4 = s3.push(LineId::LargeStraight);
        let s5 = s4.push(LineId::FullHouse);
        let s6 = s5.push(LineId::Chance);
        let s7 = s6.push(LineId::Dice5);
        state.lemma_sum_of_push(s0, LineId::ThreeKind);
        state.lemma_sum_of_push(s1, LineId::FourKind);
        state.lemma_sum_of_push(s2, LineId::SmallStraight);
        state.lemma_sum_of_push(s3, LineId::LargeStraight);
        state.lemma_sum_of_push(s4, LineId::FullHouse);
        state.lemma_sum_of_push(s5, LineId::Chance);
        state.lemma_sum_of_push(s6, LineId::Dice5);
        assert(a@ == s7);
    }
    calc_subtotal(scorecard, a)
}

/// 100 for each time the bonus for five alike was earned.
pub fn calc_dice5_bonus(scorecard: &ScoreCardData) -> (total: i16)
    requires
        scorecard.wf(),
    ensures
        total == scorecard@.dice5_bonus(),
{
    proof {
        scorecard@.lemma_played_lines_bounds();
    }
    (scorecard.bonus_dice5 as i16) * 100
}

/// The upper lines, the lower lines and the bonus for five alike.
pub fn calc_grand_total(scorecard: &ScoreCardData) -> (total: i16)
    requires
        scorecard.wf(),
        fits_i16(scorecard@.upper_subtotal()),
        fits_i16(scorecard@.lower_subtotal()),
        fits_i16(scorecard@.grand_total()),
    ensures
        total == scorecard@.grand_total(),
{
    let upper = calc_upper_subtotal(scorecard) as i32;
    let lower = calc_lower_subtotal(scorecard) as i32;
    let bonus = calc_dice5_bonus(scorecard) as i32;
    proof {
        scorecard@.lemma_played_lines_bounds();
    }
    (upper + lower + bonus) as i16
}

/// A card for a new game: no line played, no bonus earned.
pub fn get_new_scorecard_data() -> (card: ScoreCardData)
    ensures
        card.wf(),
        card@ == CardState::empty(),
{
    let mut v: Vec<Data> = Vec::new();
    v.push(Data::Scoreable(PlayerScoreable { id: LineId::Ace, value: None }));
    v.push(Data::Scoreable(PlayerScoreable { id: LineId::Two, value: None }));
    v.push(Data::Scoreable(PlayerScoreable { id: LineId::Three, value: None }));
    v.push(Data::Scoreable(PlayerScoreable { id: LineId::Four, value: None }));
    v.push(Data::Scoreable(PlayerScoreable { id: LineId::Five, value: None }));
    v.push(Data::Scoreable(PlayerScoreable { id: LineId::Six, value: None }));
    v.push(Data::Calculated(GameCalculates { id: LineId::UpperSubtotal }));
    v.push(Data::Calculated(GameCalculates { id: LineId::UpperBonus }));
    v.push(Data::Calculated(GameCalculates { id: LineId::UpperTotal }));
    v.push(Data::Scoreable(PlayerScoreable { id: LineId::ThreeKind, value: None }));
    v.push(Data::Scoreable(PlayerScoreable { id: LineId::FourKind, value: None }));
    v.push(Data::Scoreable(PlayerScoreable { id: LineId::SmallStraight, value: None }));
    v.push(Data::Scoreable(PlayerScoreable { id: LineId::LargeStraight, value: None }));
    v.push(Data::Scoreable(PlayerScoreable { id: LineId::FullHouse, value: None }));
    v.push(Data::Scoreable(PlayerScoreable { id: LineId::Chance, value: None }));
    v.push(Data::Scoreable(PlayerScoreable { id: LineId::Dice5, value: None }));
    v.push(Data::Calculated(GameCalculates { id: LineId::BottomSubtotal }));
    v.push(Data::Calculated(GameCalculates { id: LineId::Dice5Bonus }));
    v.push(Data::Calculated(GameCalculates { id: LineId::GrandTotal }));
    let card = ScoreCardData { line_data: v, bonus_dice5: 0 };
    proof {
        reveal(LineId::at);
        reveal(LineId::slot);
        reveal(CardState::played_lines);
        assert(card@.scores =~= Map::<LineId, i16>::empty());
    }
    card
}

} // verus!
