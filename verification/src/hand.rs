//! The hand of five dice and the rerolls that a turn allows.

use rand::Rng;
use vstd::prelude::*;
use vstd::string::*;

verus! {

/// What one die shows: 1 to 6, or 0 for a die that has not been rolled.
pub type DieFace = i8;

/// The dice in play, and how many rerolls the turn still allows.
#[derive(Debug)]
pub struct Dice {
    pub dice: Vec<DieFace>,
    pub rolls_left: i8,
}

/// Whether `face` is what a rolled die can show.
pub open spec fn is_rolled_face(face: DieFace) -> bool {
    1 <= face <= Dice::NUMBER_OF_FACES
}

/// Whether `faces` can be the dice of a hand: five of them, each showing 0
/// to 6.
pub open spec fn is_hand(faces: Seq<DieFace>) -> bool {
    &&& faces.len() == Dice::NUMBER_OF_DICE
    &&& forall|i: int| 0 <= i < faces.len() ==> 0 <= #[trigger] faces[i] <= Dice::NUMBER_OF_FACES
}

/// The sign that stands for a face in a text: the die with that many pips,
/// or a die of no certain face for anything that is no rolled face.
pub open spec fn face_sign(face: DieFace) -> Seq<char> {
    if face == 1 {
        "⚀"@
    } else if face == 2 {
        "⚁"@
    } else if face == 3 {
        "⚂"@
    } else if face == 4 {
        "⚃"@
    } else if face == 5 {
        "⚄"@
    } else if face == 6 {
        "⚅"@
    } else {
        "🎲"@
    }
}

/// The signs of the faces in their order, with a blank between each two.
pub open spec fn faces_text(faces: Seq<DieFace>) -> Seq<char>
    decreases faces.len(),
{
    if faces.len() == 0 {
        Seq::empty()
    } else if faces.len() == 1 {
        face_sign(faces[0])
    } else {
        faces_text(faces.drop_last()) + " "@ + face_sign(faces.last())
    }
}

/// The flags that stand for the dice named by `positions`: die `i`, counted
/// from 0, is flagged exactly when `i + 1` is among them.
pub open spec fn flags_of_positions(positions: Seq<usize>, count: nat) -> Seq<bool> {
    Seq::new(count, |i: int| exists|j: int| 0 <= j < positions.len() && positions[j] == i + 1)
}

/// The faces after a reroll: a flagged die shows what was rolled for it, any
/// other die shows what it showed before.
pub open spec fn rerolled_faces(
    faces: Seq<DieFace>,
    reroll: Seq<bool>,
    rolled: Seq<DieFace>,
) -> Seq<DieFace> {
    Seq::new(
        faces.len(),
        |i: int|
            if reroll[i] {
                rolled[i]
            } else {
                faces[i]
            },
    )
}

impl Dice {
    /// How many dice a hand holds.
    pub const NUMBER_OF_DICE: usize = 5;

    /// How many faces a die has.
    pub const NUMBER_OF_FACES: i8 = 6;

    /// How often the dice may be rolled in a turn, the first roll counted.
    pub const ROLLS_PER_TURN: i8 = 3;

    /// A hand holds five dice, each showing 0 to 6, and no more rolls than a
    /// turn has.
    pub open spec fn wf(&self) -> bool {
        &&& is_hand(self.dice@)
        &&& 0 <= self.rolls_left <= Self::ROLLS_PER_TURN
    }

    /// Every die of the hand has been rolled.
    pub open spec fn all_rolled(&self) -> bool {
        forall|i: int| 0 <= i < self.dice@.len() ==> is_rolled_face(#[trigger] self.dice@[i])
    }

    /// The hand as a line of text, one sign for each die.
    pub fn to_text(&self) -> (text: String)
        ensures
            text@ == faces_text(self.dice@),
    {
        let mut text = String::new();
        let n = self.dice.len();
        proof {
            assert(self.dice@.take(0).len() == 0);
        }
        for i in 0..n
            invariant
                n == self.dice@.len(),
                text@ == faces_text(self.dice@.take(i as int)),
        {
            proof {
                assert(self.dice@.take(i + 1).drop_last() == self.dice@.take(i as int));
                assert(self.dice@.take(i + 1).last() == self.dice@[i as int]);
                assert(self.dice@.take(i + 1).len() == i + 1);
                assert(self.dice@.take(i + 1)[0] == self.dice@[0]);
            }
            if i > 0 {
                text.append(" ");
            }
            let face = self.dice[i];
            if face == 1 {
                text.append("⚀");
            } else if face == 2 {
                text.append("⚁");
            } else if face == 3 {
                text.append("⚂");
            } else if face == 4 {
                text.append("⚃");
            } else if face == 5 {
                text.append("⚄");
            } else if face == 6 {
                text.append("⚅");
            } else {
                text.append("🎲");
            }
        }
        proof {
            assert(self.dice@.take(n as int) == self.dice@);
        }
        text
    }

    /// The reroll flags for `count` dice of which a player names some by
    /// their positions, counted from 1. A position that names no die is
    /// passed over.
    pub fn reroll_flags(positions: &[usize], count: usize) -> (flags: Vec<bool>)
        ensures
            flags@ == flags_of_positions(positions@, count as nat),
    {
        let mut flags: Vec<bool> = Vec::new();
        for i in 0..count
            invariant
                flags@.len() == i,
                forall|k: int|
                    0 <= k < i ==> #[trigger] flags@[k] == flags_of_positions(
                        positions@,
                        count as nat,
                    )[k],
        {
            let mut named = false;
            for j in 0..positions.len()
                invariant
                    i < count,
                    named == exists|k: int| 0 <= k < j && positions@[k] == i + 1,
            {
                if positions[j] == i + 1 {
                    named = true;
                }
            }
            flags.push(named);
        }
        flags
    }

    /// One throw of one die.
    pub fn roll_die() -> (face: DieFace)
        ensures
            is_rolled_face(face),
    {
        gen_range(0, Self::NUMBER_OF_FACES) + 1
    }

    /// A hand that shows the given faces, with the first roll of the turn
    /// counted as made.
    pub fn roll_fake(dice: Vec<DieFace>) -> (hand: Dice)
        ensures
            hand.dice@ == dice@,
            hand.rolls_left == Self::ROLLS_PER_TURN - 1,
    {
        Dice { dice, rolls_left: Self::ROLLS_PER_TURN - 1 }
    }

    /// The hand before the first roll of a turn: no die shows a face yet and
    /// every roll of the turn is still to come.
    pub fn get_empty_hand() -> (hand: Dice)
        ensures
            hand.wf(),
            hand.dice@ == Seq::new(Self::NUMBER_OF_DICE as nat, |i: int| 0i8),
            hand.rolls_left == Self::ROLLS_PER_TURN,
    {
        let mut dice: Vec<DieFace> = Vec::with_capacity(Self::NUMBER_OF_DICE);
        for i in 0..Self::NUMBER_OF_DICE
            invariant
                dice@ == Seq::new(i as nat, |j: int| 0i8),
        {
            dice.push(0);
        }
        Dice { dice, rolls_left: Self::ROLLS_PER_TURN }
    }

    /// The first roll of a turn: five dice thrown, two rerolls left.
    pub fn first_roll() -> (hand: Dice)
        ensures
            hand.wf(),
            hand.all_rolled(),
            hand.rolls_left == Self::ROLLS_PER_TURN - 1,
    {
        let mut dice: Vec<DieFace> = Vec::new();
        for i in 0..Self::NUMBER_OF_DICE
            invariant
                dice@.len() == i,
                forall|j: int| 0 <= j < dice@.len() ==> is_rolled_face(#[trigger] dice@[j]),
        {
            dice.push(Self::roll_die());
        }
        Dice { dice, rolls_left: Self::ROLLS_PER_TURN - 1 }
    }

    /// The first roll of a turn, made as a reroll of every die of the empty
    /// hand.
    pub fn roll_all() -> (hand: Dice)
        ensures
            hand.wf(),
            hand.all_rolled(),
            hand.rolls_left == Self::ROLLS_PER_TURN - 1,
    {
        let hand = Self::get_empty_hand();
        let mut reroll_flags: Vec<bool> = Vec::new();
        for i in 0..Self::NUMBER_OF_DICE
            invariant
                reroll_flags@ == Seq::new(i as nat, |j: int| true),
        {
            reroll_flags.push(true);
        }
        Self::reroll_hand(hand, reroll_flags.as_slice())
    }

    /// The hand after a reroll whose throws are given: `rolled[i]` is what
    /// came up for die `i`, and is read only where `reroll[i]` is set. The
    /// reroll counts against the turn whatever the flags are.
    pub fn reroll_hand_with(hand: Dice, reroll: &[bool], rolled: &[DieFace]) -> (next: Dice)
        requires
            hand.wf(),
            hand.rolls_left > 0,
            reroll@.len() == hand.dice@.len(),
            rolled@.len() == hand.dice@.len(),
            forall|i: int| 0 <= i < rolled@.len() && reroll@[i] ==> is_rolled_face(#[trigger] rolled@[i]),
        ensures
            next.wf(),
            next.dice@ == rerolled_faces(hand.dice@, reroll@, rolled@),
            next.rolls_left == hand.rolls_left - 1,
    {
        let mut dice: Vec<DieFace> = Vec::new();
        let n = hand.dice.len();
        for i in 0..n
            invariant
                n == hand.dice@.len(),
                n == reroll@.len(),
                n == rolled@.len(),
                hand.wf(),
                forall|j: int| 0 <= j < n && reroll@[j] ==> is_rolled_face(#[trigger] rolled@[j]),
                dice@.len() == i,
                forall|j: int|
                    0 <= j < i ==> #[trigger] dice@[j] == rerolled_faces(
                        hand.dice@,
                        reroll@,
                        rolled@,
                    )[j],
        {
            let face = if reroll[i] {
                rolled[i]
            } else {
                hand.dice[i]
            };
            dice.push(face);
        }
        Dice { dice, rolls_left: hand.rolls_left - 1 }
    }

    /// One reroll: every flagged die is thrown again, the others stay as
    /// they are, and the turn has one reroll less.
    pub fn reroll_hand(hand: Dice, reroll: &[bool]) -> (next: Dice)
        requires
            hand.wf(),
            hand.rolls_left > 0,
            reroll@.len() == hand.dice@.len(),
        ensures
            next.wf(),
            next.dice@.len() == hand.dice@.len(),
            forall|i: int|
                0 <= i < next.dice@.len() ==> if reroll@[i] {
                    is_rolled_face(#[trigger] next.dice@[i])
                } else {
                    next.dice@[i] == hand.dice@[i]
                },
            next.rolls_left == hand.rolls_left - 1,
    {
        let mut rolled: Vec<DieFace> = Vec::new();
        let n = hand.dice.len();
        for i in 0..n
            invariant
                n == reroll@.len(),
                rolled@.len() == i,
                forall|j: int| 0 <= j < i && reroll@[j] ==> is_rolled_face(#[trigger] rolled@[j]),
        {
            let face = if reroll[i] {
                Self::roll_die()
            } else {
                0
            };
            rolled.push(face);
        }
        Self::reroll_hand_with(hand, reroll, rolled.as_slice())
    }
}

/// Draws a number with `rand::Rng::gen_range` from the generator that
/// `rand::thread_rng` keeps for the calling thread. Taken on trust from the
/// documentation of `gen_range`, not proved: the number lies from `low` up
/// to, not including, `high`, and the call panics unless `low < high`. Which
/// number comes is left open.
#[verifier::external_body]
fn gen_range(low: i8, high: i8) -> (n: i8)
    requires
        low < high,
    ensures
        low <= n < high,
{
    rand::thread_rng().gen_range(low, high)
}

} // verus!
