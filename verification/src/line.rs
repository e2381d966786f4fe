//! The lines of a score card: which ones a hand can be played on, and which
//! ones the card works out from the others.

use vstd::prelude::*;

verus! {

/// Why a score was not recorded.
#[derive(Copy, Clone, PartialEq, Eq, Debug, Structural)]
pub enum SetError {
    /// The line already holds a score.
    AlreadySet,
    /// The line is not one that a score can be recorded on.
    NotFound,
}

/// A line of the score card, in the order of the card.
#[derive(Copy, Clone, PartialEq, Eq, Debug, Hash, Structural)]
pub enum LineId {
    Ace,
    Two,
    Three,
    Four,
    Five,
    Six,
    UpperSubtotal,
    UpperBonus,
    UpperTotal,
    ThreeKind,
    FourKind,
    SmallStraight,
    LargeStraight,
    FullHouse,
    Chance,
    Dice5,
    BottomSubtotal,
    Dice5Bonus,
    GrandTotal,
}

/// How many lines the card has.
pub const NUMBER_OF_LINES: usize = 19;

/// How many of them a hand can be played on.
pub const NUMBER_OF_SCOREABLE_LINES: usize = 13;

impl LineId {
    /// Whether a hand can be played on this line. The other lines are worked
    /// out from the scores on these.
    pub open spec fn is_scoreable(self) -> bool {
        match self {
            LineId::UpperSubtotal
            | LineId::UpperBonus
            | LineId::UpperTotal
            | LineId::BottomSubtotal
            | LineId::Dice5Bonus
            | LineId::GrandTotal => false,
            _ => true,
        }
    }

    /// The place of the line on the card, counted from 0.
    #[verifier::opaque]
    pub open spec fn slot(self) -> int {
        match self {
            LineId::Ace => 0,
            LineId::Two => 1,
            LineId::Three => 2,
            LineId::Four => 3,
            LineId::Five => 4,
            LineId::Six => 5,
            LineId::UpperSubtotal => 6,
            LineId::UpperBonus => 7,
            LineId::UpperTotal => 8,
            LineId::ThreeKind => 9,
            LineId::FourKind => 10,
            LineId::SmallStraight => 11,
            LineId::LargeStraight => 12,
            LineId::FullHouse => 13,
            LineId::Chance => 14,
            LineId::Dice5 => 15,
            LineId::BottomSubtotal => 16,
            LineId::Dice5Bonus => 17,
            LineId::GrandTotal => 18,
        }
    }

    /// The line at a place of the card; past the last place, the last line.
    #[verifier::opaque]
    pub open spec fn at(slot: int) -> LineId {
        if slot == 0 {
            LineId::Ace
        } else if slot == 1 {
            LineId::Two
        } else if slot == 2 {
            LineId::Three
        } else if slot == 3 {
            LineId::Four
        } else if slot == 4 {
            LineId::Five
        } else if slot == 5 {
            LineId::Six
        } else if slot == 6 {
            LineId::UpperSubtotal
        } else if slot == 7 {
            LineId::UpperBonus
        } else if slot == 8 {
            LineId::UpperTotal
        } else if slot == 9 {
            LineId::ThreeKind
        } else if slot == 10 {
            LineId::FourKind
        } else if slot == 11 {
            LineId::SmallStraight
        } else if slot == 12 {
            LineId::LargeStraight
        } else if slot == 13 {
            LineId::FullHouse
        } else if slot == 14 {
            LineId::Chance
        } else if slot == 15 {
            LineId::Dice5
        } else if slot == 16 {
            LineId::BottomSubtotal
        } else if slot == 17 {
            LineId::Dice5Bonus
        } else {
            LineId::GrandTotal
        }
    }

    /// Tells the lines that take a hand from those that are worked out.
    pub fn takes_score(self) -> (scoreable: bool)
        ensures
            scoreable == self.is_scoreable(),
    {
        match self {
            LineId::UpperSubtotal
            | LineId::UpperBonus
            | LineId::UpperTotal
            | LineId::BottomSubtotal
            | LineId::Dice5Bonus
            | LineId::GrandTotal => false,
            _ => true,
        }
    }

    /// The place of the line on the card.
    pub fn index(self) -> (slot: usize)
        ensures
            slot == self.slot(),
            slot < NUMBER_OF_LINES,
    {
        reveal(LineId::slot);
        match self {
            LineId::Ace => 0,
            LineId::Two => 1,
            LineId::Three => 2,
            LineId::Four => 3,
            LineId::Five => 4,
            LineId::Six => 5,
            LineId::UpperSubtotal => 6,
            LineId::UpperBonus => 7,
            LineId::UpperTotal => 8,
            LineId::ThreeKind => 9,
            LineId::FourKind => 10,
            LineId::SmallStraight => 11,
            LineId::LargeStraight => 12,
            LineId::FullHouse => 13,
            LineId::Chance => 14,
            LineId::Dice5 => 15,
            LineId::BottomSubtotal => 16,
            LineId::Dice5Bonus => 17,
            LineId::GrandTotal => 18,
        }
    }
}

/// Every line has a place of its own on the card, and every place holds a
/// line.
pub proof fn lemma_slots_number_the_lines()
    ensures
        forall|id: LineId| 0 <= #[trigger] id.slot() < NUMBER_OF_LINES && LineId::at(id.slot()) == id,
        forall|slot: int| 0 <= slot < NUMBER_OF_LINES ==> (#[trigger] LineId::at(slot)).slot() == slot,
{
    reveal(LineId::slot);
    reveal(LineId::at);
}

} // verus!
